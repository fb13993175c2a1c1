//! The byte format in which events reach a reader: one record of
//! `RECORD_SIZE` bytes per event, laid out as the C representation of
//! `ItemInfo` on a 64-bit target (a 4-byte tag, padding to 8, then the fields
//! of the variant at their natural alignment), all integers little-endian and
//! every padding byte zero.

use vstd::prelude::*;
use vstd::bytes::{
    spec_u32_from_le_bytes, spec_u32_to_le_bytes, spec_u64_from_le_bytes, spec_u64_to_le_bytes,
    u32_from_le_bytes, u32_to_le_bytes, u64_from_le_bytes, u64_to_le_bytes,
};
use vstd::slice::slice_subrange;
use crate::item::{ItemInfo, StringBuff, BUFF_SIZE};

verus! {

broadcast use StringBuff::lemma_len;

/// Size in bytes of one event record.
pub const RECORD_SIZE: usize = 96;

pub const TAG_PROCESS_CREATE: u32 = 0;
pub const TAG_PROCESS_EXIT: u32 = 1;
pub const TAG_THREAD_CREATE: u32 = 2;
pub const TAG_THREAD_EXIT: u32 = 3;
pub const TAG_IMAGE_LOAD: u32 = 4;
pub const TAG_REGISTRY_SET_VALUE: u32 = 5;

pub open spec fn zeros(n: nat) -> Seq<u8> {
    Seq::new(n, |i: int| 0u8)
}

/// The two's-complement bit pattern of a signed machine word, as a `u64`.
pub open spec fn isize_bits(x: isize) -> u64 {
    if x >= 0 {
        x as u64
    } else {
        (x + 0x1_0000_0000_0000_0000int) as u64
    }
}

/// The signed value that a 64-bit two's-complement pattern stands for.
pub open spec fn signed_of_bits(v: u64) -> int {
    if v <= 0x7fff_ffff_ffff_ffffu64 {
        v as int
    } else {
        v - 0x1_0000_0000_0000_0000int
    }
}

/// The record of one event.
pub open spec fn record_bytes(item: ItemInfo) -> Seq<u8> {
    match item {
        ItemInfo::ProcessCreate { pid, parent_pid, command_line } => spec_u32_to_le_bytes(
            TAG_PROCESS_CREATE,
        ) + zeros(4) + spec_u32_to_le_bytes(pid) + spec_u32_to_le_bytes(parent_pid)
            + command_line@ + zeros(16),
        ItemInfo::ProcessExit { pid } => spec_u32_to_le_bytes(TAG_PROCESS_EXIT) + zeros(4)
            + spec_u32_to_le_bytes(pid) + zeros(84),
        ItemInfo::ThreadCreate { pid, tid } => spec_u32_to_le_bytes(TAG_THREAD_CREATE) + zeros(4)
            + spec_u32_to_le_bytes(pid) + spec_u32_to_le_bytes(tid) + zeros(80),
        ItemInfo::ThreadExit { pid, tid } => spec_u32_to_le_bytes(TAG_THREAD_EXIT) + zeros(4)
            + spec_u32_to_le_bytes(pid) + spec_u32_to_le_bytes(tid) + zeros(80),
        ItemInfo::ImageLoad { pid, load_address, image_size, image_file_name } =>
            spec_u32_to_le_bytes(TAG_IMAGE_LOAD) + zeros(4) + spec_u32_to_le_bytes(pid) + zeros(4)
            + spec_u64_to_le_bytes(isize_bits(load_address)) + spec_u64_to_le_bytes(
            image_size as u64,
        ) + image_file_name@,
        ItemInfo::RegistrySetValue { pid, tid, key_name, data_type } => spec_u32_to_le_bytes(
            TAG_REGISTRY_SET_VALUE,
        ) + zeros(4) + spec_u32_to_le_bytes(pid) + spec_u32_to_le_bytes(tid) + key_name@
            + spec_u32_to_le_bytes(data_type) + zeros(12),
    }
}

/// The records of a sequence of events, one after another.
pub open spec fn records_bytes(items: Seq<ItemInfo>) -> Seq<u8>
    decreases items.len(),
{
    if items.len() == 0 {
        Seq::empty()
    } else {
        records_bytes(items.drop_last()) + record_bytes(items.last())
    }
}

pub open spec fn field_u32(b: Seq<u8>, off: int) -> u32 {
    spec_u32_from_le_bytes(b.subrange(off, off + 4))
}

pub open spec fn field_u64(b: Seq<u8>, off: int) -> u64 {
    spec_u64_from_le_bytes(b.subrange(off, off + 8))
}

pub open spec fn field_text(b: Seq<u8>, off: int) -> Seq<u8> {
    b.subrange(off, off + BUFF_SIZE)
}

/// A record that a reader can turn back into an event: the right length, a
/// known tag, and for an image load, fields that fit the machine's words.
pub open spec fn record_is_valid(b: Seq<u8>) -> bool {
    &&& b.len() == RECORD_SIZE
    &&& field_u32(b, 0) <= TAG_REGISTRY_SET_VALUE
    &&& field_u32(b, 0) == TAG_IMAGE_LOAD ==> {
        &&& isize::MIN <= signed_of_bits(field_u64(b, 16)) <= isize::MAX
        &&& field_u64(b, 24) <= usize::MAX
    }
}

/// The record `b` stands for the event `item`: the tag names its variant and
/// each field sits at its offset. Padding bytes are not read.
pub open spec fn record_decodes_to(b: Seq<u8>, item: ItemInfo) -> bool {
    &&& b.len() == RECORD_SIZE
    &&& match item {
        ItemInfo::ProcessCreate { pid, parent_pid, command_line } => {
            &&& field_u32(b, 0) == TAG_PROCESS_CREATE
            &&& field_u32(b, 8) == pid
            &&& field_u32(b, 12) == parent_pid
            &&& field_text(b, 16) == command_line@
        },
        ItemInfo::ProcessExit { pid } => {
            &&& field_u32(b, 0) == TAG_PROCESS_EXIT
            &&& field_u32(b, 8) == pid
        },
        ItemInfo::ThreadCreate { pid, tid } => {
            &&& field_u32(b, 0) == TAG_THREAD_CREATE
            &&& field_u32(b, 8) == pid
            &&& field_u32(b, 12) == tid
        },
        ItemInfo::ThreadExit { pid, tid } => {
            &&& field_u32(b, 0) == TAG_THREAD_EXIT
            &&& field_u32(b, 8) == pid
            &&& field_u32(b, 12) == tid
        },
        ItemInfo::ImageLoad { pid, load_address, image_size, image_file_name } => {
            &&& field_u32(b, 0) == TAG_IMAGE_LOAD
            &&& field_u32(b, 8) == pid
            &&& signed_of_bits(field_u64(b, 16)) == load_address
            &&& field_u64(b, 24) == image_size
            &&& field_text(b, 32) == image_file_name@
        },
        ItemInfo::RegistrySetValue { pid, tid, key_name, data_type } => {
            &&& field_u32(b, 0) == TAG_REGISTRY_SET_VALUE
            &&& field_u32(b, 8) == pid
            &&& field_u32(b, 12) == tid
            &&& field_text(b, 16) == key_name@
            &&& field_u32(b, 80) == data_type
        },
    }
}

fn push_u32(v: &mut Vec<u8>, x: u32)
    ensures
        final(v)@ == old(v)@ + spec_u32_to_le_bytes(x),
{
    let mut b = u32_to_le_bytes(x);
    v.append(&mut b);
}

fn push_u64(v: &mut Vec<u8>, x: u64)
    ensures
        final(v)@ == old(v)@ + spec_u64_to_le_bytes(x),
{
    let mut b = u64_to_le_bytes(x);
    v.append(&mut b);
}

fn push_zeros(v: &mut Vec<u8>, n: usize)
    ensures
        final(v)@ == old(v)@ + zeros(n as nat),
{
    let ghost start = v@;
    let mut i: usize = 0;
    while i < n
        invariant
            i <= n,
            v@ =~= start + zeros(i as nat),
        decreases n - i,
    {
        v.push(0u8);
        i = i + 1;
    }
}

fn push_text(v: &mut Vec<u8>, t: &StringBuff)
    ensures
        final(v)@ == old(v)@ + t@,
{
    let arr = t.to_array();
    let ghost start = v@;
    let mut i: usize = 0;
    while i < BUFF_SIZE
        invariant
            i <= BUFF_SIZE,
            arr@ == t@,
            arr@.len() == BUFF_SIZE,
            v@ =~= start + t@.subrange(0, i as int),
        decreases BUFF_SIZE - i,
    {
        v.push(arr[i]);
        i = i + 1;
    }
}

fn bits_of_isize(x: isize) -> (r: u64)
    ensures
        r == isize_bits(x),
{
    if x >= 0 {
        x as u64
    } else {
        u64::MAX - ((-(x + 1)) as u64)
    }
}

/// Writes the record of `item` at the end of `out`.
pub fn append_record(out: &mut Vec<u8>, item: &ItemInfo)
    ensures
        final(out)@ == old(out)@ + record_bytes(*item),
{
    let ghost start = out@;
    match item {
        ItemInfo::ProcessCreate { pid, parent_pid, command_line } => {
            push_u32(out, TAG_PROCESS_CREATE);
            push_zeros(out, 4);
            push_u32(out, *pid);
            push_u32(out, *parent_pid);
            push_text(out, command_line);
            push_zeros(out, 16);
        },
        ItemInfo::ProcessExit { pid } => {
            push_u32(out, TAG_PROCESS_EXIT);
            push_zeros(out, 4);
            push_u32(out, *pid);
            push_zeros(out, 84);
        },
        ItemInfo::ThreadCreate { pid, tid } => {
            push_u32(out, TAG_THREAD_CREATE);
            push_zeros(out, 4);
            push_u32(out, *pid);
            push_u32(out, *tid);
            push_zeros(out, 80);
        },
        ItemInfo::ThreadExit { pid, tid } => {
            push_u32(out, TAG_THREAD_EXIT);
            push_zeros(out, 4);
            push_u32(out, *pid);
            push_u32(out, *tid);
            push_zeros(out, 80);
        },
        ItemInfo::ImageLoad { pid, load_address, image_size, image_file_name } => {
            push_u32(out, TAG_IMAGE_LOAD);
            push_zeros(out, 4);
            push_u32(out, *pid);
            push_zeros(out, 4);
            push_u64(out, bits_of_isize(*load_address));
            push_u64(out, *image_size as u64);
            push_text(out, image_file_name);
        },
        ItemInfo::RegistrySetValue { pid, tid, key_name, data_type } => {
            push_u32(out, TAG_REGISTRY_SET_VALUE);
            push_zeros(out, 4);
            push_u32(out, *pid);
            push_u32(out, *tid);
            push_text(out, key_name);
            push_u32(out, *data_type);
            push_zeros(out, 12);
        },
    }
    assert(out@ =~= start + record_bytes(*item));
}

/// The record of one event.
pub fn encode_record(item: &ItemInfo) -> (r: Vec<u8>)
    ensures
        r@ == record_bytes(*item),
{
    let mut out: Vec<u8> = Vec::new();
    append_record(&mut out, item);
    assert(out@ =~= record_bytes(*item));
    out
}

} // verus!

verus! {

/// The `k`-th record of a byte stream.
pub open spec fn record_at(b: Seq<u8>, k: int) -> Seq<u8> {
    b.subrange(k * RECORD_SIZE, k * RECORD_SIZE + RECORD_SIZE)
}

/// The first `size` bytes of `b` are a whole number of records, each valid.
pub open spec fn records_are_valid(b: Seq<u8>, size: int) -> bool {
    &&& 0 <= size <= b.len()
    &&& size % RECORD_SIZE as int == 0
    &&& forall|k: int| 0 <= k < size / RECORD_SIZE as int ==> record_is_valid(#[trigger] record_at(b, k))
}

/// `b` is the records of `items`, one after another.
pub open spec fn records_decode_to(b: Seq<u8>, items: Seq<ItemInfo>) -> bool {
    &&& b.len() == items.len() * RECORD_SIZE
    &&& forall|k: int| 0 <= k < items.len() ==> record_decodes_to(#[trigger] record_at(b, k), items[k])
}

proof fn lemma_signed_bits(x: isize)
    ensures
        signed_of_bits(isize_bits(x)) == x,
{
}

/// The record of an event is valid and decodes to that event.
pub proof fn lemma_record_decodes(x: ItemInfo)
    ensures
        record_bytes(x).len() == RECORD_SIZE,
        record_is_valid(record_bytes(x)),
        record_decodes_to(record_bytes(x), x),
{
    vstd::bytes::lemma_auto_spec_u32_to_from_le_bytes();
    vstd::bytes::lemma_auto_spec_u64_to_from_le_bytes();
    let b = record_bytes(x);
    match x {
        ItemInfo::ProcessCreate { pid, parent_pid, command_line } => {
            assert(b.subrange(0, 4) =~= spec_u32_to_le_bytes(TAG_PROCESS_CREATE));
            assert(b.subrange(8, 12) =~= spec_u32_to_le_bytes(pid));
            assert(b.subrange(12, 16) =~= spec_u32_to_le_bytes(parent_pid));
            assert(b.subrange(16, 80) =~= command_line@);
        },
        ItemInfo::ProcessExit { pid } => {
            assert(b.subrange(0, 4) =~= spec_u32_to_le_bytes(TAG_PROCESS_EXIT));
            assert(b.subrange(8, 12) =~= spec_u32_to_le_bytes(pid));
        },
        ItemInfo::ThreadCreate { pid, tid } => {
            assert(b.subrange(0, 4) =~= spec_u32_to_le_bytes(TAG_THREAD_CREATE));
            assert(b.subrange(8, 12) =~= spec_u32_to_le_bytes(pid));
            assert(b.subrange(12, 16) =~= spec_u32_to_le_bytes(tid));
        },
        ItemInfo::ThreadExit { pid, tid } => {
            assert(b.subrange(0, 4) =~= spec_u32_to_le_bytes(TAG_THREAD_EXIT));
            assert(b.subrange(8, 12) =~= spec_u32_to_le_bytes(pid));
            assert(b.subrange(12, 16) =~= spec_u32_to_le_bytes(tid));
        },
        ItemInfo::ImageLoad { pid, load_address, image_size, image_file_name } => {
            assert(b.subrange(0, 4) =~= spec_u32_to_le_bytes(TAG_IMAGE_LOAD));
            assert(b.subrange(8, 12) =~= spec_u32_to_le_bytes(pid));
            assert(b.subrange(16, 24) =~= spec_u64_to_le_bytes(isize_bits(load_address)));
            assert(b.subrange(24, 32) =~= spec_u64_to_le_bytes(image_size as u64));
            assert(b.subrange(32, 96) =~= image_file_name@);
            lemma_signed_bits(load_address);
        },
        ItemInfo::RegistrySetValue { pid, tid, key_name, data_type } => {
            assert(b.subrange(0, 4) =~= spec_u32_to_le_bytes(TAG_REGISTRY_SET_VALUE));
            assert(b.subrange(8, 12) =~= spec_u32_to_le_bytes(pid));
            assert(b.subrange(12, 16) =~= spec_u32_to_le_bytes(tid));
            assert(b.subrange(16, 80) =~= key_name@);
            assert(b.subrange(80, 84) =~= spec_u32_to_le_bytes(data_type));
        },
    }
}

/// A record stands for at most one event.
pub proof fn lemma_record_decodes_uniquely(b: Seq<u8>, x: ItemInfo, y: ItemInfo)
    requires
        record_decodes_to(b, x),
        record_decodes_to(b, y),
    ensures
        x == y,
{
    match x {
        ItemInfo::ProcessCreate { command_line: t1, .. } => {
            if let ItemInfo::ProcessCreate { command_line: t2, .. } = y {
                StringBuff::lemma_view_injective(t1, t2);
            }
        },
        ItemInfo::ImageLoad { image_file_name: t1, .. } => {
            if let ItemInfo::ImageLoad { image_file_name: t2, .. } = y {
                StringBuff::lemma_view_injective(t1, t2);
            }
        },
        ItemInfo::RegistrySetValue { key_name: t1, .. } => {
            if let ItemInfo::RegistrySetValue { key_name: t2, .. } = y {
                StringBuff::lemma_view_injective(t1, t2);
            }
        },
        _ => {},
    }
}

proof fn lemma_records_layout(items: Seq<ItemInfo>)
    ensures
        records_bytes(items).len() == items.len() * RECORD_SIZE,
        forall|k: int|
            0 <= k < items.len() ==> #[trigger] record_at(records_bytes(items), k) == record_bytes(
                items[k],
            ),
    decreases items.len(),
{
    if items.len() > 0 {
        let init = items.drop_last();
        lemma_records_layout(init);
        lemma_record_decodes(items.last());
        let b = records_bytes(items);
        assert forall|k: int| 0 <= k < items.len() implies #[trigger] record_at(b, k)
            == record_bytes(items[k]) by {
            if k < init.len() {
                assert(record_at(b, k) =~= record_at(records_bytes(init), k));
            } else {
                assert(record_at(b, k) =~= record_bytes(items.last()));
            }
        }
    }
}

/// Law: the records of any sequence of events are valid, and a reader decodes
/// them to exactly that sequence.
pub proof fn law_records_decode_to_their_events(items: Seq<ItemInfo>)
    ensures
        records_are_valid(records_bytes(items), records_bytes(items).len() as int),
        records_decode_to(records_bytes(items), items),
{
    lemma_records_layout(items);
    let b = records_bytes(items);
    assert forall|k: int| 0 <= k < items.len() implies record_decodes_to(
        #[trigger] record_at(b, k),
        items[k],
    ) by {
        lemma_record_decodes(items[k]);
    }
    assert((b.len() as int) / (RECORD_SIZE as int) == items.len()) by (nonlinear_arith)
        requires b.len() == items.len() * RECORD_SIZE;
    assert((b.len() as int) % (RECORD_SIZE as int) == 0) by (nonlinear_arith)
        requires b.len() == items.len() * RECORD_SIZE;
    assert forall|k: int| 0 <= k < (b.len() as int) / (RECORD_SIZE as int) implies record_is_valid(
        #[trigger] record_at(b, k),
    ) by {
        lemma_record_decodes(items[k]);
    }
}

/// Law: a byte stream decodes to at most one sequence of events.
pub proof fn law_records_decode_uniquely(b: Seq<u8>, xs: Seq<ItemInfo>, ys: Seq<ItemInfo>)
    requires
        records_decode_to(b, xs),
        records_decode_to(b, ys),
    ensures
        xs == ys,
{
    assert(xs.len() == ys.len()) by (nonlinear_arith)
        requires b.len() == xs.len() * RECORD_SIZE, b.len() == ys.len() * RECORD_SIZE;
    assert forall|k: int| 0 <= k < xs.len() implies xs[k] == ys[k] by {
        lemma_record_decodes_uniquely(record_at(b, k), xs[k], ys[k]);
    }
    assert(xs =~= ys);
}

fn read_u32(b: &[u8], off: usize) -> (r: u32)
    requires
        off + 4 <= b.len(),
    ensures
        r == field_u32(b@, off as int),
{
    u32_from_le_bytes(slice_subrange(b, off, off + 4))
}

fn read_u64(b: &[u8], off: usize) -> (r: u64)
    requires
        off + 8 <= b.len(),
    ensures
        r == field_u64(b@, off as int),
{
    u64_from_le_bytes(slice_subrange(b, off, off + 8))
}

fn read_text(b: &[u8], off: usize) -> (t: StringBuff)
    requires
        off + BUFF_SIZE <= b.len(),
    ensures
        t@ == field_text(b@, off as int),
{
    let mut arr: [u8; BUFF_SIZE] = [0u8; BUFF_SIZE];
    let mut i: usize = 0;
    while i < BUFF_SIZE
        invariant
            off + BUFF_SIZE <= b.len(),
            i <= BUFF_SIZE,
            arr@.len() == BUFF_SIZE,
            forall|j: int| 0 <= j < i ==> arr@[j] == b@[off + j],
        decreases BUFF_SIZE - i,
    {
        arr[i] = b[off + i];
        i = i + 1;
    }
    let t = StringBuff::from_array(arr);
    assert(t@ =~= field_text(b@, off as int));
    t
}

fn isize_of_bits(v: u64) -> (r: Option<isize>)
    ensures
        r is Some <==> isize::MIN <= signed_of_bits(v) <= isize::MAX,
        r matches Some(x) ==> x == signed_of_bits(v),
{
    if v <= isize::MAX as u64 {
        Some(v as isize)
    } else if u64::MAX - v <= isize::MAX as u64 {
        Some(-((u64::MAX - v) as isize) - 1)
    } else {
        None
    }
}

/// Turns one record back into its event; `None` where the record is not
/// valid.
pub fn decode_record(b: &[u8]) -> (r: Option<ItemInfo>)
    ensures
        r is Some <==> record_is_valid(b@),
        r matches Some(item) ==> record_decodes_to(b@, item),
{
    if b.len() != RECORD_SIZE {
        return None;
    }
    let tag = read_u32(b, 0);
    if tag == TAG_PROCESS_CREATE {
        Some(ItemInfo::ProcessCreate {
            pid: read_u32(b, 8),
            parent_pid: read_u32(b, 12),
            command_line: read_text(b, 16),
        })
    } else if tag == TAG_PROCESS_EXIT {
        Some(ItemInfo::ProcessExit { pid: read_u32(b, 8) })
    } else if tag == TAG_THREAD_CREATE {
        Some(ItemInfo::ThreadCreate { pid: read_u32(b, 8), tid: read_u32(b, 12) })
    } else if tag == TAG_THREAD_EXIT {
        Some(ItemInfo::ThreadExit { pid: read_u32(b, 8), tid: read_u32(b, 12) })
    } else if tag == TAG_IMAGE_LOAD {
        let load_address = match isize_of_bits(read_u64(b, 16)) {
            Some(a) => a,
            None => return None,
        };
        let size = read_u64(b, 24);
        if size > usize::MAX as u64 {
            return None;
        }
        Some(ItemInfo::ImageLoad {
            pid: read_u32(b, 8),
            load_address,
            image_size: size as usize,
            image_file_name: read_text(b, 32),
        })
    } else if tag == TAG_REGISTRY_SET_VALUE {
        Some(ItemInfo::RegistrySetValue {
            pid: read_u32(b, 8),
            tid: read_u32(b, 12),
            key_name: read_text(b, 16),
            data_type: read_u32(b, 80),
        })
    } else {
        None
    }
}

/// Turns the first `size` bytes of `buffer` back into the events whose
/// records they hold; `None` where `size` exceeds the buffer, is not a whole
/// number of records, or one of the records is not valid.
pub fn decode_records(buffer: &[u8], size: usize) -> (r: Option<Vec<ItemInfo>>)
    ensures
        r is Some <==> records_are_valid(buffer@, size as int),
        r matches Some(items) ==> records_decode_to(buffer@.subrange(0, size as int), items@),
{
    if size > buffer.len() || size % RECORD_SIZE != 0 {
        return None;
    }
    let count = size / RECORD_SIZE;
    let ghost prefix = buffer@.subrange(0, size as int);
    let mut items: Vec<ItemInfo> = Vec::new();
    let mut k: usize = 0;
    while k < count
        invariant
            size <= buffer@.len(),
            size % RECORD_SIZE == 0,
            count == size / RECORD_SIZE,
            prefix == buffer@.subrange(0, size as int),
            k <= count,
            items@.len() == k,
            forall|j: int| 0 <= j < k ==> record_is_valid(#[trigger] record_at(buffer@, j)),
            forall|j: int| 0 <= j < k ==> record_decodes_to(#[trigger] record_at(prefix, j), items@[j]),
        decreases count - k,
    {
        assert(k * RECORD_SIZE + RECORD_SIZE <= size) by (nonlinear_arith)
            requires k < count, count == size / RECORD_SIZE, size % RECORD_SIZE == 0;
        let start = k * RECORD_SIZE;
        let rec = slice_subrange(buffer, start, start + RECORD_SIZE);
        assert(rec@ == record_at(buffer@, k as int));
        assert(record_at(prefix, k as int) =~= record_at(buffer@, k as int));
        match decode_record(rec) {
            Some(item) => {
                items.push(item);
            },
            None => {
                return None;
            },
        }
        k = k + 1;
    }
    assert(prefix.len() == items@.len() * RECORD_SIZE) by (nonlinear_arith)
        requires prefix.len() == size, count == size / RECORD_SIZE, size % RECORD_SIZE == 0, items@.len() == count;
    Some(items)
}

} // verus!

verus! {

/// Law: the C layout of every record. Each record is 96 bytes; its first 4
/// bytes are the little-endian C discriminant of the event's variant
/// (ProcessCreate 0, ProcessExit 1, ThreadCreate 2, ThreadExit 3, ImageLoad 4,
/// RegistrySetValue 5) and the next 4 are padding; the process id follows at
/// offset 8 and the other fields at their natural offsets.
pub proof fn law_record_layout(x: ItemInfo)
    ensures
        record_bytes(x).len() == 96,
        record_bytes(x).subrange(4, 8) == seq![0u8, 0u8, 0u8, 0u8],
        match x {
            ItemInfo::ProcessCreate { pid, parent_pid, command_line } => {
                &&& record_bytes(x).subrange(0, 4) == spec_u32_to_le_bytes(0)
                &&& record_bytes(x).subrange(8, 12) == spec_u32_to_le_bytes(pid)
                &&& record_bytes(x).subrange(12, 16) == spec_u32_to_le_bytes(parent_pid)
                &&& record_bytes(x).subrange(16, 80) == command_line@
            },
            ItemInfo::ProcessExit { pid } => {
                &&& record_bytes(x).subrange(0, 4) == spec_u32_to_le_bytes(1)
                &&& record_bytes(x).subrange(8, 12) == spec_u32_to_le_bytes(pid)
            },
            ItemInfo::ThreadCreate { pid, tid } => {
                &&& record_bytes(x).subrange(0, 4) == spec_u32_to_le_bytes(2)
                &&& record_bytes(x).subrange(8, 12) == spec_u32_to_le_bytes(pid)
                &&& record_bytes(x).subrange(12, 16) == spec_u32_to_le_bytes(tid)
            },
            ItemInfo::ThreadExit { pid, tid } => {
                &&& record_bytes(x).subrange(0, 4) == spec_u32_to_le_bytes(3)
                &&& record_bytes(x).subrange(8, 12) == spec_u32_to_le_bytes(pid)
                &&& record_bytes(x).subrange(12, 16) == spec_u32_to_le_bytes(tid)
            },
            ItemInfo::ImageLoad { pid, load_address, image_size, image_file_name } => {
                &&& record_bytes(x).subrange(0, 4) == spec_u32_to_le_bytes(4)
                &&& record_bytes(x).subrange(8, 12) == spec_u32_to_le_bytes(pid)
                &&& record_bytes(x).subrange(16, 24) == spec_u64_to_le_bytes(isize_bits(load_address))
                &&& record_bytes(x).subrange(24, 32) == spec_u64_to_le_bytes(image_size as u64)
                &&& record_bytes(x).subrange(32, 96) == image_file_name@
            },
            ItemInfo::RegistrySetValue { pid, tid, key_name, data_type } => {
                &&& record_bytes(x).subrange(0, 4) == spec_u32_to_le_bytes(5)
                &&& record_bytes(x).subrange(8, 12) == spec_u32_to_le_bytes(pid)
                &&& record_bytes(x).subrange(12, 16) == spec_u32_to_le_bytes(tid)
                &&& record_bytes(x).subrange(16, 80) == key_name@
                &&& record_bytes(x).subrange(80, 84) == spec_u32_to_le_bytes(data_type)
            },
        },
{
    vstd::bytes::lemma_auto_spec_u32_to_from_le_bytes();
    vstd::bytes::lemma_auto_spec_u64_to_from_le_bytes();
    let b = record_bytes(x);
    assert(b.subrange(4, 8) =~= seq![0u8, 0u8, 0u8, 0u8]);
    match x {
        ItemInfo::ProcessCreate { pid, parent_pid, command_line } => {
            assert(b.subrange(0, 4) =~= spec_u32_to_le_bytes(0));
            assert(b.subrange(8, 12) =~= spec_u32_to_le_bytes(pid));
            assert(b.subrange(12, 16) =~= spec_u32_to_le_bytes(parent_pid));
            assert(b.subrange(16, 80) =~= command_line@);
        },
        ItemInfo::ProcessExit { pid } => {
            assert(b.subrange(0, 4) =~= spec_u32_to_le_bytes(1));
            assert(b.subrange(8, 12) =~= spec_u32_to_le_bytes(pid));
        },
        ItemInfo::ThreadCreate { pid, tid } => {
            assert(b.subrange(0, 4) =~= spec_u32_to_le_bytes(2));
            assert(b.subrange(8, 12) =~= spec_u32_to_le_bytes(pid));
            assert(b.subrange(12, 16) =~= spec_u32_to_le_bytes(tid));
        },
        ItemInfo::ThreadExit { pid, tid } => {
            assert(b.subrange(0, 4) =~= spec_u32_to_le_bytes(3));
            assert(b.subrange(8, 12) =~= spec_u32_to_le_bytes(pid));
            assert(b.subrange(12, 16) =~= spec_u32_to_le_bytes(tid));
        },
        ItemInfo::ImageLoad { pid, load_address, image_size, image_file_name } => {
            assert(b.subrange(0, 4) =~= spec_u32_to_le_bytes(4));
            assert(b.subrange(8, 12) =~= spec_u32_to_le_bytes(pid));
            assert(b.subrange(16, 24) =~= spec_u64_to_le_bytes(isize_bits(load_address)));
            assert(b.subrange(24, 32) =~= spec_u64_to_le_bytes(image_size as u64));
            assert(b.subrange(32, 96) =~= image_file_name@);
        },
        ItemInfo::RegistrySetValue { pid, tid, key_name, data_type } => {
            assert(b.subrange(0, 4) =~= spec_u32_to_le_bytes(5));
            assert(b.subrange(8, 12) =~= spec_u32_to_le_bytes(pid));
            assert(b.subrange(12, 16) =~= spec_u32_to_le_bytes(tid));
            assert(b.subrange(16, 80) =~= key_name@);
            assert(b.subrange(80, 84) =~= spec_u32_to_le_bytes(data_type));
        },
    }
}

/// Law: a reader takes the variant of an event from the little-endian C
/// discriminant in the first 4 bytes of its record (0 ProcessCreate,
/// 1 ProcessExit, 2 ThreadCreate, 3 ThreadExit, 4 ImageLoad, 5
/// RegistrySetValue), and each field from its natural offset.
pub proof fn law_decoded_variant_follows_tag(b: Seq<u8>, x: ItemInfo)
    requires
        record_decodes_to(b, x),
    ensures
        b.len() == 96,
        ({
            let tag = spec_u32_from_le_bytes(b.subrange(0, 4));
            let w8 = spec_u32_from_le_bytes(b.subrange(8, 12));
            let w12 = spec_u32_from_le_bytes(b.subrange(12, 16));
            match x {
                ItemInfo::ProcessCreate { pid, parent_pid, command_line } => tag == 0 && pid == w8
                    && parent_pid == w12 && command_line@ == b.subrange(16, 80),
                ItemInfo::ProcessExit { pid } => tag == 1 && pid == w8,
                ItemInfo::ThreadCreate { pid, tid } => tag == 2 && pid == w8 && tid == w12,
                ItemInfo::ThreadExit { pid, tid } => tag == 3 && pid == w8 && tid == w12,
                ItemInfo::ImageLoad { pid, load_address, image_size, image_file_name } => tag == 4
                    && pid == w8 && isize_bits(load_address) == spec_u64_from_le_bytes(b.subrange(16, 24))
                    && image_size == spec_u64_from_le_bytes(b.subrange(24, 32))
                    && image_file_name@ == b.subrange(32, 96),
                ItemInfo::RegistrySetValue { pid, tid, key_name, data_type } => tag == 5 && pid == w8
                    && tid == w12 && key_name@ == b.subrange(16, 80)
                    && data_type == spec_u32_from_le_bytes(b.subrange(80, 84)),
            }
        }),
{
    if let ItemInfo::ImageLoad { load_address, .. } = x {
        let v = spec_u64_from_le_bytes(b.subrange(16, 24));
        assert(signed_of_bits(v) == load_address);
        if v > 0x7fff_ffff_ffff_ffffu64 {
            assert(load_address < 0);
        }
    }
}

/// Law: the bit pattern written for a signed machine word is the word itself
/// modulo 2^64 (two's complement), and reads back as that word.
pub proof fn law_signed_word_bits(x: isize)
    ensures
        (isize_bits(x) as int - x as int) % 0x1_0000_0000_0000_0000int == 0,
        signed_of_bits(isize_bits(x)) == x,
{
    lemma_signed_bits(x);
    if x < 0 {
        assert(isize_bits(x) as int - x as int == 0x1_0000_0000_0000_0000int);
    }
}

/// Law: the records of a sequence of events lie one after another, 96 bytes
/// each: the `k`-th 96 bytes are the record of the `k`-th event.
pub proof fn law_records_follow_one_another(items: Seq<ItemInfo>, k: int)
    requires
        0 <= k < items.len(),
    ensures
        records_bytes(items).len() == items.len() * 96,
        records_bytes(items).subrange(k * 96, k * 96 + 96) == record_bytes(items[k]),
{
    lemma_records_layout(items);
    assert(record_at(records_bytes(items), k) == record_bytes(items[k]));
}

} // verus!
