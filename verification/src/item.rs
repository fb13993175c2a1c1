use vstd::prelude::*;
use vstd::utf8::{decode_utf8, encode_utf8, is_char_boundary, valid_utf8};
use vstd::string::StringExecFns;

verus! {

/// Size of the fixed text buffer carried by an event.
pub const BUFF_SIZE: usize = 64;

/// A fixed buffer of text: the first bytes of a UTF-8 string, padded with zeros.
#[derive(Clone, Copy, PartialEq, Eq)]
pub struct StringBuff([u8; BUFF_SIZE]);

impl View for StringBuff {
    type V = Seq<u8>;

    closed spec fn view(&self) -> Seq<u8> {
        self.0@
    }
}

/// The buffer contents that hold the first `min(len, BUFF_SIZE - 1)` bytes of
/// `text` followed by zeros: the last byte is always a terminating zero.
pub open spec fn buffer_of(text: Seq<u8>) -> Seq<u8> {
    let n = if text.len() > BUFF_SIZE - 1 { (BUFF_SIZE - 1) as int } else { text.len() as int };
    Seq::new(BUFF_SIZE as nat, |i: int| if i < n { text[i] } else { 0u8 })
}

impl StringBuff {
    /// Every buffer holds exactly `BUFF_SIZE` bytes.
    pub broadcast proof fn lemma_len(b: StringBuff)
        ensures
            #[trigger] b@.len() == BUFF_SIZE,
    {
    }

    /// Two buffers with the same bytes are the same buffer.
    pub proof fn lemma_view_injective(a: StringBuff, b: StringBuff)
        requires
            a@ == b@,
        ensures
            a == b,
    {
        broadcast use vstd::array::group_array_axioms;

        assert(a.0 =~= b.0);
    }

    /// A buffer with the given bytes.
    pub fn from_array(bytes: [u8; BUFF_SIZE]) -> (b: StringBuff)
        ensures
            b@ == bytes@,
    {
        StringBuff(bytes)
    }

    /// The bytes of the buffer.
    pub fn to_array(&self) -> (bytes: [u8; BUFF_SIZE])
        ensures
            bytes@ == self@,
    {
        self.0
    }
}

/// `i` is the position of the first zero byte of `b`.
pub open spec fn is_first_zero(b: Seq<u8>, i: int) -> bool {
    &&& 0 <= i < b.len()
    &&& b[i] == 0
    &&& forall|j: int| 0 <= j < i ==> b[j] != 0
}

/// The length of the text in a buffer: the position of its first zero byte,
/// and none at all where the buffer holds no zero byte.
pub open spec fn text_len(b: Seq<u8>) -> int {
    if exists|i: int| is_first_zero(b, i) {
        choose|i: int| is_first_zero(b, i)
    } else {
        0
    }
}

/// The text bytes of a buffer.
pub open spec fn buffer_text(b: Seq<u8>) -> Seq<u8> {
    b.subrange(0, text_len(b))
}

/// The characters that Unicode gives the White_Space property.
pub open spec fn is_white_space(c: char) -> bool {
    let v = c as u32;
    ||| 0x9 <= v <= 0xd
    ||| v == 0x20
    ||| v == 0x85
    ||| v == 0xa0
    ||| v == 0x1680
    ||| 0x2000 <= v <= 0x200a
    ||| v == 0x2028
    ||| v == 0x2029
    ||| v == 0x202f
    ||| v == 0x205f
    ||| v == 0x3000
}

/// `s` without its trailing white space.
pub open spec fn trim_end_chars(s: Seq<char>) -> Seq<char>
    decreases s.len(),
{
    if s.len() > 0 && is_white_space(s.last()) {
        trim_end_chars(s.drop_last())
    } else {
        s
    }
}

/// Law: a buffer is 64 bytes: the first `min(len, 63)` bytes of the text,
/// then zeros to the end.
pub proof fn law_buffer_layout(text: Seq<u8>)
    ensures
        BUFF_SIZE == 64,
        buffer_of(text).len() == 64,
        ({
            let k = if text.len() > 63 { 63 } else { text.len() as int };
            &&& buffer_of(text).take(k) == text.take(k)
            &&& forall|i: int| k <= i < 64 ==> buffer_of(text)[i] == 0
        }),
{
    let k = if text.len() > 63 { 63 } else { text.len() as int };
    assert(buffer_of(text).take(k) =~= text.take(k));
}

/// Law: a buffer keeps the first `BUFF_SIZE - 1` bytes of a text free of zero
/// bytes, and reads back exactly those bytes as its text.
pub proof fn law_buffer_keeps_text_prefix(text: Seq<u8>)
    requires
        forall|i: int| 0 <= i < text.len() ==> text[i] != 0,
    ensures
        buffer_text(buffer_of(text)) == text.take(
            if text.len() > BUFF_SIZE - 1 { (BUFF_SIZE - 1) as int } else { text.len() as int },
        ),
        buffer_of(text)[BUFF_SIZE - 1] == 0,
{
    let b = buffer_of(text);
    let n = if text.len() > BUFF_SIZE - 1 { (BUFF_SIZE - 1) as int } else { text.len() as int };
    assert(is_first_zero(b, n));
    let k = choose|k: int| is_first_zero(b, k);
    assert(k == n);
    assert(buffer_text(b) =~= text.take(n));
}

/// Law: a string whose encoding is shorter than the buffer and holds no zero
/// byte is shown as itself, trimmed and quoted.
pub proof fn law_short_string_shows_itself(s: Seq<char>)
    requires
        encode_utf8(s).len() < BUFF_SIZE,
        forall|i: int| 0 <= i < encode_utf8(s).len() ==> encode_utf8(s)[i] != 0,
    ensures
        valid_utf8(buffer_text(buffer_of(encode_utf8(s)))),
        decode_utf8(buffer_text(buffer_of(encode_utf8(s)))) == s,
{
    broadcast use vstd::utf8::encode_utf8_valid_utf8, vstd::utf8::encode_utf8_decode_utf8;

    let t = encode_utf8(s);
    law_buffer_keeps_text_prefix(t);
    assert(t.take(t.len() as int) =~= t);
}

/// Law: a string whose encoding fills the buffer or more, holds no zero byte,
/// and has a character boundary where the buffer cuts it, keeps valid text:
/// the characters encoded in its first `BUFF_SIZE - 1` bytes, which begin the
/// string.
pub proof fn law_long_string_shows_its_prefix(s: Seq<char>)
    requires
        encode_utf8(s).len() >= BUFF_SIZE,
        forall|i: int| 0 <= i < encode_utf8(s).len() ==> encode_utf8(s)[i] != 0,
        is_char_boundary(encode_utf8(s), (BUFF_SIZE - 1) as int),
    ensures
        buffer_text(buffer_of(encode_utf8(s))) == encode_utf8(s).take((BUFF_SIZE - 1) as int),
        valid_utf8(buffer_text(buffer_of(encode_utf8(s)))),
        decode_utf8(buffer_text(buffer_of(encode_utf8(s)))) == decode_utf8(
            encode_utf8(s).take((BUFF_SIZE - 1) as int),
        ),
        s.take(decode_utf8(encode_utf8(s).take((BUFF_SIZE - 1) as int)).len() as int) == decode_utf8(
            encode_utf8(s).take((BUFF_SIZE - 1) as int),
        ),
{
    broadcast use vstd::utf8::encode_utf8_valid_utf8, vstd::utf8::encode_utf8_decode_utf8;

    let t = encode_utf8(s);
    let k = (BUFF_SIZE - 1) as int;
    law_buffer_keeps_text_prefix(t);
    vstd::utf8::valid_utf8_split(t, k);
    vstd::utf8::decode_utf8_split(t, k);
    assert(t.subrange(0, k) == t.take(k));
    let head = decode_utf8(t.take(k));
    let tail = decode_utf8(t.subrange(k, t.len() as int));
    assert(s == head + tail);
    assert(s.take(head.len() as int) =~= head);
}

/// Law: trimming keeps a prefix of the text and removes only white space
/// after it; what is left does not end in white space. Tab, line feed,
/// vertical tab, form feed, carriage return and space are white space; no
/// other ASCII character is.
pub proof fn law_trim_end(s: Seq<char>)
    ensures
        ({
            let t = trim_end_chars(s);
            &&& t.len() <= s.len()
            &&& t == s.take(t.len() as int)
            &&& forall|i: int| t.len() <= i < s.len() ==> is_white_space(#[trigger] s[i])
            &&& t.len() > 0 ==> !is_white_space(t.last())
        }),
        forall|c: char| (c as u32) < 128 ==> (#[trigger] is_white_space(c) <==> (9 <= (c as u32) <= 13
            || c as u32 == 32)),
    decreases s.len(),
{
    if s.len() > 0 && is_white_space(s.last()) {
        law_trim_end(s.drop_last());
        let t = trim_end_chars(s.drop_last());
        assert(t == s.take(t.len() as int)) by {
            assert(s.drop_last().take(t.len() as int) =~= s.take(t.len() as int));
        }
        assert forall|i: int| t.len() <= i < s.len() implies is_white_space(#[trigger] s[i]) by {
            if i < s.len() - 1 {
                assert(s.drop_last()[i] == s[i]);
            }
        }
    } else {
        assert(s.take(s.len() as int) =~= s);
    }
}

/// Law: the text of a buffer holds no zero byte, and it ends at the first zero
/// byte of the buffer; a buffer with no zero byte holds no text.
pub proof fn law_buffer_text(b: Seq<u8>)
    ensures
        forall|i: int| 0 <= i < buffer_text(b).len() ==> #[trigger] buffer_text(b)[i] != 0,
        buffer_text(b) == b.take(text_len(b)),
        text_len(b) < b.len() && text_len(b) > 0 ==> b[text_len(b)] == 0,
        (forall|i: int| 0 <= i < b.len() ==> b[i] != 0) ==> buffer_text(b).len() == 0,
{
    if exists|i: int| is_first_zero(b, i) {
        let k = choose|i: int| is_first_zero(b, i);
        assert(buffer_text(b) == b.subrange(0, k));
    }
}

/// `std::str::from_utf8`: the text that `bytes` encode, `None` where they are
/// not valid UTF-8.
#[verifier::external_body]
fn str_from_utf8(bytes: &[u8]) -> (r: Option<&str>)
    ensures
        r is Some <==> valid_utf8(bytes@),
        r matches Some(s) ==> s@ == decode_utf8(bytes@),
{
    std::str::from_utf8(bytes).ok()
}

/// `str::trim_end`: the text without its trailing white space.
#[verifier::external_body]
fn str_trim_end(s: &str) -> (r: &str)
    ensures
        r@ == trim_end_chars(s@),
{
    s.trim_end()
}

impl StringBuff {
    /// The number of text bytes: the position of the first zero byte, or zero
    /// where there is none.
    pub fn text_len(&self) -> (n: usize)
        ensures
            n == text_len(self@),
    {
        let mut i: usize = 0;
        while i < BUFF_SIZE
            invariant
                i <= BUFF_SIZE,
                self@.len() == BUFF_SIZE,
                forall|j: int| 0 <= j < i ==> self@[j] != 0,
            decreases BUFF_SIZE - i,
        {
            if self.0[i] == 0 {
                assert(is_first_zero(self@, i as int));
                proof {
                    let k = choose|k: int| is_first_zero(self@, k);
                    assert(k == i);
                }
                return i;
            }
            i = i + 1;
        }
        assert(!exists|k: int| is_first_zero(self@, k));
        0
    }

    /// Whether the text bytes are valid UTF-8.
    pub fn has_valid_text(&self) -> (r: bool)
        ensures
            r == valid_utf8(buffer_text(self@)),
    {
        let n = self.text_len();
        let bytes = self.0.as_slice();
        str_from_utf8(vstd::slice::slice_subrange(bytes, 0, n)).is_some()
    }

    /// The text of the buffer as it is shown: quoted, without trailing white
    /// space.
    pub fn debug_string(&self) -> (r: String)
        requires
            valid_utf8(buffer_text(self@)),
        ensures
            r@ == seq!['"'] + trim_end_chars(decode_utf8(buffer_text(self@))) + seq!['"'],
    {
        let n = self.text_len();
        let bytes = self.0.as_slice();
        let text = match str_from_utf8(vstd::slice::slice_subrange(bytes, 0, n)) {
            Some(t) => t,
            None => {
                assert(false);
                ""
            },
        };
        let trimmed = str_trim_end(text);
        proof {
            reveal_strlit("\"");
        }
        let open = <String as StringExecFns>::from_str("\"");
        let r = open.concat(trimmed).concat("\"");
        assert(r@ =~= seq!['"'] + trim_end_chars(decode_utf8(buffer_text(self@))) + seq!['"']);
        r
    }
}

#[derive(Clone, Copy, PartialEq, Eq)]
pub enum ItemInfo {
    ProcessCreate { pid: u32, parent_pid: u32, command_line: StringBuff },
    ProcessExit { pid: u32 },
    ThreadCreate { pid: u32, tid: u32 },
    ThreadExit { pid: u32, tid: u32 },
    ImageLoad { pid: u32, load_address: isize, image_size: usize, image_file_name: StringBuff },
    RegistrySetValue { pid: u32, tid: u32, key_name: StringBuff, data_type: u32 },
}

impl ItemInfo {
    /// Copies the UTF-8 bytes of `s` into a zeroed buffer, at most
    /// `BUFF_SIZE - 1` of them, so that the buffer always ends with a zero.
    pub fn string_to_buffer(s: String) -> (buff: StringBuff)
        ensures
            buff@ == buffer_of(encode_utf8(s@)),
    {
        text_to_buffer(s.as_str())
    }
}

/// The buffer holding the first bytes of `s`, as `ItemInfo::string_to_buffer`.
pub fn text_to_buffer(s: &str) -> (buff: StringBuff)
    ensures
        buff@ == buffer_of(encode_utf8(s@)),
{
    let bytes = s.as_bytes();
    let size_to_copy: usize = if bytes.len() > BUFF_SIZE - 1 {
        BUFF_SIZE - 1
    } else {
        bytes.len()
    };
    let mut arr: [u8; BUFF_SIZE] = [0u8; BUFF_SIZE];
    let mut i: usize = 0;
    while i < size_to_copy
        invariant
            size_to_copy <= bytes@.len(),
            size_to_copy <= BUFF_SIZE - 1,
            i <= size_to_copy,
            arr@.len() == BUFF_SIZE,
            forall|j: int| 0 <= j < i ==> arr@[j] == bytes@[j],
            forall|j: int| i <= j < BUFF_SIZE ==> arr@[j] == 0u8,
        decreases size_to_copy - i,
    {
        arr[i] = bytes[i];
        i = i + 1;
    }
    let buff = StringBuff(arr);
    assert(buff@ =~= buffer_of(encode_utf8(s@)));
    buff
}

} // verus!
