//! The events that the process, thread and image-load notifications produce.

use vstd::prelude::*;
use vstd::utf8::encode_utf8;
use crate::item::{buffer_of, text_to_buffer, ItemInfo};

verus! {

/// The name recorded for an image whose name cannot be read.
pub const UNKNOWN_IMAGE_NAME: &'static str = "(unknown)";

/// The value of a kernel handle as a 32-bit identifier: its low 32 bits.
pub open spec fn handle_id(handle: usize) -> u32 {
    (handle as int % 0x1_0000_0000int) as u32
}

/// The low 32 bits of a kernel handle, the identifier that events carry.
pub fn handle_to_u32(handle: usize) -> (id: u32)
    ensures
        id == handle_id(handle),
{
    ((handle as u64) % 0x1_0000_0000u64) as u32
}

/// Law: the name recorded for an unreadable image is the nine ASCII bytes of
/// `(unknown)`.
pub proof fn law_unknown_image_name()
    ensures
        encode_utf8(UNKNOWN_IMAGE_NAME@) == seq![40u8, 117u8, 110u8, 107u8, 110u8, 111u8, 119u8, 110u8, 41u8],
{
    reveal_strlit("(unknown)");
    let c = UNKNOWN_IMAGE_NAME@;
    assert(c =~= seq!['(', 'u', 'n', 'k', 'n', 'o', 'w', 'n', ')']);
    assert(vstd::utf8::is_ascii_chars(c));
    vstd::utf8::is_ascii_chars_encode_utf8(c);
    assert(encode_utf8(c) =~= seq![40u8, 117u8, 110u8, 107u8, 110u8, 111u8, 119u8, 110u8, 41u8]);
}

/// Law: a handle's identifier is the handle modulo 2^32; a handle below 2^32
/// is its own identifier.
pub proof fn law_handle_id(handle: usize)
    ensures
        handle_id(handle) as int == handle as int % 0x1_0000_0000int,
        (handle as int) < 0x1_0000_0000int ==> handle_id(handle) == handle,
{
}

/// Law: the text of a readable name is its UTF-8 bytes, and there is none for
/// an unreadable one.
pub proof fn law_text_bytes(s: String)
    ensures
        text_bytes_or_empty(Some(s)) == encode_utf8(s@),
        text_bytes_or_empty(None).len() == 0,
{
}

/// The bytes of an optional text, nothing where there is none.
pub open spec fn text_bytes_or_empty(text: Option<String>) -> Seq<u8> {
    match text {
        Some(s) => encode_utf8(s@),
        None => Seq::empty(),
    }
}

/// The event of a process notification. `create_info` holds, for a process
/// being created, the handle of its parent and its image file name where the
/// name could be read; it is `None` for a process that exits.
pub fn process_notify_item(process_id: usize, create_info: Option<(usize, Option<String>)>) -> (item: ItemInfo)
    ensures
        match create_info {
            Some((parent, name)) => (item matches ItemInfo::ProcessCreate { pid, parent_pid, command_line }
                && pid == handle_id(process_id) && parent_pid == handle_id(parent)
                && command_line@ == buffer_of(text_bytes_or_empty(name))),
            None => item == (ItemInfo::ProcessExit { pid: handle_id(process_id) }),
        },
        // A readable name is recorded from its UTF-8 bytes; an unreadable one
        // leaves the buffer all zeros.
        create_info matches Some((_, Some(s))) ==> (item matches ItemInfo::ProcessCreate {
            command_line,
            ..
        } && command_line@ == buffer_of(encode_utf8(s@))),
        create_info matches Some((_, None)) ==> (item matches ItemInfo::ProcessCreate {
            command_line,
            ..
        } && command_line@ == Seq::new(64, |i: int| 0u8)),
{
    match create_info {
        Some((parent, name)) => {
            let text = match name {
                Some(s) => s,
                None => String::new(),
            };
            ItemInfo::ProcessCreate {
                pid: handle_to_u32(process_id),
                parent_pid: handle_to_u32(parent),
                command_line: ItemInfo::string_to_buffer(text),
            }
        },
        None => ItemInfo::ProcessExit { pid: handle_to_u32(process_id) },
    }
}

/// The value of the kernel's boolean `TRUE`.
pub const KERNEL_TRUE: u8 = 1;

/// Law: the kernel's `TRUE` is 1, so a thread notification with flag 1 is a
/// creation and one with any other flag, 0 among them, is an exit.
pub proof fn law_thread_create_flag(create: u8)
    ensures
        KERNEL_TRUE == 1,
        create == 1 <==> create == KERNEL_TRUE,
{
}

/// The event of a thread notification: a creation where `create` is the
/// kernel's `TRUE`, an exit for any other value.
pub fn thread_notify_item(process_id: usize, thread_id: usize, create: u8) -> (item: ItemInfo)
    ensures
        create == KERNEL_TRUE ==> item == (ItemInfo::ThreadCreate {
            pid: handle_id(process_id),
            tid: handle_id(thread_id),
        }),
        create != KERNEL_TRUE ==> item == (ItemInfo::ThreadExit {
            pid: handle_id(process_id),
            tid: handle_id(thread_id),
        }),
{
    if create == KERNEL_TRUE {
        ItemInfo::ThreadCreate { pid: handle_to_u32(process_id), tid: handle_to_u32(thread_id) }
    } else {
        ItemInfo::ThreadExit { pid: handle_to_u32(process_id), tid: handle_to_u32(thread_id) }
    }
}

/// The event of an image load, or `None` for an image mapped into the system
/// (a null process handle). `image_name` is the image's full name where it
/// could be read; otherwise the event records `UNKNOWN_IMAGE_NAME`.
pub fn image_load_item(
    image_name: Option<String>,
    process_id: usize,
    image_base: isize,
    image_size: usize,
) -> (item: Option<ItemInfo>)
    ensures
        process_id == 0 ==> item is None,
        process_id != 0 ==> (item matches Some(
            ItemInfo::ImageLoad { pid, load_address, image_size: size, image_file_name },
        ) && pid == handle_id(process_id) && load_address == image_base && size == image_size
            && image_file_name@ == buffer_of(
            match image_name {
                Some(s) => encode_utf8(s@),
                None => encode_utf8(UNKNOWN_IMAGE_NAME@),
            },
        )),
{
    if process_id == 0 {
        return None;
    }
    let image_file_name = match image_name {
        Some(s) => ItemInfo::string_to_buffer(s),
        None => text_to_buffer(UNKNOWN_IMAGE_NAME),
    };
    Some(ItemInfo::ImageLoad {
        pid: handle_to_u32(process_id),
        load_address: image_base,
        image_size,
        image_file_name,
    })
}

} // verus!
