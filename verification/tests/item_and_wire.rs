use sysmon::item::{text_to_buffer, ItemInfo, StringBuff, BUFF_SIZE};
use sysmon::notify::{handle_to_u32, image_load_item, process_notify_item, thread_notify_item, UNKNOWN_IMAGE_NAME};
use sysmon::wire::{decode_record, decode_records, encode_record, RECORD_SIZE};

fn buff(text: &str) -> StringBuff {
    ItemInfo::string_to_buffer(text.to_string())
}

fn text_of(b: &StringBuff) -> Vec<u8> {
    let a = b.to_array();
    a[..b.text_len()].to_vec()
}

#[test]
fn string_to_buffer_copies_short_text_and_pads_with_zeros() {
    let b = buff("cmd.exe");
    let a = b.to_array();
    assert_eq!(&a[..7], b"cmd.exe");
    assert!(a[7..].iter().all(|&x| x == 0));
    assert_eq!(b.text_len(), 7);
}

#[test]
fn string_to_buffer_truncates_to_leave_a_terminating_zero() {
    let long: String = std::iter::repeat('x').take(100).collect();
    let a = ItemInfo::string_to_buffer(long).to_array();
    assert!(a[..BUFF_SIZE - 1].iter().all(|&x| x == b'x'));
    assert_eq!(a[BUFF_SIZE - 1], 0);
    let exact: String = std::iter::repeat('y').take(63).collect();
    let a = ItemInfo::string_to_buffer(exact).to_array();
    assert_eq!(a[62], b'y');
    assert_eq!(a[63], 0);
}

#[test]
fn string_to_buffer_of_empty_text_is_all_zeros() {
    assert_eq!(buff("").to_array(), [0u8; BUFF_SIZE]);
}

#[test]
fn debug_string_quotes_text_and_trims_trailing_white_space() {
    assert_eq!(buff("notepad.exe  \t").debug_string(), "\"notepad.exe\"");
    assert_eq!(buff("  lead").debug_string(), "\"  lead\"");
    assert_eq!(buff("").debug_string(), "\"\"");
    assert_eq!(buff("caf\u{e9}\u{3000}").debug_string(), "\"caf\u{e9}\"");
}

#[test]
fn debug_string_of_a_buffer_without_zero_is_empty() {
    let b = StringBuff::from_array([b'a'; BUFF_SIZE]);
    assert_eq!(b.text_len(), 0);
    assert_eq!(b.debug_string(), "\"\"");
}

#[test]
fn truncation_inside_a_character_leaves_invalid_text() {
    let mut s: String = std::iter::repeat('a').take(62).collect();
    s.push('\u{e9}');
    let b = ItemInfo::string_to_buffer(s);
    assert_eq!(b.text_len(), 63);
    assert!(!b.has_valid_text());
    assert!(buff("ok").has_valid_text());
}

#[test]
fn text_to_buffer_matches_string_to_buffer() {
    assert!(text_to_buffer("abc") == buff("abc"));
}

#[test]
fn handle_to_u32_keeps_the_low_bits() {
    assert_eq!(handle_to_u32(0x1_2345_6789), 0x2345_6789);
    assert_eq!(handle_to_u32(4), 4);
    assert_eq!(handle_to_u32(usize::MAX), u32::MAX);
}

#[test]
fn process_notify_builds_create_and_exit_events() {
    let item = process_notify_item(0x10, Some((0x8, Some("a.exe".to_string()))));
    assert!(item == ItemInfo::ProcessCreate { pid: 0x10, parent_pid: 0x8, command_line: buff("a.exe") });
    let item = process_notify_item(0x10, Some((0x8, None)));
    assert!(item == ItemInfo::ProcessCreate { pid: 0x10, parent_pid: 0x8, command_line: buff("") });
    let item = process_notify_item(0x1_0000_0010, None);
    assert!(item == ItemInfo::ProcessExit { pid: 0x10 });
}

#[test]
fn thread_notify_distinguishes_create_from_exit() {
    assert!(thread_notify_item(4, 8, 1) == ItemInfo::ThreadCreate { pid: 4, tid: 8 });
    assert!(thread_notify_item(4, 8, 0) == ItemInfo::ThreadExit { pid: 4, tid: 8 });
    assert!(thread_notify_item(4, 8, 2) == ItemInfo::ThreadExit { pid: 4, tid: 8 });
}

#[test]
fn image_load_ignores_system_images_and_names_unknown_ones() {
    assert!(image_load_item(Some("x.dll".to_string()), 0, 1, 2).is_none());
    let item = image_load_item(None, 12, -4096, 8192).unwrap();
    assert!(item == ItemInfo::ImageLoad {
        pid: 12,
        load_address: -4096,
        image_size: 8192,
        image_file_name: buff(UNKNOWN_IMAGE_NAME),
    });
    assert_eq!(buff(UNKNOWN_IMAGE_NAME).debug_string(), "\"(unknown)\"");
    let item = image_load_item(Some("\\Windows\\x.dll".to_string()), 12, 0x7ff0_0000, 1).unwrap();
    match item {
        ItemInfo::ImageLoad { image_file_name, .. } => assert_eq!(text_of(&image_file_name), b"\\Windows\\x.dll"),
        _ => panic!("not an image load"),
    }
}

fn samples() -> Vec<ItemInfo> {
    vec![
        ItemInfo::ProcessCreate { pid: 1, parent_pid: 2, command_line: buff("proc") },
        ItemInfo::ProcessExit { pid: 3 },
        ItemInfo::ThreadCreate { pid: 4, tid: 5 },
        ItemInfo::ThreadExit { pid: 6, tid: 7 },
        ItemInfo::ImageLoad { pid: 8, load_address: -2, image_size: usize::MAX, image_file_name: buff("img") },
        ItemInfo::ImageLoad { pid: 8, load_address: isize::MIN, image_size: 0, image_file_name: buff("") },
        ItemInfo::RegistrySetValue { pid: 9, tid: 10, key_name: buff("\\REGISTRY\\MACHINE\\X"), data_type: 4 },
    ]
}

#[test]
fn records_have_the_c_layout() {
    let r = encode_record(&ItemInfo::ProcessExit { pid: 0x0102_0304 });
    assert_eq!(r.len(), RECORD_SIZE);
    assert_eq!(&r[0..8], &[1, 0, 0, 0, 0, 0, 0, 0]);
    assert_eq!(&r[8..12], &[4, 3, 2, 1]);
    assert!(r[12..].iter().all(|&x| x == 0));

    let r = encode_record(&ItemInfo::ImageLoad { pid: 7, load_address: -1, image_size: 0x10, image_file_name: buff("n") });
    assert_eq!(r[0], 4);
    assert_eq!(&r[16..24], &[0xff; 8]);
    assert_eq!(&r[24..32], &[0x10, 0, 0, 0, 0, 0, 0, 0]);
    assert_eq!(r[32], b'n');

    let r = encode_record(&ItemInfo::RegistrySetValue { pid: 1, tid: 2, key_name: buff("k"), data_type: 0xaabbccdd });
    assert_eq!(r[0], 5);
    assert_eq!(r[16], b'k');
    assert_eq!(&r[80..84], &[0xdd, 0xcc, 0xbb, 0xaa]);

    let r = encode_record(&ItemInfo::ProcessCreate { pid: 1, parent_pid: 2, command_line: buff("c") });
    assert_eq!(r[0], 0);
    assert_eq!(r[12], 2);
    assert_eq!(r[16], b'c');
}

#[test]
fn each_record_decodes_to_its_event() {
    for item in samples() {
        let r = encode_record(&item);
        assert!(decode_record(&r) == Some(item));
    }
}

#[test]
fn decode_record_rejects_unknown_tags_and_wrong_lengths() {
    let mut r = encode_record(&ItemInfo::ProcessExit { pid: 1 });
    r[0] = 6;
    assert!(decode_record(&r).is_none());
    let r = encode_record(&ItemInfo::ProcessExit { pid: 1 });
    assert!(decode_record(&r[..RECORD_SIZE - 1]).is_none());
}

#[test]
fn decode_records_returns_all_events_in_order() {
    let items = samples();
    let mut bytes = Vec::new();
    for i in &items {
        bytes.extend_from_slice(&encode_record(i));
    }
    bytes.extend_from_slice(&[0xee; 10]);
    let decoded = decode_records(&bytes, items.len() * RECORD_SIZE).unwrap();
    assert!(decoded == items);
    assert!(decode_records(&bytes, 0).unwrap().is_empty());
}

#[test]
fn decode_records_rejects_partial_and_oversized_lengths() {
    let bytes = encode_record(&ItemInfo::ProcessExit { pid: 1 });
    assert!(decode_records(&bytes, RECORD_SIZE - 1).is_none());
    assert!(decode_records(&bytes, 2 * RECORD_SIZE).is_none());
    let mut bad = bytes.clone();
    bad[0] = 9;
    assert!(decode_records(&bad, RECORD_SIZE).is_none());
}

#[test]
fn long_string_cut_at_a_character_boundary_shows_its_prefix() {
    let mut s: String = std::iter::repeat('a').take(61).collect();
    s.push('\u{e9}');
    s.push_str("xyz");
    let b = ItemInfo::string_to_buffer(s.clone());
    assert!(b.has_valid_text());
    assert_eq!(b.text_len(), 63);
    assert_eq!(b.debug_string(), format!("\"{}\"", &s[..63]));
    let spaced: String = std::iter::repeat(' ').take(70).collect();
    let mut t: String = "key".to_string();
    t.push_str(&spaced);
    assert_eq!(ItemInfo::string_to_buffer(t).debug_string(), "\"key\"");
}
