use mouse_devices::utils::{find_marker, property_code_units, PROPERTY_BUFFER_SIZE};
use mouse_devices::{get_device_property, parse_vid_pid, split_hardware_ids};

fn pair(vid: &str, pid: &str) -> Option<(String, String)> {
    Some((vid.to_string(), pid.to_string()))
}

fn utf16le(text: &str) -> Vec<u8> {
    let mut bytes = Vec::new();
    for unit in text.encode_utf16() {
        bytes.push((unit & 0xff) as u8);
        bytes.push((unit >> 8) as u8);
    }
    bytes
}

#[test]
fn parses_usb_hardware_id() {
    assert_eq!(parse_vid_pid("USB\\VID_046D&PID_C52B\\6&1234"), pair("046D", "C52B"));
}

#[test]
fn parses_hid_hardware_id_with_revision() {
    assert_eq!(
        parse_vid_pid("HID\\VID_1532&PID_0084&REV_0200&MI_00"),
        pair("1532", "0084")
    );
}

#[test]
fn rejects_id_without_markers() {
    assert_eq!(parse_vid_pid("BOGUS_NO_MARKERS"), None);
    assert_eq!(parse_vid_pid(""), None);
}

#[test]
fn rejects_id_with_one_marker_only() {
    assert_eq!(parse_vid_pid("USB\\VID_046D"), None);
    assert_eq!(parse_vid_pid("USB\\PID_C52B"), None);
}

#[test]
fn rejects_marker_too_close_to_the_end() {
    assert_eq!(parse_vid_pid("PID_C52B&VID_046"), None);
    assert_eq!(parse_vid_pid("VID_046D&PID_"), None);
    assert_eq!(parse_vid_pid("VID_046D&PID_C52"), None);
    assert_eq!(parse_vid_pid("VID_PID_"), None);
}

#[test]
fn accepts_tokens_that_end_the_string() {
    assert_eq!(parse_vid_pid("VID_046D&PID_C52B"), pair("046D", "C52B"));
    assert_eq!(parse_vid_pid("PID_C52BVID_046D"), pair("046D", "C52B"));
}

#[test]
fn takes_tokens_verbatim_without_hex_validation() {
    assert_eq!(parse_vid_pid("VID_zz!?&PID_ (x)"), pair("zz!?", " (x)"));
}

#[test]
fn uses_the_first_occurrence_of_each_marker() {
    assert_eq!(
        parse_vid_pid("VID_1111&PID_2222&VID_3333&PID_4444"),
        pair("1111", "2222")
    );
}

#[test]
fn overlapping_markers_share_characters() {
    assert_eq!(parse_vid_pid("VID_PID_1234"), pair("PID_", "1234"));
}

#[test]
fn counts_characters_not_bytes() {
    assert_eq!(parse_vid_pid("\u{e9}\u{4e2d}VID_\u{e9}12\u{4e2d}&PID_abcd"), pair("\u{e9}12\u{4e2d}", "abcd"));
}

#[test]
fn marker_search_is_case_sensitive() {
    assert_eq!(parse_vid_pid("vid_046D&pid_C52B"), None);
}

#[test]
fn finds_first_marker_position() {
    assert_eq!(find_marker("USB\\VID_046D", "VID_"), Some(4));
    assert_eq!(find_marker("aVID_VID_", "VID_"), Some(1));
    assert_eq!(find_marker("VID", "VID_"), None);
    assert_eq!(find_marker("", "VID_"), None);
    assert_eq!(find_marker("abc", ""), Some(0));
    assert_eq!(find_marker("", ""), Some(0));
}

#[test]
fn splits_multi_string_in_order() {
    assert_eq!(
        split_hardware_ids("HID\\VID_046D&PID_C52B&REV_1201\0HID\\VID_046D&PID_C52B\0\0"),
        vec!["HID\\VID_046D&PID_C52B&REV_1201".to_string(), "HID\\VID_046D&PID_C52B".to_string()]
    );
}

#[test]
fn split_discards_empty_segments() {
    assert_eq!(split_hardware_ids("\0\0a\0\0\0b\0c"), vec!["a".to_string(), "b".to_string(), "c".to_string()]);
    assert_eq!(split_hardware_ids(""), Vec::<String>::new());
    assert_eq!(split_hardware_ids("\0\0\0"), Vec::<String>::new());
    assert_eq!(split_hardware_ids("single"), vec!["single".to_string()]);
}

#[test]
fn pairs_bytes_little_endian() {
    assert_eq!(property_code_units(&[0x34, 0x12, 0xff, 0x00, 0x00, 0xff], 6), vec![0x1234, 0x00ff, 0xff00]);
    assert_eq!(property_code_units(&[0x34, 0x12, 0xff, 0x00], 3), vec![0x1234]);
    assert_eq!(property_code_units(&[0x34, 0x12, 0xff], 8), vec![0x1234]);
    assert_eq!(property_code_units(&[0x34, 0x12], 0), Vec::<u16>::new());
}

#[test]
fn decodes_property_text() {
    let mut buffer = [0u8; PROPERTY_BUFFER_SIZE];
    let bytes = utf16le("HID-compliant mouse\0");
    buffer[..bytes.len()].copy_from_slice(&bytes);
    assert_eq!(
        get_device_property(true, &buffer, bytes.len() as u32),
        Some("HID-compliant mouse\0".to_string())
    );
}

#[test]
fn failed_query_gives_no_text() {
    let buffer = [0x41u8; PROPERTY_BUFFER_SIZE];
    assert_eq!(get_device_property(false, &buffer, 8), None);
}

#[test]
fn decodes_surrogate_pairs_and_replaces_lone_surrogates() {
    let bytes = [0x3d, 0xd8, 0x00, 0xde, 0x00, 0xd8, 0x41, 0x00];
    assert_eq!(get_device_property(true, &bytes, 8), Some("\u{1f600}\u{fffd}A".to_string()));
}

#[test]
fn oversized_report_is_cut_to_the_buffer() {
    let buffer = [0x41u8; PROPERTY_BUFFER_SIZE];
    let text = get_device_property(true, &buffer, 100_000).unwrap();
    assert_eq!(text.chars().count(), 256);
    assert!(text.chars().all(|c| c == '\u{4141}'));
}

#[test]
fn buffer_capacity_is_512_bytes() {
    assert_eq!(PROPERTY_BUFFER_SIZE, 512);
}
