use termux_world::adb::{output_lists_package, serial_from_devices_output};
use termux_world::text::{chars_of, decimal, escaped_for_input, lossy_chars, split_fields};

#[test]
fn escapes_spaces() {
    assert_eq!(escaped_for_input("ls -la /sdcard"), "ls%s-la%s/sdcard");
    assert_eq!(escaped_for_input(""), "");
    assert_eq!(escaped_for_input("  "), "%s%s");
    assert!(!escaped_for_input("a b c d").contains(' '));
}

#[test]
fn decimal_matches_to_string() {
    for n in [0, 7, 10, 66, 111, -1, -42, i32::MAX, i32::MIN, 1_000_000] {
        assert_eq!(decimal(n), n.to_string());
    }
}

#[test]
fn fields_split_on_unicode_whitespace() {
    let line = chars_of("  emulator-5554\tdevice\u{a0}x ");
    let f = split_fields(&line);
    let words: Vec<String> = f.iter().map(|w| w.iter().collect()).collect();
    assert_eq!(words, vec!["emulator-5554", "device", "x"]);
}

#[test]
fn reads_first_attached_device() {
    let out = b"List of devices attached\nemulator-5554\tdevice\nR58M\tdevice\n\n";
    assert_eq!(serial_from_devices_output(out), Some("emulator-5554".to_string()));
}

#[test]
fn skips_unauthorized_and_offline_devices() {
    let out = b"List of devices attached\r\nABC\tunauthorized\r\nDEF\toffline\r\n  GHI   device  \r\n";
    assert_eq!(serial_from_devices_output(out), Some("GHI".to_string()));
}

#[test]
fn header_line_is_never_a_device() {
    assert_eq!(serial_from_devices_output(b"x device\n"), None);
    assert_eq!(serial_from_devices_output(b""), None);
    assert_eq!(serial_from_devices_output(b"List of devices attached\n"), None);
}

#[test]
fn lossy_decoding_replaces_invalid_bytes() {
    let cs = lossy_chars(b"ab\xffc");
    let s: String = cs.iter().collect();
    assert_eq!(s, "ab\u{fffd}c");
    let out = b"List of devices attached\nse\xffr\tdevice\n";
    assert_eq!(serial_from_devices_output(out), Some("se\u{fffd}r".to_string()));
}

#[test]
fn package_query_output() {
    assert!(output_lists_package(b"package:/data/app/com.termux-1/base.apk\n"));
    assert!(!output_lists_package(b""));
    assert!(!output_lists_package(b"Error: package not found"));
}

#[test]
fn listed_serial_is_one_word() {
    let out = b"List of devices attached\n\t  192.168.0.5:5555 \xc2\xa0device product:x\n";
    let s = serial_from_devices_output(out).unwrap();
    assert_eq!(s, "192.168.0.5:5555");
    assert!(!s.is_empty());
    assert!(!s.chars().any(char::is_whitespace));
}
