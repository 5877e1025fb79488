use spglib::symbol::decode_symbol;

/// A fixed-size buffer of capacity `cap` holding `text` followed by NUL
/// padding, as a native record embeds it.
fn embedded(text: &str, cap: usize) -> Vec<u8> {
    let mut buf = text.as_bytes().to_vec();
    assert!(buf.len() < cap);
    buf.resize(cap, 0);
    buf
}

#[test]
fn decode_plain_symbol() {
    let buf = embedded("P3m1", 11);
    let decoded = decode_symbol(&buf).unwrap();
    assert_eq!(decoded.as_str(), "P3m1");
}

#[test]
fn decode_symbol_with_spaces_and_quote() {
    let buf = embedded("P 3 -2\"", 17);
    let decoded = decode_symbol(&buf).unwrap();
    assert_eq!(decoded.as_str(), "P 3 -2\"");
}

#[test]
fn decode_empty_symbol() {
    let buf = embedded("", 6);
    let decoded = decode_symbol(&buf).unwrap();
    assert_eq!(decoded.as_str(), "");
}

#[test]
fn decode_stops_at_first_nul() {
    let mut buf = embedded("Im-3m", 11);
    buf[7] = b'x';
    let decoded = decode_symbol(&buf).unwrap();
    assert_eq!(decoded.as_str(), "Im-3m");
}

#[test]
fn decode_rejects_unterminated_buffer() {
    let buf = b"C3v^1".to_vec();
    assert!(decode_symbol(&buf).is_none());
}

#[test]
fn decode_rejects_non_ascii_byte() {
    let mut buf = embedded("C3v", 7);
    buf[1] = 0xC3;
    assert!(decode_symbol(&buf).is_none());
}

#[test]
fn decode_non_ascii_after_nul_is_ignored() {
    let mut buf = embedded("3m1P", 7);
    buf[6] = 0xFF;
    let decoded = decode_symbol(&buf).unwrap();
    assert_eq!(decoded.as_str(), "3m1P");
}
