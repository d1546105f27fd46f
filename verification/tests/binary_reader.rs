use rustarok_client::binary_reader::field_text_bytes;

#[test]
fn name_field_ends_at_the_first_zero() {
    assert_eq!(field_text_bytes(b"data\\prontera.gnd\0\0xx"), b"data\\prontera.gnd".to_vec());
    assert_eq!(field_text_bytes(b"full"), b"full".to_vec());
    assert_eq!(field_text_bytes(b"\0abc"), Vec::<u8>::new());
    assert_eq!(field_text_bytes(b""), Vec::<u8>::new());
}
