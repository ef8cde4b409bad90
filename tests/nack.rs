use mbus_frame::NackFrame;

#[test]
fn nack_to_bytes_returns_single_byte() {
    let frame = NackFrame::new();

    assert_eq!(frame.to_bytes(), [NackFrame::NACK_BYTE]);
}

#[test]
fn nack_from_converts_to_vec() {
    let frame = NackFrame::new();

    let bytes: Vec<u8> = frame.into();
    assert_eq!(bytes, vec![NackFrame::NACK_BYTE]);
}

#[test]
fn nack_from_ref_converts_to_vec() {
    let frame = NackFrame::new();

    let bytes: Vec<u8> = (&frame).into();
    assert_eq!(bytes, vec![NackFrame::NACK_BYTE]);
}

#[test]
fn nack_encodes_to_a2() {
    assert_eq!(NackFrame::new().to_bytes(), [0xA2]);
    assert_eq!(NackFrame::default(), NackFrame::new());
    assert_eq!(NackFrame::new().to_bytes().len(), NackFrame::BYTE_LEN);
}
