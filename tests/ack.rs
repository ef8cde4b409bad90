use mbus_frame::AckFrame;

#[test]
fn ack_to_bytes_returns_single_byte() {
    let frame = AckFrame::new();

    assert_eq!(frame.to_bytes(), [AckFrame::ACK_BYTE]);
}

#[test]
fn ack_from_converts_to_vec() {
    let frame = AckFrame::new();

    let bytes: Vec<u8> = frame.into();
    assert_eq!(bytes, vec![AckFrame::ACK_BYTE]);
}

#[test]
fn ack_from_ref_converts_to_vec() {
    let frame = AckFrame::new();

    let bytes: Vec<u8> = (&frame).into();
    assert_eq!(bytes, vec![AckFrame::ACK_BYTE]);
}

#[test]
fn ack_encodes_to_e5() {
    assert_eq!(AckFrame::new().to_bytes(), [0xE5]);
    assert_eq!(AckFrame::default(), AckFrame::new());
    assert_eq!(AckFrame::new().to_bytes().len(), AckFrame::BYTE_LEN);
}
