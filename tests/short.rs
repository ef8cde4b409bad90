use mbus_frame::ShortFrame;

#[test]
fn new_computes_checksum_and_constants() {
    let frame = ShortFrame::new(0x40, 0x01);

    assert_eq!(frame.start_byte, ShortFrame::START_BYTE);
    assert_eq!(frame.stop_byte, ShortFrame::STOP_BYTE);
    assert_eq!(frame.control, 0x40);
    assert_eq!(frame.address, 0x01);
    assert_eq!(frame.checksum, 0x41);
}

#[test]
fn short_to_bytes_matches_fields() {
    let frame = ShortFrame {
        start_byte: 0x10,
        control: 0x53,
        address: 0x02,
        checksum: 0x55,
        stop_byte: 0x16,
    };

    assert_eq!(frame.to_bytes(), [0x10, 0x53, 0x02, 0x55, 0x16]);
}

#[test]
fn short_from_converts_to_vec() {
    let frame = ShortFrame {
        start_byte: 0x10,
        control: 0x11,
        address: 0x22,
        checksum: 0x33,
        stop_byte: 0x16,
    };

    let bytes: Vec<u8> = frame.into();
    assert_eq!(bytes, vec![0x10, 0x11, 0x22, 0x33, 0x16]);
}

#[test]
fn short_from_ref_converts_to_vec() {
    let frame = ShortFrame {
        start_byte: 0x10,
        control: 0x21,
        address: 0x32,
        checksum: 0x53,
        stop_byte: 0x16,
    };

    let bytes: Vec<u8> = (&frame).into();
    assert_eq!(bytes, vec![0x10, 0x21, 0x32, 0x53, 0x16]);
}

#[test]
fn short_new_encodes_control_address_and_checksum() {
    let frame = ShortFrame::new(0x40, 0x01);

    assert_eq!(frame.to_bytes(), [0x10, 0x40, 0x01, 0x41, 0x16]);
    assert_eq!(frame.to_bytes().len(), ShortFrame::BYTE_LEN);
}

#[test]
fn short_checksum_wraps_around() {
    let frame = ShortFrame::new(0xFF, 0x02);

    assert_eq!(frame.checksum, 0x01);
    assert_eq!(frame.to_bytes(), [0x10, 0xFF, 0x02, 0x01, 0x16]);
}

#[test]
fn short_markers_frame_every_encoding() {
    for (control, address) in [(0x00u8, 0x00u8), (0x10, 0x16), (0x7B, 0xFE), (0xFF, 0xFF)] {
        let bytes = ShortFrame::new(control, address).to_bytes();
        assert_eq!(bytes[0], 0x10);
        assert_eq!(bytes[4], 0x16);
        assert_eq!(bytes[3], control.wrapping_add(address));
    }
}

#[test]
fn short_to_bytes_twice_is_identical() {
    let frame = ShortFrame::new(0x5B, 0xFD);

    assert_eq!(frame.to_bytes(), frame.to_bytes());
}

#[test]
fn short_to_bytes_emits_stored_checksum_verbatim() {
    let mut frame = ShortFrame::new(0x40, 0x01);
    frame.checksum = 0x00;

    assert_eq!(frame.to_bytes(), [0x10, 0x40, 0x01, 0x00, 0x16]);
}
