use tc37x_hal::can::can_node::FrameMode;
use tc37x_hal::can::frame::DataLenghtCode;
use tc37x_hal::can::frame::Frame;
use tc37x_hal::can::frame::InvalidFrame;
use tc37x_hal::can::frame::MessageId;
use tc37x_hal::can::frame::MessageIdLenght;
use tc37x_hal::can::internals::rx::Rx;
use tc37x_hal::can::internals::tx::Tx;

fn fault(frame: Result<Frame, InvalidFrame>) -> Option<InvalidFrame> {
    match frame {
        Ok(_) => None,
        Err(e) => Some(e),
    }
}

#[test]
fn frame_new_validates_the_payload_length() {
    let id = MessageId::new_standard(0x123);
    for len in 0..=8usize {
        let frame = Frame::new(id, &vec![0xa5u8; len]).unwrap();
        assert_eq!(frame.data().len(), len);
        assert_eq!(frame.mode(), FrameMode::Standard);
        assert_eq!(frame.length().get_data_lenght_in_bytes() as usize, len);
    }
    assert_eq!(fault(Frame::new(id, &[0u8; 9])), Some(InvalidFrame::PayloadLength));
    assert_eq!(fault(Frame::new(id, &[0u8; 65])), Some(InvalidFrame::PayloadLength));
    let long = Frame::new(id, &[1u8; 12]).unwrap();
    assert_eq!(long.mode(), FrameMode::FdLong);
    assert_eq!(long.length(), DataLenghtCode::_12);
}

#[test]
fn frame_length_boundaries_by_mode() {
    let id = MessageId::new_extended(0x0cfe_6e00);
    let modes = [FrameMode::Standard, FrameMode::FdLong, FrameMode::FdLongAndFast];
    for mode in modes {
        assert_eq!(
            fault(Frame::new_with_mode(id, mode, &[0u8; 9])),
            Some(InvalidFrame::PayloadLength)
        );
        assert_eq!(
            fault(Frame::new_with_mode(id, mode, &[0u8; 65])),
            Some(InvalidFrame::PayloadLength)
        );
        assert!(Frame::new_with_mode(id, mode, &[0u8; 8]).is_ok());
    }
    let twelve = Frame::new_with_mode(id, FrameMode::FdLong, &[7u8; 12]).unwrap();
    assert_eq!(twelve.length(), DataLenghtCode::_12);
    assert_eq!(twelve.mode(), FrameMode::FdLong);
    assert_eq!(
        fault(Frame::new_with_mode(id, FrameMode::Standard, &[0u8; 12])),
        Some(InvalidFrame::PayloadTooLongForClassic)
    );
    assert!(Frame::new_with_mode(id, FrameMode::FdLongAndFast, &[0u8; 64]).is_ok());
}

#[test]
fn frame_identifier_must_fit_its_length() {
    assert!(Frame::new(MessageId::new_standard(0x7ff), &[]).is_ok());
    assert_eq!(
        fault(Frame::new(MessageId::new_standard(0x800), &[])),
        Some(InvalidFrame::IdentifierOutOfRange)
    );
    assert!(Frame::new(MessageId::new_extended(0x1fff_ffff), &[]).is_ok());
    assert_eq!(
        fault(Frame::new(MessageId::new_extended(0x2000_0000), &[])),
        Some(InvalidFrame::IdentifierOutOfRange)
    );
    // The identifier is looked at before the payload.
    assert_eq!(
        fault(Frame::new(MessageId::new_standard(0x800), &[0u8; 9])),
        Some(InvalidFrame::IdentifierOutOfRange)
    );
    assert!(MessageId::new_standard(0x7ff).is_in_range());
    assert!(!MessageId::new_standard(0x800).is_in_range());
}

#[test]
fn data_length_codes() {
    let bytes = [0u32, 1, 2, 3, 4, 5, 6, 7, 8, 12, 16, 20, 24, 32, 48, 64];
    for code in 0..16u8 {
        let length = DataLenghtCode::try_from_code(code).unwrap();
        assert_eq!(length.to_code(), code);
        assert_eq!(length.get_data_lenght_in_bytes(), bytes[code as usize]);
        assert_eq!(DataLenghtCode::try_from_len(bytes[code as usize] as usize), Some(length));
    }
    assert_eq!(DataLenghtCode::try_from_code(16), None);
    for len in [9usize, 10, 11, 13, 17, 25, 33, 49, 63, 65, 1000] {
        assert_eq!(DataLenghtCode::try_from_len(len), None);
    }
}

#[test]
fn extended_frame_round_trip_through_an_element() {
    let id = MessageId::new_extended(0x0cfe_6e00);
    let payload = [0u8, 1, 2, 3, 4, 5, 6, 7];
    let frame = Frame::new(id, &payload).unwrap();
    let element = Tx::new(&frame);
    assert_eq!(element.words(), &vec![0x4cfe_6e00, 0x0008_0000, 0x0302_0100, 0x0706_0504]);
    let rx = Rx::new(element.words().clone());
    assert_eq!(rx.get_message_id(), 0x0cfe_6e00);
    assert_eq!(rx.get_message_id_lenght(), MessageIdLenght::Extended);
    assert_eq!(rx.get_data_lenght(), DataLenghtCode::_8);
    assert_eq!(rx.get_frame_mode(), FrameMode::Standard);
    assert_eq!(rx.read_data(DataLenghtCode::_8), payload.to_vec());
    let back = rx.frame();
    assert_eq!(back.id(), id);
    assert_eq!(back.length(), DataLenghtCode::_8);
    assert_eq!(back.mode(), FrameMode::Standard);
    assert_eq!(back.data(), &payload.to_vec());
}

#[test]
fn standard_identifier_is_shifted_by_eighteen_bits() {
    let frame = Frame::new(MessageId::new_standard(0x555), &[0xaa, 0xbb, 0xcc]).unwrap();
    let element = Tx::new(&frame);
    assert_eq!(element.words(), &vec![0x555 << 18, 0x0003_0000, 0x00cc_bbaa]);
    let rx = Rx::new(element.words().clone());
    assert_eq!(rx.get_message_id(), 0x555);
    assert_eq!(rx.get_message_id_lenght(), MessageIdLenght::Standard);
    assert_eq!(rx.frame().data(), &vec![0xaa, 0xbb, 0xcc]);
}

#[test]
fn every_length_and_mode_round_trips() {
    let lengths = [0usize, 1, 2, 3, 4, 5, 6, 7, 8, 12, 16, 20, 24, 32, 48, 64];
    let modes = [FrameMode::Standard, FrameMode::FdLong, FrameMode::FdLongAndFast];
    let ids = [MessageId::new_standard(0), MessageId::new_standard(0x7ff), MessageId::new_extended(0x1fff_ffff)];
    for len in lengths {
        for mode in modes {
            for id in ids {
                let payload: Vec<u8> = (0..len).map(|i| (i as u8).wrapping_mul(37).wrapping_add(11)).collect();
                let frame = match Frame::new_with_mode(id, mode, &payload) {
                    Ok(frame) => frame,
                    Err(e) => {
                        assert_eq!(e, InvalidFrame::PayloadTooLongForClassic);
                        assert!(mode == FrameMode::Standard && len > 8);
                        continue;
                    }
                };
                let element = Tx::new(&frame);
                assert_eq!(element.words().len(), 2 + (len + 3) / 4);
                let back = Rx::new(element.words().clone()).frame();
                assert_eq!(back.id(), frame.id());
                assert_eq!(back.length(), frame.length());
                assert_eq!(back.mode(), mode);
                assert_eq!(back.data(), &payload);
            }
        }
    }
}

#[test]
fn control_word_holds_length_and_mode() {
    assert_eq!(Tx::control_word(DataLenghtCode::_64, FrameMode::FdLongAndFast), 0x003f_0000);
    assert_eq!(Tx::control_word(DataLenghtCode::_12, FrameMode::FdLong), 0x0029_0000);
    assert_eq!(Tx::control_word(DataLenghtCode::_0, FrameMode::Standard), 0);
    assert_eq!(Tx::message_id_word(MessageId::new_extended(1)), 0x4000_0001);
    let rx = Rx::new(vec![0, 0x0030_0000 | (13 << 16)]);
    assert_eq!(rx.get_frame_mode(), FrameMode::FdLongAndFast);
    assert_eq!(rx.get_data_lenght(), DataLenghtCode::_32);
    // Bit rate switching without the FD format is a classic frame.
    assert_eq!(Rx::new(vec![0, 0x0010_0000]).get_frame_mode(), FrameMode::Standard);
}

#[test]
fn received_classic_frame_carries_at_most_eight_bytes() {
    // A classic frame with length code 12: the code says 24, the frame has 8.
    let rx = Rx::new(vec![0x123 << 18, 12 << 16, 0x0403_0201, 0x0807_0605, 0xffff_ffff]);
    assert_eq!(rx.get_data_lenght(), DataLenghtCode::_24);
    let frame = rx.frame();
    assert_eq!(frame.length(), DataLenghtCode::_8);
    assert_eq!(frame.data(), &vec![1, 2, 3, 4, 5, 6, 7, 8]);
}

#[test]
fn missing_words_read_as_zero() {
    let rx = Rx::new(vec![0x4000_0005, 8 << 16, 0x0403_0201]);
    assert_eq!(rx.read_data(DataLenghtCode::_8), vec![1, 2, 3, 4, 0, 0, 0, 0]);
    let empty = Rx::new(Vec::new());
    assert_eq!(empty.get_message_id(), 0);
    assert_eq!(empty.get_message_id_lenght(), MessageIdLenght::Standard);
    assert_eq!(empty.frame().data().len(), 0);
}
