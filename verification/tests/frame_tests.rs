use openblt::can::{
    find_buffer, pack_frame, place_frame, receive_step, take_frame, unpack_frame, Mailbox, Stat1,
    Wait, MAILBOX_CODE_RX_FULL, MAILBOX_CODE_TRANSMIT,
    STAT1_AERR, STAT1_ALL, STAT1_BERR, STAT1_BOFF_INT, STAT1_FERR, STAT1_IDLE, STAT1_LACK_INT,
    STAT1_RX, STAT1_STER, STAT1_TX,
};
use openblt::frame::{FrameId, S32K118Frame, EXTENDED_ID_MAX, MAILBOX_EXTENDED, STANDARD_ID_MAX};
use openblt::controller::{
    erase_walk, poll_status, program_walk, ControllerError, Poll, Walk, READY_POLLS,
};
use openblt::hal::{CanError, CanFrame, HalError};
use openblt::reg::RegisterValue;

#[test]
fn standard_identifiers_have_eleven_bits() {
    assert_eq!(FrameId::standard(0), Some(FrameId::Standard(0)));
    assert_eq!(FrameId::standard(0x7E0), Some(FrameId::Standard(0x7E0)));
    assert_eq!(FrameId::standard(STANDARD_ID_MAX), Some(FrameId::Standard(0x7FF)));
    assert_eq!(FrameId::standard(0x800), None);
    assert_eq!(FrameId::standard(u16::MAX), None);
}

#[test]
fn extended_identifiers_have_twenty_nine_bits() {
    assert_eq!(FrameId::extended(0), Some(FrameId::Extended(0)));
    assert_eq!(FrameId::extended(0x1234_5678), Some(FrameId::Extended(0x1234_5678)));
    assert_eq!(FrameId::extended(EXTENDED_ID_MAX), Some(FrameId::Extended(0x1FFF_FFFF)));
    assert_eq!(FrameId::extended(0x2000_0000), None);
    assert_eq!(FrameId::extended(u32::MAX), None);
}

#[test]
fn identifier_validity_follows_the_kind() {
    assert!(FrameId::Standard(0x7FF).is_valid());
    assert!(!FrameId::Standard(0x800).is_valid());
    assert!(FrameId::Extended(0x1FFF_FFFF).is_valid());
    assert!(!FrameId::Extended(0x2000_0000).is_valid());
    assert!(!FrameId::Standard(1).is_extended());
    assert!(FrameId::Extended(1).is_extended());
    assert_eq!(FrameId::Standard(0x123).as_raw(), 0x123);
    assert_eq!(FrameId::Extended(0x12345).as_raw(), 0x12345);
}

#[test]
fn identifiers_go_through_mailbox_words() {
    assert_eq!(FrameId::from_mailbox(0x0000_07E0), FrameId::Standard(0x7E0));
    assert_eq!(FrameId::from_mailbox(0x0000_FFFF), FrameId::Standard(0x7FF));
    assert_eq!(FrameId::from_mailbox(0x4000_0123), FrameId::Extended(0x123));
    assert_eq!(FrameId::from_mailbox(0xFFFF_FFFF), FrameId::Extended(0x1FFF_FFFF));
    assert_eq!(FrameId::Standard(0x7E0).to_mailbox(), 0x7E0);
    assert_eq!(FrameId::Extended(0x123).to_mailbox(), 0x123);
    assert_eq!(FrameId::Extended(0x1FFF_FFFF).to_mailbox(), 0x1FFF_FFFF);
    assert_eq!(FrameId::Extended(0x2000_0000).to_mailbox(), 0x2000_0000);
    assert_eq!(FrameId::Standard(0x0FFF).to_mailbox(), 0x0FFF);
    assert_eq!(FrameId::from_mailbox(0x123 | MAILBOX_EXTENDED), FrameId::Extended(0x123));
    assert_eq!(
        FrameId::from_mailbox(FrameId::Extended(0x1ABC_DEF0).to_mailbox()),
        FrameId::Standard(0x6F0)
    );
    for id in [FrameId::Standard(0), FrameId::Standard(0x7E0), FrameId::Standard(0x7FF)] {
        assert_eq!(FrameId::from_mailbox(id.to_mailbox()), id);
    }
}

#[test]
fn data_frames_hold_up_to_eight_bytes() {
    let frame = S32K118Frame::new(FrameId::Standard(0x7E0), &[1, 2, 3]).unwrap();
    assert_eq!(frame.id(), FrameId::Standard(0x7E0));
    assert_eq!(frame.dlc(), 3);
    assert_eq!(frame.data(), &[1, 2, 3]);
    assert!(!frame.is_remote_frame());
    assert!(!frame.is_extended());
    let full = S32K118Frame::new(FrameId::Extended(5), &[0; 8]).unwrap();
    assert_eq!(full.dlc(), 8);
    assert!(full.is_extended());
    let empty = S32K118Frame::new(FrameId::Standard(0), &[]).unwrap();
    assert_eq!(empty.data(), &[] as &[u8]);
}

#[test]
fn data_frames_refuse_bad_input() {
    assert_eq!(S32K118Frame::new(FrameId::Standard(0x7E0), &[0; 9]), None);
    assert_eq!(S32K118Frame::new(FrameId::Standard(0x800), &[0; 2]), None);
    assert_eq!(S32K118Frame::new(FrameId::Extended(0x2000_0000), &[]), None);
}

#[test]
fn remote_frames_carry_zero_bytes() {
    let frame = S32K118Frame::new_remote(FrameId::Standard(0x100), 4).unwrap();
    assert!(frame.is_remote_frame());
    assert_eq!(frame.dlc(), 4);
    assert_eq!(frame.data(), &[0, 0, 0, 0]);
    assert_eq!(
        pack_frame(&frame),
        Mailbox { cs: 0x0F | (4 << 16), id: 0x100, word0: 0, word1: 0 }
    );
    let none = S32K118Frame::new_remote(FrameId::Standard(0x100), 0).unwrap();
    assert_eq!(none.data(), &[] as &[u8]);
    assert_eq!(S32K118Frame::new_remote(FrameId::Standard(0x100), 9), None);
    assert_eq!(S32K118Frame::new_remote(FrameId::Standard(0x900), 1), None);
    assert!(S32K118Frame::new_remote(FrameId::Standard(0x100), 8).is_some());
}

#[test]
fn classic_frame_becomes_a_protocol_frame() {
    let frame = S32K118Frame::new(FrameId::Standard(0x7E0), &[0x01, 0xAA]).unwrap();
    assert_eq!(frame.to_can_frame(), CanFrame { id: 0x7E0, data: vec![0x01, 0xAA] });
}

#[test]
fn frames_are_laid_out_little_endian() {
    let frame =
        S32K118Frame::new(FrameId::Standard(0x123), &[0x11, 0x22, 0x33, 0x44, 0x55, 0x66]).unwrap();
    assert_eq!(
        pack_frame(&frame),
        Mailbox {
            cs: MAILBOX_CODE_TRANSMIT | (6 << 16),
            id: 0x123,
            word0: 0x4433_2211,
            word1: 0x0000_6655
        }
    );
    let extended = S32K118Frame::new(FrameId::Extended(0x1ABC_DEF0), &[]).unwrap();
    assert_eq!(
        pack_frame(&extended),
        Mailbox { cs: MAILBOX_CODE_TRANSMIT, id: 0x1ABC_DEF0, word0: 0, word1: 0 }
    );
    assert_eq!(MAILBOX_CODE_TRANSMIT, 0x0F);
    let full = S32K118Frame::new(FrameId::Standard(0x7FF), &[1, 2, 3, 4, 5, 6, 7, 8]).unwrap();
    assert_eq!(
        pack_frame(&full),
        Mailbox { cs: 0x0008_000F, id: 0x7FF, word0: 0x0403_0201, word1: 0x0807_0605 }
    );
}

#[test]
fn received_frames_are_read_back() {
    let mailbox = Mailbox {
        cs: MAILBOX_CODE_RX_FULL | (5 << 16),
        id: 0x7E0,
        word0: 0x0403_0201,
        word1: 0x0807_0605,
    };
    let frame = unpack_frame(&mailbox).unwrap();
    assert_eq!(frame.id(), FrameId::Standard(0x7E0));
    assert_eq!(frame.data(), &[1, 2, 3, 4, 5]);
    assert!(!frame.is_remote_frame());
}

#[test]
fn unpack_refuses_buffers_that_hold_no_frame() {
    let empty = Mailbox { cs: 5 << 16, id: 0x7E0, word0: 0, word1: 0 };
    assert_eq!(unpack_frame(&empty), Err(CanError::RxFifoEmpty));
    let sending = Mailbox { cs: MAILBOX_CODE_TRANSMIT, id: 0x7E0, word0: 0, word1: 0 };
    assert_eq!(unpack_frame(&sending), Err(CanError::RxFifoEmpty));
    let long = Mailbox { cs: MAILBOX_CODE_RX_FULL | (9 << 16), id: 0x7E0, word0: 0, word1: 0 };
    assert_eq!(unpack_frame(&long), Err(CanError::InvalidLength));
}

#[test]
fn mailbox_round_trip() {
    for data in [vec![], vec![0xFF], vec![1, 2, 3, 4], vec![9, 8, 7, 6, 5, 4, 3, 2]] {
        for id in [FrameId::Standard(0), FrameId::Standard(0x7FF)] {
            let frame = S32K118Frame::new(id, &data).unwrap();
            let mut mailbox = pack_frame(&frame);
            mailbox.cs = (mailbox.cs & !0xF) | MAILBOX_CODE_RX_FULL;
            assert_eq!(unpack_frame(&mailbox), Ok(frame));
        }
        let extended = S32K118Frame::new(FrameId::Extended(0x1FFF_FFFF), &data).unwrap();
        let mut mailbox = pack_frame(&extended);
        mailbox.cs = (mailbox.cs & !0xF) | MAILBOX_CODE_RX_FULL;
        let received = unpack_frame(&mailbox).unwrap();
        assert_eq!(received.id(), FrameId::Standard(0x7FF));
        assert_eq!(received.data(), &data[..]);
    }
}

fn free_buffers() -> [Mailbox; 16] {
    [Mailbox { cs: 0, id: 0, word0: 0, word1: 0 }; 16]
}

#[test]
fn find_buffer_gives_the_first_with_the_code() {
    let mut buffers = free_buffers();
    assert_eq!(find_buffer(&buffers, 0), Some(0));
    assert_eq!(find_buffer(&buffers, MAILBOX_CODE_RX_FULL), None);
    buffers[0].cs = 0x0003_000F;
    buffers[1].cs = 0x0002_0004;
    buffers[5].cs = 0x0001_0004;
    assert_eq!(find_buffer(&buffers, 0), Some(2));
    assert_eq!(find_buffer(&buffers, MAILBOX_CODE_RX_FULL), Some(1));
    assert_eq!(find_buffer(&buffers, MAILBOX_CODE_TRANSMIT), Some(0));
}

#[test]
fn frame_goes_into_the_first_free_buffer() {
    let frame = S32K118Frame::new(FrameId::Standard(0x123), &[1, 2, 3, 4, 5]).unwrap();
    let ready = Stat1::from_bits_truncate(STAT1_TX);
    let mut buffers = free_buffers();
    buffers[0].cs = 0x0F;
    buffers[1].cs = 0x04;
    let before = buffers;
    assert_eq!(place_frame(ready, &mut buffers, &frame), Ok(2));
    assert_eq!(
        buffers[2],
        Mailbox { cs: 0x0005_000F, id: 0x123, word0: 0x0403_0201, word1: 0x0000_0005 }
    );
    for index in 0..16 {
        if index != 2 {
            assert_eq!(buffers[index], before[index]);
        }
    }
}

#[test]
fn frame_is_not_placed_when_the_controller_cannot_send() {
    let frame = S32K118Frame::new(FrameId::Standard(0x123), &[1]).unwrap();
    let mut buffers = free_buffers();
    let idle = Stat1::from_bits_truncate(STAT1_RX | STAT1_IDLE);
    assert_eq!(place_frame(idle, &mut buffers, &frame), Err(CanError::TransmitError));
    assert_eq!(buffers, free_buffers());
    let mut busy = [Mailbox { cs: 0x0F, id: 1, word0: 2, word1: 3 }; 16];
    let ready = Stat1::from_bits_truncate(STAT1_TX);
    assert_eq!(place_frame(ready, &mut busy, &frame), Err(CanError::TransmitError));
    assert_eq!(busy, [Mailbox { cs: 0x0F, id: 1, word0: 2, word1: 3 }; 16]);
}

#[test]
fn frame_is_taken_from_the_first_full_buffer() {
    let received = Stat1::from_bits_truncate(STAT1_RX);
    let mut buffers = free_buffers();
    buffers[3] = Mailbox { cs: 0x0002_0004, id: 0x7E0, word0: 0x0000_BBAA, word1: 0 };
    buffers[7] = Mailbox { cs: 0x0001_0004, id: 0x7E1, word0: 0x0000_00CC, word1: 0 };
    let (index, frame) = take_frame(received, &mut buffers).unwrap();
    assert_eq!(index, 3);
    assert_eq!(frame.id(), FrameId::Standard(0x7E0));
    assert_eq!(frame.data(), &[0xAA, 0xBB]);
    assert_eq!(buffers[3], Mailbox { cs: 0, id: 0x7E0, word0: 0x0000_BBAA, word1: 0 });
    assert_eq!(buffers[7].cs, 0x0001_0004);
    let (index, frame) = take_frame(received, &mut buffers).unwrap();
    assert_eq!(index, 7);
    assert_eq!(frame.data(), &[0xCC]);
    assert_eq!(take_frame(received, &mut buffers), Err(CanError::ReceiveError));
}

#[test]
fn nothing_is_taken_when_nothing_was_received() {
    let mut buffers = free_buffers();
    buffers[3] = Mailbox { cs: 0x0002_0004, id: 0x7E0, word0: 0, word1: 0 };
    let before = buffers;
    let quiet = Stat1::from_bits_truncate(STAT1_TX);
    assert_eq!(take_frame(quiet, &mut buffers), Err(CanError::ReceiveError));
    assert_eq!(buffers, before);
    let mut long = free_buffers();
    long[0] = Mailbox { cs: 0x0009_0004, id: 0x7E0, word0: 0, word1: 0 };
    let received = Stat1::from_bits_truncate(STAT1_RX);
    assert_eq!(take_frame(received, &mut long), Err(CanError::ReceiveError));
    assert_eq!(long[0].cs, 0);
}

#[test]
fn wait_for_a_frame_goes_on_until_the_timeout() {
    let frame = S32K118Frame::new(FrameId::Standard(0x7E0), &[1, 2]).unwrap();
    assert_eq!(
        receive_step(&Ok(frame), 0, 10),
        Wait::Deliver(CanFrame { id: 0x7E0, data: vec![1, 2] })
    );
    assert_eq!(receive_step(&Err(CanError::ReceiveError), 0, 10), Wait::Again);
    assert_eq!(receive_step(&Err(CanError::ReceiveError), 9, 10), Wait::Again);
    assert_eq!(
        receive_step(&Err(CanError::ReceiveError), 10, 10),
        Wait::Fail(CanError::RxFifoEmpty)
    );
    assert_eq!(receive_step(&Err(CanError::ReceiveError), 0, 0), Wait::Fail(CanError::RxFifoEmpty));
    assert_eq!(receive_step(&Err(CanError::BusOff), 0, 10), Wait::Fail(CanError::BusOff));
}

#[test]
fn protocol_frames_become_classic_frames() {
    let standard = CanFrame { id: 0x7E8, data: vec![1, 0, 0] };
    let classic = S32K118Frame::from_can_frame(&standard).unwrap();
    assert_eq!(classic.id(), FrameId::Standard(0x7E8));
    assert_eq!(classic.data(), &[1, 0, 0]);
    assert!(!classic.is_remote_frame());
    let extended = CanFrame { id: 0x800, data: vec![] };
    assert_eq!(S32K118Frame::from_can_frame(&extended).unwrap().id(), FrameId::Extended(0x800));
    let wide = CanFrame { id: 0x2000_0000, data: vec![] };
    assert_eq!(S32K118Frame::from_can_frame(&wide), Err(CanError::InvalidId));
    let long = CanFrame { id: 0x7E8, data: vec![0; 9] };
    assert_eq!(S32K118Frame::from_can_frame(&long), Err(CanError::InvalidLength));
    let both = CanFrame { id: 0x2000_0000, data: vec![0; 9] };
    assert_eq!(S32K118Frame::from_can_frame(&both), Err(CanError::InvalidId));
}

#[test]
fn status_word_decides_the_wait_for_the_controller() {
    assert_eq!(poll_status(0x00, 0), Poll::Ready);
    assert_eq!(poll_status(0x0F, 5), Poll::Ready);
    assert_eq!(poll_status(0x80, 0), Poll::Again);
    assert_eq!(poll_status(0xB0, READY_POLLS - 1), Poll::Again);
    assert_eq!(poll_status(0x80, READY_POLLS), Poll::Failed(ControllerError::BusyError));
    assert_eq!(poll_status(0x10, 0), Poll::Failed(ControllerError::CommandSequenceError));
    assert_eq!(poll_status(0x20, READY_POLLS), Poll::Failed(ControllerError::CommandSequenceError));
}

#[test]
fn erase_walk_visits_every_page_in_order() {
    assert_eq!(erase_walk(0x0001_0000, 0x3000, 0, false), Walk::Visit(0x0001_0000));
    assert_eq!(erase_walk(0x0001_0000, 0x3000, 1, false), Walk::Visit(0x0001_1000));
    assert_eq!(erase_walk(0x0001_0000, 0x3000, 2, false), Walk::Visit(0x0001_2000));
    assert_eq!(erase_walk(0x0001_0000, 0x3000, 3, false), Walk::Finished);
    assert_eq!(erase_walk(0x0001_0000, 0, 0, false), Walk::Finished);
    assert_eq!(erase_walk(0xFFFF_F000, 0x1000, 0, false), Walk::Visit(0xFFFF_F000));
}

#[test]
fn erase_walk_stops_at_a_failure_or_a_bad_range() {
    assert_eq!(erase_walk(0x0001_0000, 0x3000, 1, true), Walk::Failed(HalError::FlashError));
    assert_eq!(erase_walk(0x0001_0000, 0x3000, 3, true), Walk::Failed(HalError::FlashError));
    assert_eq!(erase_walk(0x0001_0004, 0x1000, 0, false), Walk::Failed(HalError::FlashError));
    assert_eq!(erase_walk(0x0001_0000, 0x0800, 0, false), Walk::Failed(HalError::FlashError));
    assert_eq!(erase_walk(0xFFFF_F000, 0x2000, 0, false), Walk::Failed(HalError::FlashError));
}

#[test]
fn program_walk_visits_every_word_in_order() {
    assert_eq!(program_walk(0x0001_0000, 8, 0, false), Walk::Visit(0x0001_0000));
    assert_eq!(program_walk(0x0001_0000, 8, 1, false), Walk::Visit(0x0001_0004));
    assert_eq!(program_walk(0x0001_0000, 8, 2, false), Walk::Finished);
    assert_eq!(program_walk(0x0001_0000, 8, 1, true), Walk::Failed(HalError::FlashError));
    assert_eq!(program_walk(0x0001_0002, 8, 0, false), Walk::Failed(HalError::FlashError));
    assert_eq!(program_walk(0x0001_0000, 6, 0, false), Walk::Failed(HalError::FlashError));
    assert_eq!(program_walk(0xFFFF_FFFC, 8, 0, false), Walk::Failed(HalError::FlashError));
    assert_eq!(program_walk(0xFFFF_FFFC, 4, 0, false), Walk::Visit(0xFFFF_FFFC));
}

#[test]
fn controller_error_messages() {
    assert_eq!(ControllerError::BusyError.message(), "Busy error");
    assert_eq!(ControllerError::CommandSequenceError.message(), "Command sequence error");
    assert_eq!(ControllerError::WriteError.message(), "Write error");
    assert_eq!(ControllerError::EraseError.message(), "Erase error");
}

#[test]
fn status_flags_are_truncated_and_tested() {
    let status = Stat1::from_bits_truncate(0xFFFF_FFFF);
    assert_eq!(status.bits(), STAT1_ALL);
    assert_eq!(STAT1_ALL, 0x003F_FFFF);
    let some = Stat1::from_bits_truncate(STAT1_TX | STAT1_IDLE);
    assert!(some.contains(STAT1_TX));
    assert!(some.contains(STAT1_TX | STAT1_IDLE));
    assert!(!some.contains(STAT1_RX));
    assert!(!some.contains(STAT1_TX | STAT1_RX));
    assert!(some.contains(0));
}

#[test]
fn status_is_read_in_order_of_severity() {
    let error_of = |bits: u32| CanError::from_status(Stat1::from_bits_truncate(bits));
    assert_eq!(error_of(STAT1_BERR | STAT1_STER | STAT1_RX), Some(CanError::BitError));
    assert_eq!(error_of(STAT1_STER | STAT1_FERR), Some(CanError::StuffError));
    assert_eq!(error_of(STAT1_FERR | STAT1_AERR), Some(CanError::FormError));
    assert_eq!(error_of(STAT1_AERR | STAT1_BOFF_INT), Some(CanError::AcknowledgmentError));
    assert_eq!(error_of(STAT1_BOFF_INT | STAT1_LACK_INT), Some(CanError::BusOff));
    assert_eq!(error_of(STAT1_LACK_INT | STAT1_TX), Some(CanError::Wakeup));
    assert_eq!(error_of(STAT1_TX | STAT1_RX), Some(CanError::TransmitError));
    assert_eq!(error_of(STAT1_RX), Some(CanError::ReceiveError));
    assert_eq!(error_of(STAT1_IDLE), Some(CanError::Unknown));
    assert_eq!(error_of(0), Some(CanError::Unknown));
}

#[test]
fn register_fields_are_set_in_place() {
    let mut register = 0xFFu8;
    register.set_re(0);
    assert_eq!(register, 0xFB);
    register.set_te(0);
    assert_eq!(register, 0xF3);
    register.set_re(1).set_te(1);
    assert_eq!(register, 0xFF);
    let mut register = 0x00u8;
    register.set_re(0xFF);
    assert_eq!(register, 0x04);
    register.set_te(0x03);
    assert_eq!(register, 0x0C);
    register.set_pe(1);
    assert_eq!(register, 0x0E);
    register.set_m(1);
    assert_eq!(register, 0x1E);
    register.set_m(0).set_pe(0);
    assert_eq!(register, 0x0C);
}

#[test]
fn register_baud_field_is_five_bits() {
    let mut register = 0xE0u8;
    register.set_sbr(26);
    assert_eq!(register, 0xE0 | 26);
    register.set_sbr(0xFF);
    assert_eq!(register, 0xFF);
    register.set_sbr(0);
    assert_eq!(register, 0xE0);
}

#[test]
fn register_flags_and_data_are_read() {
    assert!(0x80u8.tdre());
    assert!(!0x7Fu8.tdre());
    assert!(0x20u8.rdrf());
    assert!(!0xDFu8.rdrf());
    assert_eq!(0x5Au8.data(), 0x5A);
    let mut register = 0u8;
    register.set_data(0xA5);
    assert_eq!(register, 0xA5);
}
