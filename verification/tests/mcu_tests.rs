use joyemu::Controller;
use joyemu::controller_state::ControllerState;
use joyemu::mcu::MCUPowerState;
use joyemu::mcu::MicroControllerUnit;
use joyemu::mcu::NFCState;
use joyemu::mcu::mcu_crc;
use joyemu::mcu::no_response_message;
use joyemu::mcu::pack_message;
use joyemu::nfc_tag::NFCTag;

fn fresh_mcu() -> MicroControllerUnit {
    MicroControllerUnit::new(ControllerState::new(Controller::ProController, None))
}

fn tag_with_uid(uid: [u8; 7]) -> NFCTag {
    let mut data = vec![0u8; 540];
    data[0] = uid[0];
    data[1] = uid[1];
    data[2] = uid[2];
    data[4] = uid[3];
    data[5] = uid[4];
    data[6] = uid[5];
    data[7] = uid[6];
    NFCTag::new(&data, None, None)
}

#[test]
fn mcu_crc_matches_the_published_check_value() {
    // The CRC-8/SMBUS check value for the bytes "123456789".
    assert_eq!(mcu_crc(b"123456789"), 0xF4);
    // The checksum of no bytes is zero for this algorithm, so a frame of
    // 312 zero bytes ends in a zero checksum; any other content must not.
    assert_eq!(mcu_crc(&[]), 0x00);
    assert_ne!(mcu_crc(&[0xFF]), 0xFF);
}

#[test]
fn pack_message_frames_pad_and_checksum() {
    let frame = pack_message(&[0xFF], None, None);
    assert_eq!(frame.len(), 313);
    assert_eq!(frame[0], 0xFF);
    for i in 1..312 {
        assert_eq!(frame[i], 0x00);
    }
    let crc = crc::Crc::<u8>::new(&crc::CRC_8_SMBUS);
    assert_eq!(frame[312], crc.checksum(&frame[..312]));
}

#[test]
fn pack_message_honours_fill_byte_and_length() {
    let frame = pack_message(&[0x01, 0x02], Some(0xAA), Some(16));
    assert_eq!(frame.len(), 16);
    assert_eq!(&frame[..2], &[0x01, 0x02]);
    for i in 2..15 {
        assert_eq!(frame[i], 0xAA);
    }
    let crc = crc::Crc::<u8>::new(&crc::CRC_8_SMBUS);
    assert_eq!(frame[15], crc.checksum(&frame[..15]));
}

#[test]
fn pack_message_keeps_oversized_payloads() {
    // An over-long message is still copied whole; only its final byte is
    // replaced by the checksum of everything before it.
    let long = vec![0x11u8; 400];
    let frame = pack_message(&long, None, None);
    assert_eq!(frame.len(), 400);
    for i in 0..399 {
        assert_eq!(frame[i], 0x11);
    }
    let crc = crc::Crc::<u8>::new(&crc::CRC_8_SMBUS);
    assert_eq!(frame[399], crc.checksum(&frame[..399]));
}

#[test]
fn no_response_message_is_the_framed_sentinel() {
    let sentinel = no_response_message();
    assert_eq!(sentinel, pack_message(&[0xFF], None, None));
}

#[test]
fn response_queue_accepts_at_most_four_frames() {
    let mut mcu = fresh_mcu();
    for k in 0..4u8 {
        mcu.queue_response(&[k, k, k]);
    }
    assert_eq!(mcu.response_queue.len(), 4);
    // A fifth frame is dropped without touching the queued ones.
    mcu.queue_response(&[9, 9, 9]);
    assert_eq!(mcu.response_queue.len(), 4);
    for k in 0..4u8 {
        assert_eq!(mcu.response_queue[k as usize], vec![k, k, k]);
    }
    // The forced path appends past the bound.
    mcu.force_queue_response(&[9, 9, 9]);
    assert_eq!(mcu.response_queue.len(), 5);
    assert_eq!(mcu.response_queue[4], vec![9, 9, 9]);
}

#[test]
fn flush_response_queue_empties_the_queue() {
    let mut mcu = fresh_mcu();
    mcu.queue_response(&[1]);
    mcu.queue_response(&[2]);
    mcu.flush_response_queue();
    assert_eq!(mcu.response_queue.len(), 0);
}

#[test]
fn status_frame_while_suspended_is_the_sentinel() {
    let mcu = fresh_mcu();
    assert_eq!(mcu.power_state, MCUPowerState::Suspended);
    let frame = mcu.get_status_data().unwrap();
    assert_eq!(frame, no_response_message());
}

#[test]
fn status_frame_while_ready_reports_the_power_byte() {
    let mut mcu = fresh_mcu();
    mcu.power_state = MCUPowerState::Ready;
    let frame = mcu.get_status_data().unwrap();
    assert_eq!(frame.len(), 313);
    assert_eq!(&frame[..8], &[0x01, 0x00, 0x00, 0x00, 0x08, 0x00, 0x1b, 0x01]);

    mcu.power_state = MCUPowerState::ConfiguredNFC;
    let frame = mcu.get_status_data().unwrap();
    assert_eq!(&frame[..8], &[0x01, 0x00, 0x00, 0x00, 0x08, 0x00, 0x1b, 0x04]);

    mcu.power_state = MCUPowerState::ReadyUpdate;
    assert!(mcu.get_status_data().is_none());
}

#[test]
fn poll_deduplicates_a_tag_seen_twice() {
    let mut mcu = fresh_mcu();
    mcu.controller.set_nfc(tag_with_uid([1, 2, 3, 4, 5, 6, 7]));
    mcu.nfc_state = NFCState::Poll;

    mcu.get_nfc_status_data();
    assert_eq!(mcu.nfc_state, NFCState::Poll);
    assert_eq!(mcu.last_poll_uid, Some([1, 2, 3, 4, 5, 6, 7]));

    mcu.get_nfc_status_data();
    assert_eq!(mcu.nfc_state, NFCState::PollAgain);

    // The same tag keeps it in the poll-again state.
    mcu.get_nfc_status_data();
    assert_eq!(mcu.nfc_state, NFCState::PollAgain);

    // A different identifier moves it back to polling.
    mcu.controller.set_nfc(tag_with_uid([9, 9, 9, 9, 9, 9, 9]));
    mcu.get_nfc_status_data();
    assert_eq!(mcu.nfc_state, NFCState::Poll);
    assert_eq!(mcu.last_poll_uid, Some([9, 9, 9, 9, 9, 9, 9]));
}

#[test]
fn poll_returns_to_polling_when_the_tag_is_removed() {
    let mut mcu = fresh_mcu();
    mcu.remove_nfc_after_write = false;
    mcu.controller.set_nfc(tag_with_uid([1, 2, 3, 4, 5, 6, 7]));
    mcu.nfc_state = NFCState::Poll;
    mcu.get_nfc_status_data();
    mcu.get_nfc_status_data();
    assert_eq!(mcu.nfc_state, NFCState::PollAgain);

    mcu.controller.nfc_content = None;
    mcu.get_nfc_status_data();
    assert_eq!(mcu.nfc_state, NFCState::Poll);
    assert_eq!(mcu.last_poll_uid, None);
}

#[test]
fn poll_frame_carries_state_byte_and_identifier() {
    let mut mcu = fresh_mcu();
    mcu.controller.set_nfc(tag_with_uid([1, 2, 3, 4, 5, 6, 7]));
    mcu.nfc_state = NFCState::Poll;
    let frame = mcu.get_nfc_status_data();
    assert_eq!(frame.len(), 313);
    assert_eq!(&frame[..6], &[0x2a, 0x00, 0x05, 0x00, 0x09, 0x31]);
    // Byte 6 reports the state after the transition (still polling).
    assert_eq!(frame[6], 0x01);
    assert_eq!(
        &frame[7..15],
        &[0x00, 0x00, 0x00, 0x01, 0x01, 0x02, 0x00, 0x07]
    );
    assert_eq!(&frame[15..22], &[1, 2, 3, 4, 5, 6, 7]);
    let crc = crc::Crc::<u8>::new(&crc::CRC_8_SMBUS);
    assert_eq!(frame[312], crc.checksum(&frame[..312]));

    // The second tick reports the poll-again state byte.
    let frame = mcu.get_nfc_status_data();
    assert_eq!(frame[6], 0x09);
}

#[test]
fn poll_frame_without_a_tag_uses_the_short_header() {
    let mut mcu = fresh_mcu();
    mcu.nfc_state = NFCState::Poll;
    let frame = mcu.get_nfc_status_data();
    assert_eq!(frame.len(), 313);
    assert_eq!(&frame[..7], &[0x2a, 0x00, 0x05, 0x00, 0x00, 0x09, 0x31]);
    assert_eq!(frame[7], 0x01);
}

#[test]
fn pending_removal_substitutes_the_sentinel_identifier() {
    let mut mcu = fresh_mcu();
    mcu.nfc_state = NFCState::Poll;
    mcu.pending_active_remove = 2;

    // No tag is loaded; the sentinel's all-zero identifier is polled.
    mcu.get_nfc_status_data();
    assert_eq!(mcu.pending_active_remove, 1);
    assert_eq!(mcu.last_poll_uid, Some([0, 0, 0, 0, 0, 0, 0]));
    assert_eq!(mcu.nfc_state, NFCState::Poll);

    mcu.get_nfc_status_data();
    assert_eq!(mcu.pending_active_remove, 0);
    assert_eq!(mcu.nfc_state, NFCState::PollAgain);
}

#[test]
fn processing_write_falls_back_to_idle_when_the_counter_runs_out() {
    let mut mcu = fresh_mcu();
    mcu.nfc_state = NFCState::ProcessingWrite;
    mcu.nfc_counter = 2;
    mcu.get_nfc_status_data();
    assert_eq!(mcu.nfc_state, NFCState::ProcessingWrite);
    mcu.get_nfc_status_data();
    assert_eq!(mcu.nfc_state, NFCState::Idle);
    assert_eq!(mcu.nfc_counter, 0);
}

#[test]
fn set_remove_nfc_after_read_is_ignored() {
    let mut mcu = fresh_mcu();
    mcu.set_remove_nfc_after_read(false);
    assert_eq!(mcu.remove_nfc_after_write, true);
}

#[test]
fn removal_sentinel_is_an_all_zero_payload() {
    let tag = joyemu::mcu::removal_tag();
    assert_eq!(tag.data.len(), 540);
    assert!(tag.data.iter().all(|b| *b == 0));
    assert_eq!(tag.get_uid(), [0, 0, 0, 0, 0, 0, 0]);
}

#[test]
fn tag_identifier_skips_the_fourth_byte() {
    let mut data = vec![0u8; 540];
    for (i, b) in data.iter_mut().enumerate().take(10) {
        *b = i as u8;
    }
    let tag = NFCTag::new(&data, None, None);
    assert_eq!(tag.get_uid(), [0, 1, 2, 4, 5, 6, 7]);
}

#[test]
fn tag_write_overwrites_the_given_range() {
    let mut tag = NFCTag::new(&[0u8; 16], None, None);
    tag.write(4, &[0xDE, 0xAD]);
    assert_eq!(&tag.data[3..7], &[0x00, 0xDE, 0xAD, 0x00]);
}
