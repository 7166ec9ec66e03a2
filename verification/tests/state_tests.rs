use joyemu::Controller;
use joyemu::controller::UnknownController;
use joyemu::controller_state::ControllerState;
use joyemu::mcu::no_response_message;
use joyemu::mcu::pack_message;
use joyemu::memory::FlashMemory;
use joyemu::memory::SizeMismatch;
use joyemu::nfc_tag::NFCTag;
use joyemu::protocol::ControllerProtocol;
use joyemu::protocol::ReportDelay;
use joyemu::protocol::assemble_report;
use joyemu::protocol::subcommand_delay;

#[test]
fn controller_parses_session_identifiers() {
    assert_eq!(Controller::from_str("JOYCON_L").unwrap(), Controller::JoyconL);
    assert_eq!(Controller::from_str("JOYCON_R").unwrap(), Controller::JoyconR);
    assert_eq!(
        Controller::from_str("PRO_CONTROLLER").unwrap(),
        Controller::ProController
    );
    match Controller::from_str("GAMEPAD") {
        Err(UnknownController(name)) => assert_eq!(name, "GAMEPAD"),
        _ => panic!("expected UnknownController"),
    }
}

#[test]
fn controller_names_and_id_bytes() {
    assert_eq!(Controller::JoyconL.display_name(), "Joy-Con (L)");
    assert_eq!(Controller::JoyconR.display_name(), "Joy-Con (R)");
    assert_eq!(Controller::ProController.display_name(), "Pro Controller");
    assert_eq!(Controller::JoyconL.id_byte(), 0x01);
    assert_eq!(Controller::JoyconR.id_byte(), 0x02);
    assert_eq!(Controller::ProController.id_byte(), 0x03);
}

#[test]
fn fresh_flash_carries_the_default_calibration() {
    let flash = FlashMemory::new(None, None, None).unwrap();
    assert_eq!(flash.data.len(), 0x80000);
    assert_eq!(
        flash.get_factory_l_stick_calibration(),
        &[0x00, 0x07, 0x70, 0x00, 0x08, 0x80, 0x00, 0x07, 0x70]
    );
    assert_eq!(
        flash.get_factory_r_stick_calibration(),
        &[0x00, 0x08, 0x80, 0x00, 0x07, 0x70, 0x00, 0x07, 0x70]
    );
    // A fresh image is 0xFF elsewhere, so no user markers are set.
    assert!(flash.get_user_l_stick_calibration().is_none());
    assert!(flash.get_user_r_stick_calibration().is_none());
    assert_eq!(flash.data[0], 0xFF);
}

#[test]
fn flash_rejects_a_dump_of_the_wrong_size() {
    let short = vec![0u8; 100];
    match FlashMemory::new(Some(&short), None, None) {
        Err(SizeMismatch(given, expected)) => {
            assert_eq!(given, 100);
            assert_eq!(expected, 0x80000);
        }
        _ => panic!("expected SizeMismatch"),
    }
    // A matching custom size is accepted.
    let ok = FlashMemory::new(Some(&short), None, Some(100)).unwrap();
    assert_eq!(ok.data.len(), 100);
}

#[test]
fn supplied_dump_is_kept_verbatim_unless_default_calibration_is_asked() {
    let dump = vec![0x55u8; 0x80000];
    let flash = FlashMemory::new(Some(&dump), None, None).unwrap();
    assert_eq!(flash.get_factory_l_stick_calibration(), &[0x55; 9]);
    let flash = FlashMemory::new(Some(&dump), Some(true), None).unwrap();
    assert_eq!(
        flash.get_factory_l_stick_calibration(),
        &[0x00, 0x07, 0x70, 0x00, 0x08, 0x80, 0x00, 0x07, 0x70]
    );
}

#[test]
fn user_calibration_shadows_factory_records() {
    let mut dump = vec![0u8; 0x80000];
    dump[0x8010] = 0xB2;
    dump[0x8011] = 0xA1;
    for k in 0..9 {
        dump[0x8012 + k] = 0x10 + k as u8;
    }
    let flash = FlashMemory::new(Some(&dump), None, None).unwrap();
    let user = flash.get_user_l_stick_calibration().unwrap();
    assert_eq!(
        user,
        &[0x10, 0x11, 0x12, 0x13, 0x14, 0x15, 0x16, 0x17, 0x18]
    );
    assert!(flash.get_user_r_stick_calibration().is_none());

    let state = ControllerState::new(Controller::JoyconL, Some(flash));
    let stick = state.l_stick_state.unwrap();
    let cal = stick.get_calibration().unwrap();
    // Decoded from the user record, not the (all-zero) factory record:
    // the center pair comes from bytes 3..6 of the user bytes.
    assert_eq!(cal.h_center, 0x413);
    assert_eq!(cal.v_center, 0x151);
}

#[test]
fn session_state_matches_the_variant() {
    let flash = FlashMemory::new(None, None, None).unwrap();
    let pro = ControllerState::new(Controller::ProController, Some(flash));
    assert!(pro.l_stick_state.is_some());
    assert!(pro.r_stick_state.is_some());
    assert!(pro.nfc_content.is_none());
    // Sticks start centered on the decoded calibration.
    let l = pro.l_stick_state.unwrap();
    assert_eq!((l.get_h(), l.get_v()), (0x800, 0x800));

    let left = ControllerState::new(Controller::JoyconL, None);
    assert!(left.l_stick_state.is_some());
    assert!(left.r_stick_state.is_none());
    let right = ControllerState::new(Controller::JoyconR, None);
    assert!(right.l_stick_state.is_none());
    assert!(right.r_stick_state.is_some());
}

#[test]
fn session_without_an_image_has_uncalibrated_sticks() {
    let state = ControllerState::new(Controller::ProController, None);
    let stick = state.l_stick_state.unwrap();
    assert_eq!((stick.get_h(), stick.get_v()), (0, 0));
    assert!(stick.get_calibration().is_err());
}

#[test]
fn tag_accessors_round_trip() {
    let mut state = ControllerState::new(Controller::ProController, None);
    assert!(state.get_nfc().is_none());
    state.set_nfc(NFCTag::new(&[7u8; 540], None, None));
    assert_eq!(state.get_nfc().unwrap().data.len(), 540);
    assert_eq!(state.get_controller(), Controller::ProController);
    assert!(state.get_flash_memory().is_none());
}

#[test]
fn protocol_tracks_the_pairing_flag() {
    let p = ControllerProtocol::new(Controller::ProController, None, None).unwrap();
    assert!(p.is_pairing);
    let p = ControllerProtocol::new(Controller::ProController, None, Some(true)).unwrap();
    assert!(!p.is_pairing);
    let p = ControllerProtocol::new(Controller::ProController, None, Some(false)).unwrap();
    assert!(p.is_pairing);
}

#[test]
fn protocol_keeps_its_own_copy_of_the_image() {
    let flash = FlashMemory::new(None, None, None).unwrap();
    let p = ControllerProtocol::new(Controller::JoyconL, Some(flash), None).unwrap();
    assert!(p.spi_flash.is_some());
    assert!(p.controller_state.spi_flash.is_some());
    assert_eq!(p.controller, Controller::JoyconL);
}

#[test]
fn subcommand_delays_follow_the_schedule() {
    assert_eq!(
        subcommand_delay(0x3F),
        Some(ReportDelay::Seconds { numerator: 1, denominator: 1 })
    );
    assert_eq!(subcommand_delay(0x21), Some(ReportDelay::Never));
    assert_eq!(
        subcommand_delay(0x30),
        Some(ReportDelay::Seconds { numerator: 1, denominator: 60 })
    );
    assert_eq!(
        subcommand_delay(0x31),
        Some(ReportDelay::Seconds { numerator: 1, denominator: 60 })
    );
    assert_eq!(subcommand_delay(0x02), None);
}

#[test]
fn report_concatenates_buttons_sticks_and_frame() {
    let frame = pack_message(&[0x2a], None, None);
    let report = assemble_report(
        &[1, 2, 3],
        Some([4, 5, 6]),
        Some([7, 8, 9]),
        Some(&frame),
    );
    assert_eq!(report.len(), 3 + 3 + 3 + 313);
    assert_eq!(&report[..9], &[1, 2, 3, 4, 5, 6, 7, 8, 9]);
    assert_eq!(&report[9..], &frame[..]);
}

#[test]
fn report_without_a_frame_uses_the_sentinel() {
    let report = assemble_report(&[1, 2, 3], None, Some([7, 8, 9]), None);
    assert_eq!(report.len(), 3 + 3 + 313);
    assert_eq!(&report[..6], &[1, 2, 3, 7, 8, 9]);
    assert_eq!(&report[6..], &no_response_message()[..]);
}
