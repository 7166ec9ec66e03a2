use joyemu::Controller;
use joyemu::button_state::ButtonState;
use joyemu::button_state::ButtonStateError;
use joyemu::button_state::button_press;
use joyemu::button_state::button_release;
use joyemu::controller_state::ControllerState;

#[test]
fn available_buttons_sizes_match_variant() {
    let pro = ButtonState::new(Controller::ProController);
    let right = ButtonState::new(Controller::JoyconR);
    let left = ButtonState::new(Controller::JoyconL);
    assert_eq!(pro.get_available_buttons().len(), 18);
    assert_eq!(right.get_available_buttons().len(), 11);
    assert_eq!(left.get_available_buttons().len(), 11);
}

#[test]
fn set_button_rejects_unknown_names() {
    let mut pro = ButtonState::new(Controller::ProController);
    match pro.set_button("turbo", true) {
        Err(ButtonStateError::ButtonNotAvailable(name, c)) => {
            assert_eq!(name, "turbo");
            assert_eq!(c, Controller::ProController);
        }
        _ => panic!("expected ButtonNotAvailable"),
    }
    // The error carries the name lower-cased, as validation saw it.
    match pro.set_button("TurBo", true) {
        Err(ButtonStateError::ButtonNotAvailable(name, _)) => assert_eq!(name, "turbo"),
        _ => panic!("expected ButtonNotAvailable"),
    }
    // "sr" exists only on the half controllers.
    assert!(matches!(
        pro.set_button("sr", true),
        Err(ButtonStateError::ButtonNotAvailable(_, _))
    ));
    let mut left = ButtonState::new(Controller::JoyconL);
    assert!(matches!(
        left.set_button("home", true),
        Err(ButtonStateError::ButtonNotAvailable(_, _))
    ));
}

#[test]
fn set_button_is_case_insensitive() {
    let mut pro = ButtonState::new(Controller::ProController);
    pro.set_button("A", true).unwrap();
    assert_eq!(pro.get_button("a").unwrap(), true);
    pro.set_button("HOME", true).unwrap();
    assert_eq!(pro.get_button("Home").unwrap(), true);
    // An unknown name stays unknown in any case.
    assert!(pro.set_button("TURBO", true).is_err());
}

#[test]
fn as_bytes_with_only_a_pressed() {
    let mut pro = ButtonState::new(Controller::ProController);
    pro.set_button("a", true).unwrap();
    assert_eq!(pro.as_bytes(), [0x10, 0x00, 0x00]);
}

#[test]
fn as_bytes_with_only_zl_pressed() {
    let mut pro = ButtonState::new(Controller::ProController);
    pro.set_button("zl", true).unwrap();
    assert_eq!(pro.as_bytes(), [0x00, 0x00, 0x01]);
}

#[test]
fn as_bytes_right_half_layout() {
    let mut right = ButtonState::new(Controller::JoyconR);
    right.set_button("y", true).unwrap();
    right.set_button("sl", true).unwrap();
    right.set_button("home", true).unwrap();
    // Byte 2 is always zero on the right half.
    assert_eq!(right.as_bytes(), [0x84, 0x08, 0x00]);
}

#[test]
fn as_bytes_left_half_layout() {
    let mut left = ButtonState::new(Controller::JoyconL);
    left.set_button("minus", true).unwrap();
    left.set_button("capture", true).unwrap();
    left.set_button("down", true).unwrap();
    left.set_button("zl", true).unwrap();
    // Byte 0 is always zero on the left half.
    assert_eq!(left.as_bytes(), [0x00, 0x84, 0x81]);
}

#[test]
fn clear_yields_all_zero_bytes_on_every_variant() {
    for controller in [
        Controller::ProController,
        Controller::JoyconR,
        Controller::JoyconL,
    ] {
        let mut state = ButtonState::new(controller);
        let names: Vec<&'static str> = state.get_available_buttons();
        for name in names {
            state.set_button(name, true).unwrap();
        }
        state.clear();
        assert_eq!(state.as_bytes(), [0x00, 0x00, 0x00]);
    }
}

#[test]
fn button_press_rejects_empty_batch() {
    let mut state = ControllerState::new(Controller::ProController, None);
    let buttons: Vec<String> = vec![];
    assert!(matches!(
        button_press(&mut state, &buttons),
        Err(ButtonStateError::NoButtonsGiven)
    ));
}

#[test]
fn button_press_and_release_apply_whole_batch() {
    let mut state = ControllerState::new(Controller::ProController, None);
    let buttons = vec![String::from("a"), String::from("b")];
    button_press(&mut state, &buttons).unwrap();
    assert_eq!(state.button_state.get_button("a").unwrap(), true);
    assert_eq!(state.button_state.get_button("b").unwrap(), true);
    button_release(&mut state, &buttons).unwrap();
    assert_eq!(state.button_state.get_button("a").unwrap(), false);
    assert_eq!(state.button_state.get_button("b").unwrap(), false);
}

#[test]
fn button_press_stops_at_first_unknown_name() {
    let mut state = ControllerState::new(Controller::ProController, None);
    let buttons = vec![
        String::from("a"),
        String::from("turbo"),
        String::from("b"),
    ];
    assert!(matches!(
        button_press(&mut state, &buttons),
        Err(ButtonStateError::ButtonNotAvailable(_, _))
    ));
    // Names before the failure were applied, names after it were not.
    assert_eq!(state.button_state.get_button("a").unwrap(), true);
    assert_eq!(state.button_state.get_button("b").unwrap(), false);
}
