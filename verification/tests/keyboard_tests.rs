use lib::keyboard::{
    KeyCode, KeyDirection, KeyError, KeyEvent, KeyModifiers, Keyboard, KeyboardState, EXTENDED_KEY_CODE,
};

const SCANCODE_ENTER_PRESS: u8 = 0x1c;
const SCANCODE_LCTRL_PRESS: u8 = 0x1d;
const SCANCODE_ALT_GR_RELEASE: u8 = 0xb8;
const SCANCODE_X_PRESS: u8 = 0x2d;
const SCANCODE_ARROW_UP_PRESS: u8 = 0x48;
const SCANCODE_SEMICOLON_RELEASE: u8 = 0xa7;
const SCANCODE_BAD: u8 = 0xff;

#[test]
fn test_enter_press() {
    let mut kbd = Keyboard::new();
    let event = kbd.process_byte(SCANCODE_ENTER_PRESS);
    assert_eq!(
        event,
        Ok(Some(KeyEvent { keycode: KeyCode::Enter, key_modifiers: KeyModifiers::new(), direction: KeyDirection::Down }))
    );
}

#[test]
fn test_left_ctrl_press() {
    let mut kbd = Keyboard::new();
    let event = kbd.process_byte(SCANCODE_LCTRL_PRESS);
    assert_eq!(event, Ok(None));
}

#[test]
fn test_alt_gr_release() {
    let mut kbd = Keyboard::new();
    kbd.state = KeyboardState::Extended;
    kbd.modifiers.alt_gr = true;

    let event = kbd.process_byte(SCANCODE_ALT_GR_RELEASE);
    assert_eq!(event, Ok(None));
    assert!(!kbd.modifiers.alt_gr);
    assert_eq!(kbd.state, KeyboardState::Start);
}

#[test]
fn test_left_shift_x_press() {
    let mut kbd = Keyboard::new();
    kbd.modifiers.lshift = true;

    let event = kbd.process_byte(SCANCODE_X_PRESS);
    let mut expected_modifiers = KeyModifiers::new();
    expected_modifiers.lshift = true;
    assert_eq!(
        event,
        Ok(Some(KeyEvent { keycode: KeyCode::X, key_modifiers: expected_modifiers, direction: KeyDirection::Down }))
    )
}

#[test]
fn test_arrow_up_down() {
    let mut kbd = Keyboard::new();
    let event1 = kbd.process_byte(EXTENDED_KEY_CODE);
    assert_eq!(event1, Ok(None));
    let event2 = kbd.process_byte(SCANCODE_ARROW_UP_PRESS);
    assert_eq!(
        event2,
        Ok(Some(KeyEvent { keycode: KeyCode::ArrowUp, key_modifiers: KeyModifiers::new(), direction: KeyDirection::Down }))
    )
}

#[test]
fn test_semicolon_up() {
    let mut kbd = Keyboard::new();
    let event = kbd.process_byte(SCANCODE_SEMICOLON_RELEASE);
    assert_eq!(
        event,
        Ok(Some(KeyEvent { keycode: KeyCode::SemiColon, key_modifiers: KeyModifiers::new(), direction: KeyDirection::Up }))
    );
}

#[test]
fn test_bad_keycode() {
    let mut kbd = Keyboard::new();
    let event = kbd.process_byte(SCANCODE_BAD);
    assert_eq!(event, Err(KeyError::UnknownScancode));
}

#[test]
fn shift_release_clears_the_modifier() {
    let mut kbd = Keyboard::new();
    assert_eq!(kbd.process_byte(0x2a), Ok(None));
    assert!(kbd.modifiers.lshift);
    assert_eq!(kbd.process_byte(0xaa), Ok(None));
    assert!(!kbd.modifiers.lshift);
}

#[test]
fn unknown_extended_code_is_an_error_and_resets() {
    let mut kbd = Keyboard::new();
    assert_eq!(kbd.process_byte(EXTENDED_KEY_CODE), Ok(None));
    assert_eq!(kbd.state, KeyboardState::Extended);
    assert_eq!(kbd.process_byte(0x01), Err(KeyError::UnknownScancode));
    assert_eq!(kbd.state, KeyboardState::Start);
}
