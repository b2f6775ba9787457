use chip8::keypad::Keys;

#[test]
fn new_keys_are_all_up() {
    let keys = Keys::new();
    for key in 0..=255u8 {
        assert!(!keys.is_held(key));
    }
    assert_eq!(keys.first_pressed(), None);
}

#[test]
fn hold_marks_a_key_as_down_only() {
    let mut keys = Keys::new();
    keys.hold(5);
    assert!(keys.is_held(5));
    assert!(!keys.is_held(4));
    assert_eq!(keys.first_pressed(), None);
}

#[test]
fn press_marks_a_key_as_down_and_as_gone_down() {
    let mut keys = Keys::new();
    keys.press(0xF);
    assert!(keys.is_held(0xF));
    assert_eq!(keys.first_pressed(), Some(0xF));
}

#[test]
fn first_pressed_is_the_lowest() {
    let mut keys = Keys::new();
    keys.press(9);
    keys.press(3);
    keys.press(12);
    keys.hold(1);
    assert_eq!(keys.first_pressed(), Some(3));
    let mut zero = Keys::new();
    zero.press(0);
    zero.press(15);
    assert_eq!(zero.first_pressed(), Some(0));
}

#[test]
fn values_above_fifteen_name_no_key() {
    let mut keys = Keys::new();
    keys.hold(16);
    keys.press(200);
    assert_eq!(keys.held, [false; 16]);
    assert_eq!(keys.pressed, [false; 16]);
    keys.held = [true; 16];
    assert!(keys.is_held(15));
    assert!(!keys.is_held(16));
    assert!(!keys.is_held(255));
}
