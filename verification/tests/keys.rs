use rlicker::keys::{key_name, push_decimal, BTN_LEFT, BTN_RIGHT, EV_KEY, KEY_A, KEY_ENTER, KEY_ESC};

#[test]
fn letters_and_digits() {
    assert_eq!(key_name(KEY_A), "A");
    assert_eq!(key_name(30), "A");
    assert_eq!(key_name(44), "Z");
    assert_eq!(key_name(2), "1");
    assert_eq!(key_name(11), "0");
}

#[test]
fn function_and_modifier_keys() {
    assert_eq!(key_name(59), "F1");
    assert_eq!(key_name(88), "F12");
    assert_eq!(key_name(42), "L.Shift");
    assert_eq!(key_name(126), "R.Meta");
    assert_eq!(key_name(KEY_ENTER), "Enter");
    assert_eq!(key_name(99), "PrtSc");
    assert_eq!(key_name(119), "Pause");
}

#[test]
fn numpad_keys() {
    assert_eq!(key_name(82), "Num0");
    assert_eq!(key_name(96), "Num Enter");
    assert_eq!(key_name(55), "Num *");
    assert_eq!(key_name(83), "Num .");
}

#[test]
fn unnamed_keys_show_their_code() {
    assert_eq!(key_name(0), "Key 0");
    assert_eq!(key_name(KEY_ESC), "Key 1");
    assert_eq!(key_name(BTN_LEFT), "Key 272");
    assert_eq!(key_name(BTN_RIGHT), "Key 273");
    assert_eq!(key_name(65535), "Key 65535");
    assert_eq!(key_name(240), "Key 240");
}

#[test]
fn decimal_rendering() {
    let mut s = String::from("x=");
    push_decimal(&mut s, 4_294_967_295);
    assert_eq!(s, "x=4294967295");
    let mut z = String::new();
    push_decimal(&mut z, 0);
    assert_eq!(z, "0");
    let mut t = String::new();
    push_decimal(&mut t, 1000);
    assert_eq!(t, "1000");
}

#[test]
fn event_codes() {
    assert_eq!(EV_KEY, 1);
    assert_eq!(BTN_LEFT, 0x110);
    assert_eq!(BTN_RIGHT, 0x111);
}
