//! Linux input key codes and the names the window shows for them.
//!
//! The codes are those of the kernel's input event interface, as evdev
//! exposes them.

use vstd::prelude::*;
use crate::fields::{digits_value, lemma_decimal_digits};

verus! {

/// Event type of key and button events (`EV_KEY`).
pub const EV_KEY: u16 = 1;
/// The Escape key, which cancels a hotkey capture.
pub const KEY_ESC: u16 = 1;
/// Left mouse button.
pub const BTN_LEFT: u16 = 272;
/// Right mouse button.
pub const BTN_RIGHT: u16 = 273;

// Letters
pub const KEY_A: u16 = 30;
pub const KEY_B: u16 = 48;
pub const KEY_C: u16 = 46;
pub const KEY_D: u16 = 32;
pub const KEY_E: u16 = 18;
pub const KEY_F: u16 = 33;
pub const KEY_G: u16 = 34;
pub const KEY_H: u16 = 35;
pub const KEY_I: u16 = 23;
pub const KEY_J: u16 = 36;
pub const KEY_K: u16 = 37;
pub const KEY_L: u16 = 38;
pub const KEY_M: u16 = 50;
pub const KEY_N: u16 = 49;
pub const KEY_O: u16 = 24;
pub const KEY_P: u16 = 25;
pub const KEY_Q: u16 = 16;
pub const KEY_R: u16 = 19;
pub const KEY_S: u16 = 31;
pub const KEY_T: u16 = 20;
pub const KEY_U: u16 = 22;
pub const KEY_V: u16 = 47;
pub const KEY_W: u16 = 17;
pub const KEY_X: u16 = 45;
pub const KEY_Y: u16 = 21;
pub const KEY_Z: u16 = 44;

// Numbers
pub const KEY_1: u16 = 2;
pub const KEY_2: u16 = 3;
pub const KEY_3: u16 = 4;
pub const KEY_4: u16 = 5;
pub const KEY_5: u16 = 6;
pub const KEY_6: u16 = 7;
pub const KEY_7: u16 = 8;
pub const KEY_8: u16 = 9;
pub const KEY_9: u16 = 10;
pub const KEY_0: u16 = 11;

// Function keys
pub const KEY_F1: u16 = 59;
pub const KEY_F2: u16 = 60;
pub const KEY_F3: u16 = 61;
pub const KEY_F4: u16 = 62;
pub const KEY_F5: u16 = 63;
pub const KEY_F6: u16 = 64;
pub const KEY_F7: u16 = 65;
pub const KEY_F8: u16 = 66;
pub const KEY_F9: u16 = 67;
pub const KEY_F10: u16 = 68;
pub const KEY_F11: u16 = 87;
pub const KEY_F12: u16 = 88;

// Modifiers & common
pub const KEY_LEFTSHIFT: u16 = 42;
pub const KEY_RIGHTSHIFT: u16 = 54;
pub const KEY_LEFTCTRL: u16 = 29;
pub const KEY_RIGHTCTRL: u16 = 97;
pub const KEY_LEFTALT: u16 = 56;
pub const KEY_RIGHTALT: u16 = 100;
pub const KEY_LEFTMETA: u16 = 125;
pub const KEY_RIGHTMETA: u16 = 126;
pub const KEY_TAB: u16 = 15;
pub const KEY_ENTER: u16 = 28;
pub const KEY_SPACE: u16 = 57;
pub const KEY_BACKSPACE: u16 = 14;
pub const KEY_DELETE: u16 = 111;
pub const KEY_INSERT: u16 = 110;
pub const KEY_HOME: u16 = 102;
pub const KEY_END: u16 = 107;
pub const KEY_PAGEUP: u16 = 104;
pub const KEY_PAGEDOWN: u16 = 109;
pub const KEY_UP: u16 = 103;
pub const KEY_DOWN: u16 = 108;
pub const KEY_LEFT: u16 = 105;
pub const KEY_RIGHT: u16 = 106;
pub const KEY_CAPSLOCK: u16 = 58;
pub const KEY_NUMLOCK: u16 = 69;
pub const KEY_SCROLLLOCK: u16 = 70;
pub const KEY_PAUSE: u16 = 119;
pub const KEY_SYSRQ: u16 = 99;

// Numpad
pub const KEY_KP0: u16 = 82;
pub const KEY_KP1: u16 = 79;
pub const KEY_KP2: u16 = 80;
pub const KEY_KP3: u16 = 81;
pub const KEY_KP4: u16 = 75;
pub const KEY_KP5: u16 = 76;
pub const KEY_KP6: u16 = 77;
pub const KEY_KP7: u16 = 71;
pub const KEY_KP8: u16 = 72;
pub const KEY_KP9: u16 = 73;
pub const KEY_KPENTER: u16 = 96;
pub const KEY_KPPLUS: u16 = 78;
pub const KEY_KPMINUS: u16 = 74;
pub const KEY_KPASTERISK: u16 = 55;
pub const KEY_KPSLASH: u16 = 98;
pub const KEY_KPDOT: u16 = 83;

/// The character of a decimal digit `d < 10`.
pub open spec fn digit_char(d: nat) -> char {
    (('0' as int) + d) as char
}

/// The decimal rendering of `n`, without leading zeros.
pub open spec fn decimal(n: nat) -> Seq<char>
    decreases n,
{
    if n < 10 {
        seq![digit_char(n)]
    } else {
        decimal(n / 10).push(digit_char(n % 10))
    }
}

fn digit_str(d: u16) -> (s: &'static str)
    requires
        d < 10,
    ensures
        s@ == seq![digit_char(d as nat)],
{
    proof {
        reveal_strlit("0");
        reveal_strlit("1");
        reveal_strlit("2");
        reveal_strlit("3");
        reveal_strlit("4");
        reveal_strlit("5");
        reveal_strlit("6");
        reveal_strlit("7");
        reveal_strlit("8");
        reveal_strlit("9");
    }
    match d {
        0 => "0",
        1 => "1",
        2 => "2",
        3 => "3",
        4 => "4",
        5 => "5",
        6 => "6",
        7 => "7",
        8 => "8",
        _ => "9",
    }
}

/// Appends the decimal rendering of `n` to `out`.
pub fn push_decimal(out: &mut String, n: u32)
    ensures
        final(out)@ == old(out)@ + decimal(n as nat),
    decreases n,
{
    if n >= 10 {
        push_decimal(out, n / 10);
    }
    out.append(digit_str((n % 10) as u16));
    proof {
        assert(old(out)@ + decimal(n as nat) =~= out@);
    }
}

/// The name of a key that has one of its own.
pub open spec fn key_label(code: u16) -> Option<Seq<char>> {
    match code {
        // Letters
        KEY_A => Some("A"@),
        KEY_B => Some("B"@),
        KEY_C => Some("C"@),
        KEY_D => Some("D"@),
        KEY_E => Some("E"@),
        KEY_F => Some("F"@),
        KEY_G => Some("G"@),
        KEY_H => Some("H"@),
        KEY_I => Some("I"@),
        KEY_J => Some("J"@),
        KEY_K => Some("K"@),
        KEY_L => Some("L"@),
        KEY_M => Some("M"@),
        KEY_N => Some("N"@),
        KEY_O => Some("O"@),
        KEY_P => Some("P"@),
        KEY_Q => Some("Q"@),
        KEY_R => Some("R"@),
        KEY_S => Some("S"@),
        KEY_T => Some("T"@),
        KEY_U => Some("U"@),
        KEY_V => Some("V"@),
        KEY_W => Some("W"@),
        KEY_X => Some("X"@),
        KEY_Y => Some("Y"@),
        KEY_Z => Some("Z"@),
        // Numbers
        KEY_1 => Some("1"@),
        KEY_2 => Some("2"@),
        KEY_3 => Some("3"@),
        KEY_4 => Some("4"@),
        KEY_5 => Some("5"@),
        KEY_6 => Some("6"@),
        KEY_7 => Some("7"@),
        KEY_8 => Some("8"@),
        KEY_9 => Some("9"@),
        KEY_0 => Some("0"@),
        // Function keys
        KEY_F1 => Some("F1"@),
        KEY_F2 => Some("F2"@),
        KEY_F3 => Some("F3"@),
        KEY_F4 => Some("F4"@),
        KEY_F5 => Some("F5"@),
        KEY_F6 => Some("F6"@),
        KEY_F7 => Some("F7"@),
        KEY_F8 => Some("F8"@),
        KEY_F9 => Some("F9"@),
        KEY_F10 => Some("F10"@),
        KEY_F11 => Some("F11"@),
        KEY_F12 => Some("F12"@),
        // Modifiers & common
        KEY_LEFTSHIFT => Some("L.Shift"@),
        KEY_RIGHTSHIFT => Some("R.Shift"@),
        KEY_LEFTCTRL => Some("L.Ctrl"@),
        KEY_RIGHTCTRL => Some("R.Ctrl"@),
        KEY_LEFTALT => Some("L.Alt"@),
        KEY_RIGHTALT => Some("R.Alt"@),
        KEY_LEFTMETA => Some("L.Meta"@),
        KEY_RIGHTMETA => Some("R.Meta"@),
        KEY_TAB => Some("Tab"@),
        KEY_ENTER => Some("Enter"@),
        KEY_SPACE => Some("Space"@),
        KEY_BACKSPACE => Some("Backspace"@),
        KEY_DELETE => Some("Delete"@),
        KEY_INSERT => Some("Insert"@),
        KEY_HOME => Some("Home"@),
        KEY_END => Some("End"@),
        KEY_PAGEUP => Some("PgUp"@),
        KEY_PAGEDOWN => Some("PgDn"@),
        KEY_UP => Some("Up"@),
        KEY_DOWN => Some("Down"@),
        KEY_LEFT => Some("Left"@),
        KEY_RIGHT => Some("Right"@),
        KEY_CAPSLOCK => Some("CapsLk"@),
        KEY_NUMLOCK => Some("NumLk"@),
        KEY_SCROLLLOCK => Some("ScrLk"@),
        KEY_PAUSE => Some("Pause"@),
        KEY_SYSRQ => Some("PrtSc"@),
        // Numpad
        KEY_KP0 => Some("Num0"@),
        KEY_KP1 => Some("Num1"@),
        KEY_KP2 => Some("Num2"@),
        KEY_KP3 => Some("Num3"@),
        KEY_KP4 => Some("Num4"@),
        KEY_KP5 => Some("Num5"@),
        KEY_KP6 => Some("Num6"@),
        KEY_KP7 => Some("Num7"@),
        KEY_KP8 => Some("Num8"@),
        KEY_KP9 => Some("Num9"@),
        KEY_KPENTER => Some("Num Enter"@),
        KEY_KPPLUS => Some("Num +"@),
        KEY_KPMINUS => Some("Num -"@),
        KEY_KPASTERISK => Some("Num *"@),
        KEY_KPSLASH => Some("Num /"@),
        KEY_KPDOT => Some("Num ."@),
        _ => None,
    }
}

/// The name shown for a key code: its own name where it has one, else
/// `Key ` followed by the code in decimal.
pub open spec fn key_name_of(code: u16) -> Seq<char> {
    match key_label(code) {
        Some(label) => label,
        None => "Key "@ + decimal(code as nat),
    }
}

/// Translates a key code to a human-readable name.
pub fn key_name(code: u16) -> (name: String)
    ensures
        name@ == key_name_of(code),
{
    match code {
        // Letters
        KEY_A => String::from_str("A"),
        KEY_B => String::from_str("B"),
        KEY_C => String::from_str("C"),
        KEY_D => String::from_str("D"),
        KEY_E => String::from_str("E"),
        KEY_F => String::from_str("F"),
        KEY_G => String::from_str("G"),
        KEY_H => String::from_str("H"),
        KEY_I => String::from_str("I"),
        KEY_J => String::from_str("J"),
        KEY_K => String::from_str("K"),
        KEY_L => String::from_str("L"),
        KEY_M => String::from_str("M"),
        KEY_N => String::from_str("N"),
        KEY_O => String::from_str("O"),
        KEY_P => String::from_str("P"),
        KEY_Q => String::from_str("Q"),
        KEY_R => String::from_str("R"),
        KEY_S => String::from_str("S"),
        KEY_T => String::from_str("T"),
        KEY_U => String::from_str("U"),
        KEY_V => String::from_str("V"),
        KEY_W => String::from_str("W"),
        KEY_X => String::from_str("X"),
        KEY_Y => String::from_str("Y"),
        KEY_Z => String::from_str("Z"),
        // Numbers
        KEY_1 => String::from_str("1"),
        KEY_2 => String::from_str("2"),
        KEY_3 => String::from_str("3"),
        KEY_4 => String::from_str("4"),
        KEY_5 => String::from_str("5"),
        KEY_6 => String::from_str("6"),
        KEY_7 => String::from_str("7"),
        KEY_8 => String::from_str("8"),
        KEY_9 => String::from_str("9"),
        KEY_0 => String::from_str("0"),
        // Function keys
        KEY_F1 => String::from_str("F1"),
        KEY_F2 => String::from_str("F2"),
        KEY_F3 => String::from_str("F3"),
        KEY_F4 => String::from_str("F4"),
        KEY_F5 => String::from_str("F5"),
        KEY_F6 => String::from_str("F6"),
        KEY_F7 => String::from_str("F7"),
        KEY_F8 => String::from_str("F8"),
        KEY_F9 => String::from_str("F9"),
        KEY_F10 => String::from_str("F10"),
        KEY_F11 => String::from_str("F11"),
        KEY_F12 => String::from_str("F12"),
        // Modifiers & common
        KEY_LEFTSHIFT => String::from_str("L.Shift"),
        KEY_RIGHTSHIFT => String::from_str("R.Shift"),
        KEY_LEFTCTRL => String::from_str("L.Ctrl"),
        KEY_RIGHTCTRL => String::from_str("R.Ctrl"),
        KEY_LEFTALT => String::from_str("L.Alt"),
        KEY_RIGHTALT => String::from_str("R.Alt"),
        KEY_LEFTMETA => String::from_str("L.Meta"),
        KEY_RIGHTMETA => String::from_str("R.Meta"),
        KEY_TAB => String::from_str("Tab"),
        KEY_ENTER => String::from_str("Enter"),
        KEY_SPACE => String::from_str("Space"),
        KEY_BACKSPACE => String::from_str("Backspace"),
        KEY_DELETE => String::from_str("Delete"),
        KEY_INSERT => String::from_str("Insert"),
        KEY_HOME => String::from_str("Home"),
        KEY_END => String::from_str("End"),
        KEY_PAGEUP => String::from_str("PgUp"),
        KEY_PAGEDOWN => String::from_str("PgDn"),
        KEY_UP => String::from_str("Up"),
        KEY_DOWN => String::from_str("Down"),
        KEY_LEFT => String::from_str("Left"),
        KEY_RIGHT => String::from_str("Right"),
        KEY_CAPSLOCK => String::from_str("CapsLk"),
        KEY_NUMLOCK => String::from_str("NumLk"),
        KEY_SCROLLLOCK => String::from_str("ScrLk"),
        KEY_PAUSE => String::from_str("Pause"),
        KEY_SYSRQ => String::from_str("PrtSc"),
        // Numpad
        KEY_KP0 => String::from_str("Num0"),
        KEY_KP1 => String::from_str("Num1"),
        KEY_KP2 => String::from_str("Num2"),
        KEY_KP3 => String::from_str("Num3"),
        KEY_KP4 => String::from_str("Num4"),
        KEY_KP5 => String::from_str("Num5"),
        KEY_KP6 => String::from_str("Num6"),
        KEY_KP7 => String::from_str("Num7"),
        KEY_KP8 => String::from_str("Num8"),
        KEY_KP9 => String::from_str("Num9"),
        KEY_KPENTER => String::from_str("Num Enter"),
        KEY_KPPLUS => String::from_str("Num +"),
        KEY_KPMINUS => String::from_str("Num -"),
        KEY_KPASTERISK => String::from_str("Num *"),
        KEY_KPSLASH => String::from_str("Num /"),
        KEY_KPDOT => String::from_str("Num ."),
        _ => {
            let mut name = String::from_str("Key ");
            push_decimal(&mut name, code as u32);
            name
        },
    }
}

/// A number that tells the key names apart: made of a name's length, its
/// first two characters and its last.
pub open spec fn fingerprint(s: Seq<char>) -> int {
    let second = if s.len() > 1 { s[1] } else { s[0] };
    s.len() * 0x8000_0000_0000_0000 + (s[0] as int) * 0x400_0000_0000 + (second as int)
        * 0x20_0000 + (s[s.len() - 1] as int)
}

/// The key whose name has fingerprint `v`.
pub open spec fn code_of_fingerprint(v: int) -> u16 {
    if v == 9223657910014312513 {
        KEY_A
    } else     if v == 9223662308062920770 {
        KEY_B
    } else     if v == 9223666706111529027 {
        KEY_C
    } else     if v == 9223671104160137284 {
        KEY_D
    } else     if v == 9223675502208745541 {
        KEY_E
    } else     if v == 9223679900257353798 {
        KEY_F
    } else     if v == 9223684298305962055 {
        KEY_G
    } else     if v == 9223688696354570312 {
        KEY_H
    } else     if v == 9223693094403178569 {
        KEY_I
    } else     if v == 9223697492451786826 {
        KEY_J
    } else     if v == 9223701890500395083 {
        KEY_K
    } else     if v == 9223706288549003340 {
        KEY_L
    } else     if v == 9223710686597611597 {
        KEY_M
    } else     if v == 9223715084646219854 {
        KEY_N
    } else     if v == 9223719482694828111 {
        KEY_O
    } else     if v == 9223723880743436368 {
        KEY_P
    } else     if v == 9223728278792044625 {
        KEY_Q
    } else     if v == 9223732676840652882 {
        KEY_R
    } else     if v == 9223737074889261139 {
        KEY_S
    } else     if v == 9223741472937869396 {
        KEY_T
    } else     if v == 9223745870986477653 {
        KEY_U
    } else     if v == 9223750269035085910 {
        KEY_V
    } else     if v == 9223754667083694167 {
        KEY_W
    } else     if v == 9223759065132302424 {
        KEY_X
    } else     if v == 9223763463180910681 {
        KEY_Y
    } else     if v == 9223767861229518938 {
        KEY_Z
    } else     if v == 9223587541236580401 {
        KEY_1
    } else     if v == 9223591939285188658 {
        KEY_2
    } else     if v == 9223596337333796915 {
        KEY_3
    } else     if v == 9223600735382405172 {
        KEY_4
    } else     if v == 9223605133431013429 {
        KEY_5
    } else     if v == 9223609531479621686 {
        KEY_6
    } else     if v == 9223613929528229943 {
        KEY_7
    } else     if v == 9223618327576838200 {
        KEY_8
    } else     if v == 9223622725625446457 {
        KEY_9
    } else     if v == 9223583143187972144 {
        KEY_0
    } else     if v == 18447051937068089393 {
        KEY_F1
    } else     if v == 18447051937070186546 {
        KEY_F2
    } else     if v == 18447051937072283699 {
        KEY_F3
    } else     if v == 18447051937074380852 {
        KEY_F4
    } else     if v == 18447051937076478005 {
        KEY_F5
    } else     if v == 18447051937078575158 {
        KEY_F6
    } else     if v == 18447051937080672311 {
        KEY_F7
    } else     if v == 18447051937082769464 {
        KEY_F8
    } else     if v == 18447051937084866617 {
        KEY_F9
    } else     if v == 27670423973922865200 {
        KEY_F10
    } else     if v == 27670423973922865201 {
        KEY_F11
    } else     if v == 27670423973922865202 {
        KEY_F12
    } else     if v == 64563938509614743668 {
        KEY_LEFTSHIFT
    } else     if v == 64563964897893810292 {
        KEY_RIGHTSHIFT
    } else     if v == 55340566472759967852 {
        KEY_LEFTCTRL
    } else     if v == 55340592861039034476 {
        KEY_RIGHTCTRL
    } else     if v == 46117194435905192052 {
        KEY_LEFTALT
    } else     if v == 46117220824184258676 {
        KEY_RIGHTALT
    } else     if v == 55340566472759967841 {
        KEY_LEFTMETA
    } else     if v == 55340592861039034465 {
        KEY_RIGHTMETA
    } else     if v == 27670485546674684002 {
        KEY_TAB
    } else     if v == 46117163649713832050 {
        KEY_ENTER
    } else     if v == 46117225222369181797 {
        KEY_SPACE
    } else     if v == 83010638602966138981 {
        KEY_BACKSPACE
    } else     if v == 55340531288503222373 {
        KEY_DELETE
    } else     if v == 55340553278754652276 {
        KEY_INSERT
    } else     if v == 36893804807000686693 {
        KEY_HOME
    } else     if v == 27670419576004280420 {
        KEY_END
    } else     if v == 36893839991355998320 {
        KEY_PAGEUP
    } else     if v == 36893839991355998318 {
        KEY_PAGEDOWN
    } else     if v == 18447117907897876592 {
        KEY_UP
    } else     if v == 36893787214814642286 {
        KEY_DOWN
    } else     if v == 36893822399165759604 {
        KEY_LEFT
    } else     if v == 46117220824307990644 {
        KEY_RIGHT
    } else     if v == 55340526890448322667 {
        KEY_CAPSLOCK
    } else     if v == 46117203232147112043 {
        KEY_NUMLOCK
    } else     if v == 46117225222341918827 {
        KEY_SCROLLLOCK
    } else     if v == 46117212028198191205 {
        KEY_PAUSE
    } else     if v == 46117212028233842787 {
        KEY_SYSRQ
    } else     if v == 36893831195292336176 {
        KEY_KP0
    } else     if v == 36893831195292336177 {
        KEY_KP1
    } else     if v == 36893831195292336178 {
        KEY_KP2
    } else     if v == 36893831195292336179 {
        KEY_KP3
    } else     if v == 36893831195292336180 {
        KEY_KP4
    } else     if v == 36893831195292336181 {
        KEY_KP5
    } else     if v == 36893831195292336182 {
        KEY_KP6
    } else     if v == 36893831195292336183 {
        KEY_KP7
    } else     if v == 36893831195292336184 {
        KEY_KP8
    } else     if v == 36893831195292336185 {
        KEY_KP9
    } else     if v == 83010691379566215282 {
        KEY_KPENTER
    } else     if v == 46117203232147111979 {
        KEY_KPPLUS
    } else     if v == 46117203232147111981 {
        KEY_KPMINUS
    } else     if v == 46117203232147111978 {
        KEY_KPASTERISK
    } else     if v == 46117203232147111983 {
        KEY_KPSLASH
    } else     if v == 46117203232147111982 {
        KEY_KPDOT
    } else {
        0
    }
}

/// The key names tell their keys apart by their fingerprints, and the only
/// one that starts with `K` is `K` itself.
#[verifier::spinoff_prover]
#[verifier::rlimit(100)]
proof fn lemma_label_fingerprint(code: u16)
    requires
        key_label(code) is Some,
    ensures
        code_of_fingerprint(fingerprint(key_label(code)->0)) == code,
        (key_label(code)->0).len() > 0,
        (key_label(code)->0)[0] == 'K' ==> (key_label(code)->0).len() == 1,
{
    reveal_strlit("A");
    reveal_strlit("B");
    reveal_strlit("C");
    reveal_strlit("D");
    reveal_strlit("E");
    reveal_strlit("F");
    reveal_strlit("G");
    reveal_strlit("H");
    reveal_strlit("I");
    reveal_strlit("J");
    reveal_strlit("K");
    reveal_strlit("L");
    reveal_strlit("M");
    reveal_strlit("N");
    reveal_strlit("O");
    reveal_strlit("P");
    reveal_strlit("Q");
    reveal_strlit("R");
    reveal_strlit("S");
    reveal_strlit("T");
    reveal_strlit("U");
    reveal_strlit("V");
    reveal_strlit("W");
    reveal_strlit("X");
    reveal_strlit("Y");
    reveal_strlit("Z");
    reveal_strlit("1");
    reveal_strlit("2");
    reveal_strlit("3");
    reveal_strlit("4");
    reveal_strlit("5");
    reveal_strlit("6");
    reveal_strlit("7");
    reveal_strlit("8");
    reveal_strlit("9");
    reveal_strlit("0");
    reveal_strlit("F1");
    reveal_strlit("F2");
    reveal_strlit("F3");
    reveal_strlit("F4");
    reveal_strlit("F5");
    reveal_strlit("F6");
    reveal_strlit("F7");
    reveal_strlit("F8");
    reveal_strlit("F9");
    reveal_strlit("F10");
    reveal_strlit("F11");
    reveal_strlit("F12");
    reveal_strlit("L.Shift");
    reveal_strlit("R.Shift");
    reveal_strlit("L.Ctrl");
    reveal_strlit("R.Ctrl");
    reveal_strlit("L.Alt");
    reveal_strlit("R.Alt");
    reveal_strlit("L.Meta");
    reveal_strlit("R.Meta");
    reveal_strlit("Tab");
    reveal_strlit("Enter");
    reveal_strlit("Space");
    reveal_strlit("Backspace");
    reveal_strlit("Delete");
    reveal_strlit("Insert");
    reveal_strlit("Home");
    reveal_strlit("End");
    reveal_strlit("PgUp");
    reveal_strlit("PgDn");
    reveal_strlit("Up");
    reveal_strlit("Down");
    reveal_strlit("Left");
    reveal_strlit("Right");
    reveal_strlit("CapsLk");
    reveal_strlit("NumLk");
    reveal_strlit("ScrLk");
    reveal_strlit("Pause");
    reveal_strlit("PrtSc");
    reveal_strlit("Num0");
    reveal_strlit("Num1");
    reveal_strlit("Num2");
    reveal_strlit("Num3");
    reveal_strlit("Num4");
    reveal_strlit("Num5");
    reveal_strlit("Num6");
    reveal_strlit("Num7");
    reveal_strlit("Num8");
    reveal_strlit("Num9");
    reveal_strlit("Num Enter");
    reveal_strlit("Num +");
    reveal_strlit("Num -");
    reveal_strlit("Num *");
    reveal_strlit("Num /");
    reveal_strlit("Num .");
}

/// Distinct key codes get distinct names, so the name shown identifies the
/// hotkey.
pub proof fn lemma_key_names_distinct(a: u16, b: u16)
    requires
        key_name_of(a) == key_name_of(b),
    ensures
        a == b,
{
    reveal_strlit("Key ");
    if key_label(a) is Some {
        lemma_label_fingerprint(a);
        if key_label(b) is Some {
            lemma_label_fingerprint(b);
        } else {
            lemma_decimal_digits(b as nat);
            assert(key_name_of(b)[0] == 'K');
            assert(key_name_of(b).len() >= 5);
        }
    } else if key_label(b) is Some {
        lemma_label_fingerprint(b);
        lemma_decimal_digits(a as nat);
        assert(key_name_of(a)[0] == 'K');
        assert(key_name_of(a).len() >= 5);
    } else {
        lemma_decimal_digits(a as nat);
        lemma_decimal_digits(b as nat);
        assert(key_name_of(a).subrange(4, key_name_of(a).len() as int) =~= decimal(a as nat));
        assert(key_name_of(b).subrange(4, key_name_of(b).len() as int) =~= decimal(b as nat));
        assert(digits_value(decimal(a as nat)) == digits_value(decimal(b as nat)));
    }
}

} // verus!
