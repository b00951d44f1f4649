#![allow(non_upper_case_globals)]

//! From the key codes of a browser to the key symbols of X11, which the
//! protocol speaks.

use vstd::prelude::*;

verus! {

/// The symbol of a key that stands alone: editing, navigation, locks and the
/// keypad's operators.
pub open spec fn plain_key(which: u32) -> Option<u32> {
    if which == 8 {
        Some(0xFF08)
    }     else if which == 9 {
        Some(0xFF09)
    }     else if which == 13 {
        Some(0xFF0A)
    }     else if which == 19 {
        Some(0xFF13)
    }     else if which == 20 {
        Some(0xFFE5)
    }     else if which == 27 {
        Some(0xFF1B)
    }     else if which == 32 {
        Some(0x20)
    }     else if which == 33 {
        Some(0xFF55)
    }     else if which == 34 {
        Some(0xFF56)
    }     else if which == 35 {
        Some(0xFF57)
    }     else if which == 36 {
        Some(0xFF50)
    }     else if which == 44 {
        Some(0x1008FF2D)
    }     else if which == 45 {
        Some(0xFF63)
    }     else if which == 46 {
        Some(0xFFFF)
    }     else if which == 91 {
        Some(0xFFE7)
    }     else if which == 92 {
        Some(0xFFE8)
    }     else if which == 93 {
        Some(0xFF67)
    }     else if which == 106 {
        Some(0xFFAA)
    }     else if which == 107 {
        Some(0xFFAB)
    }     else if which == 109 {
        Some(0xFFAD)
    }     else if which == 110 {
        Some(0xFFAE)
    }     else if which == 111 {
        Some(0xFFAF)
    }     else if which == 144 {
        Some(0xFF7F)
    }     else if which == 145 {
        Some(0xFF14)
    } else {
        None
    }
}

/// The symbols of a punctuation key: with shift, and without.
pub open spec fn punctuation_key(which: u32) -> Option<(u32, u32)> {
    if which == 186 {
        Some((0x3a, 0x3b))
    }     else if which == 187 {
        Some((0x2b, 0x3d))
    }     else if which == 188 {
        Some((0x3c, 0x2c))
    }     else if which == 189 {
        Some((0x5f, 0x2d))
    }     else if which == 190 {
        Some((0x3e, 0x2e))
    }     else if which == 191 {
        Some((0x3f, 0x2f))
    }     else if which == 192 {
        Some((0x7e, 0x60))
    }     else if which == 219 {
        Some((0x7b, 0x5b))
    }     else if which == 220 {
        Some((0x7c, 0x5c))
    }     else if which == 221 {
        Some((0x7d, 0x5d))
    }     else if which == 222 {
        Some((0x27, 0x22))
    } else {
        None
    }
}

/// The symbol on the digit key `digit` when shift is down.
pub open spec fn shifted_digit(digit: int) -> u32 {
    seq![0x29u32, 0x21, 0x40, 0x23, 0x24, 0x25, 0x5e, 0x26, 0x2a, 0x28][digit]
}

/// The symbols of a key that the keyboard has on both sides: on the left,
/// and on the right.
pub open spec fn sided_key(which: u32) -> Option<(u32, u32)> {
    if which == 16 {
        Some((0xFFE1, 0xFFE2))
    } else if which == 17 {
        Some((0xFFE3, 0xFFE4))
    } else if which == 18 {
        Some((0xFFE9, 0xFFEA))
    } else {
        None
    }
}

/// The X11 symbol for a key event of a browser: `which` is the key's code,
/// `location` says on which side of the keyboard the key is (2 is the right),
/// `shift` and `capslock` say whether these are on. Letters are upper case if
/// exactly one of shift and caps lock is on. A code that the table does not
/// have stands for itself.
pub open spec fn keysym(which: u32, location: u32, shift: bool, capslock: bool) -> u32 {
    if 65 <= which <= 90 {
        if shift != capslock {
            which
        } else {
            (which + 32) as u32
        }
    } else if 48 <= which <= 57 {
        if shift {
            shifted_digit(which - 48)
        } else {
            which
        }
    } else if 96 <= which <= 105 {
        (0xFFB0 + (which - 96)) as u32
    } else if 112 <= which <= 123 {
        (0xFFBE + (which - 112)) as u32
    } else if 37 <= which <= 40 {
        (0xFF51 + (which - 37)) as u32
    } else {
        match sided_key(which) {
            Some((left, right)) => if location == 2 {
                right
            } else {
                left
            },
            None => match punctuation_key(which) {
                Some((shifted, plain)) => if shift {
                    shifted
                } else {
                    plain
                },
                None => match plain_key(which) {
                    Some(key) => key,
                    None => which,
                },
            },
        }
    }
}

pub const XK_BackSpace: u32 = 0xFF08;
pub const XK_Tab: u32 = 0xFF09;
pub const XK_Linefeed: u32 = 0xFF0A;
pub const XK_Pause: u32 = 0xFF13;
pub const XK_Caps_Lock: u32 = 0xFFE5;
pub const XK_Escape: u32 = 0xFF1B;
pub const XK_space: u32 = 0x20;
pub const XK_Page_Up: u32 = 0xFF55;
pub const XK_Page_Down: u32 = 0xFF56;
pub const XK_End: u32 = 0xFF57;
pub const XK_Home: u32 = 0xFF50;
pub const XF86XK_ScreenSaver: u32 = 0x1008FF2D;
pub const XK_Insert: u32 = 0xFF63;
pub const XK_Delete: u32 = 0xFFFF;
pub const XK_Meta_L: u32 = 0xFFE7;
pub const XK_Meta_R: u32 = 0xFFE8;
pub const XK_Menu: u32 = 0xFF67;
pub const XK_KP_Multiply: u32 = 0xFFAA;
pub const XK_KP_Add: u32 = 0xFFAB;
pub const XK_KP_Subtract: u32 = 0xFFAD;
pub const XK_KP_Decimal: u32 = 0xFFAE;
pub const XK_KP_Divide: u32 = 0xFFAF;
pub const XK_Num_Lock: u32 = 0xFF7F;
pub const XK_Scroll_Lock: u32 = 0xFF14;
pub const XK_Shift_L: u32 = 0xFFE1;
pub const XK_Shift_R: u32 = 0xFFE2;
pub const XK_Control_L: u32 = 0xFFE3;
pub const XK_Control_R: u32 = 0xFFE4;
pub const XK_Alt_L: u32 = 0xFFE9;
pub const XK_Alt_R: u32 = 0xFFEA;
pub const XK_Left: u32 = 0xFF51;
pub const XK_Up: u32 = 0xFF52;
pub const XK_Right: u32 = 0xFF53;
pub const XK_Down: u32 = 0xFF54;
pub const XK_F1: u32 = 0xFFBE;
pub const XK_F2: u32 = 0xFFBF;
pub const XK_F3: u32 = 0xFFC0;
pub const XK_F4: u32 = 0xFFC1;
pub const XK_F5: u32 = 0xFFC2;
pub const XK_F6: u32 = 0xFFC3;
pub const XK_F7: u32 = 0xFFC4;
pub const XK_F8: u32 = 0xFFC5;
pub const XK_F9: u32 = 0xFFC6;
pub const XK_F10: u32 = 0xFFC7;
pub const XK_F11: u32 = 0xFFC8;
pub const XK_F12: u32 = 0xFFC9;
pub const XK_KP_0: u32 = 0xFFB0;
pub const XK_KP_1: u32 = 0xFFB1;
pub const XK_KP_2: u32 = 0xFFB2;
pub const XK_KP_3: u32 = 0xFFB3;
pub const XK_KP_4: u32 = 0xFFB4;
pub const XK_KP_5: u32 = 0xFFB5;
pub const XK_KP_6: u32 = 0xFFB6;
pub const XK_KP_7: u32 = 0xFFB7;
pub const XK_KP_8: u32 = 0xFFB8;
pub const XK_KP_9: u32 = 0xFFB9;
pub const XK_0: u32 = 0x30;
pub const XK_1: u32 = 0x31;
pub const XK_2: u32 = 0x32;
pub const XK_3: u32 = 0x33;
pub const XK_4: u32 = 0x34;
pub const XK_5: u32 = 0x35;
pub const XK_6: u32 = 0x36;
pub const XK_7: u32 = 0x37;
pub const XK_8: u32 = 0x38;
pub const XK_9: u32 = 0x39;
pub const XK_A: u32 = 0x41;
pub const XK_B: u32 = 0x42;
pub const XK_C: u32 = 0x43;
pub const XK_D: u32 = 0x44;
pub const XK_E: u32 = 0x45;
pub const XK_F: u32 = 0x46;
pub const XK_G: u32 = 0x47;
pub const XK_H: u32 = 0x48;
pub const XK_I: u32 = 0x49;
pub const XK_J: u32 = 0x4A;
pub const XK_K: u32 = 0x4B;
pub const XK_L: u32 = 0x4C;
pub const XK_M: u32 = 0x4D;
pub const XK_N: u32 = 0x4E;
pub const XK_O: u32 = 0x4F;
pub const XK_P: u32 = 0x50;
pub const XK_Q: u32 = 0x51;
pub const XK_R: u32 = 0x52;
pub const XK_S: u32 = 0x53;
pub const XK_T: u32 = 0x54;
pub const XK_U: u32 = 0x55;
pub const XK_V: u32 = 0x56;
pub const XK_W: u32 = 0x57;
pub const XK_X: u32 = 0x58;
pub const XK_Y: u32 = 0x59;
pub const XK_Z: u32 = 0x5A;
pub const XK_a: u32 = 0x61;
pub const XK_b: u32 = 0x62;
pub const XK_c: u32 = 0x63;
pub const XK_d: u32 = 0x64;
pub const XK_e: u32 = 0x65;
pub const XK_f: u32 = 0x66;
pub const XK_g: u32 = 0x67;
pub const XK_h: u32 = 0x68;
pub const XK_i: u32 = 0x69;
pub const XK_j: u32 = 0x6A;
pub const XK_k: u32 = 0x6B;
pub const XK_l: u32 = 0x6C;
pub const XK_m: u32 = 0x6D;
pub const XK_n: u32 = 0x6E;
pub const XK_o: u32 = 0x6F;
pub const XK_p: u32 = 0x70;
pub const XK_q: u32 = 0x71;
pub const XK_r: u32 = 0x72;
pub const XK_s: u32 = 0x73;
pub const XK_t: u32 = 0x74;
pub const XK_u: u32 = 0x75;
pub const XK_v: u32 = 0x76;
pub const XK_w: u32 = 0x77;
pub const XK_x: u32 = 0x78;
pub const XK_y: u32 = 0x79;
pub const XK_z: u32 = 0x7A;
pub const XK_colon: u32 = 0x3A;
pub const XK_semicolon: u32 = 0x3B;
pub const XK_plus: u32 = 0x2B;
pub const XK_equal: u32 = 0x3D;
pub const XK_less: u32 = 0x3C;
pub const XK_comma: u32 = 0x2C;
pub const XK_underscore: u32 = 0x5F;
pub const XK_minus: u32 = 0x2D;
pub const XK_greater: u32 = 0x3E;
pub const XK_period: u32 = 0x2E;
pub const XK_question: u32 = 0x3F;
pub const XK_slash: u32 = 0x2F;
pub const XK_asciitilde: u32 = 0x7E;
pub const XK_grave: u32 = 0x60;
pub const XK_braceleft: u32 = 0x7B;
pub const XK_bracketleft: u32 = 0x5B;
pub const XK_bar: u32 = 0x7C;
pub const XK_backslash: u32 = 0x5C;
pub const XK_braceright: u32 = 0x7D;
pub const XK_bracketright: u32 = 0x5D;
pub const XK_quoteright: u32 = 0x27;
pub const XK_quotedbl: u32 = 0x22;
pub const XK_parenright: u32 = 0x29;
pub const XK_exclam: u32 = 0x21;
pub const XK_at: u32 = 0x40;
pub const XK_numbersign: u32 = 0x23;
pub const XK_dollar: u32 = 0x24;
pub const XK_percent: u32 = 0x25;
pub const XK_asciicircum: u32 = 0x5E;
pub const XK_ampersand: u32 = 0x26;
pub const XK_asterisk: u32 = 0x2A;
pub const XK_parenleft: u32 = 0x28;

/// The keyboard of a browser, as X11 names its keys.
pub struct KeyboardUtils;

impl KeyboardUtils {
    /// The X11 symbol for a key event of a browser.
    pub fn get_keysym(which: u32, location: u32, shift: bool, capslock: bool) -> (key: u32)
        ensures
            key == keysym(which, location, shift, capslock),
    {
        let upper = capslock != shift;
        match which {
            8 => XK_BackSpace,
            9 => XK_Tab,
            13 => XK_Linefeed,
            16 => if location == 2 { XK_Shift_R } else { XK_Shift_L },
            17 => if location == 2 { XK_Control_R } else { XK_Control_L },
            18 => if location == 2 { XK_Alt_R } else { XK_Alt_L },
            19 => XK_Pause,
            20 => XK_Caps_Lock,
            27 => XK_Escape,
            32 => XK_space,
            33 => XK_Page_Up,
            34 => XK_Page_Down,
            35 => XK_End,
            36 => XK_Home,
            37 => XK_Left,
            38 => XK_Up,
            39 => XK_Right,
            40 => XK_Down,
            44 => XF86XK_ScreenSaver,
            45 => XK_Insert,
            46 => XK_Delete,
            48 => if shift { XK_parenright } else { XK_0 },
            49 => if shift { XK_exclam } else { XK_1 },
            50 => if shift { XK_at } else { XK_2 },
            51 => if shift { XK_numbersign } else { XK_3 },
            52 => if shift { XK_dollar } else { XK_4 },
            53 => if shift { XK_percent } else { XK_5 },
            54 => if shift { XK_asciicircum } else { XK_6 },
            55 => if shift { XK_ampersand } else { XK_7 },
            56 => if shift { XK_asterisk } else { XK_8 },
            57 => if shift { XK_parenleft } else { XK_9 },
            65 => if upper { XK_A } else { XK_a },
            66 => if upper { XK_B } else { XK_b },
            67 => if upper { XK_C } else { XK_c },
            68 => if upper { XK_D } else { XK_d },
            69 => if upper { XK_E } else { XK_e },
            70 => if upper { XK_F } else { XK_f },
            71 => if upper { XK_G } else { XK_g },
            72 => if upper { XK_H } else { XK_h },
            73 => if upper { XK_I } else { XK_i },
            74 => if upper { XK_J } else { XK_j },
            75 => if upper { XK_K } else { XK_k },
            76 => if upper { XK_L } else { XK_l },
            77 => if upper { XK_M } else { XK_m },
            78 => if upper { XK_N } else { XK_n },
            79 => if upper { XK_O } else { XK_o },
            80 => if upper { XK_P } else { XK_p },
            81 => if upper { XK_Q } else { XK_q },
            82 => if upper { XK_R } else { XK_r },
            83 => if upper { XK_S } else { XK_s },
            84 => if upper { XK_T } else { XK_t },
            85 => if upper { XK_U } else { XK_u },
            86 => if upper { XK_V } else { XK_v },
            87 => if upper { XK_W } else { XK_w },
            88 => if upper { XK_X } else { XK_x },
            89 => if upper { XK_Y } else { XK_y },
            90 => if upper { XK_Z } else { XK_z },
            91 => XK_Meta_L,
            92 => XK_Meta_R,
            93 => XK_Menu,
            96 => XK_KP_0,
            97 => XK_KP_1,
            98 => XK_KP_2,
            99 => XK_KP_3,
            100 => XK_KP_4,
            101 => XK_KP_5,
            102 => XK_KP_6,
            103 => XK_KP_7,
            104 => XK_KP_8,
            105 => XK_KP_9,
            106 => XK_KP_Multiply,
            107 => XK_KP_Add,
            109 => XK_KP_Subtract,
            110 => XK_KP_Decimal,
            111 => XK_KP_Divide,
            112 => XK_F1,
            113 => XK_F2,
            114 => XK_F3,
            115 => XK_F4,
            116 => XK_F5,
            117 => XK_F6,
            118 => XK_F7,
            119 => XK_F8,
            120 => XK_F9,
            121 => XK_F10,
            122 => XK_F11,
            123 => XK_F12,
            144 => XK_Num_Lock,
            145 => XK_Scroll_Lock,
            186 => if shift { XK_colon } else { XK_semicolon },
            187 => if shift { XK_plus } else { XK_equal },
            188 => if shift { XK_less } else { XK_comma },
            189 => if shift { XK_underscore } else { XK_minus },
            190 => if shift { XK_greater } else { XK_period },
            191 => if shift { XK_question } else { XK_slash },
            192 => if shift { XK_asciitilde } else { XK_grave },
            219 => if shift { XK_braceleft } else { XK_bracketleft },
            220 => if shift { XK_bar } else { XK_backslash },
            221 => if shift { XK_braceright } else { XK_bracketright },
            222 => if shift { XK_quoteright } else { XK_quotedbl },
            _ => which,
        }
    }
}

} // verus!
