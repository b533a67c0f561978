//! Physical keys and keyboard layouts.
use vstd::prelude::*;

verus! {

/// Keys on the 104 key windows keyboard
#[allow(dead_code)]
#[derive(Copy, Clone, Debug, Hash, Eq, PartialEq, Structural)]
pub enum Key {
    Key0,
    Key1,
    Key2,
    Key3,
    Key4,
    Key5,
    Key6,
    Key7,
    Key8,
    Key9,
    KeyA,
    KeyApostrophe,
    KeyB,
    KeyBackslash,
    KeyBackspace,
    KeyC,
    KeyCapslock,
    KeyComma,
    KeyD,
    KeyDelete,
    KeyDot,
    KeyDown,
    KeyE,
    KeyEnd,
    KeyEnter,
    KeyEqual,
    KeyEsc,
    KeyF,
    KeyF1,
    KeyF10,
    KeyF11,
    KeyF12,
    KeyF2,
    KeyF3,
    KeyF4,
    KeyF5,
    KeyF6,
    KeyF7,
    KeyF8,
    KeyF9,
    KeyG,
    KeyGrave,
    KeyH,
    KeyHome,
    KeyI,
    KeyInsert,
    KeyJ,
    KeyK,
    KeyKp0,
    KeyKp1,
    KeyKp2,
    KeyKp3,
    KeyKp4,
    KeyKp5,
    KeyKp6,
    KeyKp7,
    KeyKp8,
    KeyKp9,
    KeyKpasterisk,
    KeyKpdot,
    KeyKpenter,
    KeyKpminus,
    KeyKpplus,
    KeyKpslash,
    KeyL,
    KeyLeft,
    KeyLeftalt,
    KeyLeftbrace,
    KeyLeftctrl,
    KeyLeftmeta,
    KeyLeftshift,
    KeyM,
    KeyMenu,
    KeyMinus,
    KeyN,
    KeyNumlock,
    KeyO,
    KeyP,
    KeyPagedown,
    KeyPageup,
    KeyPause,
    KeyQ,
    KeyR,
    KeyRight,
    KeyRightalt,
    KeyRightbrace,
    KeyRightctrl,
    KeyRightmeta,
    KeyRightshift,
    KeyS,
    KeyScrolllock,
    KeySemicolon,
    KeySlash,
    KeySpace,
    KeySysRq,
    KeyT,
    KeyTab,
    KeyU,
    KeyUp,
    KeyV,
    KeyW,
    KeyX,
    KeyY,
    KeyZ,
}

/// The largest scan code any [`Key`] maps to.
pub const MAX_KEY_CODE: u32 = 139;

impl Key {
    /// The Linux input-event scan code of the key, as the injection channel
    /// transmits it. Named after the kernel's `KEY_*` constants: `KeyEsc` is
    /// `KEY_ESC`, `KeyMenu` is `KEY_MENU`, and so on.
    pub open spec fn spec_code(self) -> u32 {
        match self {
            Key::Key0 => 11,
            Key::Key1 => 2,
            Key::Key2 => 3,
            Key::Key3 => 4,
            Key::Key4 => 5,
            Key::Key5 => 6,
            Key::Key6 => 7,
            Key::Key7 => 8,
            Key::Key8 => 9,
            Key::Key9 => 10,
            Key::KeyA => 30,
            Key::KeyApostrophe => 40,
            Key::KeyB => 48,
            Key::KeyBackslash => 43,
            Key::KeyBackspace => 14,
            Key::KeyC => 46,
            Key::KeyCapslock => 58,
            Key::KeyComma => 51,
            Key::KeyD => 32,
            Key::KeyDelete => 111,
            Key::KeyDot => 52,
            Key::KeyDown => 108,
            Key::KeyE => 18,
            Key::KeyEnd => 107,
            Key::KeyEnter => 28,
            Key::KeyEqual => 13,
            Key::KeyEsc => 1,
            Key::KeyF => 33,
            Key::KeyF1 => 59,
            Key::KeyF10 => 68,
            Key::KeyF11 => 87,
            Key::KeyF12 => 88,
            Key::KeyF2 => 60,
            Key::KeyF3 => 61,
            Key::KeyF4 => 62,
            Key::KeyF5 => 63,
            Key::KeyF6 => 64,
            Key::KeyF7 => 65,
            Key::KeyF8 => 66,
            Key::KeyF9 => 67,
            Key::KeyG => 34,
            Key::KeyGrave => 41,
            Key::KeyH => 35,
            Key::KeyHome => 102,
            Key::KeyI => 23,
            Key::KeyInsert => 110,
            Key::KeyJ => 36,
            Key::KeyK => 37,
            Key::KeyKp0 => 82,
            Key::KeyKp1 => 79,
            Key::KeyKp2 => 80,
            Key::KeyKp3 => 81,
            Key::KeyKp4 => 75,
            Key::KeyKp5 => 76,
            Key::KeyKp6 => 77,
            Key::KeyKp7 => 71,
            Key::KeyKp8 => 72,
            Key::KeyKp9 => 73,
            Key::KeyKpasterisk => 55,
            Key::KeyKpdot => 83,
            Key::KeyKpenter => 96,
            Key::KeyKpminus => 74,
            Key::KeyKpplus => 78,
            Key::KeyKpslash => 98,
            Key::KeyL => 38,
            Key::KeyLeft => 105,
            Key::KeyLeftalt => 56,
            Key::KeyLeftbrace => 26,
            Key::KeyLeftctrl => 29,
            Key::KeyLeftmeta => 125,
            Key::KeyLeftshift => 42,
            Key::KeyM => 50,
            Key::KeyMenu => 139,
            Key::KeyMinus => 12,
            Key::KeyN => 49,
            Key::KeyNumlock => 69,
            Key::KeyO => 24,
            Key::KeyP => 25,
            Key::KeyPagedown => 109,
            Key::KeyPageup => 104,
            Key::KeyPause => 119,
            Key::KeyQ => 16,
            Key::KeyR => 19,
            Key::KeyRight => 106,
            Key::KeyRightalt => 100,
            Key::KeyRightbrace => 27,
            Key::KeyRightctrl => 97,
            Key::KeyRightmeta => 126,
            Key::KeyRightshift => 54,
            Key::KeyS => 31,
            Key::KeyScrolllock => 70,
            Key::KeySemicolon => 39,
            Key::KeySlash => 53,
            Key::KeySpace => 57,
            Key::KeySysRq => 99,
            Key::KeyT => 20,
            Key::KeyTab => 15,
            Key::KeyU => 22,
            Key::KeyUp => 103,
            Key::KeyV => 47,
            Key::KeyW => 17,
            Key::KeyX => 45,
            Key::KeyY => 21,
            Key::KeyZ => 44,
        }
    }

    /// Returns the scan code of the key.
    pub fn code(self) -> (code: u32)
        ensures
            code == self.spec_code(),
            0 < code <= MAX_KEY_CODE,
    {
        match self {
            Key::Key0 => 11,
            Key::Key1 => 2,
            Key::Key2 => 3,
            Key::Key3 => 4,
            Key::Key4 => 5,
            Key::Key5 => 6,
            Key::Key6 => 7,
            Key::Key7 => 8,
            Key::Key8 => 9,
            Key::Key9 => 10,
            Key::KeyA => 30,
            Key::KeyApostrophe => 40,
            Key::KeyB => 48,
            Key::KeyBackslash => 43,
            Key::KeyBackspace => 14,
            Key::KeyC => 46,
            Key::KeyCapslock => 58,
            Key::KeyComma => 51,
            Key::KeyD => 32,
            Key::KeyDelete => 111,
            Key::KeyDot => 52,
            Key::KeyDown => 108,
            Key::KeyE => 18,
            Key::KeyEnd => 107,
            Key::KeyEnter => 28,
            Key::KeyEqual => 13,
            Key::KeyEsc => 1,
            Key::KeyF => 33,
            Key::KeyF1 => 59,
            Key::KeyF10 => 68,
            Key::KeyF11 => 87,
            Key::KeyF12 => 88,
            Key::KeyF2 => 60,
            Key::KeyF3 => 61,
            Key::KeyF4 => 62,
            Key::KeyF5 => 63,
            Key::KeyF6 => 64,
            Key::KeyF7 => 65,
            Key::KeyF8 => 66,
            Key::KeyF9 => 67,
            Key::KeyG => 34,
            Key::KeyGrave => 41,
            Key::KeyH => 35,
            Key::KeyHome => 102,
            Key::KeyI => 23,
            Key::KeyInsert => 110,
            Key::KeyJ => 36,
            Key::KeyK => 37,
            Key::KeyKp0 => 82,
            Key::KeyKp1 => 79,
            Key::KeyKp2 => 80,
            Key::KeyKp3 => 81,
            Key::KeyKp4 => 75,
            Key::KeyKp5 => 76,
            Key::KeyKp6 => 77,
            Key::KeyKp7 => 71,
            Key::KeyKp8 => 72,
            Key::KeyKp9 => 73,
            Key::KeyKpasterisk => 55,
            Key::KeyKpdot => 83,
            Key::KeyKpenter => 96,
            Key::KeyKpminus => 74,
            Key::KeyKpplus => 78,
            Key::KeyKpslash => 98,
            Key::KeyL => 38,
            Key::KeyLeft => 105,
            Key::KeyLeftalt => 56,
            Key::KeyLeftbrace => 26,
            Key::KeyLeftctrl => 29,
            Key::KeyLeftmeta => 125,
            Key::KeyLeftshift => 42,
            Key::KeyM => 50,
            Key::KeyMenu => 139,
            Key::KeyMinus => 12,
            Key::KeyN => 49,
            Key::KeyNumlock => 69,
            Key::KeyO => 24,
            Key::KeyP => 25,
            Key::KeyPagedown => 109,
            Key::KeyPageup => 104,
            Key::KeyPause => 119,
            Key::KeyQ => 16,
            Key::KeyR => 19,
            Key::KeyRight => 106,
            Key::KeyRightalt => 100,
            Key::KeyRightbrace => 27,
            Key::KeyRightctrl => 97,
            Key::KeyRightmeta => 126,
            Key::KeyRightshift => 54,
            Key::KeyS => 31,
            Key::KeyScrolllock => 70,
            Key::KeySemicolon => 39,
            Key::KeySlash => 53,
            Key::KeySpace => 57,
            Key::KeySysRq => 99,
            Key::KeyT => 20,
            Key::KeyTab => 15,
            Key::KeyU => 22,
            Key::KeyUp => 103,
            Key::KeyV => 47,
            Key::KeyW => 17,
            Key::KeyX => 45,
            Key::KeyY => 21,
            Key::KeyZ => 44,
        }
    }

    /// Distinct keys have distinct scan codes, so a scan code identifies the
    /// key it was produced from.
    pub proof fn lemma_code_injective(a: Key, b: Key)
        requires
            a.spec_code() == b.spec_code(),
        ensures
            a == b,
    {
    }

    /// Every scan code lies in `1..=MAX_KEY_CODE`.
    pub proof fn lemma_code_bounded(a: Key)
        ensures
            0 < a.spec_code() <= MAX_KEY_CODE,
    {
    }
}

/// The keyboard layouts a seat can be switched between.
#[derive(Copy, Clone, Debug, Eq, PartialEq, Structural)]
pub enum Layout {
    Qwerty,
    Azerty,
    /// Qwerty with Left/Right shift swapped and Esc/Capslock swapped.
    QwertySwapped,
}

} // verus!
