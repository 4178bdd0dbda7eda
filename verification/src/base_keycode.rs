//! Base keycodes: the 8-bit keycodes of a keyboard report.

use vstd::prelude::*;

verus! {

/// Base keycodes are 8-bit keycodes. They hold:
/// 1. the keycodes defined in the HID specification;
/// 2. extra keycodes that are commonly used but are not part of it, such as
///    media control keys, FNs and mouse keys. The ranges 0xA5-0xDF and
///    0xE8-0xFF, which the HID specification does not use or has deprecated,
///    hold them. 0xC3-0xCC and 0xF8-0xFD are not used.
///
/// The variants are declared in the order of their numbers, so the derived
/// order of the keycodes is the order of their numbers.
#[derive(Debug, Copy, Clone, PartialEq, Eq, PartialOrd, Ord, Structural)]
pub enum BaseKeyCode {
    /// Reserved, no-key.
    No,
    /// Keyboard roll over error, too many keys are pressed simultaneously, not a physical key.
    /// NKRO: n-key rollover.
    ErrorRollover,
    /// Keyboard post fail error, not a physical key.
    PostFail,
    /// An undefined error, not a physical key.
    ErrorUndefined,
    /// `a` and `A`.
    A,
    /// `b` and `B`.
    B,
    /// `c` and `C`.
    C,
    /// `d` and `D`.
    D,
    /// `e` and `E`.
    E,
    /// `f` and `F`.
    F,
    /// `g` and `G`.
    G,
    /// `h` and `H`.
    H,
    /// `i` and `I`.
    I,
    /// `j` and `J`.
    J,
    /// `k` and `K`.
    K,
    /// `l` and `L`.
    L,
    /// `m` and `M`.
    M,
    /// `n` and `N`.
    N,
    /// `o` and `O`.
    O,
    /// `p` and `P`.
    P,
    /// `q` and `Q`.
    Q,
    /// `r` and `R`.
    R,
    /// `s` and `S`.
    S,
    /// `t` and `T`.
    T,
    /// `u` and `U`.
    U,
    /// `v` and `V`.
    V,
    /// `w` and `W`.
    W,
    /// `x` and `X`.
    X,
    /// `y` and `Y`.
    Y,
    /// `z` and `Z`.
    Z,
    /// `1` and `!`.
    Kc1,
    /// `2` and `@`.
    Kc2,
    /// `3` and `#`.
    Kc3,
    /// `4` and `$`.
    Kc4,
    /// `5` and `%`.
    Kc5,
    /// `6` and `^`.
    Kc6,
    /// `7` and `&`.
    Kc7,
    /// `8` and `*`.
    Kc8,
    /// `9` and `(`.
    Kc9,
    /// `0` and `)`.
    Kc0,
    /// Return (Enter).
    /// Note: Keyboard Enter and Keypad Enter generate different Usage codes.
    Enter,
    /// Escape.
    Escape,
    /// Delete (Backspace).
    BackSpace,
    /// Tab.
    Tab,
    /// Spacebar
    Space,
    /// `-` and `_`.
    Minus,
    /// `=` and `+`.
    Equal,
    /// `[` and `{`.
    LBracket,
    /// `]` and `}`.
    RBracket,
    /// `\` and `|`.
    BSlash,
    /// Non-US `#` and `~` (Typically near the Enter key).
    NonUsHash,
    /// `;` and `:`.
    SColon,
    /// `'` and `"`.
    Quote,
    /// \` and `~`.
    Grave,
    /// `,` and `<`.
    Comma,
    /// `.` and `>`.
    Dot,
    /// `/` and `?`.
    Slash,
    /// Caps lock.
    CapsLock,
    /// F1.
    F1,
    /// F2.
    F2,
    /// F3.
    F3,
    /// F4.
    F4,
    /// F5.
    F5,
    /// F6.
    F6,
    /// F7.
    F7,
    /// F8.
    F8,
    /// F9.
    F9,
    /// F10.
    F10,
    /// F11.
    F11,
    /// F12.
    F12,
    /// Print screen.
    PrintScreen,
    /// Scroll lock, Brightness down(macOS).
    ScrollLock,
    /// Pause, Brightness up(macOS).
    Pause,
    /// Insert.
    Insert,
    /// Home.
    Home,
    /// Page up.
    PgUp,
    /// Forward delete.
    Delete,
    /// End.
    End,
    /// Page down.
    PgDown,
    /// Right arrow.
    Right,
    /// Left arrow.
    Left,
    /// Down arrow.
    Down,
    /// Up arrow.
    Up,
    /// Keypad num lock.
    NumLock,
    /// Keypad `/`.
    KpSlash,
    /// Keypad `*`.
    KpAsterisk,
    /// Keypad `-`.
    KpMinus,
    /// Keypad `+`.
    KpPlus,
    /// Keypad Enter.
    KpEnter,
    /// Keypad `1` and End.
    Kp1,
    /// Keypad `2` and down arrow.
    Kp2,
    /// Keypad `3` and page down.
    Kp3,
    /// Keypad `4` and left arrow.
    Kp4,
    /// Keypad `5`.
    Kp5,
    /// Keypad `6` and right arrow.
    Kp6,
    /// Keypad `7` and home.
    Kp7,
    /// Keypad `8` and up arrow.
    Kp8,
    /// Keypad `9` and page up.
    Kp9,
    /// Keypad `0` and insert.
    Kp0,
    /// Keypad `.` and delete.
    KpDot,
    /// Non-US `\` and `|`.
    NonUsBSlash,
    /// Application (windows context menu key).
    Application,
    /// Reserved for keyboard power status, not a physical key.
    Power,
    /// Keypad `=`.
    KpEqual,
    /// F13.
    F13,
    /// F14.
    F14,
    /// F15.
    F15,
    /// F16.
    F16,
    /// F17.
    F17,
    /// F18.
    F18,
    /// F19.
    F19,
    /// F10.
    F20,
    /// F21.
    F21,
    /// F22.
    F22,
    /// F23.
    F23,
    /// F24.
    F24,
    /// Execute.
    Execute,
    /// Help.
    Help,
    /// Menu.
    Menu,
    /// Select.
    Select,
    /// Stop.
    Stop,
    /// Again.
    Again,
    /// Undo.
    Undo,
    /// Cut.
    Cut,
    /// Copy.
    Copy,
    /// Paste.
    Paste,
    /// Find.
    Find,
    /// Mute.
    KbMute,
    /// Volume up.
    KbVolUp,
    /// Volume down.
    KbVolDown,
    /// Deprecated.
    LockingCapsLock,
    /// Deprecated.
    LockingNumLock,
    /// Deprecated.
    LockingScrollLock,
    /// Keypad `,`.
    KpComma,
    /// Keypad `=` on AS/400 keyboards.
    KpEqualSign,
    /// JIS `\` and `_`.
    International1,
    /// JIS Katakana/Hiragana.
    International2,
    /// JIS `yen sign` and `|`.
    International3,
    /// JIS Henkan.
    International4,
    /// JIS Muhenkan.
    International5,
    /// JIS numpad `,`.
    International6,
    /// International 7.
    International7,
    /// International 8.
    International8,
    /// International 9.
    International9,
    /// Hangul/English.
    Language1,
    /// Hanja.
    Language2,
    /// JIS Katakana.
    Language3,
    /// JIS Hiragana.
    Language4,
    /// JIS Zenkaku/Hankaku.
    Language5,
    /// Language 6.
    Language6,
    /// Language 7.
    Language7,
    /// Language 8.
    Language8,
    /// Language 9.
    Language9,
    /// Alternate erase.
    AltErase,
    /// SysReq/Attention.
    SysReq,
    /// Cancel.
    Cancel,
    /// Clear.
    Clear,
    /// Prior.
    Prior,
    /// Return.
    Return,
    /// Separator.
    Separator,
    /// Out.
    Out,
    /// Oper.
    Oper,
    /// Clear/Again.
    ClearAgain,
    /// CrSel/Props.
    CrSel,
    /// ExSel.
    ExSel,
    /// System power down.
    SystemPower,
    /// System sleep.
    SystemSleep,
    /// System wake.
    SystemWake,
    /// Audio mute.
    AudioMute,
    /// Audio volume up.
    AudioVolUp,
    /// Audio volume down.
    AudioVolDown,
    /// Media next track.
    MediaNextTrack,
    /// Media previous track.
    MediaPrevTrack,
    /// Media stop.
    MediaStop,
    /// Media play/pause.
    MediaPlayPause,
    /// Eject.
    MediaEject,
    /// Launch media player.
    MediaSelect,
    /// Launch mail.
    Mail,
    /// Launch calculator.
    Calculator,
    /// Launch my computer.
    MyComputer,
    /// Browser search.
    WWWSearch,
    /// Browser home.
    WWWHome,
    /// Browser back.
    WWWBack,
    /// Browser forward.
    WWWForward,
    /// Browser stop.
    WWWStop,
    /// Browser refresh.
    WWWRefresh,
    /// Browser favorites.
    WWWFavorites,
    /// Media fast forward/next track.
    MediaFastForward,
    /// Media rewind/previous track.
    MediaRewind,
    /// Brightness up.
    BrightnessUp,
    /// Brightness down.
    BrightnessDown,
    /// Control panel
    ControlPanel,
    /// Assistant
    Assistant,
    /// Mission control
    MissionControl,
    /// Launchpad
    Launchpad,
    /// Mouse up.
    MouseUp,
    /// Mouse down.
    MouseDown,
    /// Mouse left.
    MouseLeft,
    /// Mouse right.
    MouseRight,
    /// Mouse button1.
    MouseButton1,
    /// Mouse button2.
    MouseButton2,
    /// Mouse button3.
    MouseButton3,
    /// Mouse button4.
    MouseButton4,
    /// Mouse button5.
    MouseButton5,
    /// Mouse button6.
    MouseButton6,
    /// Mouse button7.
    MouseButton7,
    /// Mouse button8.
    MouseButton8,
    /// Mouse wheel up.
    MouseWheeleelUp,
    /// Mouse wheel down.
    MouseWheeleelDown,
    /// Mouse wheel left.
    MouseWheeleelLeft,
    /// Mouse wheel right.
    MouseWheeleelRight,
    /// Mouse acceleration 0.
    MouseAcceleration0,
    /// Mouse acceleration 1.
    MouseAcceleration1,
    /// Mouse acceleration 2.
    MouseAcceleration2,
    /// Left control.
    LCtrl,
    /// Left shift.
    LShift,
    /// Left alt(option).
    LAlt,
    /// Left gui(widnows/command/meta key).
    LGui,
    /// Right control.
    RCtrl,
    /// Right shift.
    RShift,
    /// Right alt(option/AltGr).
    RAlt,
    /// Right gui(windows/command/meta key).
    RGui,
    /// Fn0.
    Fn0,
    /// Fn1.
    Fn1,
    /// Fn2.
    Fn2,
    /// Fn3.
    Fn3,
    /// Fn4.
    Fn4,
    /// Fn5.
    Fn5,
    /// Fn6.
    Fn6,
    /// Fn7.
    Fn7,
    /// Fn8.
    Fn8,
    /// Fn9.
    Fn9,
    /// Fn10.
    Fn10,
    /// Fn11.
    Fn11,
    /// Fn12.
    Fn12,
    /// Fn13.
    Fn13,
    /// Fn14.
    Fn14,
    /// Fn15.
    Fn15,
    /// Jump to bootloader.
    Bootloader,
    /// Transparent key.
    Transparent,
}

impl BaseKeyCode {
    /// The number that stands for this keycode.
    pub open spec fn spec_code(self) -> u8 {
        match self {
            BaseKeyCode::No => 0x00,
            BaseKeyCode::ErrorRollover => 0x01,
            BaseKeyCode::PostFail => 0x02,
            BaseKeyCode::ErrorUndefined => 0x03,
            BaseKeyCode::A => 0x04,
            BaseKeyCode::B => 0x05,
            BaseKeyCode::C => 0x06,
            BaseKeyCode::D => 0x07,
            BaseKeyCode::E => 0x08,
            BaseKeyCode::F => 0x09,
            BaseKeyCode::G => 0x0A,
            BaseKeyCode::H => 0x0B,
            BaseKeyCode::I => 0x0C,
            BaseKeyCode::J => 0x0D,
            BaseKeyCode::K => 0x0E,
            BaseKeyCode::L => 0x0F,
            BaseKeyCode::M => 0x10,
            BaseKeyCode::N => 0x11,
            BaseKeyCode::O => 0x12,
            BaseKeyCode::P => 0x13,
            BaseKeyCode::Q => 0x14,
            BaseKeyCode::R => 0x15,
            BaseKeyCode::S => 0x16,
            BaseKeyCode::T => 0x17,
            BaseKeyCode::U => 0x18,
            BaseKeyCode::V => 0x19,
            BaseKeyCode::W => 0x1A,
            BaseKeyCode::X => 0x1B,
            BaseKeyCode::Y => 0x1C,
            BaseKeyCode::Z => 0x1D,
            BaseKeyCode::Kc1 => 0x1E,
            BaseKeyCode::Kc2 => 0x1F,
            BaseKeyCode::Kc3 => 0x20,
            BaseKeyCode::Kc4 => 0x21,
            BaseKeyCode::Kc5 => 0x22,
            BaseKeyCode::Kc6 => 0x23,
            BaseKeyCode::Kc7 => 0x24,
            BaseKeyCode::Kc8 => 0x25,
            BaseKeyCode::Kc9 => 0x26,
            BaseKeyCode::Kc0 => 0x27,
            BaseKeyCode::Enter => 0x28,
            BaseKeyCode::Escape => 0x29,
            BaseKeyCode::BackSpace => 0x2A,
            BaseKeyCode::Tab => 0x2B,
            BaseKeyCode::Space => 0x2C,
            BaseKeyCode::Minus => 0x2D,
            BaseKeyCode::Equal => 0x2E,
            BaseKeyCode::LBracket => 0x2F,
            BaseKeyCode::RBracket => 0x30,
            BaseKeyCode::BSlash => 0x31,
            BaseKeyCode::NonUsHash => 0x32,
            BaseKeyCode::SColon => 0x33,
            BaseKeyCode::Quote => 0x34,
            BaseKeyCode::Grave => 0x35,
            BaseKeyCode::Comma => 0x36,
            BaseKeyCode::Dot => 0x37,
            BaseKeyCode::Slash => 0x38,
            BaseKeyCode::CapsLock => 0x39,
            BaseKeyCode::F1 => 0x3A,
            BaseKeyCode::F2 => 0x3B,
            BaseKeyCode::F3 => 0x3C,
            BaseKeyCode::F4 => 0x3D,
            BaseKeyCode::F5 => 0x3E,
            BaseKeyCode::F6 => 0x3F,
            BaseKeyCode::F7 => 0x40,
            BaseKeyCode::F8 => 0x41,
            BaseKeyCode::F9 => 0x42,
            BaseKeyCode::F10 => 0x43,
            BaseKeyCode::F11 => 0x44,
            BaseKeyCode::F12 => 0x45,
            BaseKeyCode::PrintScreen => 0x46,
            BaseKeyCode::ScrollLock => 0x47,
            BaseKeyCode::Pause => 0x48,
            BaseKeyCode::Insert => 0x49,
            BaseKeyCode::Home => 0x4A,
            BaseKeyCode::PgUp => 0x4B,
            BaseKeyCode::Delete => 0x4C,
            BaseKeyCode::End => 0x4D,
            BaseKeyCode::PgDown => 0x4E,
            BaseKeyCode::Right => 0x4F,
            BaseKeyCode::Left => 0x50,
            BaseKeyCode::Down => 0x51,
            BaseKeyCode::Up => 0x52,
            BaseKeyCode::NumLock => 0x53,
            BaseKeyCode::KpSlash => 0x54,
            BaseKeyCode::KpAsterisk => 0x55,
            BaseKeyCode::KpMinus => 0x56,
            BaseKeyCode::KpPlus => 0x57,
            BaseKeyCode::KpEnter => 0x58,
            BaseKeyCode::Kp1 => 0x59,
            BaseKeyCode::Kp2 => 0x5A,
            BaseKeyCode::Kp3 => 0x5B,
            BaseKeyCode::Kp4 => 0x5C,
            BaseKeyCode::Kp5 => 0x5D,
            BaseKeyCode::Kp6 => 0x5E,
            BaseKeyCode::Kp7 => 0x5F,
            BaseKeyCode::Kp8 => 0x60,
            BaseKeyCode::Kp9 => 0x61,
            BaseKeyCode::Kp0 => 0x62,
            BaseKeyCode::KpDot => 0x63,
            BaseKeyCode::NonUsBSlash => 0x64,
            BaseKeyCode::Application => 0x65,
            BaseKeyCode::Power => 0x66,
            BaseKeyCode::KpEqual => 0x67,
            BaseKeyCode::F13 => 0x68,
            BaseKeyCode::F14 => 0x69,
            BaseKeyCode::F15 => 0x6A,
            BaseKeyCode::F16 => 0x6B,
            BaseKeyCode::F17 => 0x6C,
            BaseKeyCode::F18 => 0x6D,
            BaseKeyCode::F19 => 0x6E,
            BaseKeyCode::F20 => 0x6F,
            BaseKeyCode::F21 => 0x70,
            BaseKeyCode::F22 => 0x71,
            BaseKeyCode::F23 => 0x72,
            BaseKeyCode::F24 => 0x73,
            BaseKeyCode::Execute => 0x74,
            BaseKeyCode::Help => 0x75,
            BaseKeyCode::Menu => 0x76,
            BaseKeyCode::Select => 0x77,
            BaseKeyCode::Stop => 0x78,
            BaseKeyCode::Again => 0x79,
            BaseKeyCode::Undo => 0x7A,
            BaseKeyCode::Cut => 0x7B,
            BaseKeyCode::Copy => 0x7C,
            BaseKeyCode::Paste => 0x7D,
            BaseKeyCode::Find => 0x7E,
            BaseKeyCode::KbMute => 0x7F,
            BaseKeyCode::KbVolUp => 0x80,
            BaseKeyCode::KbVolDown => 0x81,
            BaseKeyCode::LockingCapsLock => 0x82,
            BaseKeyCode::LockingNumLock => 0x83,
            BaseKeyCode::LockingScrollLock => 0x84,
            BaseKeyCode::KpComma => 0x85,
            BaseKeyCode::KpEqualSign => 0x86,
            BaseKeyCode::International1 => 0x87,
            BaseKeyCode::International2 => 0x88,
            BaseKeyCode::International3 => 0x89,
            BaseKeyCode::International4 => 0x8A,
            BaseKeyCode::International5 => 0x8B,
            BaseKeyCode::International6 => 0x8C,
            BaseKeyCode::International7 => 0x8D,
            BaseKeyCode::International8 => 0x8E,
            BaseKeyCode::International9 => 0x8F,
            BaseKeyCode::Language1 => 0x90,
            BaseKeyCode::Language2 => 0x91,
            BaseKeyCode::Language3 => 0x92,
            BaseKeyCode::Language4 => 0x93,
            BaseKeyCode::Language5 => 0x94,
            BaseKeyCode::Language6 => 0x95,
            BaseKeyCode::Language7 => 0x96,
            BaseKeyCode::Language8 => 0x97,
            BaseKeyCode::Language9 => 0x98,
            BaseKeyCode::AltErase => 0x99,
            BaseKeyCode::SysReq => 0x9A,
            BaseKeyCode::Cancel => 0x9B,
            BaseKeyCode::Clear => 0x9C,
            BaseKeyCode::Prior => 0x9D,
            BaseKeyCode::Return => 0x9E,
            BaseKeyCode::Separator => 0x9F,
            BaseKeyCode::Out => 0xA0,
            BaseKeyCode::Oper => 0xA1,
            BaseKeyCode::ClearAgain => 0xA2,
            BaseKeyCode::CrSel => 0xA3,
            BaseKeyCode::ExSel => 0xA4,
            BaseKeyCode::SystemPower => 0xA5,
            BaseKeyCode::SystemSleep => 0xA6,
            BaseKeyCode::SystemWake => 0xA7,
            BaseKeyCode::AudioMute => 0xA8,
            BaseKeyCode::AudioVolUp => 0xA9,
            BaseKeyCode::AudioVolDown => 0xAA,
            BaseKeyCode::MediaNextTrack => 0xAB,
            BaseKeyCode::MediaPrevTrack => 0xAC,
            BaseKeyCode::MediaStop => 0xAD,
            BaseKeyCode::MediaPlayPause => 0xAE,
            BaseKeyCode::MediaEject => 0xAF,
            BaseKeyCode::MediaSelect => 0xB0,
            BaseKeyCode::Mail => 0xB1,
            BaseKeyCode::Calculator => 0xB2,
            BaseKeyCode::MyComputer => 0xB3,
            BaseKeyCode::WWWSearch => 0xB4,
            BaseKeyCode::WWWHome => 0xB5,
            BaseKeyCode::WWWBack => 0xB6,
            BaseKeyCode::WWWForward => 0xB7,
            BaseKeyCode::WWWStop => 0xB8,
            BaseKeyCode::WWWRefresh => 0xB9,
            BaseKeyCode::WWWFavorites => 0xBA,
            BaseKeyCode::MediaFastForward => 0xBB,
            BaseKeyCode::MediaRewind => 0xBC,
            BaseKeyCode::BrightnessUp => 0xBD,
            BaseKeyCode::BrightnessDown => 0xBE,
            BaseKeyCode::ControlPanel => 0xBF,
            BaseKeyCode::Assistant => 0xC0,
            BaseKeyCode::MissionControl => 0xC1,
            BaseKeyCode::Launchpad => 0xC2,
            BaseKeyCode::MouseUp => 0xCD,
            BaseKeyCode::MouseDown => 0xCE,
            BaseKeyCode::MouseLeft => 0xCF,
            BaseKeyCode::MouseRight => 0xD0,
            BaseKeyCode::MouseButton1 => 0xD1,
            BaseKeyCode::MouseButton2 => 0xD2,
            BaseKeyCode::MouseButton3 => 0xD3,
            BaseKeyCode::MouseButton4 => 0xD4,
            BaseKeyCode::MouseButton5 => 0xD5,
            BaseKeyCode::MouseButton6 => 0xD6,
            BaseKeyCode::MouseButton7 => 0xD7,
            BaseKeyCode::MouseButton8 => 0xD8,
            BaseKeyCode::MouseWheeleelUp => 0xD9,
            BaseKeyCode::MouseWheeleelDown => 0xDA,
            BaseKeyCode::MouseWheeleelLeft => 0xDB,
            BaseKeyCode::MouseWheeleelRight => 0xDC,
            BaseKeyCode::MouseAcceleration0 => 0xDD,
            BaseKeyCode::MouseAcceleration1 => 0xDE,
            BaseKeyCode::MouseAcceleration2 => 0xDF,
            BaseKeyCode::LCtrl => 0xE0,
            BaseKeyCode::LShift => 0xE1,
            BaseKeyCode::LAlt => 0xE2,
            BaseKeyCode::LGui => 0xE3,
            BaseKeyCode::RCtrl => 0xE4,
            BaseKeyCode::RShift => 0xE5,
            BaseKeyCode::RAlt => 0xE6,
            BaseKeyCode::RGui => 0xE7,
            BaseKeyCode::Fn0 => 0xE8,
            BaseKeyCode::Fn1 => 0xE9,
            BaseKeyCode::Fn2 => 0xEA,
            BaseKeyCode::Fn3 => 0xEB,
            BaseKeyCode::Fn4 => 0xEC,
            BaseKeyCode::Fn5 => 0xED,
            BaseKeyCode::Fn6 => 0xEE,
            BaseKeyCode::Fn7 => 0xEF,
            BaseKeyCode::Fn8 => 0xF0,
            BaseKeyCode::Fn9 => 0xF1,
            BaseKeyCode::Fn10 => 0xF2,
            BaseKeyCode::Fn11 => 0xF3,
            BaseKeyCode::Fn12 => 0xF4,
            BaseKeyCode::Fn13 => 0xF5,
            BaseKeyCode::Fn14 => 0xF6,
            BaseKeyCode::Fn15 => 0xF7,
            BaseKeyCode::Bootloader => 0xFE,
            BaseKeyCode::Transparent => 0xFF,
        }
    }

    /// The number that stands for this keycode.
    #[verifier::when_used_as_spec(spec_code)]
    pub fn code(self) -> (code: u8)
        ensures
            code == self.spec_code(),
    {
        match self {
            BaseKeyCode::No => 0x00,
            BaseKeyCode::ErrorRollover => 0x01,
            BaseKeyCode::PostFail => 0x02,
            BaseKeyCode::ErrorUndefined => 0x03,
            BaseKeyCode::A => 0x04,
            BaseKeyCode::B => 0x05,
            BaseKeyCode::C => 0x06,
            BaseKeyCode::D => 0x07,
            BaseKeyCode::E => 0x08,
            BaseKeyCode::F => 0x09,
            BaseKeyCode::G => 0x0A,
            BaseKeyCode::H => 0x0B,
            BaseKeyCode::I => 0x0C,
            BaseKeyCode::J => 0x0D,
            BaseKeyCode::K => 0x0E,
            BaseKeyCode::L => 0x0F,
            BaseKeyCode::M => 0x10,
            BaseKeyCode::N => 0x11,
            BaseKeyCode::O => 0x12,
            BaseKeyCode::P => 0x13,
            BaseKeyCode::Q => 0x14,
            BaseKeyCode::R => 0x15,
            BaseKeyCode::S => 0x16,
            BaseKeyCode::T => 0x17,
            BaseKeyCode::U => 0x18,
            BaseKeyCode::V => 0x19,
            BaseKeyCode::W => 0x1A,
            BaseKeyCode::X => 0x1B,
            BaseKeyCode::Y => 0x1C,
            BaseKeyCode::Z => 0x1D,
            BaseKeyCode::Kc1 => 0x1E,
            BaseKeyCode::Kc2 => 0x1F,
            BaseKeyCode::Kc3 => 0x20,
            BaseKeyCode::Kc4 => 0x21,
            BaseKeyCode::Kc5 => 0x22,
            BaseKeyCode::Kc6 => 0x23,
            BaseKeyCode::Kc7 => 0x24,
            BaseKeyCode::Kc8 => 0x25,
            BaseKeyCode::Kc9 => 0x26,
            BaseKeyCode::Kc0 => 0x27,
            BaseKeyCode::Enter => 0x28,
            BaseKeyCode::Escape => 0x29,
            BaseKeyCode::BackSpace => 0x2A,
            BaseKeyCode::Tab => 0x2B,
            BaseKeyCode::Space => 0x2C,
            BaseKeyCode::Minus => 0x2D,
            BaseKeyCode::Equal => 0x2E,
            BaseKeyCode::LBracket => 0x2F,
            BaseKeyCode::RBracket => 0x30,
            BaseKeyCode::BSlash => 0x31,
            BaseKeyCode::NonUsHash => 0x32,
            BaseKeyCode::SColon => 0x33,
            BaseKeyCode::Quote => 0x34,
            BaseKeyCode::Grave => 0x35,
            BaseKeyCode::Comma => 0x36,
            BaseKeyCode::Dot => 0x37,
            BaseKeyCode::Slash => 0x38,
            BaseKeyCode::CapsLock => 0x39,
            BaseKeyCode::F1 => 0x3A,
            BaseKeyCode::F2 => 0x3B,
            BaseKeyCode::F3 => 0x3C,
            BaseKeyCode::F4 => 0x3D,
            BaseKeyCode::F5 => 0x3E,
            BaseKeyCode::F6 => 0x3F,
            BaseKeyCode::F7 => 0x40,
            BaseKeyCode::F8 => 0x41,
            BaseKeyCode::F9 => 0x42,
            BaseKeyCode::F10 => 0x43,
            BaseKeyCode::F11 => 0x44,
            BaseKeyCode::F12 => 0x45,
            BaseKeyCode::PrintScreen => 0x46,
            BaseKeyCode::ScrollLock => 0x47,
            BaseKeyCode::Pause => 0x48,
            BaseKeyCode::Insert => 0x49,
            BaseKeyCode::Home => 0x4A,
            BaseKeyCode::PgUp => 0x4B,
            BaseKeyCode::Delete => 0x4C,
            BaseKeyCode::End => 0x4D,
            BaseKeyCode::PgDown => 0x4E,
            BaseKeyCode::Right => 0x4F,
            BaseKeyCode::Left => 0x50,
            BaseKeyCode::Down => 0x51,
            BaseKeyCode::Up => 0x52,
            BaseKeyCode::NumLock => 0x53,
            BaseKeyCode::KpSlash => 0x54,
            BaseKeyCode::KpAsterisk => 0x55,
            BaseKeyCode::KpMinus => 0x56,
            BaseKeyCode::KpPlus => 0x57,
            BaseKeyCode::KpEnter => 0x58,
            BaseKeyCode::Kp1 => 0x59,
            BaseKeyCode::Kp2 => 0x5A,
            BaseKeyCode::Kp3 => 0x5B,
            BaseKeyCode::Kp4 => 0x5C,
            BaseKeyCode::Kp5 => 0x5D,
            BaseKeyCode::Kp6 => 0x5E,
            BaseKeyCode::Kp7 => 0x5F,
            BaseKeyCode::Kp8 => 0x60,
            BaseKeyCode::Kp9 => 0x61,
            BaseKeyCode::Kp0 => 0x62,
            BaseKeyCode::KpDot => 0x63,
            BaseKeyCode::NonUsBSlash => 0x64,
            BaseKeyCode::Application => 0x65,
            BaseKeyCode::Power => 0x66,
            BaseKeyCode::KpEqual => 0x67,
            BaseKeyCode::F13 => 0x68,
            BaseKeyCode::F14 => 0x69,
            BaseKeyCode::F15 => 0x6A,
            BaseKeyCode::F16 => 0x6B,
            BaseKeyCode::F17 => 0x6C,
            BaseKeyCode::F18 => 0x6D,
            BaseKeyCode::F19 => 0x6E,
            BaseKeyCode::F20 => 0x6F,
            BaseKeyCode::F21 => 0x70,
            BaseKeyCode::F22 => 0x71,
            BaseKeyCode::F23 => 0x72,
            BaseKeyCode::F24 => 0x73,
            BaseKeyCode::Execute => 0x74,
            BaseKeyCode::Help => 0x75,
            BaseKeyCode::Menu => 0x76,
            BaseKeyCode::Select => 0x77,
            BaseKeyCode::Stop => 0x78,
            BaseKeyCode::Again => 0x79,
            BaseKeyCode::Undo => 0x7A,
            BaseKeyCode::Cut => 0x7B,
            BaseKeyCode::Copy => 0x7C,
            BaseKeyCode::Paste => 0x7D,
            BaseKeyCode::Find => 0x7E,
            BaseKeyCode::KbMute => 0x7F,
            BaseKeyCode::KbVolUp => 0x80,
            BaseKeyCode::KbVolDown => 0x81,
            BaseKeyCode::LockingCapsLock => 0x82,
            BaseKeyCode::LockingNumLock => 0x83,
            BaseKeyCode::LockingScrollLock => 0x84,
            BaseKeyCode::KpComma => 0x85,
            BaseKeyCode::KpEqualSign => 0x86,
            BaseKeyCode::International1 => 0x87,
            BaseKeyCode::International2 => 0x88,
            BaseKeyCode::International3 => 0x89,
            BaseKeyCode::International4 => 0x8A,
            BaseKeyCode::International5 => 0x8B,
            BaseKeyCode::International6 => 0x8C,
            BaseKeyCode::International7 => 0x8D,
            BaseKeyCode::International8 => 0x8E,
            BaseKeyCode::International9 => 0x8F,
            BaseKeyCode::Language1 => 0x90,
            BaseKeyCode::Language2 => 0x91,
            BaseKeyCode::Language3 => 0x92,
            BaseKeyCode::Language4 => 0x93,
            BaseKeyCode::Language5 => 0x94,
            BaseKeyCode::Language6 => 0x95,
            BaseKeyCode::Language7 => 0x96,
            BaseKeyCode::Language8 => 0x97,
            BaseKeyCode::Language9 => 0x98,
            BaseKeyCode::AltErase => 0x99,
            BaseKeyCode::SysReq => 0x9A,
            BaseKeyCode::Cancel => 0x9B,
            BaseKeyCode::Clear => 0x9C,
            BaseKeyCode::Prior => 0x9D,
            BaseKeyCode::Return => 0x9E,
            BaseKeyCode::Separator => 0x9F,
            BaseKeyCode::Out => 0xA0,
            BaseKeyCode::Oper => 0xA1,
            BaseKeyCode::ClearAgain => 0xA2,
            BaseKeyCode::CrSel => 0xA3,
            BaseKeyCode::ExSel => 0xA4,
            BaseKeyCode::SystemPower => 0xA5,
            BaseKeyCode::SystemSleep => 0xA6,
            BaseKeyCode::SystemWake => 0xA7,
            BaseKeyCode::AudioMute => 0xA8,
            BaseKeyCode::AudioVolUp => 0xA9,
            BaseKeyCode::AudioVolDown => 0xAA,
            BaseKeyCode::MediaNextTrack => 0xAB,
            BaseKeyCode::MediaPrevTrack => 0xAC,
            BaseKeyCode::MediaStop => 0xAD,
            BaseKeyCode::MediaPlayPause => 0xAE,
            BaseKeyCode::MediaEject => 0xAF,
            BaseKeyCode::MediaSelect => 0xB0,
            BaseKeyCode::Mail => 0xB1,
            BaseKeyCode::Calculator => 0xB2,
            BaseKeyCode::MyComputer => 0xB3,
            BaseKeyCode::WWWSearch => 0xB4,
            BaseKeyCode::WWWHome => 0xB5,
            BaseKeyCode::WWWBack => 0xB6,
            BaseKeyCode::WWWForward => 0xB7,
            BaseKeyCode::WWWStop => 0xB8,
            BaseKeyCode::WWWRefresh => 0xB9,
            BaseKeyCode::WWWFavorites => 0xBA,
            BaseKeyCode::MediaFastForward => 0xBB,
            BaseKeyCode::MediaRewind => 0xBC,
            BaseKeyCode::BrightnessUp => 0xBD,
            BaseKeyCode::BrightnessDown => 0xBE,
            BaseKeyCode::ControlPanel => 0xBF,
            BaseKeyCode::Assistant => 0xC0,
            BaseKeyCode::MissionControl => 0xC1,
            BaseKeyCode::Launchpad => 0xC2,
            BaseKeyCode::MouseUp => 0xCD,
            BaseKeyCode::MouseDown => 0xCE,
            BaseKeyCode::MouseLeft => 0xCF,
            BaseKeyCode::MouseRight => 0xD0,
            BaseKeyCode::MouseButton1 => 0xD1,
            BaseKeyCode::MouseButton2 => 0xD2,
            BaseKeyCode::MouseButton3 => 0xD3,
            BaseKeyCode::MouseButton4 => 0xD4,
            BaseKeyCode::MouseButton5 => 0xD5,
            BaseKeyCode::MouseButton6 => 0xD6,
            BaseKeyCode::MouseButton7 => 0xD7,
            BaseKeyCode::MouseButton8 => 0xD8,
            BaseKeyCode::MouseWheeleelUp => 0xD9,
            BaseKeyCode::MouseWheeleelDown => 0xDA,
            BaseKeyCode::MouseWheeleelLeft => 0xDB,
            BaseKeyCode::MouseWheeleelRight => 0xDC,
            BaseKeyCode::MouseAcceleration0 => 0xDD,
            BaseKeyCode::MouseAcceleration1 => 0xDE,
            BaseKeyCode::MouseAcceleration2 => 0xDF,
            BaseKeyCode::LCtrl => 0xE0,
            BaseKeyCode::LShift => 0xE1,
            BaseKeyCode::LAlt => 0xE2,
            BaseKeyCode::LGui => 0xE3,
            BaseKeyCode::RCtrl => 0xE4,
            BaseKeyCode::RShift => 0xE5,
            BaseKeyCode::RAlt => 0xE6,
            BaseKeyCode::RGui => 0xE7,
            BaseKeyCode::Fn0 => 0xE8,
            BaseKeyCode::Fn1 => 0xE9,
            BaseKeyCode::Fn2 => 0xEA,
            BaseKeyCode::Fn3 => 0xEB,
            BaseKeyCode::Fn4 => 0xEC,
            BaseKeyCode::Fn5 => 0xED,
            BaseKeyCode::Fn6 => 0xEE,
            BaseKeyCode::Fn7 => 0xEF,
            BaseKeyCode::Fn8 => 0xF0,
            BaseKeyCode::Fn9 => 0xF1,
            BaseKeyCode::Fn10 => 0xF2,
            BaseKeyCode::Fn11 => 0xF3,
            BaseKeyCode::Fn12 => 0xF4,
            BaseKeyCode::Fn13 => 0xF5,
            BaseKeyCode::Fn14 => 0xF6,
            BaseKeyCode::Fn15 => 0xF7,
            BaseKeyCode::Bootloader => 0xFE,
            BaseKeyCode::Transparent => 0xFF,
        }
    }

    /// The keycode numbered `number`, or `No` where no keycode has that
    /// number.
    pub open spec fn spec_from_primitive(number: u8) -> BaseKeyCode {
        match number {
            0x00 => BaseKeyCode::No,
            0x01 => BaseKeyCode::ErrorRollover,
            0x02 => BaseKeyCode::PostFail,
            0x03 => BaseKeyCode::ErrorUndefined,
            0x04 => BaseKeyCode::A,
            0x05 => BaseKeyCode::B,
            0x06 => BaseKeyCode::C,
            0x07 => BaseKeyCode::D,
            0x08 => BaseKeyCode::E,
            0x09 => BaseKeyCode::F,
            0x0A => BaseKeyCode::G,
            0x0B => BaseKeyCode::H,
            0x0C => BaseKeyCode::I,
            0x0D => BaseKeyCode::J,
            0x0E => BaseKeyCode::K,
            0x0F => BaseKeyCode::L,
            0x10 => BaseKeyCode::M,
            0x11 => BaseKeyCode::N,
            0x12 => BaseKeyCode::O,
            0x13 => BaseKeyCode::P,
            0x14 => BaseKeyCode::Q,
            0x15 => BaseKeyCode::R,
            0x16 => BaseKeyCode::S,
            0x17 => BaseKeyCode::T,
            0x18 => BaseKeyCode::U,
            0x19 => BaseKeyCode::V,
            0x1A => BaseKeyCode::W,
            0x1B => BaseKeyCode::X,
            0x1C => BaseKeyCode::Y,
            0x1D => BaseKeyCode::Z,
            0x1E => BaseKeyCode::Kc1,
            0x1F => BaseKeyCode::Kc2,
            0x20 => BaseKeyCode::Kc3,
            0x21 => BaseKeyCode::Kc4,
            0x22 => BaseKeyCode::Kc5,
            0x23 => BaseKeyCode::Kc6,
            0x24 => BaseKeyCode::Kc7,
            0x25 => BaseKeyCode::Kc8,
            0x26 => BaseKeyCode::Kc9,
            0x27 => BaseKeyCode::Kc0,
            0x28 => BaseKeyCode::Enter,
            0x29 => BaseKeyCode::Escape,
            0x2A => BaseKeyCode::BackSpace,
            0x2B => BaseKeyCode::Tab,
            0x2C => BaseKeyCode::Space,
            0x2D => BaseKeyCode::Minus,
            0x2E => BaseKeyCode::Equal,
            0x2F => BaseKeyCode::LBracket,
            0x30 => BaseKeyCode::RBracket,
            0x31 => BaseKeyCode::BSlash,
            0x32 => BaseKeyCode::NonUsHash,
            0x33 => BaseKeyCode::SColon,
            0x34 => BaseKeyCode::Quote,
            0x35 => BaseKeyCode::Grave,
            0x36 => BaseKeyCode::Comma,
            0x37 => BaseKeyCode::Dot,
            0x38 => BaseKeyCode::Slash,
            0x39 => BaseKeyCode::CapsLock,
            0x3A => BaseKeyCode::F1,
            0x3B => BaseKeyCode::F2,
            0x3C => BaseKeyCode::F3,
            0x3D => BaseKeyCode::F4,
            0x3E => BaseKeyCode::F5,
            0x3F => BaseKeyCode::F6,
            0x40 => BaseKeyCode::F7,
            0x41 => BaseKeyCode::F8,
            0x42 => BaseKeyCode::F9,
            0x43 => BaseKeyCode::F10,
            0x44 => BaseKeyCode::F11,
            0x45 => BaseKeyCode::F12,
            0x46 => BaseKeyCode::PrintScreen,
            0x47 => BaseKeyCode::ScrollLock,
            0x48 => BaseKeyCode::Pause,
            0x49 => BaseKeyCode::Insert,
            0x4A => BaseKeyCode::Home,
            0x4B => BaseKeyCode::PgUp,
            0x4C => BaseKeyCode::Delete,
            0x4D => BaseKeyCode::End,
            0x4E => BaseKeyCode::PgDown,
            0x4F => BaseKeyCode::Right,
            0x50 => BaseKeyCode::Left,
            0x51 => BaseKeyCode::Down,
            0x52 => BaseKeyCode::Up,
            0x53 => BaseKeyCode::NumLock,
            0x54 => BaseKeyCode::KpSlash,
            0x55 => BaseKeyCode::KpAsterisk,
            0x56 => BaseKeyCode::KpMinus,
            0x57 => BaseKeyCode::KpPlus,
            0x58 => BaseKeyCode::KpEnter,
            0x59 => BaseKeyCode::Kp1,
            0x5A => BaseKeyCode::Kp2,
            0x5B => BaseKeyCode::Kp3,
            0x5C => BaseKeyCode::Kp4,
            0x5D => BaseKeyCode::Kp5,
            0x5E => BaseKeyCode::Kp6,
            0x5F => BaseKeyCode::Kp7,
            0x60 => BaseKeyCode::Kp8,
            0x61 => BaseKeyCode::Kp9,
            0x62 => BaseKeyCode::Kp0,
            0x63 => BaseKeyCode::KpDot,
            0x64 => BaseKeyCode::NonUsBSlash,
            0x65 => BaseKeyCode::Application,
            0x66 => BaseKeyCode::Power,
            0x67 => BaseKeyCode::KpEqual,
            0x68 => BaseKeyCode::F13,
            0x69 => BaseKeyCode::F14,
            0x6A => BaseKeyCode::F15,
            0x6B => BaseKeyCode::F16,
            0x6C => BaseKeyCode::F17,
            0x6D => BaseKeyCode::F18,
            0x6E => BaseKeyCode::F19,
            0x6F => BaseKeyCode::F20,
            0x70 => BaseKeyCode::F21,
            0x71 => BaseKeyCode::F22,
            0x72 => BaseKeyCode::F23,
            0x73 => BaseKeyCode::F24,
            0x74 => BaseKeyCode::Execute,
            0x75 => BaseKeyCode::Help,
            0x76 => BaseKeyCode::Menu,
            0x77 => BaseKeyCode::Select,
            0x78 => BaseKeyCode::Stop,
            0x79 => BaseKeyCode::Again,
            0x7A => BaseKeyCode::Undo,
            0x7B => BaseKeyCode::Cut,
            0x7C => BaseKeyCode::Copy,
            0x7D => BaseKeyCode::Paste,
            0x7E => BaseKeyCode::Find,
            0x7F => BaseKeyCode::KbMute,
            0x80 => BaseKeyCode::KbVolUp,
            0x81 => BaseKeyCode::KbVolDown,
            0x82 => BaseKeyCode::LockingCapsLock,
            0x83 => BaseKeyCode::LockingNumLock,
            0x84 => BaseKeyCode::LockingScrollLock,
            0x85 => BaseKeyCode::KpComma,
            0x86 => BaseKeyCode::KpEqualSign,
            0x87 => BaseKeyCode::International1,
            0x88 => BaseKeyCode::International2,
            0x89 => BaseKeyCode::International3,
            0x8A => BaseKeyCode::International4,
            0x8B => BaseKeyCode::International5,
            0x8C => BaseKeyCode::International6,
            0x8D => BaseKeyCode::International7,
            0x8E => BaseKeyCode::International8,
            0x8F => BaseKeyCode::International9,
            0x90 => BaseKeyCode::Language1,
            0x91 => BaseKeyCode::Language2,
            0x92 => BaseKeyCode::Language3,
            0x93 => BaseKeyCode::Language4,
            0x94 => BaseKeyCode::Language5,
            0x95 => BaseKeyCode::Language6,
            0x96 => BaseKeyCode::Language7,
            0x97 => BaseKeyCode::Language8,
            0x98 => BaseKeyCode::Language9,
            0x99 => BaseKeyCode::AltErase,
            0x9A => BaseKeyCode::SysReq,
            0x9B => BaseKeyCode::Cancel,
            0x9C => BaseKeyCode::Clear,
            0x9D => BaseKeyCode::Prior,
            0x9E => BaseKeyCode::Return,
            0x9F => BaseKeyCode::Separator,
            0xA0 => BaseKeyCode::Out,
            0xA1 => BaseKeyCode::Oper,
            0xA2 => BaseKeyCode::ClearAgain,
            0xA3 => BaseKeyCode::CrSel,
            0xA4 => BaseKeyCode::ExSel,
            0xA5 => BaseKeyCode::SystemPower,
            0xA6 => BaseKeyCode::SystemSleep,
            0xA7 => BaseKeyCode::SystemWake,
            0xA8 => BaseKeyCode::AudioMute,
            0xA9 => BaseKeyCode::AudioVolUp,
            0xAA => BaseKeyCode::AudioVolDown,
            0xAB => BaseKeyCode::MediaNextTrack,
            0xAC => BaseKeyCode::MediaPrevTrack,
            0xAD => BaseKeyCode::MediaStop,
            0xAE => BaseKeyCode::MediaPlayPause,
            0xAF => BaseKeyCode::MediaEject,
            0xB0 => BaseKeyCode::MediaSelect,
            0xB1 => BaseKeyCode::Mail,
            0xB2 => BaseKeyCode::Calculator,
            0xB3 => BaseKeyCode::MyComputer,
            0xB4 => BaseKeyCode::WWWSearch,
            0xB5 => BaseKeyCode::WWWHome,
            0xB6 => BaseKeyCode::WWWBack,
            0xB7 => BaseKeyCode::WWWForward,
            0xB8 => BaseKeyCode::WWWStop,
            0xB9 => BaseKeyCode::WWWRefresh,
            0xBA => BaseKeyCode::WWWFavorites,
            0xBB => BaseKeyCode::MediaFastForward,
            0xBC => BaseKeyCode::MediaRewind,
            0xBD => BaseKeyCode::BrightnessUp,
            0xBE => BaseKeyCode::BrightnessDown,
            0xBF => BaseKeyCode::ControlPanel,
            0xC0 => BaseKeyCode::Assistant,
            0xC1 => BaseKeyCode::MissionControl,
            0xC2 => BaseKeyCode::Launchpad,
            0xCD => BaseKeyCode::MouseUp,
            0xCE => BaseKeyCode::MouseDown,
            0xCF => BaseKeyCode::MouseLeft,
            0xD0 => BaseKeyCode::MouseRight,
            0xD1 => BaseKeyCode::MouseButton1,
            0xD2 => BaseKeyCode::MouseButton2,
            0xD3 => BaseKeyCode::MouseButton3,
            0xD4 => BaseKeyCode::MouseButton4,
            0xD5 => BaseKeyCode::MouseButton5,
            0xD6 => BaseKeyCode::MouseButton6,
            0xD7 => BaseKeyCode::MouseButton7,
            0xD8 => BaseKeyCode::MouseButton8,
            0xD9 => BaseKeyCode::MouseWheeleelUp,
            0xDA => BaseKeyCode::MouseWheeleelDown,
            0xDB => BaseKeyCode::MouseWheeleelLeft,
            0xDC => BaseKeyCode::MouseWheeleelRight,
            0xDD => BaseKeyCode::MouseAcceleration0,
            0xDE => BaseKeyCode::MouseAcceleration1,
            0xDF => BaseKeyCode::MouseAcceleration2,
            0xE0 => BaseKeyCode::LCtrl,
            0xE1 => BaseKeyCode::LShift,
            0xE2 => BaseKeyCode::LAlt,
            0xE3 => BaseKeyCode::LGui,
            0xE4 => BaseKeyCode::RCtrl,
            0xE5 => BaseKeyCode::RShift,
            0xE6 => BaseKeyCode::RAlt,
            0xE7 => BaseKeyCode::RGui,
            0xE8 => BaseKeyCode::Fn0,
            0xE9 => BaseKeyCode::Fn1,
            0xEA => BaseKeyCode::Fn2,
            0xEB => BaseKeyCode::Fn3,
            0xEC => BaseKeyCode::Fn4,
            0xED => BaseKeyCode::Fn5,
            0xEE => BaseKeyCode::Fn6,
            0xEF => BaseKeyCode::Fn7,
            0xF0 => BaseKeyCode::Fn8,
            0xF1 => BaseKeyCode::Fn9,
            0xF2 => BaseKeyCode::Fn10,
            0xF3 => BaseKeyCode::Fn11,
            0xF4 => BaseKeyCode::Fn12,
            0xF5 => BaseKeyCode::Fn13,
            0xF6 => BaseKeyCode::Fn14,
            0xF7 => BaseKeyCode::Fn15,
            0xFE => BaseKeyCode::Bootloader,
            0xFF => BaseKeyCode::Transparent,
            _ => BaseKeyCode::No,
        }
    }

    /// The keycode numbered `number`, or `No` where no keycode has that
    /// number.
    #[verifier::when_used_as_spec(spec_from_primitive)]
    pub fn from_primitive(number: u8) -> (keycode: BaseKeyCode)
        ensures
            keycode == Self::spec_from_primitive(number),
    {
        match number {
            0x00 => BaseKeyCode::No,
            0x01 => BaseKeyCode::ErrorRollover,
            0x02 => BaseKeyCode::PostFail,
            0x03 => BaseKeyCode::ErrorUndefined,
            0x04 => BaseKeyCode::A,
            0x05 => BaseKeyCode::B,
            0x06 => BaseKeyCode::C,
            0x07 => BaseKeyCode::D,
            0x08 => BaseKeyCode::E,
            0x09 => BaseKeyCode::F,
            0x0A => BaseKeyCode::G,
            0x0B => BaseKeyCode::H,
            0x0C => BaseKeyCode::I,
            0x0D => BaseKeyCode::J,
            0x0E => BaseKeyCode::K,
            0x0F => BaseKeyCode::L,
            0x10 => BaseKeyCode::M,
            0x11 => BaseKeyCode::N,
            0x12 => BaseKeyCode::O,
            0x13 => BaseKeyCode::P,
            0x14 => BaseKeyCode::Q,
            0x15 => BaseKeyCode::R,
            0x16 => BaseKeyCode::S,
            0x17 => BaseKeyCode::T,
            0x18 => BaseKeyCode::U,
            0x19 => BaseKeyCode::V,
            0x1A => BaseKeyCode::W,
            0x1B => BaseKeyCode::X,
            0x1C => BaseKeyCode::Y,
            0x1D => BaseKeyCode::Z,
            0x1E => BaseKeyCode::Kc1,
            0x1F => BaseKeyCode::Kc2,
            0x20 => BaseKeyCode::Kc3,
            0x21 => BaseKeyCode::Kc4,
            0x22 => BaseKeyCode::Kc5,
            0x23 => BaseKeyCode::Kc6,
            0x24 => BaseKeyCode::Kc7,
            0x25 => BaseKeyCode::Kc8,
            0x26 => BaseKeyCode::Kc9,
            0x27 => BaseKeyCode::Kc0,
            0x28 => BaseKeyCode::Enter,
            0x29 => BaseKeyCode::Escape,
            0x2A => BaseKeyCode::BackSpace,
            0x2B => BaseKeyCode::Tab,
            0x2C => BaseKeyCode::Space,
            0x2D => BaseKeyCode::Minus,
            0x2E => BaseKeyCode::Equal,
            0x2F => BaseKeyCode::LBracket,
            0x30 => BaseKeyCode::RBracket,
            0x31 => BaseKeyCode::BSlash,
            0x32 => BaseKeyCode::NonUsHash,
            0x33 => BaseKeyCode::SColon,
            0x34 => BaseKeyCode::Quote,
            0x35 => BaseKeyCode::Grave,
            0x36 => BaseKeyCode::Comma,
            0x37 => BaseKeyCode::Dot,
            0x38 => BaseKeyCode::Slash,
            0x39 => BaseKeyCode::CapsLock,
            0x3A => BaseKeyCode::F1,
            0x3B => BaseKeyCode::F2,
            0x3C => BaseKeyCode::F3,
            0x3D => BaseKeyCode::F4,
            0x3E => BaseKeyCode::F5,
            0x3F => BaseKeyCode::F6,
            0x40 => BaseKeyCode::F7,
            0x41 => BaseKeyCode::F8,
            0x42 => BaseKeyCode::F9,
            0x43 => BaseKeyCode::F10,
            0x44 => BaseKeyCode::F11,
            0x45 => BaseKeyCode::F12,
            0x46 => BaseKeyCode::PrintScreen,
            0x47 => BaseKeyCode::ScrollLock,
            0x48 => BaseKeyCode::Pause,
            0x49 => BaseKeyCode::Insert,
            0x4A => BaseKeyCode::Home,
            0x4B => BaseKeyCode::PgUp,
            0x4C => BaseKeyCode::Delete,
            0x4D => BaseKeyCode::End,
            0x4E => BaseKeyCode::PgDown,
            0x4F => BaseKeyCode::Right,
            0x50 => BaseKeyCode::Left,
            0x51 => BaseKeyCode::Down,
            0x52 => BaseKeyCode::Up,
            0x53 => BaseKeyCode::NumLock,
            0x54 => BaseKeyCode::KpSlash,
            0x55 => BaseKeyCode::KpAsterisk,
            0x56 => BaseKeyCode::KpMinus,
            0x57 => BaseKeyCode::KpPlus,
            0x58 => BaseKeyCode::KpEnter,
            0x59 => BaseKeyCode::Kp1,
            0x5A => BaseKeyCode::Kp2,
            0x5B => BaseKeyCode::Kp3,
            0x5C => BaseKeyCode::Kp4,
            0x5D => BaseKeyCode::Kp5,
            0x5E => BaseKeyCode::Kp6,
            0x5F => BaseKeyCode::Kp7,
            0x60 => BaseKeyCode::Kp8,
            0x61 => BaseKeyCode::Kp9,
            0x62 => BaseKeyCode::Kp0,
            0x63 => BaseKeyCode::KpDot,
            0x64 => BaseKeyCode::NonUsBSlash,
            0x65 => BaseKeyCode::Application,
            0x66 => BaseKeyCode::Power,
            0x67 => BaseKeyCode::KpEqual,
            0x68 => BaseKeyCode::F13,
            0x69 => BaseKeyCode::F14,
            0x6A => BaseKeyCode::F15,
            0x6B => BaseKeyCode::F16,
            0x6C => BaseKeyCode::F17,
            0x6D => BaseKeyCode::F18,
            0x6E => BaseKeyCode::F19,
            0x6F => BaseKeyCode::F20,
            0x70 => BaseKeyCode::F21,
            0x71 => BaseKeyCode::F22,
            0x72 => BaseKeyCode::F23,
            0x73 => BaseKeyCode::F24,
            0x74 => BaseKeyCode::Execute,
            0x75 => BaseKeyCode::Help,
            0x76 => BaseKeyCode::Menu,
            0x77 => BaseKeyCode::Select,
            0x78 => BaseKeyCode::Stop,
            0x79 => BaseKeyCode::Again,
            0x7A => BaseKeyCode::Undo,
            0x7B => BaseKeyCode::Cut,
            0x7C => BaseKeyCode::Copy,
            0x7D => BaseKeyCode::Paste,
            0x7E => BaseKeyCode::Find,
            0x7F => BaseKeyCode::KbMute,
            0x80 => BaseKeyCode::KbVolUp,
            0x81 => BaseKeyCode::KbVolDown,
            0x82 => BaseKeyCode::LockingCapsLock,
            0x83 => BaseKeyCode::LockingNumLock,
            0x84 => BaseKeyCode::LockingScrollLock,
            0x85 => BaseKeyCode::KpComma,
            0x86 => BaseKeyCode::KpEqualSign,
            0x87 => BaseKeyCode::International1,
            0x88 => BaseKeyCode::International2,
            0x89 => BaseKeyCode::International3,
            0x8A => BaseKeyCode::International4,
            0x8B => BaseKeyCode::International5,
            0x8C => BaseKeyCode::International6,
            0x8D => BaseKeyCode::International7,
            0x8E => BaseKeyCode::International8,
            0x8F => BaseKeyCode::International9,
            0x90 => BaseKeyCode::Language1,
            0x91 => BaseKeyCode::Language2,
            0x92 => BaseKeyCode::Language3,
            0x93 => BaseKeyCode::Language4,
            0x94 => BaseKeyCode::Language5,
            0x95 => BaseKeyCode::Language6,
            0x96 => BaseKeyCode::Language7,
            0x97 => BaseKeyCode::Language8,
            0x98 => BaseKeyCode::Language9,
            0x99 => BaseKeyCode::AltErase,
            0x9A => BaseKeyCode::SysReq,
            0x9B => BaseKeyCode::Cancel,
            0x9C => BaseKeyCode::Clear,
            0x9D => BaseKeyCode::Prior,
            0x9E => BaseKeyCode::Return,
            0x9F => BaseKeyCode::Separator,
            0xA0 => BaseKeyCode::Out,
            0xA1 => BaseKeyCode::Oper,
            0xA2 => BaseKeyCode::ClearAgain,
            0xA3 => BaseKeyCode::CrSel,
            0xA4 => BaseKeyCode::ExSel,
            0xA5 => BaseKeyCode::SystemPower,
            0xA6 => BaseKeyCode::SystemSleep,
            0xA7 => BaseKeyCode::SystemWake,
            0xA8 => BaseKeyCode::AudioMute,
            0xA9 => BaseKeyCode::AudioVolUp,
            0xAA => BaseKeyCode::AudioVolDown,
            0xAB => BaseKeyCode::MediaNextTrack,
            0xAC => BaseKeyCode::MediaPrevTrack,
            0xAD => BaseKeyCode::MediaStop,
            0xAE => BaseKeyCode::MediaPlayPause,
            0xAF => BaseKeyCode::MediaEject,
            0xB0 => BaseKeyCode::MediaSelect,
            0xB1 => BaseKeyCode::Mail,
            0xB2 => BaseKeyCode::Calculator,
            0xB3 => BaseKeyCode::MyComputer,
            0xB4 => BaseKeyCode::WWWSearch,
            0xB5 => BaseKeyCode::WWWHome,
            0xB6 => BaseKeyCode::WWWBack,
            0xB7 => BaseKeyCode::WWWForward,
            0xB8 => BaseKeyCode::WWWStop,
            0xB9 => BaseKeyCode::WWWRefresh,
            0xBA => BaseKeyCode::WWWFavorites,
            0xBB => BaseKeyCode::MediaFastForward,
            0xBC => BaseKeyCode::MediaRewind,
            0xBD => BaseKeyCode::BrightnessUp,
            0xBE => BaseKeyCode::BrightnessDown,
            0xBF => BaseKeyCode::ControlPanel,
            0xC0 => BaseKeyCode::Assistant,
            0xC1 => BaseKeyCode::MissionControl,
            0xC2 => BaseKeyCode::Launchpad,
            0xCD => BaseKeyCode::MouseUp,
            0xCE => BaseKeyCode::MouseDown,
            0xCF => BaseKeyCode::MouseLeft,
            0xD0 => BaseKeyCode::MouseRight,
            0xD1 => BaseKeyCode::MouseButton1,
            0xD2 => BaseKeyCode::MouseButton2,
            0xD3 => BaseKeyCode::MouseButton3,
            0xD4 => BaseKeyCode::MouseButton4,
            0xD5 => BaseKeyCode::MouseButton5,
            0xD6 => BaseKeyCode::MouseButton6,
            0xD7 => BaseKeyCode::MouseButton7,
            0xD8 => BaseKeyCode::MouseButton8,
            0xD9 => BaseKeyCode::MouseWheeleelUp,
            0xDA => BaseKeyCode::MouseWheeleelDown,
            0xDB => BaseKeyCode::MouseWheeleelLeft,
            0xDC => BaseKeyCode::MouseWheeleelRight,
            0xDD => BaseKeyCode::MouseAcceleration0,
            0xDE => BaseKeyCode::MouseAcceleration1,
            0xDF => BaseKeyCode::MouseAcceleration2,
            0xE0 => BaseKeyCode::LCtrl,
            0xE1 => BaseKeyCode::LShift,
            0xE2 => BaseKeyCode::LAlt,
            0xE3 => BaseKeyCode::LGui,
            0xE4 => BaseKeyCode::RCtrl,
            0xE5 => BaseKeyCode::RShift,
            0xE6 => BaseKeyCode::RAlt,
            0xE7 => BaseKeyCode::RGui,
            0xE8 => BaseKeyCode::Fn0,
            0xE9 => BaseKeyCode::Fn1,
            0xEA => BaseKeyCode::Fn2,
            0xEB => BaseKeyCode::Fn3,
            0xEC => BaseKeyCode::Fn4,
            0xED => BaseKeyCode::Fn5,
            0xEE => BaseKeyCode::Fn6,
            0xEF => BaseKeyCode::Fn7,
            0xF0 => BaseKeyCode::Fn8,
            0xF1 => BaseKeyCode::Fn9,
            0xF2 => BaseKeyCode::Fn10,
            0xF3 => BaseKeyCode::Fn11,
            0xF4 => BaseKeyCode::Fn12,
            0xF5 => BaseKeyCode::Fn13,
            0xF6 => BaseKeyCode::Fn14,
            0xF7 => BaseKeyCode::Fn15,
            0xFE => BaseKeyCode::Bootloader,
            0xFF => BaseKeyCode::Transparent,
            _ => BaseKeyCode::No,
        }
    }

    /// Whether this keycode's number lies between those of `first` and
    /// `last`, both included.
    fn in_range(self, first: BaseKeyCode, last: BaseKeyCode) -> (inside: bool)
        ensures
            inside == (first.spec_code() <= self.spec_code() <= last.spec_code()),
    {
        let code: u8 = self.code();
        first.code() <= code && code <= last.code()
    }

    /// Returns `true` if the keycode is a modifier, which a USB HID report
    /// sends apart from the keys.
    /// These are the keycodes from `LCtrl` to `RGui`.
    pub open spec fn spec_is_modifier(self) -> bool {
        0xE0 <= self.spec_code() <= 0xE7
    }

    /// Returns `true` if the keycode is a modifier, which a USB HID report
    /// sends apart from the keys.
    #[verifier::when_used_as_spec(spec_is_modifier)]
    pub fn is_modifier(self) -> (yes: bool)
        ensures
            yes == self.spec_is_modifier(),
    {
        self.in_range(BaseKeyCode::LCtrl, BaseKeyCode::RGui)
    }

    /// Returns `true` if the keycode is a keycode of the consumer page.
    /// For Windows the last keycode of the consumer page is `BrightnessDown`;
    /// `Launchpad` is the last one here, to be compatible with macOS.
    /// These are the keycodes from `AudioMute` to `Launchpad`.
    pub open spec fn spec_is_consumer(self) -> bool {
        0xA8 <= self.spec_code() <= 0xC2
    }

    /// Returns `true` if the keycode is a keycode of the consumer page.
    /// For Windows the last keycode of the consumer page is `BrightnessDown`;
    /// `Launchpad` is the last one here, to be compatible with macOS.
    #[verifier::when_used_as_spec(spec_is_consumer)]
    pub fn is_consumer(self) -> (yes: bool)
        ensures
            yes == self.spec_is_consumer(),
    {
        self.in_range(BaseKeyCode::AudioMute, BaseKeyCode::Launchpad)
    }

    /// Returns `true` if the keycode is a mouse key, which is sent in a mouse
    /// report of its own.
    /// These are the keycodes from `MouseUp` to `MouseAcceleration2`.
    pub open spec fn spec_is_mouse_key(self) -> bool {
        0xCD <= self.spec_code() <= 0xDF
    }

    /// Returns `true` if the keycode is a mouse key, which is sent in a mouse
    /// report of its own.
    #[verifier::when_used_as_spec(spec_is_mouse_key)]
    pub fn is_mouse_key(self) -> (yes: bool)
        ensures
            yes == self.spec_is_mouse_key(),
    {
        self.in_range(BaseKeyCode::MouseUp, BaseKeyCode::MouseAcceleration2)
    }

    /// The bit of a modifier in the modifier byte of a USB HID report: bit 0
    /// for `LCtrl` up to bit 7 for `RGui`.
    pub open spec fn spec_as_modifier_bit(self) -> u8 {
        if self.spec_is_modifier() {
            1u8 << ((self.spec_code() - BaseKeyCode::LCtrl.spec_code()) as u8)
        } else {
            0
        }
    }

    /// Returns the byte in which the bit of this modifier in the modifier
    /// byte of a USB HID report is set, and 0 for a keycode that is no
    /// modifier.
    #[verifier::when_used_as_spec(spec_as_modifier_bit)]
    pub fn as_modifier_bit(self) -> (bit: u8)
        ensures
            bit == self.spec_as_modifier_bit(),
    {
        if self.is_modifier() {
            1u8 << (self.code() - BaseKeyCode::LCtrl.code())
        } else {
            0
        }
    }

    /// Reading a keycode's number back gives the keycode.
    pub proof fn lemma_code_round_trip(keycode: BaseKeyCode)
        ensures
            Self::spec_from_primitive(keycode.spec_code()) == keycode,
    {
    }

    /// No two keycodes share a number.
    pub proof fn lemma_code_injective(a: BaseKeyCode, b: BaseKeyCode)
        requires
            a.spec_code() == b.spec_code(),
        ensures
            a == b,
    {
        Self::lemma_code_round_trip(a);
        Self::lemma_code_round_trip(b);
    }

    /// Where a number is not read as a keycode that has it, no keycode has
    /// it.
    pub proof fn lemma_unused_number(number: u8, keycode: BaseKeyCode)
        requires
            Self::spec_from_primitive(number).spec_code() != number,
        ensures
            keycode.spec_code() != number,
    {
        Self::lemma_code_round_trip(keycode);
    }

    /// A number is read as a keycode that has it, or as `No`.
    pub proof fn lemma_from_primitive_code(number: u8)
        ensures
            Self::spec_from_primitive(number).spec_code() == number || Self::spec_from_primitive(
                number,
            ) == BaseKeyCode::No,
    {
    }

    /// The modifier bits are the eight bits of a byte, one for each modifier
    /// in the order of their numbers.
    pub proof fn lemma_modifier_bits()
        ensures
            BaseKeyCode::LCtrl.spec_as_modifier_bit() == 0x01,
            BaseKeyCode::LShift.spec_as_modifier_bit() == 0x02,
            BaseKeyCode::LAlt.spec_as_modifier_bit() == 0x04,
            BaseKeyCode::LGui.spec_as_modifier_bit() == 0x08,
            BaseKeyCode::RCtrl.spec_as_modifier_bit() == 0x10,
            BaseKeyCode::RShift.spec_as_modifier_bit() == 0x20,
            BaseKeyCode::RAlt.spec_as_modifier_bit() == 0x40,
            BaseKeyCode::RGui.spec_as_modifier_bit() == 0x80,
    {
        assert(1u8 << 0u8 == 0x01 && 1u8 << 1u8 == 0x02 && 1u8 << 2u8 == 0x04 && 1u8 << 3u8 == 0x08
            && 1u8 << 4u8 == 0x10 && 1u8 << 5u8 == 0x20 && 1u8 << 6u8 == 0x40 && 1u8 << 7u8
            == 0x80) by (bit_vector);
    }

}

} // verus!
