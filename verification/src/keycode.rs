//! Keycodes: the internal 16-bit representation of keys and keyboard
//! operations, and the ranges that sort them into kinds.

use vstd::prelude::*;
pub use crate::base_keycode::BaseKeyCode;

verus! {

/// KeyCode is the internal representation of all keycodes and keyboard
/// operations. To be compatible with Via/Vial, most of them have the numbers
/// that QMK gives them.
///
/// The variants are declared in the order of their numbers, so the derived
/// order of the keycodes is the order of their numbers.
#[derive(Debug, Copy, Clone, PartialEq, Eq, PartialOrd, Ord, Structural)]
pub enum KeyCode {
    No,
    Transparent,
    A,
    B,
    C,
    D,
    E,
    F,
    G,
    H,
    I,
    J,
    K,
    L,
    M,
    N,
    O,
    P,
    Q,
    R,
    S,
    T,
    U,
    V,
    W,
    X,
    Y,
    Z,
    Kc1,
    Kc2,
    Kc3,
    Kc4,
    Kc5,
    Kc6,
    Kc7,
    Kc8,
    Kc9,
    Kc0,
    Enter,
    Escape,
    Backspace,
    Tab,
    Space,
    Minus,
    Equal,
    LeftBracket,
    RightBracket,
    Backslash,
    NonusHash,
    Semicolon,
    Quote,
    Grave,
    Comma,
    Dot,
    Slash,
    CapsLock,
    F1,
    F2,
    F3,
    F4,
    F5,
    F6,
    F7,
    F8,
    F9,
    F10,
    F11,
    F12,
    PrintScreen,
    ScrollLock,
    Pause,
    Insert,
    Home,
    PageUp,
    Delete,
    End,
    PageDown,
    Right,
    Left,
    Down,
    UP,
    NumLock,
    KpSlash,
    KpAsterisk,
    KpMinus,
    KpPlus,
    KpEnter,
    Kp1,
    Kp2,
    Kp3,
    Kp4,
    Kp5,
    Kp6,
    Kp7,
    Kp8,
    Kp9,
    Kp0,
    KpDot,
    NonusBackslash,
    Application,
    KbPower,
    KpEqual,
    F13,
    F14,
    F15,
    F16,
    F17,
    F18,
    F19,
    F20,
    F21,
    F22,
    F23,
    F24,
    Execute,
    Help,
    Menu,
    Select,
    Stop,
    Again,
    Undo,
    Cut,
    Copy,
    Paste,
    Find,
    KbMute,
    KbVolumeUp,
    KbVolumeDown,
    LockingCapsLock,
    LockingNumLock,
    LockingScrollLock,
    KpComma,
    KpEqualAs400,
    International1,
    International2,
    International3,
    International4,
    International5,
    International6,
    International7,
    International8,
    International9,
    Language1,
    Language2,
    Language3,
    Language4,
    Language5,
    Language6,
    Language7,
    Language8,
    Language9,
    AlternateErase,
    SystemRequest,
    Cancel,
    Clear,
    Prior,
    Return,
    Separator,
    Out,
    Oper,
    ClearAgain,
    Crsel,
    Exsel,
    SystemPower,
    SystemSleep,
    SystemWake,
    AudioMute,
    AudioVolUp,
    AudioVolDown,
    MediaNextTrack,
    MediaPrevTrack,
    MediaStop,
    MediaPlayPause,
    MediaSelect,
    MediaEject,
    Mail,
    Calculator,
    MyComputer,
    WwwSearch,
    WwwHome,
    WwwBack,
    WwwForward,
    WwwStop,
    WwwRefresh,
    WwwFavorites,
    MediaFastForward,
    MediaRewind,
    BrightnessUp,
    BrightnessDown,
    ControlPanel,
    Assistant,
    MissionControl,
    Launchpad,
    MouseUp,
    MouseDown,
    MouseLeft,
    MouseRight,
    MouseBtn1,
    MouseBtn2,
    MouseBtn3,
    MouseBtn4,
    MouseBtn5,
    MouseBtn6,
    MouseBtn7,
    MouseBtn8,
    MouseWheelUp,
    MouseWheelDown,
    MouseWheelLeft,
    MouseWheelRight,
    MouseAccel0,
    MouseAccel1,
    MouseAccel2,
    LCtrl,
    LShift,
    LAlt,
    LGui,
    RCtrl,
    RShift,
    RAlt,
    RGui,
    SwapHandsToggle,
    SwapHandsTapToggle,
    SwapHandsMomentaryOn,
    SwapHandsMomentaryOff,
    SwapHandsOff,
    SwapHandsOn,
    SwapHandsOneShot,
    MagicSwapControlCapsLock,
    MagicUnswapControlCapsLock,
    MagicToggleControlCapsLock,
    MagicCapsLockAsControlOff,
    MagicCapsLockAsControlOn,
    MagicSwapLaltLGui,
    MagicUnswapLaltLGui,
    MagicSwapRaltRGui,
    MagicUnswapRaltRGui,
    MagicGuiOn,
    MagicGuiOff,
    MagicToggleGui,
    MagicSwapGraveEsc,
    MagicUnswapGraveEsc,
    MagicSwapBackslashBackspace,
    MagicUnswapBackslashBackspace,
    MagicToggleBackslashBackspace,
    MagicNkroOn,
    MagicNkroOff,
    MagicToggleNkro,
    MagicSwapAltGui,
    MagicUnswapAltGui,
    MagicToggleAltGui,
    MagicSwapLctlLGui,
    MagicUnswapLctlLGui,
    MagicSwapRctlRGui,
    MagicUnswapRctlRGui,
    MagicSwapCtlGui,
    MagicUnswapCtlGui,
    MagicToggleCtlGui,
    MagicEeHandsLeft,
    MagicEeHandsRight,
    MagicSwapEscapeCapsLock,
    MagicUnswapEscapeCapsLock,
    MagicToggleEscapeCapsLock,
    MidiOn,
    MidiOff,
    MidiToggle,
    MidiNoteC0,
    MidiNoteCSharp0,
    MidiNoteD0,
    MidiNoteDSharp0,
    MidiNoteE0,
    MidiNoteF0,
    MidiNoteFSharp0,
    MidiNoteG0,
    MidiNoteGSharp0,
    MidiNoteA0,
    MidiNoteASharp0,
    MidiNoteB0,
    MidiNoteC1,
    MidiNoteCSharp1,
    MidiNoteD1,
    MidiNoteDSharp1,
    MidiNoteE1,
    MidiNoteF1,
    MidiNoteFSharp1,
    MidiNoteG1,
    MidiNoteGSharp1,
    MidiNoteA1,
    MidiNoteASharp1,
    MidiNoteB1,
    MidiNoteC2,
    MidiNoteCSharp2,
    MidiNoteD2,
    MidiNoteDSharp2,
    MidiNoteE2,
    MidiNoteF2,
    MidiNoteFSharp2,
    MidiNoteG2,
    MidiNoteGSharp2,
    MidiNoteA2,
    MidiNoteASharp2,
    MidiNoteB2,
    MidiNoteC3,
    MidiNoteCSharp3,
    MidiNoteD3,
    MidiNoteDSharp3,
    MidiNoteE3,
    MidiNoteF3,
    MidiNoteFSharp3,
    MidiNoteG3,
    MidiNoteGSharp3,
    MidiNoteA3,
    MidiNoteASharp3,
    MidiNoteB3,
    MidiNoteC4,
    MidiNoteCSharp4,
    MidiNoteD4,
    MidiNoteDSharp4,
    MidiNoteE4,
    MidiNoteF4,
    MidiNoteFSharp4,
    MidiNoteG4,
    MidiNoteGSharp4,
    MidiNoteA4,
    MidiNoteASharp4,
    MidiNoteB4,
    MidiNoteC5,
    MidiNoteCSharp5,
    MidiNoteD5,
    MidiNoteDSharp5,
    MidiNoteE5,
    MidiNoteF5,
    MidiNoteFSharp5,
    MidiNoteG5,
    MidiNoteGSharp5,
    MidiNoteA5,
    MidiNoteASharp5,
    MidiNoteB5,
    MidiOctaveN2,
    MidiOctaveN1,
    MidiOctave0,
    MidiOctave1,
    MidiOctave2,
    MidiOctave3,
    MidiOctave4,
    MidiOctave5,
    MidiOctave6,
    MidiOctave7,
    MidiOctaveDOWN,
    MidiOctaveUP,
    MidiTransposeN6,
    MidiTransposeN5,
    MidiTransposeN4,
    MidiTransposeN3,
    MidiTransposeN2,
    MidiTransposeN1,
    MidiTranspose0,
    MidiTranspose1,
    MidiTranspose2,
    MidiTranspose3,
    MidiTranspose4,
    MidiTranspose5,
    MidiTranspose6,
    MidiTransposeDown,
    MidiTransposeUp,
    MidiVelocity0,
    MidiVelocity1,
    MidiVelocity2,
    MidiVelocity3,
    MidiVelocity4,
    MidiVelocity5,
    MidiVelocity6,
    MidiVelocity7,
    MidiVelocity8,
    MidiVelocity9,
    MidiVelocity10,
    MidiVelocityDOWN,
    MidiVelocityUP,
    MidiChannel1,
    MidiChannel2,
    MidiChannel3,
    MidiChannel4,
    MidiChannel5,
    MidiChannel6,
    MidiChannel7,
    MidiChannel8,
    MidiChannel9,
    MidiChannel10,
    MidiChannel11,
    MidiChannel12,
    MidiChannel13,
    MidiChannel14,
    MidiChannel15,
    MidiChannel16,
    MidiChannelDOWN,
    MidiChannelUP,
    MidiAllNotesOff,
    MidiSustain,
    MidiPortamento,
    MidiSostenuto,
    MidiSoft,
    MidiLegato,
    MidiModulation,
    MidiModulationSpeedDown,
    MidiModulationSpeedUp,
    MidiPitchBendDown,
    MidiPitchBendUp,
    SequencerOn,
    SequencerOff,
    SequencerToggle,
    SequencerTempoDown,
    SequencerTempoUp,
    SequencerResolutionDown,
    SequencerResolutionUp,
    SequencerStepsAll,
    SequencerStepsClear,
    JoystickButton0,
    JoystickButton1,
    JoystickButton2,
    JoystickButton3,
    JoystickButton4,
    JoystickButton5,
    JoystickButton6,
    JoystickButton7,
    JoystickButton8,
    JoystickButton9,
    JoystickButton10,
    JoystickButton11,
    JoystickButton12,
    JoystickButton13,
    JoystickButton14,
    JoystickButton15,
    JoystickButton16,
    JoystickButton17,
    JoystickButton18,
    JoystickButton19,
    JoystickButton20,
    JoystickButton21,
    JoystickButton22,
    JoystickButton23,
    JoystickButton24,
    JoystickButton25,
    JoystickButton26,
    JoystickButton27,
    JoystickButton28,
    JoystickButton29,
    JoystickButton30,
    JoystickButton31,
    ProgrammableButton1,
    ProgrammableButton2,
    ProgrammableButton3,
    ProgrammableButton4,
    ProgrammableButton5,
    ProgrammableButton6,
    ProgrammableButton7,
    ProgrammableButton8,
    ProgrammableButton9,
    ProgrammableButton10,
    ProgrammableButton11,
    ProgrammableButton12,
    ProgrammableButton13,
    ProgrammableButton14,
    ProgrammableButton15,
    ProgrammableButton16,
    ProgrammableButton17,
    ProgrammableButton18,
    ProgrammableButton19,
    ProgrammableButton20,
    ProgrammableButton21,
    ProgrammableButton22,
    ProgrammableButton23,
    ProgrammableButton24,
    ProgrammableButton25,
    ProgrammableButton26,
    ProgrammableButton27,
    ProgrammableButton28,
    ProgrammableButton29,
    ProgrammableButton30,
    ProgrammableButton31,
    ProgrammableButton32,
    AudioOn,
    AudioOff,
    AudioToggle,
    AudioClickyToggle,
    AudioClickyOn,
    AudioClickyOff,
    AudioClickyUp,
    AudioClickyDown,
    AudioClickyReset,
    MusicOn,
    MusicOff,
    MusicToggle,
    MusicModeNext,
    AudioVoiceNext,
    AudioVoicePrevious,
    StenoBolt,
    StenoGemini,
    StenoComb,
    StenoCombMax,
    Macro0,
    Macro1,
    Macro2,
    Macro3,
    Macro4,
    Macro5,
    Macro6,
    Macro7,
    Macro8,
    Macro9,
    Macro10,
    Macro11,
    Macro12,
    Macro13,
    Macro14,
    Macro15,
    Macro16,
    Macro17,
    Macro18,
    Macro19,
    Macro20,
    Macro21,
    Macro22,
    Macro23,
    Macro24,
    Macro25,
    Macro26,
    Macro27,
    Macro28,
    Macro29,
    Macro30,
    Macro31,
    BacklightOn,
    BacklightOff,
    BacklightToggle,
    BacklightDown,
    BacklightUp,
    BacklightStep,
    BacklightToggleBreathing,
    RgbTog,
    RgbModeForward,
    RgbModeReverse,
    RgbHui,
    RgbHud,
    RgbSai,
    RgbSad,
    RgbVai,
    RgbVad,
    RgbSpi,
    RgbSpd,
    RgbModePlain,
    RgbModeBreathe,
    RgbModeRainbow,
    RgbModeSwirl,
    RgbModeSnake,
    RgbModeKnight,
    RgbModeXmas,
    RgbModeGradient,
    RgbModeRgbtest,
    RgbModeTwinkle,
    Bootloader,
    Reboot,
    DebugToggle,
    ClearEeprom,
    Make,
    AutoShiftDown,
    AutoShiftUp,
    AutoShiftReport,
    AutoShiftOn,
    AutoShiftOff,
    AutoShiftToggle,
    GraveEscape,
    VelocikeyToggle,
    SpaceCadetLCtrlParenthesisOpen,
    SpaceCadetRCtrlParenthesisClose,
    SpaceCadetLShiftParenthesisOpen,
    SpaceCadetRShiftParenthesisClose,
    SpaceCadetLAltParenthesisOpen,
    SpaceCadetRAltParenthesisClose,
    SpaceCadetRShiftEnter,
    OutputAuto,
    OutputUsb,
    OutputBluetooth,
    UnicodeModeNext,
    UnicodeModePrevious,
    UnicodeModeMacos,
    UnicodeModeLinux,
    UnicodeModeWindows,
    UnicodeModeBsd,
    UnicodeModeWincompose,
    UnicodeModeEmacs,
    HapticOn,
    HapticOff,
    HapticToggle,
    HapticReset,
    HapticFeedbackToggle,
    HapticBuzzToggle,
    HapticModeNext,
    HapticModePrevious,
    HapticContinuousToggle,
    HapticContinuousUp,
    HapticContinuousDown,
    HapticDwellUp,
    HapticDwellDown,
    ComboOn,
    ComboOff,
    ComboToggle,
    DynamicMacroRecordStart1,
    DynamicMacroRecordStart2,
    DynamicMacroRecordStop,
    DynamicMacroPlay1,
    DynamicMacroPlay2,
    Leader,
    Lock,
    OneShotOn,
    OneShotOff,
    OneShotToggle,
    KeyOverrideToggle,
    KeyOverrideOn,
    KeyOverrideOff,
    SecureLock,
    SecureUnlock,
    SecureToggle,
    SecureRequest,
    DynamicTappingTermPrint,
    DynamicTappingTermUp,
    DynamicTappingTermDown,
    CapsWordToggle,
    AutocorrectOn,
    AutocorrectOff,
    AutocorrectToggle,
    TriLayerLower,
    TriLayerUpper,
    RepeatKey,
    AltRepeatKey,
    Kb0,
    Kb1,
    Kb2,
    Kb3,
    Kb4,
    Kb5,
    Kb6,
    Kb7,
    Kb8,
    Kb9,
    Kb10,
    Kb11,
    Kb12,
    Kb13,
    Kb14,
    Kb15,
    Kb16,
    Kb17,
    Kb18,
    Kb19,
    Kb20,
    Kb21,
    Kb22,
    Kb23,
    Kb24,
    Kb25,
    Kb26,
    Kb27,
    Kb28,
    Kb29,
    Kb30,
    Kb31,
    User0,
    User1,
    User2,
    User3,
    User4,
    User5,
    User6,
    User7,
    User8,
    User9,
    User10,
    User11,
    User12,
    User13,
    User14,
    User15,
    User16,
    User17,
    User18,
    User19,
    User20,
    User21,
    User22,
    User23,
    User24,
    User25,
    User26,
    User27,
    User28,
    User29,
    User30,
    User31,
}

impl KeyCode {
    /// The number that stands for this keycode.
    pub open spec fn spec_code(self) -> u16 {
        match self {
            KeyCode::No => 0x0000,
            KeyCode::Transparent => 0x0001,
            KeyCode::A => 0x0004,
            KeyCode::B => 0x0005,
            KeyCode::C => 0x0006,
            KeyCode::D => 0x0007,
            KeyCode::E => 0x0008,
            KeyCode::F => 0x0009,
            KeyCode::G => 0x000A,
            KeyCode::H => 0x000B,
            KeyCode::I => 0x000C,
            KeyCode::J => 0x000D,
            KeyCode::K => 0x000E,
            KeyCode::L => 0x000F,
            KeyCode::M => 0x0010,
            KeyCode::N => 0x0011,
            KeyCode::O => 0x0012,
            KeyCode::P => 0x0013,
            KeyCode::Q => 0x0014,
            KeyCode::R => 0x0015,
            KeyCode::S => 0x0016,
            KeyCode::T => 0x0017,
            KeyCode::U => 0x0018,
            KeyCode::V => 0x0019,
            KeyCode::W => 0x001A,
            KeyCode::X => 0x001B,
            KeyCode::Y => 0x001C,
            KeyCode::Z => 0x001D,
            KeyCode::Kc1 => 0x001E,
            KeyCode::Kc2 => 0x001F,
            KeyCode::Kc3 => 0x0020,
            KeyCode::Kc4 => 0x0021,
            KeyCode::Kc5 => 0x0022,
            KeyCode::Kc6 => 0x0023,
            KeyCode::Kc7 => 0x0024,
            KeyCode::Kc8 => 0x0025,
            KeyCode::Kc9 => 0x0026,
            KeyCode::Kc0 => 0x0027,
            KeyCode::Enter => 0x0028,
            KeyCode::Escape => 0x0029,
            KeyCode::Backspace => 0x002A,
            KeyCode::Tab => 0x002B,
            KeyCode::Space => 0x002C,
            KeyCode::Minus => 0x002D,
            KeyCode::Equal => 0x002E,
            KeyCode::LeftBracket => 0x002F,
            KeyCode::RightBracket => 0x0030,
            KeyCode::Backslash => 0x0031,
            KeyCode::NonusHash => 0x0032,
            KeyCode::Semicolon => 0x0033,
            KeyCode::Quote => 0x0034,
            KeyCode::Grave => 0x0035,
            KeyCode::Comma => 0x0036,
            KeyCode::Dot => 0x0037,
            KeyCode::Slash => 0x0038,
            KeyCode::CapsLock => 0x0039,
            KeyCode::F1 => 0x003A,
            KeyCode::F2 => 0x003B,
            KeyCode::F3 => 0x003C,
            KeyCode::F4 => 0x003D,
            KeyCode::F5 => 0x003E,
            KeyCode::F6 => 0x003F,
            KeyCode::F7 => 0x0040,
            KeyCode::F8 => 0x0041,
            KeyCode::F9 => 0x0042,
            KeyCode::F10 => 0x0043,
            KeyCode::F11 => 0x0044,
            KeyCode::F12 => 0x0045,
            KeyCode::PrintScreen => 0x0046,
            KeyCode::ScrollLock => 0x0047,
            KeyCode::Pause => 0x0048,
            KeyCode::Insert => 0x0049,
            KeyCode::Home => 0x004A,
            KeyCode::PageUp => 0x004B,
            KeyCode::Delete => 0x004C,
            KeyCode::End => 0x004D,
            KeyCode::PageDown => 0x004E,
            KeyCode::Right => 0x004F,
            KeyCode::Left => 0x0050,
            KeyCode::Down => 0x0051,
            KeyCode::UP => 0x0052,
            KeyCode::NumLock => 0x0053,
            KeyCode::KpSlash => 0x0054,
            KeyCode::KpAsterisk => 0x0055,
            KeyCode::KpMinus => 0x0056,
            KeyCode::KpPlus => 0x0057,
            KeyCode::KpEnter => 0x0058,
            KeyCode::Kp1 => 0x0059,
            KeyCode::Kp2 => 0x005A,
            KeyCode::Kp3 => 0x005B,
            KeyCode::Kp4 => 0x005C,
            KeyCode::Kp5 => 0x005D,
            KeyCode::Kp6 => 0x005E,
            KeyCode::Kp7 => 0x005F,
            KeyCode::Kp8 => 0x0060,
            KeyCode::Kp9 => 0x0061,
            KeyCode::Kp0 => 0x0062,
            KeyCode::KpDot => 0x0063,
            KeyCode::NonusBackslash => 0x0064,
            KeyCode::Application => 0x0065,
            KeyCode::KbPower => 0x0066,
            KeyCode::KpEqual => 0x0067,
            KeyCode::F13 => 0x0068,
            KeyCode::F14 => 0x0069,
            KeyCode::F15 => 0x006A,
            KeyCode::F16 => 0x006B,
            KeyCode::F17 => 0x006C,
            KeyCode::F18 => 0x006D,
            KeyCode::F19 => 0x006E,
            KeyCode::F20 => 0x006F,
            KeyCode::F21 => 0x0070,
            KeyCode::F22 => 0x0071,
            KeyCode::F23 => 0x0072,
            KeyCode::F24 => 0x0073,
            KeyCode::Execute => 0x0074,
            KeyCode::Help => 0x0075,
            KeyCode::Menu => 0x0076,
            KeyCode::Select => 0x0077,
            KeyCode::Stop => 0x0078,
            KeyCode::Again => 0x0079,
            KeyCode::Undo => 0x007A,
            KeyCode::Cut => 0x007B,
            KeyCode::Copy => 0x007C,
            KeyCode::Paste => 0x007D,
            KeyCode::Find => 0x007E,
            KeyCode::KbMute => 0x007F,
            KeyCode::KbVolumeUp => 0x0080,
            KeyCode::KbVolumeDown => 0x0081,
            KeyCode::LockingCapsLock => 0x0082,
            KeyCode::LockingNumLock => 0x0083,
            KeyCode::LockingScrollLock => 0x0084,
            KeyCode::KpComma => 0x0085,
            KeyCode::KpEqualAs400 => 0x0086,
            KeyCode::International1 => 0x0087,
            KeyCode::International2 => 0x0088,
            KeyCode::International3 => 0x0089,
            KeyCode::International4 => 0x008A,
            KeyCode::International5 => 0x008B,
            KeyCode::International6 => 0x008C,
            KeyCode::International7 => 0x008D,
            KeyCode::International8 => 0x008E,
            KeyCode::International9 => 0x008F,
            KeyCode::Language1 => 0x0090,
            KeyCode::Language2 => 0x0091,
            KeyCode::Language3 => 0x0092,
            KeyCode::Language4 => 0x0093,
            KeyCode::Language5 => 0x0094,
            KeyCode::Language6 => 0x0095,
            KeyCode::Language7 => 0x0096,
            KeyCode::Language8 => 0x0097,
            KeyCode::Language9 => 0x0098,
            KeyCode::AlternateErase => 0x0099,
            KeyCode::SystemRequest => 0x009A,
            KeyCode::Cancel => 0x009B,
            KeyCode::Clear => 0x009C,
            KeyCode::Prior => 0x009D,
            KeyCode::Return => 0x009E,
            KeyCode::Separator => 0x009F,
            KeyCode::Out => 0x00A0,
            KeyCode::Oper => 0x00A1,
            KeyCode::ClearAgain => 0x00A2,
            KeyCode::Crsel => 0x00A3,
            KeyCode::Exsel => 0x00A4,
            KeyCode::SystemPower => 0x00A5,
            KeyCode::SystemSleep => 0x00A6,
            KeyCode::SystemWake => 0x00A7,
            KeyCode::AudioMute => 0x00A8,
            KeyCode::AudioVolUp => 0x00A9,
            KeyCode::AudioVolDown => 0x00AA,
            KeyCode::MediaNextTrack => 0x00AB,
            KeyCode::MediaPrevTrack => 0x00AC,
            KeyCode::MediaStop => 0x00AD,
            KeyCode::MediaPlayPause => 0x00AE,
            KeyCode::MediaSelect => 0x00AF,
            KeyCode::MediaEject => 0x00B0,
            KeyCode::Mail => 0x00B1,
            KeyCode::Calculator => 0x00B2,
            KeyCode::MyComputer => 0x00B3,
            KeyCode::WwwSearch => 0x00B4,
            KeyCode::WwwHome => 0x00B5,
            KeyCode::WwwBack => 0x00B6,
            KeyCode::WwwForward => 0x00B7,
            KeyCode::WwwStop => 0x00B8,
            KeyCode::WwwRefresh => 0x00B9,
            KeyCode::WwwFavorites => 0x00BA,
            KeyCode::MediaFastForward => 0x00BB,
            KeyCode::MediaRewind => 0x00BC,
            KeyCode::BrightnessUp => 0x00BD,
            KeyCode::BrightnessDown => 0x00BE,
            KeyCode::ControlPanel => 0x00BF,
            KeyCode::Assistant => 0x00C0,
            KeyCode::MissionControl => 0x00C1,
            KeyCode::Launchpad => 0x00C2,
            KeyCode::MouseUp => 0x00CD,
            KeyCode::MouseDown => 0x00CE,
            KeyCode::MouseLeft => 0x00CF,
            KeyCode::MouseRight => 0x00D0,
            KeyCode::MouseBtn1 => 0x00D1,
            KeyCode::MouseBtn2 => 0x00D2,
            KeyCode::MouseBtn3 => 0x00D3,
            KeyCode::MouseBtn4 => 0x00D4,
            KeyCode::MouseBtn5 => 0x00D5,
            KeyCode::MouseBtn6 => 0x00D6,
            KeyCode::MouseBtn7 => 0x00D7,
            KeyCode::MouseBtn8 => 0x00D8,
            KeyCode::MouseWheelUp => 0x00D9,
            KeyCode::MouseWheelDown => 0x00DA,
            KeyCode::MouseWheelLeft => 0x00DB,
            KeyCode::MouseWheelRight => 0x00DC,
            KeyCode::MouseAccel0 => 0x00DD,
            KeyCode::MouseAccel1 => 0x00DE,
            KeyCode::MouseAccel2 => 0x00DF,
            KeyCode::LCtrl => 0x00E0,
            KeyCode::LShift => 0x00E1,
            KeyCode::LAlt => 0x00E2,
            KeyCode::LGui => 0x00E3,
            KeyCode::RCtrl => 0x00E4,
            KeyCode::RShift => 0x00E5,
            KeyCode::RAlt => 0x00E6,
            KeyCode::RGui => 0x00E7,
            _ => self.spec_code_musical(),
        }
    }

    /// Continues `spec_code` for the keycodes from the swap-hands keys on. The table is cut
    /// into pieces so that each piece stays small.
    pub open spec fn spec_code_musical(self) -> u16 {
        match self {
            KeyCode::SwapHandsToggle => 0x56F0,
            KeyCode::SwapHandsTapToggle => 0x56F1,
            KeyCode::SwapHandsMomentaryOn => 0x56F2,
            KeyCode::SwapHandsMomentaryOff => 0x56F3,
            KeyCode::SwapHandsOff => 0x56F4,
            KeyCode::SwapHandsOn => 0x56F5,
            KeyCode::SwapHandsOneShot => 0x56F6,
            KeyCode::MagicSwapControlCapsLock => 0x7000,
            KeyCode::MagicUnswapControlCapsLock => 0x7001,
            KeyCode::MagicToggleControlCapsLock => 0x7002,
            KeyCode::MagicCapsLockAsControlOff => 0x7003,
            KeyCode::MagicCapsLockAsControlOn => 0x7004,
            KeyCode::MagicSwapLaltLGui => 0x7005,
            KeyCode::MagicUnswapLaltLGui => 0x7006,
            KeyCode::MagicSwapRaltRGui => 0x7007,
            KeyCode::MagicUnswapRaltRGui => 0x7008,
            KeyCode::MagicGuiOn => 0x7009,
            KeyCode::MagicGuiOff => 0x700A,
            KeyCode::MagicToggleGui => 0x700B,
            KeyCode::MagicSwapGraveEsc => 0x700C,
            KeyCode::MagicUnswapGraveEsc => 0x700D,
            KeyCode::MagicSwapBackslashBackspace => 0x700E,
            KeyCode::MagicUnswapBackslashBackspace => 0x700F,
            KeyCode::MagicToggleBackslashBackspace => 0x7010,
            KeyCode::MagicNkroOn => 0x7011,
            KeyCode::MagicNkroOff => 0x7012,
            KeyCode::MagicToggleNkro => 0x7013,
            KeyCode::MagicSwapAltGui => 0x7014,
            KeyCode::MagicUnswapAltGui => 0x7015,
            KeyCode::MagicToggleAltGui => 0x7016,
            KeyCode::MagicSwapLctlLGui => 0x7017,
            KeyCode::MagicUnswapLctlLGui => 0x7018,
            KeyCode::MagicSwapRctlRGui => 0x7019,
            KeyCode::MagicUnswapRctlRGui => 0x701A,
            KeyCode::MagicSwapCtlGui => 0x701B,
            KeyCode::MagicUnswapCtlGui => 0x701C,
            KeyCode::MagicToggleCtlGui => 0x701D,
            KeyCode::MagicEeHandsLeft => 0x701E,
            KeyCode::MagicEeHandsRight => 0x701F,
            KeyCode::MagicSwapEscapeCapsLock => 0x7020,
            KeyCode::MagicUnswapEscapeCapsLock => 0x7021,
            KeyCode::MagicToggleEscapeCapsLock => 0x7022,
            KeyCode::MidiOn => 0x7100,
            KeyCode::MidiOff => 0x7101,
            KeyCode::MidiToggle => 0x7102,
            KeyCode::MidiNoteC0 => 0x7103,
            KeyCode::MidiNoteCSharp0 => 0x7104,
            KeyCode::MidiNoteD0 => 0x7105,
            KeyCode::MidiNoteDSharp0 => 0x7106,
            KeyCode::MidiNoteE0 => 0x7107,
            KeyCode::MidiNoteF0 => 0x7108,
            KeyCode::MidiNoteFSharp0 => 0x7109,
            KeyCode::MidiNoteG0 => 0x710A,
            KeyCode::MidiNoteGSharp0 => 0x710B,
            KeyCode::MidiNoteA0 => 0x710C,
            KeyCode::MidiNoteASharp0 => 0x710D,
            KeyCode::MidiNoteB0 => 0x710E,
            KeyCode::MidiNoteC1 => 0x710F,
            KeyCode::MidiNoteCSharp1 => 0x7110,
            KeyCode::MidiNoteD1 => 0x7111,
            KeyCode::MidiNoteDSharp1 => 0x7112,
            KeyCode::MidiNoteE1 => 0x7113,
            KeyCode::MidiNoteF1 => 0x7114,
            KeyCode::MidiNoteFSharp1 => 0x7115,
            KeyCode::MidiNoteG1 => 0x7116,
            KeyCode::MidiNoteGSharp1 => 0x7117,
            KeyCode::MidiNoteA1 => 0x7118,
            KeyCode::MidiNoteASharp1 => 0x7119,
            KeyCode::MidiNoteB1 => 0x711A,
            KeyCode::MidiNoteC2 => 0x711B,
            KeyCode::MidiNoteCSharp2 => 0x711C,
            KeyCode::MidiNoteD2 => 0x711D,
            KeyCode::MidiNoteDSharp2 => 0x711E,
            KeyCode::MidiNoteE2 => 0x711F,
            KeyCode::MidiNoteF2 => 0x7120,
            KeyCode::MidiNoteFSharp2 => 0x7121,
            KeyCode::MidiNoteG2 => 0x7122,
            KeyCode::MidiNoteGSharp2 => 0x7123,
            KeyCode::MidiNoteA2 => 0x7124,
            KeyCode::MidiNoteASharp2 => 0x7125,
            KeyCode::MidiNoteB2 => 0x7126,
            KeyCode::MidiNoteC3 => 0x7127,
            KeyCode::MidiNoteCSharp3 => 0x7128,
            KeyCode::MidiNoteD3 => 0x7129,
            KeyCode::MidiNoteDSharp3 => 0x712A,
            KeyCode::MidiNoteE3 => 0x712B,
            KeyCode::MidiNoteF3 => 0x712C,
            KeyCode::MidiNoteFSharp3 => 0x712D,
            KeyCode::MidiNoteG3 => 0x712E,
            KeyCode::MidiNoteGSharp3 => 0x712F,
            KeyCode::MidiNoteA3 => 0x7130,
            KeyCode::MidiNoteASharp3 => 0x7131,
            KeyCode::MidiNoteB3 => 0x7132,
            KeyCode::MidiNoteC4 => 0x7133,
            KeyCode::MidiNoteCSharp4 => 0x7134,
            KeyCode::MidiNoteD4 => 0x7135,
            KeyCode::MidiNoteDSharp4 => 0x7136,
            KeyCode::MidiNoteE4 => 0x7137,
            KeyCode::MidiNoteF4 => 0x7138,
            KeyCode::MidiNoteFSharp4 => 0x7139,
            KeyCode::MidiNoteG4 => 0x713A,
            KeyCode::MidiNoteGSharp4 => 0x713B,
            KeyCode::MidiNoteA4 => 0x713C,
            KeyCode::MidiNoteASharp4 => 0x713D,
            KeyCode::MidiNoteB4 => 0x713E,
            KeyCode::MidiNoteC5 => 0x713F,
            KeyCode::MidiNoteCSharp5 => 0x7140,
            KeyCode::MidiNoteD5 => 0x7141,
            KeyCode::MidiNoteDSharp5 => 0x7142,
            KeyCode::MidiNoteE5 => 0x7143,
            KeyCode::MidiNoteF5 => 0x7144,
            KeyCode::MidiNoteFSharp5 => 0x7145,
            KeyCode::MidiNoteG5 => 0x7146,
            KeyCode::MidiNoteGSharp5 => 0x7147,
            KeyCode::MidiNoteA5 => 0x7148,
            KeyCode::MidiNoteASharp5 => 0x7149,
            KeyCode::MidiNoteB5 => 0x714A,
            KeyCode::MidiOctaveN2 => 0x714B,
            KeyCode::MidiOctaveN1 => 0x714C,
            KeyCode::MidiOctave0 => 0x714D,
            KeyCode::MidiOctave1 => 0x714E,
            KeyCode::MidiOctave2 => 0x714F,
            KeyCode::MidiOctave3 => 0x7150,
            KeyCode::MidiOctave4 => 0x7151,
            KeyCode::MidiOctave5 => 0x7152,
            KeyCode::MidiOctave6 => 0x7153,
            KeyCode::MidiOctave7 => 0x7154,
            KeyCode::MidiOctaveDOWN => 0x7155,
            KeyCode::MidiOctaveUP => 0x7156,
            KeyCode::MidiTransposeN6 => 0x7157,
            KeyCode::MidiTransposeN5 => 0x7158,
            KeyCode::MidiTransposeN4 => 0x7159,
            KeyCode::MidiTransposeN3 => 0x715A,
            KeyCode::MidiTransposeN2 => 0x715B,
            KeyCode::MidiTransposeN1 => 0x715C,
            KeyCode::MidiTranspose0 => 0x715D,
            KeyCode::MidiTranspose1 => 0x715E,
            KeyCode::MidiTranspose2 => 0x715F,
            KeyCode::MidiTranspose3 => 0x7160,
            KeyCode::MidiTranspose4 => 0x7161,
            KeyCode::MidiTranspose5 => 0x7162,
            KeyCode::MidiTranspose6 => 0x7163,
            KeyCode::MidiTransposeDown => 0x7164,
            KeyCode::MidiTransposeUp => 0x7165,
            KeyCode::MidiVelocity0 => 0x7166,
            KeyCode::MidiVelocity1 => 0x7167,
            KeyCode::MidiVelocity2 => 0x7168,
            KeyCode::MidiVelocity3 => 0x7169,
            KeyCode::MidiVelocity4 => 0x716A,
            KeyCode::MidiVelocity5 => 0x716B,
            KeyCode::MidiVelocity6 => 0x716C,
            KeyCode::MidiVelocity7 => 0x716D,
            KeyCode::MidiVelocity8 => 0x716E,
            KeyCode::MidiVelocity9 => 0x716F,
            KeyCode::MidiVelocity10 => 0x7170,
            KeyCode::MidiVelocityDOWN => 0x7171,
            KeyCode::MidiVelocityUP => 0x7172,
            KeyCode::MidiChannel1 => 0x7173,
            KeyCode::MidiChannel2 => 0x7174,
            KeyCode::MidiChannel3 => 0x7175,
            KeyCode::MidiChannel4 => 0x7176,
            KeyCode::MidiChannel5 => 0x7177,
            KeyCode::MidiChannel6 => 0x7178,
            KeyCode::MidiChannel7 => 0x7179,
            KeyCode::MidiChannel8 => 0x717A,
            KeyCode::MidiChannel9 => 0x717B,
            KeyCode::MidiChannel10 => 0x717C,
            KeyCode::MidiChannel11 => 0x717D,
            KeyCode::MidiChannel12 => 0x717E,
            KeyCode::MidiChannel13 => 0x717F,
            KeyCode::MidiChannel14 => 0x7180,
            KeyCode::MidiChannel15 => 0x7181,
            KeyCode::MidiChannel16 => 0x7182,
            KeyCode::MidiChannelDOWN => 0x7183,
            KeyCode::MidiChannelUP => 0x7184,
            KeyCode::MidiAllNotesOff => 0x7185,
            KeyCode::MidiSustain => 0x7186,
            KeyCode::MidiPortamento => 0x7187,
            KeyCode::MidiSostenuto => 0x7188,
            KeyCode::MidiSoft => 0x7189,
            KeyCode::MidiLegato => 0x718A,
            KeyCode::MidiModulation => 0x718B,
            KeyCode::MidiModulationSpeedDown => 0x718C,
            KeyCode::MidiModulationSpeedUp => 0x718D,
            KeyCode::MidiPitchBendDown => 0x718E,
            KeyCode::MidiPitchBendUp => 0x718F,
            _ => self.spec_code_feature(),
        }
    }

    /// Continues `spec_code` for the keycodes from the sequencer keys on. The table is cut
    /// into pieces so that each piece stays small.
    pub open spec fn spec_code_feature(self) -> u16 {
        match self {
            KeyCode::SequencerOn => 0x7200,
            KeyCode::SequencerOff => 0x7201,
            KeyCode::SequencerToggle => 0x7202,
            KeyCode::SequencerTempoDown => 0x7203,
            KeyCode::SequencerTempoUp => 0x7204,
            KeyCode::SequencerResolutionDown => 0x7205,
            KeyCode::SequencerResolutionUp => 0x7206,
            KeyCode::SequencerStepsAll => 0x7207,
            KeyCode::SequencerStepsClear => 0x7208,
            KeyCode::JoystickButton0 => 0x7400,
            KeyCode::JoystickButton1 => 0x7401,
            KeyCode::JoystickButton2 => 0x7402,
            KeyCode::JoystickButton3 => 0x7403,
            KeyCode::JoystickButton4 => 0x7404,
            KeyCode::JoystickButton5 => 0x7405,
            KeyCode::JoystickButton6 => 0x7406,
            KeyCode::JoystickButton7 => 0x7407,
            KeyCode::JoystickButton8 => 0x7408,
            KeyCode::JoystickButton9 => 0x7409,
            KeyCode::JoystickButton10 => 0x740A,
            KeyCode::JoystickButton11 => 0x740B,
            KeyCode::JoystickButton12 => 0x740C,
            KeyCode::JoystickButton13 => 0x740D,
            KeyCode::JoystickButton14 => 0x740E,
            KeyCode::JoystickButton15 => 0x740F,
            KeyCode::JoystickButton16 => 0x7410,
            KeyCode::JoystickButton17 => 0x7411,
            KeyCode::JoystickButton18 => 0x7412,
            KeyCode::JoystickButton19 => 0x7413,
            KeyCode::JoystickButton20 => 0x7414,
            KeyCode::JoystickButton21 => 0x7415,
            KeyCode::JoystickButton22 => 0x7416,
            KeyCode::JoystickButton23 => 0x7417,
            KeyCode::JoystickButton24 => 0x7418,
            KeyCode::JoystickButton25 => 0x7419,
            KeyCode::JoystickButton26 => 0x741A,
            KeyCode::JoystickButton27 => 0x741B,
            KeyCode::JoystickButton28 => 0x741C,
            KeyCode::JoystickButton29 => 0x741D,
            KeyCode::JoystickButton30 => 0x741E,
            KeyCode::JoystickButton31 => 0x741F,
            KeyCode::ProgrammableButton1 => 0x7440,
            KeyCode::ProgrammableButton2 => 0x7441,
            KeyCode::ProgrammableButton3 => 0x7442,
            KeyCode::ProgrammableButton4 => 0x7443,
            KeyCode::ProgrammableButton5 => 0x7444,
            KeyCode::ProgrammableButton6 => 0x7445,
            KeyCode::ProgrammableButton7 => 0x7446,
            KeyCode::ProgrammableButton8 => 0x7447,
            KeyCode::ProgrammableButton9 => 0x7448,
            KeyCode::ProgrammableButton10 => 0x7449,
            KeyCode::ProgrammableButton11 => 0x744A,
            KeyCode::ProgrammableButton12 => 0x744B,
            KeyCode::ProgrammableButton13 => 0x744C,
            KeyCode::ProgrammableButton14 => 0x744D,
            KeyCode::ProgrammableButton15 => 0x744E,
            KeyCode::ProgrammableButton16 => 0x744F,
            KeyCode::ProgrammableButton17 => 0x7450,
            KeyCode::ProgrammableButton18 => 0x7451,
            KeyCode::ProgrammableButton19 => 0x7452,
            KeyCode::ProgrammableButton20 => 0x7453,
            KeyCode::ProgrammableButton21 => 0x7454,
            KeyCode::ProgrammableButton22 => 0x7455,
            KeyCode::ProgrammableButton23 => 0x7456,
            KeyCode::ProgrammableButton24 => 0x7457,
            KeyCode::ProgrammableButton25 => 0x7458,
            KeyCode::ProgrammableButton26 => 0x7459,
            KeyCode::ProgrammableButton27 => 0x745A,
            KeyCode::ProgrammableButton28 => 0x745B,
            KeyCode::ProgrammableButton29 => 0x745C,
            KeyCode::ProgrammableButton30 => 0x745D,
            KeyCode::ProgrammableButton31 => 0x745E,
            KeyCode::ProgrammableButton32 => 0x745F,
            KeyCode::AudioOn => 0x7480,
            KeyCode::AudioOff => 0x7481,
            KeyCode::AudioToggle => 0x7482,
            KeyCode::AudioClickyToggle => 0x748A,
            KeyCode::AudioClickyOn => 0x748B,
            KeyCode::AudioClickyOff => 0x748C,
            KeyCode::AudioClickyUp => 0x748D,
            KeyCode::AudioClickyDown => 0x748E,
            KeyCode::AudioClickyReset => 0x748F,
            KeyCode::MusicOn => 0x7490,
            KeyCode::MusicOff => 0x7491,
            KeyCode::MusicToggle => 0x7492,
            KeyCode::MusicModeNext => 0x7493,
            KeyCode::AudioVoiceNext => 0x7494,
            KeyCode::AudioVoicePrevious => 0x7495,
            KeyCode::StenoBolt => 0x74F0,
            KeyCode::StenoGemini => 0x74F1,
            KeyCode::StenoComb => 0x74F2,
            KeyCode::StenoCombMax => 0x74FC,
            KeyCode::Macro0 => 0x7700,
            KeyCode::Macro1 => 0x7701,
            KeyCode::Macro2 => 0x7702,
            KeyCode::Macro3 => 0x7703,
            KeyCode::Macro4 => 0x7704,
            KeyCode::Macro5 => 0x7705,
            KeyCode::Macro6 => 0x7706,
            KeyCode::Macro7 => 0x7707,
            KeyCode::Macro8 => 0x7708,
            KeyCode::Macro9 => 0x7709,
            KeyCode::Macro10 => 0x770A,
            KeyCode::Macro11 => 0x770B,
            KeyCode::Macro12 => 0x770C,
            KeyCode::Macro13 => 0x770D,
            KeyCode::Macro14 => 0x770E,
            KeyCode::Macro15 => 0x770F,
            KeyCode::Macro16 => 0x7710,
            KeyCode::Macro17 => 0x7711,
            KeyCode::Macro18 => 0x7712,
            KeyCode::Macro19 => 0x7713,
            KeyCode::Macro20 => 0x7714,
            KeyCode::Macro21 => 0x7715,
            KeyCode::Macro22 => 0x7716,
            KeyCode::Macro23 => 0x7717,
            KeyCode::Macro24 => 0x7718,
            KeyCode::Macro25 => 0x7719,
            KeyCode::Macro26 => 0x771A,
            KeyCode::Macro27 => 0x771B,
            KeyCode::Macro28 => 0x771C,
            KeyCode::Macro29 => 0x771D,
            KeyCode::Macro30 => 0x771E,
            KeyCode::Macro31 => 0x771F,
            KeyCode::BacklightOn => 0x7800,
            KeyCode::BacklightOff => 0x7801,
            KeyCode::BacklightToggle => 0x7802,
            KeyCode::BacklightDown => 0x7803,
            KeyCode::BacklightUp => 0x7804,
            KeyCode::BacklightStep => 0x7805,
            KeyCode::BacklightToggleBreathing => 0x7806,
            KeyCode::RgbTog => 0x7820,
            KeyCode::RgbModeForward => 0x7821,
            KeyCode::RgbModeReverse => 0x7822,
            KeyCode::RgbHui => 0x7823,
            KeyCode::RgbHud => 0x7824,
            KeyCode::RgbSai => 0x7825,
            KeyCode::RgbSad => 0x7826,
            KeyCode::RgbVai => 0x7827,
            KeyCode::RgbVad => 0x7828,
            KeyCode::RgbSpi => 0x7829,
            KeyCode::RgbSpd => 0x782A,
            KeyCode::RgbModePlain => 0x782B,
            KeyCode::RgbModeBreathe => 0x782C,
            KeyCode::RgbModeRainbow => 0x782D,
            KeyCode::RgbModeSwirl => 0x782E,
            KeyCode::RgbModeSnake => 0x782F,
            KeyCode::RgbModeKnight => 0x7830,
            KeyCode::RgbModeXmas => 0x7831,
            KeyCode::RgbModeGradient => 0x7832,
            KeyCode::RgbModeRgbtest => 0x7833,
            KeyCode::RgbModeTwinkle => 0x7834,
            _ => self.spec_code_custom(),
        }
    }

    /// Continues `spec_code` for the keycodes from the bootloader key on. The table is cut
    /// into pieces so that each piece stays small.
    pub open spec fn spec_code_custom(self) -> u16 {
        match self {
            KeyCode::Bootloader => 0x7C00,
            KeyCode::Reboot => 0x7C01,
            KeyCode::DebugToggle => 0x7C02,
            KeyCode::ClearEeprom => 0x7C03,
            KeyCode::Make => 0x7C04,
            KeyCode::AutoShiftDown => 0x7C10,
            KeyCode::AutoShiftUp => 0x7C11,
            KeyCode::AutoShiftReport => 0x7C12,
            KeyCode::AutoShiftOn => 0x7C13,
            KeyCode::AutoShiftOff => 0x7C14,
            KeyCode::AutoShiftToggle => 0x7C15,
            KeyCode::GraveEscape => 0x7C16,
            KeyCode::VelocikeyToggle => 0x7C17,
            KeyCode::SpaceCadetLCtrlParenthesisOpen => 0x7C18,
            KeyCode::SpaceCadetRCtrlParenthesisClose => 0x7C19,
            KeyCode::SpaceCadetLShiftParenthesisOpen => 0x7C1A,
            KeyCode::SpaceCadetRShiftParenthesisClose => 0x7C1B,
            KeyCode::SpaceCadetLAltParenthesisOpen => 0x7C1C,
            KeyCode::SpaceCadetRAltParenthesisClose => 0x7C1D,
            KeyCode::SpaceCadetRShiftEnter => 0x7C1E,
            KeyCode::OutputAuto => 0x7C20,
            KeyCode::OutputUsb => 0x7C21,
            KeyCode::OutputBluetooth => 0x7C22,
            KeyCode::UnicodeModeNext => 0x7C30,
            KeyCode::UnicodeModePrevious => 0x7C31,
            KeyCode::UnicodeModeMacos => 0x7C32,
            KeyCode::UnicodeModeLinux => 0x7C33,
            KeyCode::UnicodeModeWindows => 0x7C34,
            KeyCode::UnicodeModeBsd => 0x7C35,
            KeyCode::UnicodeModeWincompose => 0x7C36,
            KeyCode::UnicodeModeEmacs => 0x7C37,
            KeyCode::HapticOn => 0x7C40,
            KeyCode::HapticOff => 0x7C41,
            KeyCode::HapticToggle => 0x7C42,
            KeyCode::HapticReset => 0x7C43,
            KeyCode::HapticFeedbackToggle => 0x7C44,
            KeyCode::HapticBuzzToggle => 0x7C45,
            KeyCode::HapticModeNext => 0x7C46,
            KeyCode::HapticModePrevious => 0x7C47,
            KeyCode::HapticContinuousToggle => 0x7C48,
            KeyCode::HapticContinuousUp => 0x7C49,
            KeyCode::HapticContinuousDown => 0x7C4A,
            KeyCode::HapticDwellUp => 0x7C4B,
            KeyCode::HapticDwellDown => 0x7C4C,
            KeyCode::ComboOn => 0x7C50,
            KeyCode::ComboOff => 0x7C51,
            KeyCode::ComboToggle => 0x7C52,
            KeyCode::DynamicMacroRecordStart1 => 0x7C53,
            KeyCode::DynamicMacroRecordStart2 => 0x7C54,
            KeyCode::DynamicMacroRecordStop => 0x7C55,
            KeyCode::DynamicMacroPlay1 => 0x7C56,
            KeyCode::DynamicMacroPlay2 => 0x7C57,
            KeyCode::Leader => 0x7C58,
            KeyCode::Lock => 0x7C59,
            KeyCode::OneShotOn => 0x7C5A,
            KeyCode::OneShotOff => 0x7C5B,
            KeyCode::OneShotToggle => 0x7C5C,
            KeyCode::KeyOverrideToggle => 0x7C5D,
            KeyCode::KeyOverrideOn => 0x7C5E,
            KeyCode::KeyOverrideOff => 0x7C5F,
            KeyCode::SecureLock => 0x7C60,
            KeyCode::SecureUnlock => 0x7C61,
            KeyCode::SecureToggle => 0x7C62,
            KeyCode::SecureRequest => 0x7C63,
            KeyCode::DynamicTappingTermPrint => 0x7C70,
            KeyCode::DynamicTappingTermUp => 0x7C71,
            KeyCode::DynamicTappingTermDown => 0x7C72,
            KeyCode::CapsWordToggle => 0x7C73,
            KeyCode::AutocorrectOn => 0x7C74,
            KeyCode::AutocorrectOff => 0x7C75,
            KeyCode::AutocorrectToggle => 0x7C76,
            KeyCode::TriLayerLower => 0x7C77,
            KeyCode::TriLayerUpper => 0x7C78,
            KeyCode::RepeatKey => 0x7C79,
            KeyCode::AltRepeatKey => 0x7C7A,
            KeyCode::Kb0 => 0x7E00,
            KeyCode::Kb1 => 0x7E01,
            KeyCode::Kb2 => 0x7E02,
            KeyCode::Kb3 => 0x7E03,
            KeyCode::Kb4 => 0x7E04,
            KeyCode::Kb5 => 0x7E05,
            KeyCode::Kb6 => 0x7E06,
            KeyCode::Kb7 => 0x7E07,
            KeyCode::Kb8 => 0x7E08,
            KeyCode::Kb9 => 0x7E09,
            KeyCode::Kb10 => 0x7E0A,
            KeyCode::Kb11 => 0x7E0B,
            KeyCode::Kb12 => 0x7E0C,
            KeyCode::Kb13 => 0x7E0D,
            KeyCode::Kb14 => 0x7E0E,
            KeyCode::Kb15 => 0x7E0F,
            KeyCode::Kb16 => 0x7E10,
            KeyCode::Kb17 => 0x7E11,
            KeyCode::Kb18 => 0x7E12,
            KeyCode::Kb19 => 0x7E13,
            KeyCode::Kb20 => 0x7E14,
            KeyCode::Kb21 => 0x7E15,
            KeyCode::Kb22 => 0x7E16,
            KeyCode::Kb23 => 0x7E17,
            KeyCode::Kb24 => 0x7E18,
            KeyCode::Kb25 => 0x7E19,
            KeyCode::Kb26 => 0x7E1A,
            KeyCode::Kb27 => 0x7E1B,
            KeyCode::Kb28 => 0x7E1C,
            KeyCode::Kb29 => 0x7E1D,
            KeyCode::Kb30 => 0x7E1E,
            KeyCode::Kb31 => 0x7E1F,
            KeyCode::User0 => 0x7E40,
            KeyCode::User1 => 0x7E41,
            KeyCode::User2 => 0x7E42,
            KeyCode::User3 => 0x7E43,
            KeyCode::User4 => 0x7E44,
            KeyCode::User5 => 0x7E45,
            KeyCode::User6 => 0x7E46,
            KeyCode::User7 => 0x7E47,
            KeyCode::User8 => 0x7E48,
            KeyCode::User9 => 0x7E49,
            KeyCode::User10 => 0x7E4A,
            KeyCode::User11 => 0x7E4B,
            KeyCode::User12 => 0x7E4C,
            KeyCode::User13 => 0x7E4D,
            KeyCode::User14 => 0x7E4E,
            KeyCode::User15 => 0x7E4F,
            KeyCode::User16 => 0x7E50,
            KeyCode::User17 => 0x7E51,
            KeyCode::User18 => 0x7E52,
            KeyCode::User19 => 0x7E53,
            KeyCode::User20 => 0x7E54,
            KeyCode::User21 => 0x7E55,
            KeyCode::User22 => 0x7E56,
            KeyCode::User23 => 0x7E57,
            KeyCode::User24 => 0x7E58,
            KeyCode::User25 => 0x7E59,
            KeyCode::User26 => 0x7E5A,
            KeyCode::User27 => 0x7E5B,
            KeyCode::User28 => 0x7E5C,
            KeyCode::User29 => 0x7E5D,
            KeyCode::User30 => 0x7E5E,
            KeyCode::User31 => 0x7E5F,
            _ => 0,
        }
    }

    fn code_custom(self) -> (code: u16)
        ensures
            code == self.spec_code_custom(),
    {
        match self {
            KeyCode::Bootloader => 0x7C00,
            KeyCode::Reboot => 0x7C01,
            KeyCode::DebugToggle => 0x7C02,
            KeyCode::ClearEeprom => 0x7C03,
            KeyCode::Make => 0x7C04,
            KeyCode::AutoShiftDown => 0x7C10,
            KeyCode::AutoShiftUp => 0x7C11,
            KeyCode::AutoShiftReport => 0x7C12,
            KeyCode::AutoShiftOn => 0x7C13,
            KeyCode::AutoShiftOff => 0x7C14,
            KeyCode::AutoShiftToggle => 0x7C15,
            KeyCode::GraveEscape => 0x7C16,
            KeyCode::VelocikeyToggle => 0x7C17,
            KeyCode::SpaceCadetLCtrlParenthesisOpen => 0x7C18,
            KeyCode::SpaceCadetRCtrlParenthesisClose => 0x7C19,
            KeyCode::SpaceCadetLShiftParenthesisOpen => 0x7C1A,
            KeyCode::SpaceCadetRShiftParenthesisClose => 0x7C1B,
            KeyCode::SpaceCadetLAltParenthesisOpen => 0x7C1C,
            KeyCode::SpaceCadetRAltParenthesisClose => 0x7C1D,
            KeyCode::SpaceCadetRShiftEnter => 0x7C1E,
            KeyCode::OutputAuto => 0x7C20,
            KeyCode::OutputUsb => 0x7C21,
            KeyCode::OutputBluetooth => 0x7C22,
            KeyCode::UnicodeModeNext => 0x7C30,
            KeyCode::UnicodeModePrevious => 0x7C31,
            KeyCode::UnicodeModeMacos => 0x7C32,
            KeyCode::UnicodeModeLinux => 0x7C33,
            KeyCode::UnicodeModeWindows => 0x7C34,
            KeyCode::UnicodeModeBsd => 0x7C35,
            KeyCode::UnicodeModeWincompose => 0x7C36,
            KeyCode::UnicodeModeEmacs => 0x7C37,
            KeyCode::HapticOn => 0x7C40,
            KeyCode::HapticOff => 0x7C41,
            KeyCode::HapticToggle => 0x7C42,
            KeyCode::HapticReset => 0x7C43,
            KeyCode::HapticFeedbackToggle => 0x7C44,
            KeyCode::HapticBuzzToggle => 0x7C45,
            KeyCode::HapticModeNext => 0x7C46,
            KeyCode::HapticModePrevious => 0x7C47,
            KeyCode::HapticContinuousToggle => 0x7C48,
            KeyCode::HapticContinuousUp => 0x7C49,
            KeyCode::HapticContinuousDown => 0x7C4A,
            KeyCode::HapticDwellUp => 0x7C4B,
            KeyCode::HapticDwellDown => 0x7C4C,
            KeyCode::ComboOn => 0x7C50,
            KeyCode::ComboOff => 0x7C51,
            KeyCode::ComboToggle => 0x7C52,
            KeyCode::DynamicMacroRecordStart1 => 0x7C53,
            KeyCode::DynamicMacroRecordStart2 => 0x7C54,
            KeyCode::DynamicMacroRecordStop => 0x7C55,
            KeyCode::DynamicMacroPlay1 => 0x7C56,
            KeyCode::DynamicMacroPlay2 => 0x7C57,
            KeyCode::Leader => 0x7C58,
            KeyCode::Lock => 0x7C59,
            KeyCode::OneShotOn => 0x7C5A,
            KeyCode::OneShotOff => 0x7C5B,
            KeyCode::OneShotToggle => 0x7C5C,
            KeyCode::KeyOverrideToggle => 0x7C5D,
            KeyCode::KeyOverrideOn => 0x7C5E,
            KeyCode::KeyOverrideOff => 0x7C5F,
            KeyCode::SecureLock => 0x7C60,
            KeyCode::SecureUnlock => 0x7C61,
            KeyCode::SecureToggle => 0x7C62,
            KeyCode::SecureRequest => 0x7C63,
            KeyCode::DynamicTappingTermPrint => 0x7C70,
            KeyCode::DynamicTappingTermUp => 0x7C71,
            KeyCode::DynamicTappingTermDown => 0x7C72,
            KeyCode::CapsWordToggle => 0x7C73,
            KeyCode::AutocorrectOn => 0x7C74,
            KeyCode::AutocorrectOff => 0x7C75,
            KeyCode::AutocorrectToggle => 0x7C76,
            KeyCode::TriLayerLower => 0x7C77,
            KeyCode::TriLayerUpper => 0x7C78,
            KeyCode::RepeatKey => 0x7C79,
            KeyCode::AltRepeatKey => 0x7C7A,
            KeyCode::Kb0 => 0x7E00,
            KeyCode::Kb1 => 0x7E01,
            KeyCode::Kb2 => 0x7E02,
            KeyCode::Kb3 => 0x7E03,
            KeyCode::Kb4 => 0x7E04,
            KeyCode::Kb5 => 0x7E05,
            KeyCode::Kb6 => 0x7E06,
            KeyCode::Kb7 => 0x7E07,
            KeyCode::Kb8 => 0x7E08,
            KeyCode::Kb9 => 0x7E09,
            KeyCode::Kb10 => 0x7E0A,
            KeyCode::Kb11 => 0x7E0B,
            KeyCode::Kb12 => 0x7E0C,
            KeyCode::Kb13 => 0x7E0D,
            KeyCode::Kb14 => 0x7E0E,
            KeyCode::Kb15 => 0x7E0F,
            KeyCode::Kb16 => 0x7E10,
            KeyCode::Kb17 => 0x7E11,
            KeyCode::Kb18 => 0x7E12,
            KeyCode::Kb19 => 0x7E13,
            KeyCode::Kb20 => 0x7E14,
            KeyCode::Kb21 => 0x7E15,
            KeyCode::Kb22 => 0x7E16,
            KeyCode::Kb23 => 0x7E17,
            KeyCode::Kb24 => 0x7E18,
            KeyCode::Kb25 => 0x7E19,
            KeyCode::Kb26 => 0x7E1A,
            KeyCode::Kb27 => 0x7E1B,
            KeyCode::Kb28 => 0x7E1C,
            KeyCode::Kb29 => 0x7E1D,
            KeyCode::Kb30 => 0x7E1E,
            KeyCode::Kb31 => 0x7E1F,
            KeyCode::User0 => 0x7E40,
            KeyCode::User1 => 0x7E41,
            KeyCode::User2 => 0x7E42,
            KeyCode::User3 => 0x7E43,
            KeyCode::User4 => 0x7E44,
            KeyCode::User5 => 0x7E45,
            KeyCode::User6 => 0x7E46,
            KeyCode::User7 => 0x7E47,
            KeyCode::User8 => 0x7E48,
            KeyCode::User9 => 0x7E49,
            KeyCode::User10 => 0x7E4A,
            KeyCode::User11 => 0x7E4B,
            KeyCode::User12 => 0x7E4C,
            KeyCode::User13 => 0x7E4D,
            KeyCode::User14 => 0x7E4E,
            KeyCode::User15 => 0x7E4F,
            KeyCode::User16 => 0x7E50,
            KeyCode::User17 => 0x7E51,
            KeyCode::User18 => 0x7E52,
            KeyCode::User19 => 0x7E53,
            KeyCode::User20 => 0x7E54,
            KeyCode::User21 => 0x7E55,
            KeyCode::User22 => 0x7E56,
            KeyCode::User23 => 0x7E57,
            KeyCode::User24 => 0x7E58,
            KeyCode::User25 => 0x7E59,
            KeyCode::User26 => 0x7E5A,
            KeyCode::User27 => 0x7E5B,
            KeyCode::User28 => 0x7E5C,
            KeyCode::User29 => 0x7E5D,
            KeyCode::User30 => 0x7E5E,
            KeyCode::User31 => 0x7E5F,
            _ => 0,
        }
    }

    fn code_feature(self) -> (code: u16)
        ensures
            code == self.spec_code_feature(),
    {
        match self {
            KeyCode::SequencerOn => 0x7200,
            KeyCode::SequencerOff => 0x7201,
            KeyCode::SequencerToggle => 0x7202,
            KeyCode::SequencerTempoDown => 0x7203,
            KeyCode::SequencerTempoUp => 0x7204,
            KeyCode::SequencerResolutionDown => 0x7205,
            KeyCode::SequencerResolutionUp => 0x7206,
            KeyCode::SequencerStepsAll => 0x7207,
            KeyCode::SequencerStepsClear => 0x7208,
            KeyCode::JoystickButton0 => 0x7400,
            KeyCode::JoystickButton1 => 0x7401,
            KeyCode::JoystickButton2 => 0x7402,
            KeyCode::JoystickButton3 => 0x7403,
            KeyCode::JoystickButton4 => 0x7404,
            KeyCode::JoystickButton5 => 0x7405,
            KeyCode::JoystickButton6 => 0x7406,
            KeyCode::JoystickButton7 => 0x7407,
            KeyCode::JoystickButton8 => 0x7408,
            KeyCode::JoystickButton9 => 0x7409,
            KeyCode::JoystickButton10 => 0x740A,
            KeyCode::JoystickButton11 => 0x740B,
            KeyCode::JoystickButton12 => 0x740C,
            KeyCode::JoystickButton13 => 0x740D,
            KeyCode::JoystickButton14 => 0x740E,
            KeyCode::JoystickButton15 => 0x740F,
            KeyCode::JoystickButton16 => 0x7410,
            KeyCode::JoystickButton17 => 0x7411,
            KeyCode::JoystickButton18 => 0x7412,
            KeyCode::JoystickButton19 => 0x7413,
            KeyCode::JoystickButton20 => 0x7414,
            KeyCode::JoystickButton21 => 0x7415,
            KeyCode::JoystickButton22 => 0x7416,
            KeyCode::JoystickButton23 => 0x7417,
            KeyCode::JoystickButton24 => 0x7418,
            KeyCode::JoystickButton25 => 0x7419,
            KeyCode::JoystickButton26 => 0x741A,
            KeyCode::JoystickButton27 => 0x741B,
            KeyCode::JoystickButton28 => 0x741C,
            KeyCode::JoystickButton29 => 0x741D,
            KeyCode::JoystickButton30 => 0x741E,
            KeyCode::JoystickButton31 => 0x741F,
            KeyCode::ProgrammableButton1 => 0x7440,
            KeyCode::ProgrammableButton2 => 0x7441,
            KeyCode::ProgrammableButton3 => 0x7442,
            KeyCode::ProgrammableButton4 => 0x7443,
            KeyCode::ProgrammableButton5 => 0x7444,
            KeyCode::ProgrammableButton6 => 0x7445,
            KeyCode::ProgrammableButton7 => 0x7446,
            KeyCode::ProgrammableButton8 => 0x7447,
            KeyCode::ProgrammableButton9 => 0x7448,
            KeyCode::ProgrammableButton10 => 0x7449,
            KeyCode::ProgrammableButton11 => 0x744A,
            KeyCode::ProgrammableButton12 => 0x744B,
            KeyCode::ProgrammableButton13 => 0x744C,
            KeyCode::ProgrammableButton14 => 0x744D,
            KeyCode::ProgrammableButton15 => 0x744E,
            KeyCode::ProgrammableButton16 => 0x744F,
            KeyCode::ProgrammableButton17 => 0x7450,
            KeyCode::ProgrammableButton18 => 0x7451,
            KeyCode::ProgrammableButton19 => 0x7452,
            KeyCode::ProgrammableButton20 => 0x7453,
            KeyCode::ProgrammableButton21 => 0x7454,
            KeyCode::ProgrammableButton22 => 0x7455,
            KeyCode::ProgrammableButton23 => 0x7456,
            KeyCode::ProgrammableButton24 => 0x7457,
            KeyCode::ProgrammableButton25 => 0x7458,
            KeyCode::ProgrammableButton26 => 0x7459,
            KeyCode::ProgrammableButton27 => 0x745A,
            KeyCode::ProgrammableButton28 => 0x745B,
            KeyCode::ProgrammableButton29 => 0x745C,
            KeyCode::ProgrammableButton30 => 0x745D,
            KeyCode::ProgrammableButton31 => 0x745E,
            KeyCode::ProgrammableButton32 => 0x745F,
            KeyCode::AudioOn => 0x7480,
            KeyCode::AudioOff => 0x7481,
            KeyCode::AudioToggle => 0x7482,
            KeyCode::AudioClickyToggle => 0x748A,
            KeyCode::AudioClickyOn => 0x748B,
            KeyCode::AudioClickyOff => 0x748C,
            KeyCode::AudioClickyUp => 0x748D,
            KeyCode::AudioClickyDown => 0x748E,
            KeyCode::AudioClickyReset => 0x748F,
            KeyCode::MusicOn => 0x7490,
            KeyCode::MusicOff => 0x7491,
            KeyCode::MusicToggle => 0x7492,
            KeyCode::MusicModeNext => 0x7493,
            KeyCode::AudioVoiceNext => 0x7494,
            KeyCode::AudioVoicePrevious => 0x7495,
            KeyCode::StenoBolt => 0x74F0,
            KeyCode::StenoGemini => 0x74F1,
            KeyCode::StenoComb => 0x74F2,
            KeyCode::StenoCombMax => 0x74FC,
            KeyCode::Macro0 => 0x7700,
            KeyCode::Macro1 => 0x7701,
            KeyCode::Macro2 => 0x7702,
            KeyCode::Macro3 => 0x7703,
            KeyCode::Macro4 => 0x7704,
            KeyCode::Macro5 => 0x7705,
            KeyCode::Macro6 => 0x7706,
            KeyCode::Macro7 => 0x7707,
            KeyCode::Macro8 => 0x7708,
            KeyCode::Macro9 => 0x7709,
            KeyCode::Macro10 => 0x770A,
            KeyCode::Macro11 => 0x770B,
            KeyCode::Macro12 => 0x770C,
            KeyCode::Macro13 => 0x770D,
            KeyCode::Macro14 => 0x770E,
            KeyCode::Macro15 => 0x770F,
            KeyCode::Macro16 => 0x7710,
            KeyCode::Macro17 => 0x7711,
            KeyCode::Macro18 => 0x7712,
            KeyCode::Macro19 => 0x7713,
            KeyCode::Macro20 => 0x7714,
            KeyCode::Macro21 => 0x7715,
            KeyCode::Macro22 => 0x7716,
            KeyCode::Macro23 => 0x7717,
            KeyCode::Macro24 => 0x7718,
            KeyCode::Macro25 => 0x7719,
            KeyCode::Macro26 => 0x771A,
            KeyCode::Macro27 => 0x771B,
            KeyCode::Macro28 => 0x771C,
            KeyCode::Macro29 => 0x771D,
            KeyCode::Macro30 => 0x771E,
            KeyCode::Macro31 => 0x771F,
            KeyCode::BacklightOn => 0x7800,
            KeyCode::BacklightOff => 0x7801,
            KeyCode::BacklightToggle => 0x7802,
            KeyCode::BacklightDown => 0x7803,
            KeyCode::BacklightUp => 0x7804,
            KeyCode::BacklightStep => 0x7805,
            KeyCode::BacklightToggleBreathing => 0x7806,
            KeyCode::RgbTog => 0x7820,
            KeyCode::RgbModeForward => 0x7821,
            KeyCode::RgbModeReverse => 0x7822,
            KeyCode::RgbHui => 0x7823,
            KeyCode::RgbHud => 0x7824,
            KeyCode::RgbSai => 0x7825,
            KeyCode::RgbSad => 0x7826,
            KeyCode::RgbVai => 0x7827,
            KeyCode::RgbVad => 0x7828,
            KeyCode::RgbSpi => 0x7829,
            KeyCode::RgbSpd => 0x782A,
            KeyCode::RgbModePlain => 0x782B,
            KeyCode::RgbModeBreathe => 0x782C,
            KeyCode::RgbModeRainbow => 0x782D,
            KeyCode::RgbModeSwirl => 0x782E,
            KeyCode::RgbModeSnake => 0x782F,
            KeyCode::RgbModeKnight => 0x7830,
            KeyCode::RgbModeXmas => 0x7831,
            KeyCode::RgbModeGradient => 0x7832,
            KeyCode::RgbModeRgbtest => 0x7833,
            KeyCode::RgbModeTwinkle => 0x7834,
            _ => self.code_custom(),
        }
    }

    fn code_musical(self) -> (code: u16)
        ensures
            code == self.spec_code_musical(),
    {
        match self {
            KeyCode::SwapHandsToggle => 0x56F0,
            KeyCode::SwapHandsTapToggle => 0x56F1,
            KeyCode::SwapHandsMomentaryOn => 0x56F2,
            KeyCode::SwapHandsMomentaryOff => 0x56F3,
            KeyCode::SwapHandsOff => 0x56F4,
            KeyCode::SwapHandsOn => 0x56F5,
            KeyCode::SwapHandsOneShot => 0x56F6,
            KeyCode::MagicSwapControlCapsLock => 0x7000,
            KeyCode::MagicUnswapControlCapsLock => 0x7001,
            KeyCode::MagicToggleControlCapsLock => 0x7002,
            KeyCode::MagicCapsLockAsControlOff => 0x7003,
            KeyCode::MagicCapsLockAsControlOn => 0x7004,
            KeyCode::MagicSwapLaltLGui => 0x7005,
            KeyCode::MagicUnswapLaltLGui => 0x7006,
            KeyCode::MagicSwapRaltRGui => 0x7007,
            KeyCode::MagicUnswapRaltRGui => 0x7008,
            KeyCode::MagicGuiOn => 0x7009,
            KeyCode::MagicGuiOff => 0x700A,
            KeyCode::MagicToggleGui => 0x700B,
            KeyCode::MagicSwapGraveEsc => 0x700C,
            KeyCode::MagicUnswapGraveEsc => 0x700D,
            KeyCode::MagicSwapBackslashBackspace => 0x700E,
            KeyCode::MagicUnswapBackslashBackspace => 0x700F,
            KeyCode::MagicToggleBackslashBackspace => 0x7010,
            KeyCode::MagicNkroOn => 0x7011,
            KeyCode::MagicNkroOff => 0x7012,
            KeyCode::MagicToggleNkro => 0x7013,
            KeyCode::MagicSwapAltGui => 0x7014,
            KeyCode::MagicUnswapAltGui => 0x7015,
            KeyCode::MagicToggleAltGui => 0x7016,
            KeyCode::MagicSwapLctlLGui => 0x7017,
            KeyCode::MagicUnswapLctlLGui => 0x7018,
            KeyCode::MagicSwapRctlRGui => 0x7019,
            KeyCode::MagicUnswapRctlRGui => 0x701A,
            KeyCode::MagicSwapCtlGui => 0x701B,
            KeyCode::MagicUnswapCtlGui => 0x701C,
            KeyCode::MagicToggleCtlGui => 0x701D,
            KeyCode::MagicEeHandsLeft => 0x701E,
            KeyCode::MagicEeHandsRight => 0x701F,
            KeyCode::MagicSwapEscapeCapsLock => 0x7020,
            KeyCode::MagicUnswapEscapeCapsLock => 0x7021,
            KeyCode::MagicToggleEscapeCapsLock => 0x7022,
            KeyCode::MidiOn => 0x7100,
            KeyCode::MidiOff => 0x7101,
            KeyCode::MidiToggle => 0x7102,
            KeyCode::MidiNoteC0 => 0x7103,
            KeyCode::MidiNoteCSharp0 => 0x7104,
            KeyCode::MidiNoteD0 => 0x7105,
            KeyCode::MidiNoteDSharp0 => 0x7106,
            KeyCode::MidiNoteE0 => 0x7107,
            KeyCode::MidiNoteF0 => 0x7108,
            KeyCode::MidiNoteFSharp0 => 0x7109,
            KeyCode::MidiNoteG0 => 0x710A,
            KeyCode::MidiNoteGSharp0 => 0x710B,
            KeyCode::MidiNoteA0 => 0x710C,
            KeyCode::MidiNoteASharp0 => 0x710D,
            KeyCode::MidiNoteB0 => 0x710E,
            KeyCode::MidiNoteC1 => 0x710F,
            KeyCode::MidiNoteCSharp1 => 0x7110,
            KeyCode::MidiNoteD1 => 0x7111,
            KeyCode::MidiNoteDSharp1 => 0x7112,
            KeyCode::MidiNoteE1 => 0x7113,
            KeyCode::MidiNoteF1 => 0x7114,
            KeyCode::MidiNoteFSharp1 => 0x7115,
            KeyCode::MidiNoteG1 => 0x7116,
            KeyCode::MidiNoteGSharp1 => 0x7117,
            KeyCode::MidiNoteA1 => 0x7118,
            KeyCode::MidiNoteASharp1 => 0x7119,
            KeyCode::MidiNoteB1 => 0x711A,
            KeyCode::MidiNoteC2 => 0x711B,
            KeyCode::MidiNoteCSharp2 => 0x711C,
            KeyCode::MidiNoteD2 => 0x711D,
            KeyCode::MidiNoteDSharp2 => 0x711E,
            KeyCode::MidiNoteE2 => 0x711F,
            KeyCode::MidiNoteF2 => 0x7120,
            KeyCode::MidiNoteFSharp2 => 0x7121,
            KeyCode::MidiNoteG2 => 0x7122,
            KeyCode::MidiNoteGSharp2 => 0x7123,
            KeyCode::MidiNoteA2 => 0x7124,
            KeyCode::MidiNoteASharp2 => 0x7125,
            KeyCode::MidiNoteB2 => 0x7126,
            KeyCode::MidiNoteC3 => 0x7127,
            KeyCode::MidiNoteCSharp3 => 0x7128,
            KeyCode::MidiNoteD3 => 0x7129,
            KeyCode::MidiNoteDSharp3 => 0x712A,
            KeyCode::MidiNoteE3 => 0x712B,
            KeyCode::MidiNoteF3 => 0x712C,
            KeyCode::MidiNoteFSharp3 => 0x712D,
            KeyCode::MidiNoteG3 => 0x712E,
            KeyCode::MidiNoteGSharp3 => 0x712F,
            KeyCode::MidiNoteA3 => 0x7130,
            KeyCode::MidiNoteASharp3 => 0x7131,
            KeyCode::MidiNoteB3 => 0x7132,
            KeyCode::MidiNoteC4 => 0x7133,
            KeyCode::MidiNoteCSharp4 => 0x7134,
            KeyCode::MidiNoteD4 => 0x7135,
            KeyCode::MidiNoteDSharp4 => 0x7136,
            KeyCode::MidiNoteE4 => 0x7137,
            KeyCode::MidiNoteF4 => 0x7138,
            KeyCode::MidiNoteFSharp4 => 0x7139,
            KeyCode::MidiNoteG4 => 0x713A,
            KeyCode::MidiNoteGSharp4 => 0x713B,
            KeyCode::MidiNoteA4 => 0x713C,
            KeyCode::MidiNoteASharp4 => 0x713D,
            KeyCode::MidiNoteB4 => 0x713E,
            KeyCode::MidiNoteC5 => 0x713F,
            KeyCode::MidiNoteCSharp5 => 0x7140,
            KeyCode::MidiNoteD5 => 0x7141,
            KeyCode::MidiNoteDSharp5 => 0x7142,
            KeyCode::MidiNoteE5 => 0x7143,
            KeyCode::MidiNoteF5 => 0x7144,
            KeyCode::MidiNoteFSharp5 => 0x7145,
            KeyCode::MidiNoteG5 => 0x7146,
            KeyCode::MidiNoteGSharp5 => 0x7147,
            KeyCode::MidiNoteA5 => 0x7148,
            KeyCode::MidiNoteASharp5 => 0x7149,
            KeyCode::MidiNoteB5 => 0x714A,
            KeyCode::MidiOctaveN2 => 0x714B,
            KeyCode::MidiOctaveN1 => 0x714C,
            KeyCode::MidiOctave0 => 0x714D,
            KeyCode::MidiOctave1 => 0x714E,
            KeyCode::MidiOctave2 => 0x714F,
            KeyCode::MidiOctave3 => 0x7150,
            KeyCode::MidiOctave4 => 0x7151,
            KeyCode::MidiOctave5 => 0x7152,
            KeyCode::MidiOctave6 => 0x7153,
            KeyCode::MidiOctave7 => 0x7154,
            KeyCode::MidiOctaveDOWN => 0x7155,
            KeyCode::MidiOctaveUP => 0x7156,
            KeyCode::MidiTransposeN6 => 0x7157,
            KeyCode::MidiTransposeN5 => 0x7158,
            KeyCode::MidiTransposeN4 => 0x7159,
            KeyCode::MidiTransposeN3 => 0x715A,
            KeyCode::MidiTransposeN2 => 0x715B,
            KeyCode::MidiTransposeN1 => 0x715C,
            KeyCode::MidiTranspose0 => 0x715D,
            KeyCode::MidiTranspose1 => 0x715E,
            KeyCode::MidiTranspose2 => 0x715F,
            KeyCode::MidiTranspose3 => 0x7160,
            KeyCode::MidiTranspose4 => 0x7161,
            KeyCode::MidiTranspose5 => 0x7162,
            KeyCode::MidiTranspose6 => 0x7163,
            KeyCode::MidiTransposeDown => 0x7164,
            KeyCode::MidiTransposeUp => 0x7165,
            KeyCode::MidiVelocity0 => 0x7166,
            KeyCode::MidiVelocity1 => 0x7167,
            KeyCode::MidiVelocity2 => 0x7168,
            KeyCode::MidiVelocity3 => 0x7169,
            KeyCode::MidiVelocity4 => 0x716A,
            KeyCode::MidiVelocity5 => 0x716B,
            KeyCode::MidiVelocity6 => 0x716C,
            KeyCode::MidiVelocity7 => 0x716D,
            KeyCode::MidiVelocity8 => 0x716E,
            KeyCode::MidiVelocity9 => 0x716F,
            KeyCode::MidiVelocity10 => 0x7170,
            KeyCode::MidiVelocityDOWN => 0x7171,
            KeyCode::MidiVelocityUP => 0x7172,
            KeyCode::MidiChannel1 => 0x7173,
            KeyCode::MidiChannel2 => 0x7174,
            KeyCode::MidiChannel3 => 0x7175,
            KeyCode::MidiChannel4 => 0x7176,
            KeyCode::MidiChannel5 => 0x7177,
            KeyCode::MidiChannel6 => 0x7178,
            KeyCode::MidiChannel7 => 0x7179,
            KeyCode::MidiChannel8 => 0x717A,
            KeyCode::MidiChannel9 => 0x717B,
            KeyCode::MidiChannel10 => 0x717C,
            KeyCode::MidiChannel11 => 0x717D,
            KeyCode::MidiChannel12 => 0x717E,
            KeyCode::MidiChannel13 => 0x717F,
            KeyCode::MidiChannel14 => 0x7180,
            KeyCode::MidiChannel15 => 0x7181,
            KeyCode::MidiChannel16 => 0x7182,
            KeyCode::MidiChannelDOWN => 0x7183,
            KeyCode::MidiChannelUP => 0x7184,
            KeyCode::MidiAllNotesOff => 0x7185,
            KeyCode::MidiSustain => 0x7186,
            KeyCode::MidiPortamento => 0x7187,
            KeyCode::MidiSostenuto => 0x7188,
            KeyCode::MidiSoft => 0x7189,
            KeyCode::MidiLegato => 0x718A,
            KeyCode::MidiModulation => 0x718B,
            KeyCode::MidiModulationSpeedDown => 0x718C,
            KeyCode::MidiModulationSpeedUp => 0x718D,
            KeyCode::MidiPitchBendDown => 0x718E,
            KeyCode::MidiPitchBendUp => 0x718F,
            _ => self.code_feature(),
        }
    }

    /// The number that stands for this keycode.
    #[verifier::when_used_as_spec(spec_code)]
    pub fn code(self) -> (code: u16)
        ensures
            code == self.spec_code(),
    {
        match self {
            KeyCode::No => 0x0000,
            KeyCode::Transparent => 0x0001,
            KeyCode::A => 0x0004,
            KeyCode::B => 0x0005,
            KeyCode::C => 0x0006,
            KeyCode::D => 0x0007,
            KeyCode::E => 0x0008,
            KeyCode::F => 0x0009,
            KeyCode::G => 0x000A,
            KeyCode::H => 0x000B,
            KeyCode::I => 0x000C,
            KeyCode::J => 0x000D,
            KeyCode::K => 0x000E,
            KeyCode::L => 0x000F,
            KeyCode::M => 0x0010,
            KeyCode::N => 0x0011,
            KeyCode::O => 0x0012,
            KeyCode::P => 0x0013,
            KeyCode::Q => 0x0014,
            KeyCode::R => 0x0015,
            KeyCode::S => 0x0016,
            KeyCode::T => 0x0017,
            KeyCode::U => 0x0018,
            KeyCode::V => 0x0019,
            KeyCode::W => 0x001A,
            KeyCode::X => 0x001B,
            KeyCode::Y => 0x001C,
            KeyCode::Z => 0x001D,
            KeyCode::Kc1 => 0x001E,
            KeyCode::Kc2 => 0x001F,
            KeyCode::Kc3 => 0x0020,
            KeyCode::Kc4 => 0x0021,
            KeyCode::Kc5 => 0x0022,
            KeyCode::Kc6 => 0x0023,
            KeyCode::Kc7 => 0x0024,
            KeyCode::Kc8 => 0x0025,
            KeyCode::Kc9 => 0x0026,
            KeyCode::Kc0 => 0x0027,
            KeyCode::Enter => 0x0028,
            KeyCode::Escape => 0x0029,
            KeyCode::Backspace => 0x002A,
            KeyCode::Tab => 0x002B,
            KeyCode::Space => 0x002C,
            KeyCode::Minus => 0x002D,
            KeyCode::Equal => 0x002E,
            KeyCode::LeftBracket => 0x002F,
            KeyCode::RightBracket => 0x0030,
            KeyCode::Backslash => 0x0031,
            KeyCode::NonusHash => 0x0032,
            KeyCode::Semicolon => 0x0033,
            KeyCode::Quote => 0x0034,
            KeyCode::Grave => 0x0035,
            KeyCode::Comma => 0x0036,
            KeyCode::Dot => 0x0037,
            KeyCode::Slash => 0x0038,
            KeyCode::CapsLock => 0x0039,
            KeyCode::F1 => 0x003A,
            KeyCode::F2 => 0x003B,
            KeyCode::F3 => 0x003C,
            KeyCode::F4 => 0x003D,
            KeyCode::F5 => 0x003E,
            KeyCode::F6 => 0x003F,
            KeyCode::F7 => 0x0040,
            KeyCode::F8 => 0x0041,
            KeyCode::F9 => 0x0042,
            KeyCode::F10 => 0x0043,
            KeyCode::F11 => 0x0044,
            KeyCode::F12 => 0x0045,
            KeyCode::PrintScreen => 0x0046,
            KeyCode::ScrollLock => 0x0047,
            KeyCode::Pause => 0x0048,
            KeyCode::Insert => 0x0049,
            KeyCode::Home => 0x004A,
            KeyCode::PageUp => 0x004B,
            KeyCode::Delete => 0x004C,
            KeyCode::End => 0x004D,
            KeyCode::PageDown => 0x004E,
            KeyCode::Right => 0x004F,
            KeyCode::Left => 0x0050,
            KeyCode::Down => 0x0051,
            KeyCode::UP => 0x0052,
            KeyCode::NumLock => 0x0053,
            KeyCode::KpSlash => 0x0054,
            KeyCode::KpAsterisk => 0x0055,
            KeyCode::KpMinus => 0x0056,
            KeyCode::KpPlus => 0x0057,
            KeyCode::KpEnter => 0x0058,
            KeyCode::Kp1 => 0x0059,
            KeyCode::Kp2 => 0x005A,
            KeyCode::Kp3 => 0x005B,
            KeyCode::Kp4 => 0x005C,
            KeyCode::Kp5 => 0x005D,
            KeyCode::Kp6 => 0x005E,
            KeyCode::Kp7 => 0x005F,
            KeyCode::Kp8 => 0x0060,
            KeyCode::Kp9 => 0x0061,
            KeyCode::Kp0 => 0x0062,
            KeyCode::KpDot => 0x0063,
            KeyCode::NonusBackslash => 0x0064,
            KeyCode::Application => 0x0065,
            KeyCode::KbPower => 0x0066,
            KeyCode::KpEqual => 0x0067,
            KeyCode::F13 => 0x0068,
            KeyCode::F14 => 0x0069,
            KeyCode::F15 => 0x006A,
            KeyCode::F16 => 0x006B,
            KeyCode::F17 => 0x006C,
            KeyCode::F18 => 0x006D,
            KeyCode::F19 => 0x006E,
            KeyCode::F20 => 0x006F,
            KeyCode::F21 => 0x0070,
            KeyCode::F22 => 0x0071,
            KeyCode::F23 => 0x0072,
            KeyCode::F24 => 0x0073,
            KeyCode::Execute => 0x0074,
            KeyCode::Help => 0x0075,
            KeyCode::Menu => 0x0076,
            KeyCode::Select => 0x0077,
            KeyCode::Stop => 0x0078,
            KeyCode::Again => 0x0079,
            KeyCode::Undo => 0x007A,
            KeyCode::Cut => 0x007B,
            KeyCode::Copy => 0x007C,
            KeyCode::Paste => 0x007D,
            KeyCode::Find => 0x007E,
            KeyCode::KbMute => 0x007F,
            KeyCode::KbVolumeUp => 0x0080,
            KeyCode::KbVolumeDown => 0x0081,
            KeyCode::LockingCapsLock => 0x0082,
            KeyCode::LockingNumLock => 0x0083,
            KeyCode::LockingScrollLock => 0x0084,
            KeyCode::KpComma => 0x0085,
            KeyCode::KpEqualAs400 => 0x0086,
            KeyCode::International1 => 0x0087,
            KeyCode::International2 => 0x0088,
            KeyCode::International3 => 0x0089,
            KeyCode::International4 => 0x008A,
            KeyCode::International5 => 0x008B,
            KeyCode::International6 => 0x008C,
            KeyCode::International7 => 0x008D,
            KeyCode::International8 => 0x008E,
            KeyCode::International9 => 0x008F,
            KeyCode::Language1 => 0x0090,
            KeyCode::Language2 => 0x0091,
            KeyCode::Language3 => 0x0092,
            KeyCode::Language4 => 0x0093,
            KeyCode::Language5 => 0x0094,
            KeyCode::Language6 => 0x0095,
            KeyCode::Language7 => 0x0096,
            KeyCode::Language8 => 0x0097,
            KeyCode::Language9 => 0x0098,
            KeyCode::AlternateErase => 0x0099,
            KeyCode::SystemRequest => 0x009A,
            KeyCode::Cancel => 0x009B,
            KeyCode::Clear => 0x009C,
            KeyCode::Prior => 0x009D,
            KeyCode::Return => 0x009E,
            KeyCode::Separator => 0x009F,
            KeyCode::Out => 0x00A0,
            KeyCode::Oper => 0x00A1,
            KeyCode::ClearAgain => 0x00A2,
            KeyCode::Crsel => 0x00A3,
            KeyCode::Exsel => 0x00A4,
            KeyCode::SystemPower => 0x00A5,
            KeyCode::SystemSleep => 0x00A6,
            KeyCode::SystemWake => 0x00A7,
            KeyCode::AudioMute => 0x00A8,
            KeyCode::AudioVolUp => 0x00A9,
            KeyCode::AudioVolDown => 0x00AA,
            KeyCode::MediaNextTrack => 0x00AB,
            KeyCode::MediaPrevTrack => 0x00AC,
            KeyCode::MediaStop => 0x00AD,
            KeyCode::MediaPlayPause => 0x00AE,
            KeyCode::MediaSelect => 0x00AF,
            KeyCode::MediaEject => 0x00B0,
            KeyCode::Mail => 0x00B1,
            KeyCode::Calculator => 0x00B2,
            KeyCode::MyComputer => 0x00B3,
            KeyCode::WwwSearch => 0x00B4,
            KeyCode::WwwHome => 0x00B5,
            KeyCode::WwwBack => 0x00B6,
            KeyCode::WwwForward => 0x00B7,
            KeyCode::WwwStop => 0x00B8,
            KeyCode::WwwRefresh => 0x00B9,
            KeyCode::WwwFavorites => 0x00BA,
            KeyCode::MediaFastForward => 0x00BB,
            KeyCode::MediaRewind => 0x00BC,
            KeyCode::BrightnessUp => 0x00BD,
            KeyCode::BrightnessDown => 0x00BE,
            KeyCode::ControlPanel => 0x00BF,
            KeyCode::Assistant => 0x00C0,
            KeyCode::MissionControl => 0x00C1,
            KeyCode::Launchpad => 0x00C2,
            KeyCode::MouseUp => 0x00CD,
            KeyCode::MouseDown => 0x00CE,
            KeyCode::MouseLeft => 0x00CF,
            KeyCode::MouseRight => 0x00D0,
            KeyCode::MouseBtn1 => 0x00D1,
            KeyCode::MouseBtn2 => 0x00D2,
            KeyCode::MouseBtn3 => 0x00D3,
            KeyCode::MouseBtn4 => 0x00D4,
            KeyCode::MouseBtn5 => 0x00D5,
            KeyCode::MouseBtn6 => 0x00D6,
            KeyCode::MouseBtn7 => 0x00D7,
            KeyCode::MouseBtn8 => 0x00D8,
            KeyCode::MouseWheelUp => 0x00D9,
            KeyCode::MouseWheelDown => 0x00DA,
            KeyCode::MouseWheelLeft => 0x00DB,
            KeyCode::MouseWheelRight => 0x00DC,
            KeyCode::MouseAccel0 => 0x00DD,
            KeyCode::MouseAccel1 => 0x00DE,
            KeyCode::MouseAccel2 => 0x00DF,
            KeyCode::LCtrl => 0x00E0,
            KeyCode::LShift => 0x00E1,
            KeyCode::LAlt => 0x00E2,
            KeyCode::LGui => 0x00E3,
            KeyCode::RCtrl => 0x00E4,
            KeyCode::RShift => 0x00E5,
            KeyCode::RAlt => 0x00E6,
            KeyCode::RGui => 0x00E7,
            _ => self.code_musical(),
        }
    }

    /// The keycode numbered `number`, or `No` where no keycode has that
    /// number.
    pub open spec fn spec_from_primitive(number: u16) -> KeyCode {
        if number <= 0x00E7 {
            match number {
                0x0000 => KeyCode::No,
                0x0001 => KeyCode::Transparent,
                0x0004 => KeyCode::A,
                0x0005 => KeyCode::B,
                0x0006 => KeyCode::C,
                0x0007 => KeyCode::D,
                0x0008 => KeyCode::E,
                0x0009 => KeyCode::F,
                0x000A => KeyCode::G,
                0x000B => KeyCode::H,
                0x000C => KeyCode::I,
                0x000D => KeyCode::J,
                0x000E => KeyCode::K,
                0x000F => KeyCode::L,
                0x0010 => KeyCode::M,
                0x0011 => KeyCode::N,
                0x0012 => KeyCode::O,
                0x0013 => KeyCode::P,
                0x0014 => KeyCode::Q,
                0x0015 => KeyCode::R,
                0x0016 => KeyCode::S,
                0x0017 => KeyCode::T,
                0x0018 => KeyCode::U,
                0x0019 => KeyCode::V,
                0x001A => KeyCode::W,
                0x001B => KeyCode::X,
                0x001C => KeyCode::Y,
                0x001D => KeyCode::Z,
                0x001E => KeyCode::Kc1,
                0x001F => KeyCode::Kc2,
                0x0020 => KeyCode::Kc3,
                0x0021 => KeyCode::Kc4,
                0x0022 => KeyCode::Kc5,
                0x0023 => KeyCode::Kc6,
                0x0024 => KeyCode::Kc7,
                0x0025 => KeyCode::Kc8,
                0x0026 => KeyCode::Kc9,
                0x0027 => KeyCode::Kc0,
                0x0028 => KeyCode::Enter,
                0x0029 => KeyCode::Escape,
                0x002A => KeyCode::Backspace,
                0x002B => KeyCode::Tab,
                0x002C => KeyCode::Space,
                0x002D => KeyCode::Minus,
                0x002E => KeyCode::Equal,
                0x002F => KeyCode::LeftBracket,
                0x0030 => KeyCode::RightBracket,
                0x0031 => KeyCode::Backslash,
                0x0032 => KeyCode::NonusHash,
                0x0033 => KeyCode::Semicolon,
                0x0034 => KeyCode::Quote,
                0x0035 => KeyCode::Grave,
                0x0036 => KeyCode::Comma,
                0x0037 => KeyCode::Dot,
                0x0038 => KeyCode::Slash,
                0x0039 => KeyCode::CapsLock,
                0x003A => KeyCode::F1,
                0x003B => KeyCode::F2,
                0x003C => KeyCode::F3,
                0x003D => KeyCode::F4,
                0x003E => KeyCode::F5,
                0x003F => KeyCode::F6,
                0x0040 => KeyCode::F7,
                0x0041 => KeyCode::F8,
                0x0042 => KeyCode::F9,
                0x0043 => KeyCode::F10,
                0x0044 => KeyCode::F11,
                0x0045 => KeyCode::F12,
                0x0046 => KeyCode::PrintScreen,
                0x0047 => KeyCode::ScrollLock,
                0x0048 => KeyCode::Pause,
                0x0049 => KeyCode::Insert,
                0x004A => KeyCode::Home,
                0x004B => KeyCode::PageUp,
                0x004C => KeyCode::Delete,
                0x004D => KeyCode::End,
                0x004E => KeyCode::PageDown,
                0x004F => KeyCode::Right,
                0x0050 => KeyCode::Left,
                0x0051 => KeyCode::Down,
                0x0052 => KeyCode::UP,
                0x0053 => KeyCode::NumLock,
                0x0054 => KeyCode::KpSlash,
                0x0055 => KeyCode::KpAsterisk,
                0x0056 => KeyCode::KpMinus,
                0x0057 => KeyCode::KpPlus,
                0x0058 => KeyCode::KpEnter,
                0x0059 => KeyCode::Kp1,
                0x005A => KeyCode::Kp2,
                0x005B => KeyCode::Kp3,
                0x005C => KeyCode::Kp4,
                0x005D => KeyCode::Kp5,
                0x005E => KeyCode::Kp6,
                0x005F => KeyCode::Kp7,
                0x0060 => KeyCode::Kp8,
                0x0061 => KeyCode::Kp9,
                0x0062 => KeyCode::Kp0,
                0x0063 => KeyCode::KpDot,
                0x0064 => KeyCode::NonusBackslash,
                0x0065 => KeyCode::Application,
                0x0066 => KeyCode::KbPower,
                0x0067 => KeyCode::KpEqual,
                0x0068 => KeyCode::F13,
                0x0069 => KeyCode::F14,
                0x006A => KeyCode::F15,
                0x006B => KeyCode::F16,
                0x006C => KeyCode::F17,
                0x006D => KeyCode::F18,
                0x006E => KeyCode::F19,
                0x006F => KeyCode::F20,
                0x0070 => KeyCode::F21,
                0x0071 => KeyCode::F22,
                0x0072 => KeyCode::F23,
                0x0073 => KeyCode::F24,
                0x0074 => KeyCode::Execute,
                0x0075 => KeyCode::Help,
                0x0076 => KeyCode::Menu,
                0x0077 => KeyCode::Select,
                0x0078 => KeyCode::Stop,
                0x0079 => KeyCode::Again,
                0x007A => KeyCode::Undo,
                0x007B => KeyCode::Cut,
                0x007C => KeyCode::Copy,
                0x007D => KeyCode::Paste,
                0x007E => KeyCode::Find,
                0x007F => KeyCode::KbMute,
                0x0080 => KeyCode::KbVolumeUp,
                0x0081 => KeyCode::KbVolumeDown,
                0x0082 => KeyCode::LockingCapsLock,
                0x0083 => KeyCode::LockingNumLock,
                0x0084 => KeyCode::LockingScrollLock,
                0x0085 => KeyCode::KpComma,
                0x0086 => KeyCode::KpEqualAs400,
                0x0087 => KeyCode::International1,
                0x0088 => KeyCode::International2,
                0x0089 => KeyCode::International3,
                0x008A => KeyCode::International4,
                0x008B => KeyCode::International5,
                0x008C => KeyCode::International6,
                0x008D => KeyCode::International7,
                0x008E => KeyCode::International8,
                0x008F => KeyCode::International9,
                0x0090 => KeyCode::Language1,
                0x0091 => KeyCode::Language2,
                0x0092 => KeyCode::Language3,
                0x0093 => KeyCode::Language4,
                0x0094 => KeyCode::Language5,
                0x0095 => KeyCode::Language6,
                0x0096 => KeyCode::Language7,
                0x0097 => KeyCode::Language8,
                0x0098 => KeyCode::Language9,
                0x0099 => KeyCode::AlternateErase,
                0x009A => KeyCode::SystemRequest,
                0x009B => KeyCode::Cancel,
                0x009C => KeyCode::Clear,
                0x009D => KeyCode::Prior,
                0x009E => KeyCode::Return,
                0x009F => KeyCode::Separator,
                0x00A0 => KeyCode::Out,
                0x00A1 => KeyCode::Oper,
                0x00A2 => KeyCode::ClearAgain,
                0x00A3 => KeyCode::Crsel,
                0x00A4 => KeyCode::Exsel,
                0x00A5 => KeyCode::SystemPower,
                0x00A6 => KeyCode::SystemSleep,
                0x00A7 => KeyCode::SystemWake,
                0x00A8 => KeyCode::AudioMute,
                0x00A9 => KeyCode::AudioVolUp,
                0x00AA => KeyCode::AudioVolDown,
                0x00AB => KeyCode::MediaNextTrack,
                0x00AC => KeyCode::MediaPrevTrack,
                0x00AD => KeyCode::MediaStop,
                0x00AE => KeyCode::MediaPlayPause,
                0x00AF => KeyCode::MediaSelect,
                0x00B0 => KeyCode::MediaEject,
                0x00B1 => KeyCode::Mail,
                0x00B2 => KeyCode::Calculator,
                0x00B3 => KeyCode::MyComputer,
                0x00B4 => KeyCode::WwwSearch,
                0x00B5 => KeyCode::WwwHome,
                0x00B6 => KeyCode::WwwBack,
                0x00B7 => KeyCode::WwwForward,
                0x00B8 => KeyCode::WwwStop,
                0x00B9 => KeyCode::WwwRefresh,
                0x00BA => KeyCode::WwwFavorites,
                0x00BB => KeyCode::MediaFastForward,
                0x00BC => KeyCode::MediaRewind,
                0x00BD => KeyCode::BrightnessUp,
                0x00BE => KeyCode::BrightnessDown,
                0x00BF => KeyCode::ControlPanel,
                0x00C0 => KeyCode::Assistant,
                0x00C1 => KeyCode::MissionControl,
                0x00C2 => KeyCode::Launchpad,
                0x00CD => KeyCode::MouseUp,
                0x00CE => KeyCode::MouseDown,
                0x00CF => KeyCode::MouseLeft,
                0x00D0 => KeyCode::MouseRight,
                0x00D1 => KeyCode::MouseBtn1,
                0x00D2 => KeyCode::MouseBtn2,
                0x00D3 => KeyCode::MouseBtn3,
                0x00D4 => KeyCode::MouseBtn4,
                0x00D5 => KeyCode::MouseBtn5,
                0x00D6 => KeyCode::MouseBtn6,
                0x00D7 => KeyCode::MouseBtn7,
                0x00D8 => KeyCode::MouseBtn8,
                0x00D9 => KeyCode::MouseWheelUp,
                0x00DA => KeyCode::MouseWheelDown,
                0x00DB => KeyCode::MouseWheelLeft,
                0x00DC => KeyCode::MouseWheelRight,
                0x00DD => KeyCode::MouseAccel0,
                0x00DE => KeyCode::MouseAccel1,
                0x00DF => KeyCode::MouseAccel2,
                0x00E0 => KeyCode::LCtrl,
                0x00E1 => KeyCode::LShift,
                0x00E2 => KeyCode::LAlt,
                0x00E3 => KeyCode::LGui,
                0x00E4 => KeyCode::RCtrl,
                0x00E5 => KeyCode::RShift,
                0x00E6 => KeyCode::RAlt,
                0x00E7 => KeyCode::RGui,
                _ => KeyCode::No,
            }
        } else if number <= 0x71FF {
            match number {
                0x56F0 => KeyCode::SwapHandsToggle,
                0x56F1 => KeyCode::SwapHandsTapToggle,
                0x56F2 => KeyCode::SwapHandsMomentaryOn,
                0x56F3 => KeyCode::SwapHandsMomentaryOff,
                0x56F4 => KeyCode::SwapHandsOff,
                0x56F5 => KeyCode::SwapHandsOn,
                0x56F6 => KeyCode::SwapHandsOneShot,
                0x7000 => KeyCode::MagicSwapControlCapsLock,
                0x7001 => KeyCode::MagicUnswapControlCapsLock,
                0x7002 => KeyCode::MagicToggleControlCapsLock,
                0x7003 => KeyCode::MagicCapsLockAsControlOff,
                0x7004 => KeyCode::MagicCapsLockAsControlOn,
                0x7005 => KeyCode::MagicSwapLaltLGui,
                0x7006 => KeyCode::MagicUnswapLaltLGui,
                0x7007 => KeyCode::MagicSwapRaltRGui,
                0x7008 => KeyCode::MagicUnswapRaltRGui,
                0x7009 => KeyCode::MagicGuiOn,
                0x700A => KeyCode::MagicGuiOff,
                0x700B => KeyCode::MagicToggleGui,
                0x700C => KeyCode::MagicSwapGraveEsc,
                0x700D => KeyCode::MagicUnswapGraveEsc,
                0x700E => KeyCode::MagicSwapBackslashBackspace,
                0x700F => KeyCode::MagicUnswapBackslashBackspace,
                0x7010 => KeyCode::MagicToggleBackslashBackspace,
                0x7011 => KeyCode::MagicNkroOn,
                0x7012 => KeyCode::MagicNkroOff,
                0x7013 => KeyCode::MagicToggleNkro,
                0x7014 => KeyCode::MagicSwapAltGui,
                0x7015 => KeyCode::MagicUnswapAltGui,
                0x7016 => KeyCode::MagicToggleAltGui,
                0x7017 => KeyCode::MagicSwapLctlLGui,
                0x7018 => KeyCode::MagicUnswapLctlLGui,
                0x7019 => KeyCode::MagicSwapRctlRGui,
                0x701A => KeyCode::MagicUnswapRctlRGui,
                0x701B => KeyCode::MagicSwapCtlGui,
                0x701C => KeyCode::MagicUnswapCtlGui,
                0x701D => KeyCode::MagicToggleCtlGui,
                0x701E => KeyCode::MagicEeHandsLeft,
                0x701F => KeyCode::MagicEeHandsRight,
                0x7020 => KeyCode::MagicSwapEscapeCapsLock,
                0x7021 => KeyCode::MagicUnswapEscapeCapsLock,
                0x7022 => KeyCode::MagicToggleEscapeCapsLock,
                0x7100 => KeyCode::MidiOn,
                0x7101 => KeyCode::MidiOff,
                0x7102 => KeyCode::MidiToggle,
                0x7103 => KeyCode::MidiNoteC0,
                0x7104 => KeyCode::MidiNoteCSharp0,
                0x7105 => KeyCode::MidiNoteD0,
                0x7106 => KeyCode::MidiNoteDSharp0,
                0x7107 => KeyCode::MidiNoteE0,
                0x7108 => KeyCode::MidiNoteF0,
                0x7109 => KeyCode::MidiNoteFSharp0,
                0x710A => KeyCode::MidiNoteG0,
                0x710B => KeyCode::MidiNoteGSharp0,
                0x710C => KeyCode::MidiNoteA0,
                0x710D => KeyCode::MidiNoteASharp0,
                0x710E => KeyCode::MidiNoteB0,
                0x710F => KeyCode::MidiNoteC1,
                0x7110 => KeyCode::MidiNoteCSharp1,
                0x7111 => KeyCode::MidiNoteD1,
                0x7112 => KeyCode::MidiNoteDSharp1,
                0x7113 => KeyCode::MidiNoteE1,
                0x7114 => KeyCode::MidiNoteF1,
                0x7115 => KeyCode::MidiNoteFSharp1,
                0x7116 => KeyCode::MidiNoteG1,
                0x7117 => KeyCode::MidiNoteGSharp1,
                0x7118 => KeyCode::MidiNoteA1,
                0x7119 => KeyCode::MidiNoteASharp1,
                0x711A => KeyCode::MidiNoteB1,
                0x711B => KeyCode::MidiNoteC2,
                0x711C => KeyCode::MidiNoteCSharp2,
                0x711D => KeyCode::MidiNoteD2,
                0x711E => KeyCode::MidiNoteDSharp2,
                0x711F => KeyCode::MidiNoteE2,
                0x7120 => KeyCode::MidiNoteF2,
                0x7121 => KeyCode::MidiNoteFSharp2,
                0x7122 => KeyCode::MidiNoteG2,
                0x7123 => KeyCode::MidiNoteGSharp2,
                0x7124 => KeyCode::MidiNoteA2,
                0x7125 => KeyCode::MidiNoteASharp2,
                0x7126 => KeyCode::MidiNoteB2,
                0x7127 => KeyCode::MidiNoteC3,
                0x7128 => KeyCode::MidiNoteCSharp3,
                0x7129 => KeyCode::MidiNoteD3,
                0x712A => KeyCode::MidiNoteDSharp3,
                0x712B => KeyCode::MidiNoteE3,
                0x712C => KeyCode::MidiNoteF3,
                0x712D => KeyCode::MidiNoteFSharp3,
                0x712E => KeyCode::MidiNoteG3,
                0x712F => KeyCode::MidiNoteGSharp3,
                0x7130 => KeyCode::MidiNoteA3,
                0x7131 => KeyCode::MidiNoteASharp3,
                0x7132 => KeyCode::MidiNoteB3,
                0x7133 => KeyCode::MidiNoteC4,
                0x7134 => KeyCode::MidiNoteCSharp4,
                0x7135 => KeyCode::MidiNoteD4,
                0x7136 => KeyCode::MidiNoteDSharp4,
                0x7137 => KeyCode::MidiNoteE4,
                0x7138 => KeyCode::MidiNoteF4,
                0x7139 => KeyCode::MidiNoteFSharp4,
                0x713A => KeyCode::MidiNoteG4,
                0x713B => KeyCode::MidiNoteGSharp4,
                0x713C => KeyCode::MidiNoteA4,
                0x713D => KeyCode::MidiNoteASharp4,
                0x713E => KeyCode::MidiNoteB4,
                0x713F => KeyCode::MidiNoteC5,
                0x7140 => KeyCode::MidiNoteCSharp5,
                0x7141 => KeyCode::MidiNoteD5,
                0x7142 => KeyCode::MidiNoteDSharp5,
                0x7143 => KeyCode::MidiNoteE5,
                0x7144 => KeyCode::MidiNoteF5,
                0x7145 => KeyCode::MidiNoteFSharp5,
                0x7146 => KeyCode::MidiNoteG5,
                0x7147 => KeyCode::MidiNoteGSharp5,
                0x7148 => KeyCode::MidiNoteA5,
                0x7149 => KeyCode::MidiNoteASharp5,
                0x714A => KeyCode::MidiNoteB5,
                0x714B => KeyCode::MidiOctaveN2,
                0x714C => KeyCode::MidiOctaveN1,
                0x714D => KeyCode::MidiOctave0,
                0x714E => KeyCode::MidiOctave1,
                0x714F => KeyCode::MidiOctave2,
                0x7150 => KeyCode::MidiOctave3,
                0x7151 => KeyCode::MidiOctave4,
                0x7152 => KeyCode::MidiOctave5,
                0x7153 => KeyCode::MidiOctave6,
                0x7154 => KeyCode::MidiOctave7,
                0x7155 => KeyCode::MidiOctaveDOWN,
                0x7156 => KeyCode::MidiOctaveUP,
                0x7157 => KeyCode::MidiTransposeN6,
                0x7158 => KeyCode::MidiTransposeN5,
                0x7159 => KeyCode::MidiTransposeN4,
                0x715A => KeyCode::MidiTransposeN3,
                0x715B => KeyCode::MidiTransposeN2,
                0x715C => KeyCode::MidiTransposeN1,
                0x715D => KeyCode::MidiTranspose0,
                0x715E => KeyCode::MidiTranspose1,
                0x715F => KeyCode::MidiTranspose2,
                0x7160 => KeyCode::MidiTranspose3,
                0x7161 => KeyCode::MidiTranspose4,
                0x7162 => KeyCode::MidiTranspose5,
                0x7163 => KeyCode::MidiTranspose6,
                0x7164 => KeyCode::MidiTransposeDown,
                0x7165 => KeyCode::MidiTransposeUp,
                0x7166 => KeyCode::MidiVelocity0,
                0x7167 => KeyCode::MidiVelocity1,
                0x7168 => KeyCode::MidiVelocity2,
                0x7169 => KeyCode::MidiVelocity3,
                0x716A => KeyCode::MidiVelocity4,
                0x716B => KeyCode::MidiVelocity5,
                0x716C => KeyCode::MidiVelocity6,
                0x716D => KeyCode::MidiVelocity7,
                0x716E => KeyCode::MidiVelocity8,
                0x716F => KeyCode::MidiVelocity9,
                0x7170 => KeyCode::MidiVelocity10,
                0x7171 => KeyCode::MidiVelocityDOWN,
                0x7172 => KeyCode::MidiVelocityUP,
                0x7173 => KeyCode::MidiChannel1,
                0x7174 => KeyCode::MidiChannel2,
                0x7175 => KeyCode::MidiChannel3,
                0x7176 => KeyCode::MidiChannel4,
                0x7177 => KeyCode::MidiChannel5,
                0x7178 => KeyCode::MidiChannel6,
                0x7179 => KeyCode::MidiChannel7,
                0x717A => KeyCode::MidiChannel8,
                0x717B => KeyCode::MidiChannel9,
                0x717C => KeyCode::MidiChannel10,
                0x717D => KeyCode::MidiChannel11,
                0x717E => KeyCode::MidiChannel12,
                0x717F => KeyCode::MidiChannel13,
                0x7180 => KeyCode::MidiChannel14,
                0x7181 => KeyCode::MidiChannel15,
                0x7182 => KeyCode::MidiChannel16,
                0x7183 => KeyCode::MidiChannelDOWN,
                0x7184 => KeyCode::MidiChannelUP,
                0x7185 => KeyCode::MidiAllNotesOff,
                0x7186 => KeyCode::MidiSustain,
                0x7187 => KeyCode::MidiPortamento,
                0x7188 => KeyCode::MidiSostenuto,
                0x7189 => KeyCode::MidiSoft,
                0x718A => KeyCode::MidiLegato,
                0x718B => KeyCode::MidiModulation,
                0x718C => KeyCode::MidiModulationSpeedDown,
                0x718D => KeyCode::MidiModulationSpeedUp,
                0x718E => KeyCode::MidiPitchBendDown,
                0x718F => KeyCode::MidiPitchBendUp,
                _ => KeyCode::No,
            }
        } else if number <= 0x7BFF {
            match number {
                0x7200 => KeyCode::SequencerOn,
                0x7201 => KeyCode::SequencerOff,
                0x7202 => KeyCode::SequencerToggle,
                0x7203 => KeyCode::SequencerTempoDown,
                0x7204 => KeyCode::SequencerTempoUp,
                0x7205 => KeyCode::SequencerResolutionDown,
                0x7206 => KeyCode::SequencerResolutionUp,
                0x7207 => KeyCode::SequencerStepsAll,
                0x7208 => KeyCode::SequencerStepsClear,
                0x7400 => KeyCode::JoystickButton0,
                0x7401 => KeyCode::JoystickButton1,
                0x7402 => KeyCode::JoystickButton2,
                0x7403 => KeyCode::JoystickButton3,
                0x7404 => KeyCode::JoystickButton4,
                0x7405 => KeyCode::JoystickButton5,
                0x7406 => KeyCode::JoystickButton6,
                0x7407 => KeyCode::JoystickButton7,
                0x7408 => KeyCode::JoystickButton8,
                0x7409 => KeyCode::JoystickButton9,
                0x740A => KeyCode::JoystickButton10,
                0x740B => KeyCode::JoystickButton11,
                0x740C => KeyCode::JoystickButton12,
                0x740D => KeyCode::JoystickButton13,
                0x740E => KeyCode::JoystickButton14,
                0x740F => KeyCode::JoystickButton15,
                0x7410 => KeyCode::JoystickButton16,
                0x7411 => KeyCode::JoystickButton17,
                0x7412 => KeyCode::JoystickButton18,
                0x7413 => KeyCode::JoystickButton19,
                0x7414 => KeyCode::JoystickButton20,
                0x7415 => KeyCode::JoystickButton21,
                0x7416 => KeyCode::JoystickButton22,
                0x7417 => KeyCode::JoystickButton23,
                0x7418 => KeyCode::JoystickButton24,
                0x7419 => KeyCode::JoystickButton25,
                0x741A => KeyCode::JoystickButton26,
                0x741B => KeyCode::JoystickButton27,
                0x741C => KeyCode::JoystickButton28,
                0x741D => KeyCode::JoystickButton29,
                0x741E => KeyCode::JoystickButton30,
                0x741F => KeyCode::JoystickButton31,
                0x7440 => KeyCode::ProgrammableButton1,
                0x7441 => KeyCode::ProgrammableButton2,
                0x7442 => KeyCode::ProgrammableButton3,
                0x7443 => KeyCode::ProgrammableButton4,
                0x7444 => KeyCode::ProgrammableButton5,
                0x7445 => KeyCode::ProgrammableButton6,
                0x7446 => KeyCode::ProgrammableButton7,
                0x7447 => KeyCode::ProgrammableButton8,
                0x7448 => KeyCode::ProgrammableButton9,
                0x7449 => KeyCode::ProgrammableButton10,
                0x744A => KeyCode::ProgrammableButton11,
                0x744B => KeyCode::ProgrammableButton12,
                0x744C => KeyCode::ProgrammableButton13,
                0x744D => KeyCode::ProgrammableButton14,
                0x744E => KeyCode::ProgrammableButton15,
                0x744F => KeyCode::ProgrammableButton16,
                0x7450 => KeyCode::ProgrammableButton17,
                0x7451 => KeyCode::ProgrammableButton18,
                0x7452 => KeyCode::ProgrammableButton19,
                0x7453 => KeyCode::ProgrammableButton20,
                0x7454 => KeyCode::ProgrammableButton21,
                0x7455 => KeyCode::ProgrammableButton22,
                0x7456 => KeyCode::ProgrammableButton23,
                0x7457 => KeyCode::ProgrammableButton24,
                0x7458 => KeyCode::ProgrammableButton25,
                0x7459 => KeyCode::ProgrammableButton26,
                0x745A => KeyCode::ProgrammableButton27,
                0x745B => KeyCode::ProgrammableButton28,
                0x745C => KeyCode::ProgrammableButton29,
                0x745D => KeyCode::ProgrammableButton30,
                0x745E => KeyCode::ProgrammableButton31,
                0x745F => KeyCode::ProgrammableButton32,
                0x7480 => KeyCode::AudioOn,
                0x7481 => KeyCode::AudioOff,
                0x7482 => KeyCode::AudioToggle,
                0x748A => KeyCode::AudioClickyToggle,
                0x748B => KeyCode::AudioClickyOn,
                0x748C => KeyCode::AudioClickyOff,
                0x748D => KeyCode::AudioClickyUp,
                0x748E => KeyCode::AudioClickyDown,
                0x748F => KeyCode::AudioClickyReset,
                0x7490 => KeyCode::MusicOn,
                0x7491 => KeyCode::MusicOff,
                0x7492 => KeyCode::MusicToggle,
                0x7493 => KeyCode::MusicModeNext,
                0x7494 => KeyCode::AudioVoiceNext,
                0x7495 => KeyCode::AudioVoicePrevious,
                0x74F0 => KeyCode::StenoBolt,
                0x74F1 => KeyCode::StenoGemini,
                0x74F2 => KeyCode::StenoComb,
                0x74FC => KeyCode::StenoCombMax,
                0x7700 => KeyCode::Macro0,
                0x7701 => KeyCode::Macro1,
                0x7702 => KeyCode::Macro2,
                0x7703 => KeyCode::Macro3,
                0x7704 => KeyCode::Macro4,
                0x7705 => KeyCode::Macro5,
                0x7706 => KeyCode::Macro6,
                0x7707 => KeyCode::Macro7,
                0x7708 => KeyCode::Macro8,
                0x7709 => KeyCode::Macro9,
                0x770A => KeyCode::Macro10,
                0x770B => KeyCode::Macro11,
                0x770C => KeyCode::Macro12,
                0x770D => KeyCode::Macro13,
                0x770E => KeyCode::Macro14,
                0x770F => KeyCode::Macro15,
                0x7710 => KeyCode::Macro16,
                0x7711 => KeyCode::Macro17,
                0x7712 => KeyCode::Macro18,
                0x7713 => KeyCode::Macro19,
                0x7714 => KeyCode::Macro20,
                0x7715 => KeyCode::Macro21,
                0x7716 => KeyCode::Macro22,
                0x7717 => KeyCode::Macro23,
                0x7718 => KeyCode::Macro24,
                0x7719 => KeyCode::Macro25,
                0x771A => KeyCode::Macro26,
                0x771B => KeyCode::Macro27,
                0x771C => KeyCode::Macro28,
                0x771D => KeyCode::Macro29,
                0x771E => KeyCode::Macro30,
                0x771F => KeyCode::Macro31,
                0x7800 => KeyCode::BacklightOn,
                0x7801 => KeyCode::BacklightOff,
                0x7802 => KeyCode::BacklightToggle,
                0x7803 => KeyCode::BacklightDown,
                0x7804 => KeyCode::BacklightUp,
                0x7805 => KeyCode::BacklightStep,
                0x7806 => KeyCode::BacklightToggleBreathing,
                0x7820 => KeyCode::RgbTog,
                0x7821 => KeyCode::RgbModeForward,
                0x7822 => KeyCode::RgbModeReverse,
                0x7823 => KeyCode::RgbHui,
                0x7824 => KeyCode::RgbHud,
                0x7825 => KeyCode::RgbSai,
                0x7826 => KeyCode::RgbSad,
                0x7827 => KeyCode::RgbVai,
                0x7828 => KeyCode::RgbVad,
                0x7829 => KeyCode::RgbSpi,
                0x782A => KeyCode::RgbSpd,
                0x782B => KeyCode::RgbModePlain,
                0x782C => KeyCode::RgbModeBreathe,
                0x782D => KeyCode::RgbModeRainbow,
                0x782E => KeyCode::RgbModeSwirl,
                0x782F => KeyCode::RgbModeSnake,
                0x7830 => KeyCode::RgbModeKnight,
                0x7831 => KeyCode::RgbModeXmas,
                0x7832 => KeyCode::RgbModeGradient,
                0x7833 => KeyCode::RgbModeRgbtest,
                0x7834 => KeyCode::RgbModeTwinkle,
                _ => KeyCode::No,
            }
        } else {
            match number {
                0x7C00 => KeyCode::Bootloader,
                0x7C01 => KeyCode::Reboot,
                0x7C02 => KeyCode::DebugToggle,
                0x7C03 => KeyCode::ClearEeprom,
                0x7C04 => KeyCode::Make,
                0x7C10 => KeyCode::AutoShiftDown,
                0x7C11 => KeyCode::AutoShiftUp,
                0x7C12 => KeyCode::AutoShiftReport,
                0x7C13 => KeyCode::AutoShiftOn,
                0x7C14 => KeyCode::AutoShiftOff,
                0x7C15 => KeyCode::AutoShiftToggle,
                0x7C16 => KeyCode::GraveEscape,
                0x7C17 => KeyCode::VelocikeyToggle,
                0x7C18 => KeyCode::SpaceCadetLCtrlParenthesisOpen,
                0x7C19 => KeyCode::SpaceCadetRCtrlParenthesisClose,
                0x7C1A => KeyCode::SpaceCadetLShiftParenthesisOpen,
                0x7C1B => KeyCode::SpaceCadetRShiftParenthesisClose,
                0x7C1C => KeyCode::SpaceCadetLAltParenthesisOpen,
                0x7C1D => KeyCode::SpaceCadetRAltParenthesisClose,
                0x7C1E => KeyCode::SpaceCadetRShiftEnter,
                0x7C20 => KeyCode::OutputAuto,
                0x7C21 => KeyCode::OutputUsb,
                0x7C22 => KeyCode::OutputBluetooth,
                0x7C30 => KeyCode::UnicodeModeNext,
                0x7C31 => KeyCode::UnicodeModePrevious,
                0x7C32 => KeyCode::UnicodeModeMacos,
                0x7C33 => KeyCode::UnicodeModeLinux,
                0x7C34 => KeyCode::UnicodeModeWindows,
                0x7C35 => KeyCode::UnicodeModeBsd,
                0x7C36 => KeyCode::UnicodeModeWincompose,
                0x7C37 => KeyCode::UnicodeModeEmacs,
                0x7C40 => KeyCode::HapticOn,
                0x7C41 => KeyCode::HapticOff,
                0x7C42 => KeyCode::HapticToggle,
                0x7C43 => KeyCode::HapticReset,
                0x7C44 => KeyCode::HapticFeedbackToggle,
                0x7C45 => KeyCode::HapticBuzzToggle,
                0x7C46 => KeyCode::HapticModeNext,
                0x7C47 => KeyCode::HapticModePrevious,
                0x7C48 => KeyCode::HapticContinuousToggle,
                0x7C49 => KeyCode::HapticContinuousUp,
                0x7C4A => KeyCode::HapticContinuousDown,
                0x7C4B => KeyCode::HapticDwellUp,
                0x7C4C => KeyCode::HapticDwellDown,
                0x7C50 => KeyCode::ComboOn,
                0x7C51 => KeyCode::ComboOff,
                0x7C52 => KeyCode::ComboToggle,
                0x7C53 => KeyCode::DynamicMacroRecordStart1,
                0x7C54 => KeyCode::DynamicMacroRecordStart2,
                0x7C55 => KeyCode::DynamicMacroRecordStop,
                0x7C56 => KeyCode::DynamicMacroPlay1,
                0x7C57 => KeyCode::DynamicMacroPlay2,
                0x7C58 => KeyCode::Leader,
                0x7C59 => KeyCode::Lock,
                0x7C5A => KeyCode::OneShotOn,
                0x7C5B => KeyCode::OneShotOff,
                0x7C5C => KeyCode::OneShotToggle,
                0x7C5D => KeyCode::KeyOverrideToggle,
                0x7C5E => KeyCode::KeyOverrideOn,
                0x7C5F => KeyCode::KeyOverrideOff,
                0x7C60 => KeyCode::SecureLock,
                0x7C61 => KeyCode::SecureUnlock,
                0x7C62 => KeyCode::SecureToggle,
                0x7C63 => KeyCode::SecureRequest,
                0x7C70 => KeyCode::DynamicTappingTermPrint,
                0x7C71 => KeyCode::DynamicTappingTermUp,
                0x7C72 => KeyCode::DynamicTappingTermDown,
                0x7C73 => KeyCode::CapsWordToggle,
                0x7C74 => KeyCode::AutocorrectOn,
                0x7C75 => KeyCode::AutocorrectOff,
                0x7C76 => KeyCode::AutocorrectToggle,
                0x7C77 => KeyCode::TriLayerLower,
                0x7C78 => KeyCode::TriLayerUpper,
                0x7C79 => KeyCode::RepeatKey,
                0x7C7A => KeyCode::AltRepeatKey,
                0x7E00 => KeyCode::Kb0,
                0x7E01 => KeyCode::Kb1,
                0x7E02 => KeyCode::Kb2,
                0x7E03 => KeyCode::Kb3,
                0x7E04 => KeyCode::Kb4,
                0x7E05 => KeyCode::Kb5,
                0x7E06 => KeyCode::Kb6,
                0x7E07 => KeyCode::Kb7,
                0x7E08 => KeyCode::Kb8,
                0x7E09 => KeyCode::Kb9,
                0x7E0A => KeyCode::Kb10,
                0x7E0B => KeyCode::Kb11,
                0x7E0C => KeyCode::Kb12,
                0x7E0D => KeyCode::Kb13,
                0x7E0E => KeyCode::Kb14,
                0x7E0F => KeyCode::Kb15,
                0x7E10 => KeyCode::Kb16,
                0x7E11 => KeyCode::Kb17,
                0x7E12 => KeyCode::Kb18,
                0x7E13 => KeyCode::Kb19,
                0x7E14 => KeyCode::Kb20,
                0x7E15 => KeyCode::Kb21,
                0x7E16 => KeyCode::Kb22,
                0x7E17 => KeyCode::Kb23,
                0x7E18 => KeyCode::Kb24,
                0x7E19 => KeyCode::Kb25,
                0x7E1A => KeyCode::Kb26,
                0x7E1B => KeyCode::Kb27,
                0x7E1C => KeyCode::Kb28,
                0x7E1D => KeyCode::Kb29,
                0x7E1E => KeyCode::Kb30,
                0x7E1F => KeyCode::Kb31,
                0x7E40 => KeyCode::User0,
                0x7E41 => KeyCode::User1,
                0x7E42 => KeyCode::User2,
                0x7E43 => KeyCode::User3,
                0x7E44 => KeyCode::User4,
                0x7E45 => KeyCode::User5,
                0x7E46 => KeyCode::User6,
                0x7E47 => KeyCode::User7,
                0x7E48 => KeyCode::User8,
                0x7E49 => KeyCode::User9,
                0x7E4A => KeyCode::User10,
                0x7E4B => KeyCode::User11,
                0x7E4C => KeyCode::User12,
                0x7E4D => KeyCode::User13,
                0x7E4E => KeyCode::User14,
                0x7E4F => KeyCode::User15,
                0x7E50 => KeyCode::User16,
                0x7E51 => KeyCode::User17,
                0x7E52 => KeyCode::User18,
                0x7E53 => KeyCode::User19,
                0x7E54 => KeyCode::User20,
                0x7E55 => KeyCode::User21,
                0x7E56 => KeyCode::User22,
                0x7E57 => KeyCode::User23,
                0x7E58 => KeyCode::User24,
                0x7E59 => KeyCode::User25,
                0x7E5A => KeyCode::User26,
                0x7E5B => KeyCode::User27,
                0x7E5C => KeyCode::User28,
                0x7E5D => KeyCode::User29,
                0x7E5E => KeyCode::User30,
                0x7E5F => KeyCode::User31,
                _ => KeyCode::No,
            }
        }
    }

    /// The keycode numbered `number`, or `No` where no keycode has that
    /// number.
    #[verifier::when_used_as_spec(spec_from_primitive)]
    pub fn from_primitive(number: u16) -> (keycode: KeyCode)
        ensures
            keycode == Self::spec_from_primitive(number),
    {
        if number <= 0x00E7 {
            match number {
                0x0000 => KeyCode::No,
                0x0001 => KeyCode::Transparent,
                0x0004 => KeyCode::A,
                0x0005 => KeyCode::B,
                0x0006 => KeyCode::C,
                0x0007 => KeyCode::D,
                0x0008 => KeyCode::E,
                0x0009 => KeyCode::F,
                0x000A => KeyCode::G,
                0x000B => KeyCode::H,
                0x000C => KeyCode::I,
                0x000D => KeyCode::J,
                0x000E => KeyCode::K,
                0x000F => KeyCode::L,
                0x0010 => KeyCode::M,
                0x0011 => KeyCode::N,
                0x0012 => KeyCode::O,
                0x0013 => KeyCode::P,
                0x0014 => KeyCode::Q,
                0x0015 => KeyCode::R,
                0x0016 => KeyCode::S,
                0x0017 => KeyCode::T,
                0x0018 => KeyCode::U,
                0x0019 => KeyCode::V,
                0x001A => KeyCode::W,
                0x001B => KeyCode::X,
                0x001C => KeyCode::Y,
                0x001D => KeyCode::Z,
                0x001E => KeyCode::Kc1,
                0x001F => KeyCode::Kc2,
                0x0020 => KeyCode::Kc3,
                0x0021 => KeyCode::Kc4,
                0x0022 => KeyCode::Kc5,
                0x0023 => KeyCode::Kc6,
                0x0024 => KeyCode::Kc7,
                0x0025 => KeyCode::Kc8,
                0x0026 => KeyCode::Kc9,
                0x0027 => KeyCode::Kc0,
                0x0028 => KeyCode::Enter,
                0x0029 => KeyCode::Escape,
                0x002A => KeyCode::Backspace,
                0x002B => KeyCode::Tab,
                0x002C => KeyCode::Space,
                0x002D => KeyCode::Minus,
                0x002E => KeyCode::Equal,
                0x002F => KeyCode::LeftBracket,
                0x0030 => KeyCode::RightBracket,
                0x0031 => KeyCode::Backslash,
                0x0032 => KeyCode::NonusHash,
                0x0033 => KeyCode::Semicolon,
                0x0034 => KeyCode::Quote,
                0x0035 => KeyCode::Grave,
                0x0036 => KeyCode::Comma,
                0x0037 => KeyCode::Dot,
                0x0038 => KeyCode::Slash,
                0x0039 => KeyCode::CapsLock,
                0x003A => KeyCode::F1,
                0x003B => KeyCode::F2,
                0x003C => KeyCode::F3,
                0x003D => KeyCode::F4,
                0x003E => KeyCode::F5,
                0x003F => KeyCode::F6,
                0x0040 => KeyCode::F7,
                0x0041 => KeyCode::F8,
                0x0042 => KeyCode::F9,
                0x0043 => KeyCode::F10,
                0x0044 => KeyCode::F11,
                0x0045 => KeyCode::F12,
                0x0046 => KeyCode::PrintScreen,
                0x0047 => KeyCode::ScrollLock,
                0x0048 => KeyCode::Pause,
                0x0049 => KeyCode::Insert,
                0x004A => KeyCode::Home,
                0x004B => KeyCode::PageUp,
                0x004C => KeyCode::Delete,
                0x004D => KeyCode::End,
                0x004E => KeyCode::PageDown,
                0x004F => KeyCode::Right,
                0x0050 => KeyCode::Left,
                0x0051 => KeyCode::Down,
                0x0052 => KeyCode::UP,
                0x0053 => KeyCode::NumLock,
                0x0054 => KeyCode::KpSlash,
                0x0055 => KeyCode::KpAsterisk,
                0x0056 => KeyCode::KpMinus,
                0x0057 => KeyCode::KpPlus,
                0x0058 => KeyCode::KpEnter,
                0x0059 => KeyCode::Kp1,
                0x005A => KeyCode::Kp2,
                0x005B => KeyCode::Kp3,
                0x005C => KeyCode::Kp4,
                0x005D => KeyCode::Kp5,
                0x005E => KeyCode::Kp6,
                0x005F => KeyCode::Kp7,
                0x0060 => KeyCode::Kp8,
                0x0061 => KeyCode::Kp9,
                0x0062 => KeyCode::Kp0,
                0x0063 => KeyCode::KpDot,
                0x0064 => KeyCode::NonusBackslash,
                0x0065 => KeyCode::Application,
                0x0066 => KeyCode::KbPower,
                0x0067 => KeyCode::KpEqual,
                0x0068 => KeyCode::F13,
                0x0069 => KeyCode::F14,
                0x006A => KeyCode::F15,
                0x006B => KeyCode::F16,
                0x006C => KeyCode::F17,
                0x006D => KeyCode::F18,
                0x006E => KeyCode::F19,
                0x006F => KeyCode::F20,
                0x0070 => KeyCode::F21,
                0x0071 => KeyCode::F22,
                0x0072 => KeyCode::F23,
                0x0073 => KeyCode::F24,
                0x0074 => KeyCode::Execute,
                0x0075 => KeyCode::Help,
                0x0076 => KeyCode::Menu,
                0x0077 => KeyCode::Select,
                0x0078 => KeyCode::Stop,
                0x0079 => KeyCode::Again,
                0x007A => KeyCode::Undo,
                0x007B => KeyCode::Cut,
                0x007C => KeyCode::Copy,
                0x007D => KeyCode::Paste,
                0x007E => KeyCode::Find,
                0x007F => KeyCode::KbMute,
                0x0080 => KeyCode::KbVolumeUp,
                0x0081 => KeyCode::KbVolumeDown,
                0x0082 => KeyCode::LockingCapsLock,
                0x0083 => KeyCode::LockingNumLock,
                0x0084 => KeyCode::LockingScrollLock,
                0x0085 => KeyCode::KpComma,
                0x0086 => KeyCode::KpEqualAs400,
                0x0087 => KeyCode::International1,
                0x0088 => KeyCode::International2,
                0x0089 => KeyCode::International3,
                0x008A => KeyCode::International4,
                0x008B => KeyCode::International5,
                0x008C => KeyCode::International6,
                0x008D => KeyCode::International7,
                0x008E => KeyCode::International8,
                0x008F => KeyCode::International9,
                0x0090 => KeyCode::Language1,
                0x0091 => KeyCode::Language2,
                0x0092 => KeyCode::Language3,
                0x0093 => KeyCode::Language4,
                0x0094 => KeyCode::Language5,
                0x0095 => KeyCode::Language6,
                0x0096 => KeyCode::Language7,
                0x0097 => KeyCode::Language8,
                0x0098 => KeyCode::Language9,
                0x0099 => KeyCode::AlternateErase,
                0x009A => KeyCode::SystemRequest,
                0x009B => KeyCode::Cancel,
                0x009C => KeyCode::Clear,
                0x009D => KeyCode::Prior,
                0x009E => KeyCode::Return,
                0x009F => KeyCode::Separator,
                0x00A0 => KeyCode::Out,
                0x00A1 => KeyCode::Oper,
                0x00A2 => KeyCode::ClearAgain,
                0x00A3 => KeyCode::Crsel,
                0x00A4 => KeyCode::Exsel,
                0x00A5 => KeyCode::SystemPower,
                0x00A6 => KeyCode::SystemSleep,
                0x00A7 => KeyCode::SystemWake,
                0x00A8 => KeyCode::AudioMute,
                0x00A9 => KeyCode::AudioVolUp,
                0x00AA => KeyCode::AudioVolDown,
                0x00AB => KeyCode::MediaNextTrack,
                0x00AC => KeyCode::MediaPrevTrack,
                0x00AD => KeyCode::MediaStop,
                0x00AE => KeyCode::MediaPlayPause,
                0x00AF => KeyCode::MediaSelect,
                0x00B0 => KeyCode::MediaEject,
                0x00B1 => KeyCode::Mail,
                0x00B2 => KeyCode::Calculator,
                0x00B3 => KeyCode::MyComputer,
                0x00B4 => KeyCode::WwwSearch,
                0x00B5 => KeyCode::WwwHome,
                0x00B6 => KeyCode::WwwBack,
                0x00B7 => KeyCode::WwwForward,
                0x00B8 => KeyCode::WwwStop,
                0x00B9 => KeyCode::WwwRefresh,
                0x00BA => KeyCode::WwwFavorites,
                0x00BB => KeyCode::MediaFastForward,
                0x00BC => KeyCode::MediaRewind,
                0x00BD => KeyCode::BrightnessUp,
                0x00BE => KeyCode::BrightnessDown,
                0x00BF => KeyCode::ControlPanel,
                0x00C0 => KeyCode::Assistant,
                0x00C1 => KeyCode::MissionControl,
                0x00C2 => KeyCode::Launchpad,
                0x00CD => KeyCode::MouseUp,
                0x00CE => KeyCode::MouseDown,
                0x00CF => KeyCode::MouseLeft,
                0x00D0 => KeyCode::MouseRight,
                0x00D1 => KeyCode::MouseBtn1,
                0x00D2 => KeyCode::MouseBtn2,
                0x00D3 => KeyCode::MouseBtn3,
                0x00D4 => KeyCode::MouseBtn4,
                0x00D5 => KeyCode::MouseBtn5,
                0x00D6 => KeyCode::MouseBtn6,
                0x00D7 => KeyCode::MouseBtn7,
                0x00D8 => KeyCode::MouseBtn8,
                0x00D9 => KeyCode::MouseWheelUp,
                0x00DA => KeyCode::MouseWheelDown,
                0x00DB => KeyCode::MouseWheelLeft,
                0x00DC => KeyCode::MouseWheelRight,
                0x00DD => KeyCode::MouseAccel0,
                0x00DE => KeyCode::MouseAccel1,
                0x00DF => KeyCode::MouseAccel2,
                0x00E0 => KeyCode::LCtrl,
                0x00E1 => KeyCode::LShift,
                0x00E2 => KeyCode::LAlt,
                0x00E3 => KeyCode::LGui,
                0x00E4 => KeyCode::RCtrl,
                0x00E5 => KeyCode::RShift,
                0x00E6 => KeyCode::RAlt,
                0x00E7 => KeyCode::RGui,
                _ => KeyCode::No,
            }
        } else if number <= 0x71FF {
            match number {
                0x56F0 => KeyCode::SwapHandsToggle,
                0x56F1 => KeyCode::SwapHandsTapToggle,
                0x56F2 => KeyCode::SwapHandsMomentaryOn,
                0x56F3 => KeyCode::SwapHandsMomentaryOff,
                0x56F4 => KeyCode::SwapHandsOff,
                0x56F5 => KeyCode::SwapHandsOn,
                0x56F6 => KeyCode::SwapHandsOneShot,
                0x7000 => KeyCode::MagicSwapControlCapsLock,
                0x7001 => KeyCode::MagicUnswapControlCapsLock,
                0x7002 => KeyCode::MagicToggleControlCapsLock,
                0x7003 => KeyCode::MagicCapsLockAsControlOff,
                0x7004 => KeyCode::MagicCapsLockAsControlOn,
                0x7005 => KeyCode::MagicSwapLaltLGui,
                0x7006 => KeyCode::MagicUnswapLaltLGui,
                0x7007 => KeyCode::MagicSwapRaltRGui,
                0x7008 => KeyCode::MagicUnswapRaltRGui,
                0x7009 => KeyCode::MagicGuiOn,
                0x700A => KeyCode::MagicGuiOff,
                0x700B => KeyCode::MagicToggleGui,
                0x700C => KeyCode::MagicSwapGraveEsc,
                0x700D => KeyCode::MagicUnswapGraveEsc,
                0x700E => KeyCode::MagicSwapBackslashBackspace,
                0x700F => KeyCode::MagicUnswapBackslashBackspace,
                0x7010 => KeyCode::MagicToggleBackslashBackspace,
                0x7011 => KeyCode::MagicNkroOn,
                0x7012 => KeyCode::MagicNkroOff,
                0x7013 => KeyCode::MagicToggleNkro,
                0x7014 => KeyCode::MagicSwapAltGui,
                0x7015 => KeyCode::MagicUnswapAltGui,
                0x7016 => KeyCode::MagicToggleAltGui,
                0x7017 => KeyCode::MagicSwapLctlLGui,
                0x7018 => KeyCode::MagicUnswapLctlLGui,
                0x7019 => KeyCode::MagicSwapRctlRGui,
                0x701A => KeyCode::MagicUnswapRctlRGui,
                0x701B => KeyCode::MagicSwapCtlGui,
                0x701C => KeyCode::MagicUnswapCtlGui,
                0x701D => KeyCode::MagicToggleCtlGui,
                0x701E => KeyCode::MagicEeHandsLeft,
                0x701F => KeyCode::MagicEeHandsRight,
                0x7020 => KeyCode::MagicSwapEscapeCapsLock,
                0x7021 => KeyCode::MagicUnswapEscapeCapsLock,
                0x7022 => KeyCode::MagicToggleEscapeCapsLock,
                0x7100 => KeyCode::MidiOn,
                0x7101 => KeyCode::MidiOff,
                0x7102 => KeyCode::MidiToggle,
                0x7103 => KeyCode::MidiNoteC0,
                0x7104 => KeyCode::MidiNoteCSharp0,
                0x7105 => KeyCode::MidiNoteD0,
                0x7106 => KeyCode::MidiNoteDSharp0,
                0x7107 => KeyCode::MidiNoteE0,
                0x7108 => KeyCode::MidiNoteF0,
                0x7109 => KeyCode::MidiNoteFSharp0,
                0x710A => KeyCode::MidiNoteG0,
                0x710B => KeyCode::MidiNoteGSharp0,
                0x710C => KeyCode::MidiNoteA0,
                0x710D => KeyCode::MidiNoteASharp0,
                0x710E => KeyCode::MidiNoteB0,
                0x710F => KeyCode::MidiNoteC1,
                0x7110 => KeyCode::MidiNoteCSharp1,
                0x7111 => KeyCode::MidiNoteD1,
                0x7112 => KeyCode::MidiNoteDSharp1,
                0x7113 => KeyCode::MidiNoteE1,
                0x7114 => KeyCode::MidiNoteF1,
                0x7115 => KeyCode::MidiNoteFSharp1,
                0x7116 => KeyCode::MidiNoteG1,
                0x7117 => KeyCode::MidiNoteGSharp1,
                0x7118 => KeyCode::MidiNoteA1,
                0x7119 => KeyCode::MidiNoteASharp1,
                0x711A => KeyCode::MidiNoteB1,
                0x711B => KeyCode::MidiNoteC2,
                0x711C => KeyCode::MidiNoteCSharp2,
                0x711D => KeyCode::MidiNoteD2,
                0x711E => KeyCode::MidiNoteDSharp2,
                0x711F => KeyCode::MidiNoteE2,
                0x7120 => KeyCode::MidiNoteF2,
                0x7121 => KeyCode::MidiNoteFSharp2,
                0x7122 => KeyCode::MidiNoteG2,
                0x7123 => KeyCode::MidiNoteGSharp2,
                0x7124 => KeyCode::MidiNoteA2,
                0x7125 => KeyCode::MidiNoteASharp2,
                0x7126 => KeyCode::MidiNoteB2,
                0x7127 => KeyCode::MidiNoteC3,
                0x7128 => KeyCode::MidiNoteCSharp3,
                0x7129 => KeyCode::MidiNoteD3,
                0x712A => KeyCode::MidiNoteDSharp3,
                0x712B => KeyCode::MidiNoteE3,
                0x712C => KeyCode::MidiNoteF3,
                0x712D => KeyCode::MidiNoteFSharp3,
                0x712E => KeyCode::MidiNoteG3,
                0x712F => KeyCode::MidiNoteGSharp3,
                0x7130 => KeyCode::MidiNoteA3,
                0x7131 => KeyCode::MidiNoteASharp3,
                0x7132 => KeyCode::MidiNoteB3,
                0x7133 => KeyCode::MidiNoteC4,
                0x7134 => KeyCode::MidiNoteCSharp4,
                0x7135 => KeyCode::MidiNoteD4,
                0x7136 => KeyCode::MidiNoteDSharp4,
                0x7137 => KeyCode::MidiNoteE4,
                0x7138 => KeyCode::MidiNoteF4,
                0x7139 => KeyCode::MidiNoteFSharp4,
                0x713A => KeyCode::MidiNoteG4,
                0x713B => KeyCode::MidiNoteGSharp4,
                0x713C => KeyCode::MidiNoteA4,
                0x713D => KeyCode::MidiNoteASharp4,
                0x713E => KeyCode::MidiNoteB4,
                0x713F => KeyCode::MidiNoteC5,
                0x7140 => KeyCode::MidiNoteCSharp5,
                0x7141 => KeyCode::MidiNoteD5,
                0x7142 => KeyCode::MidiNoteDSharp5,
                0x7143 => KeyCode::MidiNoteE5,
                0x7144 => KeyCode::MidiNoteF5,
                0x7145 => KeyCode::MidiNoteFSharp5,
                0x7146 => KeyCode::MidiNoteG5,
                0x7147 => KeyCode::MidiNoteGSharp5,
                0x7148 => KeyCode::MidiNoteA5,
                0x7149 => KeyCode::MidiNoteASharp5,
                0x714A => KeyCode::MidiNoteB5,
                0x714B => KeyCode::MidiOctaveN2,
                0x714C => KeyCode::MidiOctaveN1,
                0x714D => KeyCode::MidiOctave0,
                0x714E => KeyCode::MidiOctave1,
                0x714F => KeyCode::MidiOctave2,
                0x7150 => KeyCode::MidiOctave3,
                0x7151 => KeyCode::MidiOctave4,
                0x7152 => KeyCode::MidiOctave5,
                0x7153 => KeyCode::MidiOctave6,
                0x7154 => KeyCode::MidiOctave7,
                0x7155 => KeyCode::MidiOctaveDOWN,
                0x7156 => KeyCode::MidiOctaveUP,
                0x7157 => KeyCode::MidiTransposeN6,
                0x7158 => KeyCode::MidiTransposeN5,
                0x7159 => KeyCode::MidiTransposeN4,
                0x715A => KeyCode::MidiTransposeN3,
                0x715B => KeyCode::MidiTransposeN2,
                0x715C => KeyCode::MidiTransposeN1,
                0x715D => KeyCode::MidiTranspose0,
                0x715E => KeyCode::MidiTranspose1,
                0x715F => KeyCode::MidiTranspose2,
                0x7160 => KeyCode::MidiTranspose3,
                0x7161 => KeyCode::MidiTranspose4,
                0x7162 => KeyCode::MidiTranspose5,
                0x7163 => KeyCode::MidiTranspose6,
                0x7164 => KeyCode::MidiTransposeDown,
                0x7165 => KeyCode::MidiTransposeUp,
                0x7166 => KeyCode::MidiVelocity0,
                0x7167 => KeyCode::MidiVelocity1,
                0x7168 => KeyCode::MidiVelocity2,
                0x7169 => KeyCode::MidiVelocity3,
                0x716A => KeyCode::MidiVelocity4,
                0x716B => KeyCode::MidiVelocity5,
                0x716C => KeyCode::MidiVelocity6,
                0x716D => KeyCode::MidiVelocity7,
                0x716E => KeyCode::MidiVelocity8,
                0x716F => KeyCode::MidiVelocity9,
                0x7170 => KeyCode::MidiVelocity10,
                0x7171 => KeyCode::MidiVelocityDOWN,
                0x7172 => KeyCode::MidiVelocityUP,
                0x7173 => KeyCode::MidiChannel1,
                0x7174 => KeyCode::MidiChannel2,
                0x7175 => KeyCode::MidiChannel3,
                0x7176 => KeyCode::MidiChannel4,
                0x7177 => KeyCode::MidiChannel5,
                0x7178 => KeyCode::MidiChannel6,
                0x7179 => KeyCode::MidiChannel7,
                0x717A => KeyCode::MidiChannel8,
                0x717B => KeyCode::MidiChannel9,
                0x717C => KeyCode::MidiChannel10,
                0x717D => KeyCode::MidiChannel11,
                0x717E => KeyCode::MidiChannel12,
                0x717F => KeyCode::MidiChannel13,
                0x7180 => KeyCode::MidiChannel14,
                0x7181 => KeyCode::MidiChannel15,
                0x7182 => KeyCode::MidiChannel16,
                0x7183 => KeyCode::MidiChannelDOWN,
                0x7184 => KeyCode::MidiChannelUP,
                0x7185 => KeyCode::MidiAllNotesOff,
                0x7186 => KeyCode::MidiSustain,
                0x7187 => KeyCode::MidiPortamento,
                0x7188 => KeyCode::MidiSostenuto,
                0x7189 => KeyCode::MidiSoft,
                0x718A => KeyCode::MidiLegato,
                0x718B => KeyCode::MidiModulation,
                0x718C => KeyCode::MidiModulationSpeedDown,
                0x718D => KeyCode::MidiModulationSpeedUp,
                0x718E => KeyCode::MidiPitchBendDown,
                0x718F => KeyCode::MidiPitchBendUp,
                _ => KeyCode::No,
            }
        } else if number <= 0x7BFF {
            match number {
                0x7200 => KeyCode::SequencerOn,
                0x7201 => KeyCode::SequencerOff,
                0x7202 => KeyCode::SequencerToggle,
                0x7203 => KeyCode::SequencerTempoDown,
                0x7204 => KeyCode::SequencerTempoUp,
                0x7205 => KeyCode::SequencerResolutionDown,
                0x7206 => KeyCode::SequencerResolutionUp,
                0x7207 => KeyCode::SequencerStepsAll,
                0x7208 => KeyCode::SequencerStepsClear,
                0x7400 => KeyCode::JoystickButton0,
                0x7401 => KeyCode::JoystickButton1,
                0x7402 => KeyCode::JoystickButton2,
                0x7403 => KeyCode::JoystickButton3,
                0x7404 => KeyCode::JoystickButton4,
                0x7405 => KeyCode::JoystickButton5,
                0x7406 => KeyCode::JoystickButton6,
                0x7407 => KeyCode::JoystickButton7,
                0x7408 => KeyCode::JoystickButton8,
                0x7409 => KeyCode::JoystickButton9,
                0x740A => KeyCode::JoystickButton10,
                0x740B => KeyCode::JoystickButton11,
                0x740C => KeyCode::JoystickButton12,
                0x740D => KeyCode::JoystickButton13,
                0x740E => KeyCode::JoystickButton14,
                0x740F => KeyCode::JoystickButton15,
                0x7410 => KeyCode::JoystickButton16,
                0x7411 => KeyCode::JoystickButton17,
                0x7412 => KeyCode::JoystickButton18,
                0x7413 => KeyCode::JoystickButton19,
                0x7414 => KeyCode::JoystickButton20,
                0x7415 => KeyCode::JoystickButton21,
                0x7416 => KeyCode::JoystickButton22,
                0x7417 => KeyCode::JoystickButton23,
                0x7418 => KeyCode::JoystickButton24,
                0x7419 => KeyCode::JoystickButton25,
                0x741A => KeyCode::JoystickButton26,
                0x741B => KeyCode::JoystickButton27,
                0x741C => KeyCode::JoystickButton28,
                0x741D => KeyCode::JoystickButton29,
                0x741E => KeyCode::JoystickButton30,
                0x741F => KeyCode::JoystickButton31,
                0x7440 => KeyCode::ProgrammableButton1,
                0x7441 => KeyCode::ProgrammableButton2,
                0x7442 => KeyCode::ProgrammableButton3,
                0x7443 => KeyCode::ProgrammableButton4,
                0x7444 => KeyCode::ProgrammableButton5,
                0x7445 => KeyCode::ProgrammableButton6,
                0x7446 => KeyCode::ProgrammableButton7,
                0x7447 => KeyCode::ProgrammableButton8,
                0x7448 => KeyCode::ProgrammableButton9,
                0x7449 => KeyCode::ProgrammableButton10,
                0x744A => KeyCode::ProgrammableButton11,
                0x744B => KeyCode::ProgrammableButton12,
                0x744C => KeyCode::ProgrammableButton13,
                0x744D => KeyCode::ProgrammableButton14,
                0x744E => KeyCode::ProgrammableButton15,
                0x744F => KeyCode::ProgrammableButton16,
                0x7450 => KeyCode::ProgrammableButton17,
                0x7451 => KeyCode::ProgrammableButton18,
                0x7452 => KeyCode::ProgrammableButton19,
                0x7453 => KeyCode::ProgrammableButton20,
                0x7454 => KeyCode::ProgrammableButton21,
                0x7455 => KeyCode::ProgrammableButton22,
                0x7456 => KeyCode::ProgrammableButton23,
                0x7457 => KeyCode::ProgrammableButton24,
                0x7458 => KeyCode::ProgrammableButton25,
                0x7459 => KeyCode::ProgrammableButton26,
                0x745A => KeyCode::ProgrammableButton27,
                0x745B => KeyCode::ProgrammableButton28,
                0x745C => KeyCode::ProgrammableButton29,
                0x745D => KeyCode::ProgrammableButton30,
                0x745E => KeyCode::ProgrammableButton31,
                0x745F => KeyCode::ProgrammableButton32,
                0x7480 => KeyCode::AudioOn,
                0x7481 => KeyCode::AudioOff,
                0x7482 => KeyCode::AudioToggle,
                0x748A => KeyCode::AudioClickyToggle,
                0x748B => KeyCode::AudioClickyOn,
                0x748C => KeyCode::AudioClickyOff,
                0x748D => KeyCode::AudioClickyUp,
                0x748E => KeyCode::AudioClickyDown,
                0x748F => KeyCode::AudioClickyReset,
                0x7490 => KeyCode::MusicOn,
                0x7491 => KeyCode::MusicOff,
                0x7492 => KeyCode::MusicToggle,
                0x7493 => KeyCode::MusicModeNext,
                0x7494 => KeyCode::AudioVoiceNext,
                0x7495 => KeyCode::AudioVoicePrevious,
                0x74F0 => KeyCode::StenoBolt,
                0x74F1 => KeyCode::StenoGemini,
                0x74F2 => KeyCode::StenoComb,
                0x74FC => KeyCode::StenoCombMax,
                0x7700 => KeyCode::Macro0,
                0x7701 => KeyCode::Macro1,
                0x7702 => KeyCode::Macro2,
                0x7703 => KeyCode::Macro3,
                0x7704 => KeyCode::Macro4,
                0x7705 => KeyCode::Macro5,
                0x7706 => KeyCode::Macro6,
                0x7707 => KeyCode::Macro7,
                0x7708 => KeyCode::Macro8,
                0x7709 => KeyCode::Macro9,
                0x770A => KeyCode::Macro10,
                0x770B => KeyCode::Macro11,
                0x770C => KeyCode::Macro12,
                0x770D => KeyCode::Macro13,
                0x770E => KeyCode::Macro14,
                0x770F => KeyCode::Macro15,
                0x7710 => KeyCode::Macro16,
                0x7711 => KeyCode::Macro17,
                0x7712 => KeyCode::Macro18,
                0x7713 => KeyCode::Macro19,
                0x7714 => KeyCode::Macro20,
                0x7715 => KeyCode::Macro21,
                0x7716 => KeyCode::Macro22,
                0x7717 => KeyCode::Macro23,
                0x7718 => KeyCode::Macro24,
                0x7719 => KeyCode::Macro25,
                0x771A => KeyCode::Macro26,
                0x771B => KeyCode::Macro27,
                0x771C => KeyCode::Macro28,
                0x771D => KeyCode::Macro29,
                0x771E => KeyCode::Macro30,
                0x771F => KeyCode::Macro31,
                0x7800 => KeyCode::BacklightOn,
                0x7801 => KeyCode::BacklightOff,
                0x7802 => KeyCode::BacklightToggle,
                0x7803 => KeyCode::BacklightDown,
                0x7804 => KeyCode::BacklightUp,
                0x7805 => KeyCode::BacklightStep,
                0x7806 => KeyCode::BacklightToggleBreathing,
                0x7820 => KeyCode::RgbTog,
                0x7821 => KeyCode::RgbModeForward,
                0x7822 => KeyCode::RgbModeReverse,
                0x7823 => KeyCode::RgbHui,
                0x7824 => KeyCode::RgbHud,
                0x7825 => KeyCode::RgbSai,
                0x7826 => KeyCode::RgbSad,
                0x7827 => KeyCode::RgbVai,
                0x7828 => KeyCode::RgbVad,
                0x7829 => KeyCode::RgbSpi,
                0x782A => KeyCode::RgbSpd,
                0x782B => KeyCode::RgbModePlain,
                0x782C => KeyCode::RgbModeBreathe,
                0x782D => KeyCode::RgbModeRainbow,
                0x782E => KeyCode::RgbModeSwirl,
                0x782F => KeyCode::RgbModeSnake,
                0x7830 => KeyCode::RgbModeKnight,
                0x7831 => KeyCode::RgbModeXmas,
                0x7832 => KeyCode::RgbModeGradient,
                0x7833 => KeyCode::RgbModeRgbtest,
                0x7834 => KeyCode::RgbModeTwinkle,
                _ => KeyCode::No,
            }
        } else {
            match number {
                0x7C00 => KeyCode::Bootloader,
                0x7C01 => KeyCode::Reboot,
                0x7C02 => KeyCode::DebugToggle,
                0x7C03 => KeyCode::ClearEeprom,
                0x7C04 => KeyCode::Make,
                0x7C10 => KeyCode::AutoShiftDown,
                0x7C11 => KeyCode::AutoShiftUp,
                0x7C12 => KeyCode::AutoShiftReport,
                0x7C13 => KeyCode::AutoShiftOn,
                0x7C14 => KeyCode::AutoShiftOff,
                0x7C15 => KeyCode::AutoShiftToggle,
                0x7C16 => KeyCode::GraveEscape,
                0x7C17 => KeyCode::VelocikeyToggle,
                0x7C18 => KeyCode::SpaceCadetLCtrlParenthesisOpen,
                0x7C19 => KeyCode::SpaceCadetRCtrlParenthesisClose,
                0x7C1A => KeyCode::SpaceCadetLShiftParenthesisOpen,
                0x7C1B => KeyCode::SpaceCadetRShiftParenthesisClose,
                0x7C1C => KeyCode::SpaceCadetLAltParenthesisOpen,
                0x7C1D => KeyCode::SpaceCadetRAltParenthesisClose,
                0x7C1E => KeyCode::SpaceCadetRShiftEnter,
                0x7C20 => KeyCode::OutputAuto,
                0x7C21 => KeyCode::OutputUsb,
                0x7C22 => KeyCode::OutputBluetooth,
                0x7C30 => KeyCode::UnicodeModeNext,
                0x7C31 => KeyCode::UnicodeModePrevious,
                0x7C32 => KeyCode::UnicodeModeMacos,
                0x7C33 => KeyCode::UnicodeModeLinux,
                0x7C34 => KeyCode::UnicodeModeWindows,
                0x7C35 => KeyCode::UnicodeModeBsd,
                0x7C36 => KeyCode::UnicodeModeWincompose,
                0x7C37 => KeyCode::UnicodeModeEmacs,
                0x7C40 => KeyCode::HapticOn,
                0x7C41 => KeyCode::HapticOff,
                0x7C42 => KeyCode::HapticToggle,
                0x7C43 => KeyCode::HapticReset,
                0x7C44 => KeyCode::HapticFeedbackToggle,
                0x7C45 => KeyCode::HapticBuzzToggle,
                0x7C46 => KeyCode::HapticModeNext,
                0x7C47 => KeyCode::HapticModePrevious,
                0x7C48 => KeyCode::HapticContinuousToggle,
                0x7C49 => KeyCode::HapticContinuousUp,
                0x7C4A => KeyCode::HapticContinuousDown,
                0x7C4B => KeyCode::HapticDwellUp,
                0x7C4C => KeyCode::HapticDwellDown,
                0x7C50 => KeyCode::ComboOn,
                0x7C51 => KeyCode::ComboOff,
                0x7C52 => KeyCode::ComboToggle,
                0x7C53 => KeyCode::DynamicMacroRecordStart1,
                0x7C54 => KeyCode::DynamicMacroRecordStart2,
                0x7C55 => KeyCode::DynamicMacroRecordStop,
                0x7C56 => KeyCode::DynamicMacroPlay1,
                0x7C57 => KeyCode::DynamicMacroPlay2,
                0x7C58 => KeyCode::Leader,
                0x7C59 => KeyCode::Lock,
                0x7C5A => KeyCode::OneShotOn,
                0x7C5B => KeyCode::OneShotOff,
                0x7C5C => KeyCode::OneShotToggle,
                0x7C5D => KeyCode::KeyOverrideToggle,
                0x7C5E => KeyCode::KeyOverrideOn,
                0x7C5F => KeyCode::KeyOverrideOff,
                0x7C60 => KeyCode::SecureLock,
                0x7C61 => KeyCode::SecureUnlock,
                0x7C62 => KeyCode::SecureToggle,
                0x7C63 => KeyCode::SecureRequest,
                0x7C70 => KeyCode::DynamicTappingTermPrint,
                0x7C71 => KeyCode::DynamicTappingTermUp,
                0x7C72 => KeyCode::DynamicTappingTermDown,
                0x7C73 => KeyCode::CapsWordToggle,
                0x7C74 => KeyCode::AutocorrectOn,
                0x7C75 => KeyCode::AutocorrectOff,
                0x7C76 => KeyCode::AutocorrectToggle,
                0x7C77 => KeyCode::TriLayerLower,
                0x7C78 => KeyCode::TriLayerUpper,
                0x7C79 => KeyCode::RepeatKey,
                0x7C7A => KeyCode::AltRepeatKey,
                0x7E00 => KeyCode::Kb0,
                0x7E01 => KeyCode::Kb1,
                0x7E02 => KeyCode::Kb2,
                0x7E03 => KeyCode::Kb3,
                0x7E04 => KeyCode::Kb4,
                0x7E05 => KeyCode::Kb5,
                0x7E06 => KeyCode::Kb6,
                0x7E07 => KeyCode::Kb7,
                0x7E08 => KeyCode::Kb8,
                0x7E09 => KeyCode::Kb9,
                0x7E0A => KeyCode::Kb10,
                0x7E0B => KeyCode::Kb11,
                0x7E0C => KeyCode::Kb12,
                0x7E0D => KeyCode::Kb13,
                0x7E0E => KeyCode::Kb14,
                0x7E0F => KeyCode::Kb15,
                0x7E10 => KeyCode::Kb16,
                0x7E11 => KeyCode::Kb17,
                0x7E12 => KeyCode::Kb18,
                0x7E13 => KeyCode::Kb19,
                0x7E14 => KeyCode::Kb20,
                0x7E15 => KeyCode::Kb21,
                0x7E16 => KeyCode::Kb22,
                0x7E17 => KeyCode::Kb23,
                0x7E18 => KeyCode::Kb24,
                0x7E19 => KeyCode::Kb25,
                0x7E1A => KeyCode::Kb26,
                0x7E1B => KeyCode::Kb27,
                0x7E1C => KeyCode::Kb28,
                0x7E1D => KeyCode::Kb29,
                0x7E1E => KeyCode::Kb30,
                0x7E1F => KeyCode::Kb31,
                0x7E40 => KeyCode::User0,
                0x7E41 => KeyCode::User1,
                0x7E42 => KeyCode::User2,
                0x7E43 => KeyCode::User3,
                0x7E44 => KeyCode::User4,
                0x7E45 => KeyCode::User5,
                0x7E46 => KeyCode::User6,
                0x7E47 => KeyCode::User7,
                0x7E48 => KeyCode::User8,
                0x7E49 => KeyCode::User9,
                0x7E4A => KeyCode::User10,
                0x7E4B => KeyCode::User11,
                0x7E4C => KeyCode::User12,
                0x7E4D => KeyCode::User13,
                0x7E4E => KeyCode::User14,
                0x7E4F => KeyCode::User15,
                0x7E50 => KeyCode::User16,
                0x7E51 => KeyCode::User17,
                0x7E52 => KeyCode::User18,
                0x7E53 => KeyCode::User19,
                0x7E54 => KeyCode::User20,
                0x7E55 => KeyCode::User21,
                0x7E56 => KeyCode::User22,
                0x7E57 => KeyCode::User23,
                0x7E58 => KeyCode::User24,
                0x7E59 => KeyCode::User25,
                0x7E5A => KeyCode::User26,
                0x7E5B => KeyCode::User27,
                0x7E5C => KeyCode::User28,
                0x7E5D => KeyCode::User29,
                0x7E5E => KeyCode::User30,
                0x7E5F => KeyCode::User31,
                _ => KeyCode::No,
            }
        }
    }

    /// Whether this keycode's number lies between those of `first` and
    /// `last`, both included.
    fn in_range(self, first: KeyCode, last: KeyCode) -> (inside: bool)
        ensures
            inside == (first.spec_code() <= self.spec_code() <= last.spec_code()),
    {
        let code: u16 = self.code();
        first.code() <= code && code <= last.code()
    }

    /// Returns `true` if the keycode is a basic keycode.
    /// These are the keycodes from `No` to `RGui`.
    pub open spec fn spec_is_basic(self) -> bool {
        0x0000 <= self.spec_code() <= 0x00E7
    }

    /// Returns `true` if the keycode is a basic keycode.
    #[verifier::when_used_as_spec(spec_is_basic)]
    pub fn is_basic(self) -> (yes: bool)
        ensures
            yes == self.spec_is_basic(),
    {
        self.in_range(KeyCode::No, KeyCode::RGui)
    }

    /// Returns `true` if the keycode is a modifier keycode.
    /// These are the keycodes from `LCtrl` to `RGui`.
    pub open spec fn spec_is_modifier(self) -> bool {
        0x00E0 <= self.spec_code() <= 0x00E7
    }

    /// Returns `true` if the keycode is a modifier keycode.
    #[verifier::when_used_as_spec(spec_is_modifier)]
    pub fn is_modifier(self) -> (yes: bool)
        ensures
            yes == self.spec_is_modifier(),
    {
        self.in_range(KeyCode::LCtrl, KeyCode::RGui)
    }

    /// Returns `true` if the keycode is a system keycode.
    /// These are the keycodes from `SystemPower` to `SystemWake`.
    pub open spec fn spec_is_system(self) -> bool {
        0x00A5 <= self.spec_code() <= 0x00A7
    }

    /// Returns `true` if the keycode is a system keycode.
    #[verifier::when_used_as_spec(spec_is_system)]
    pub fn is_system(self) -> (yes: bool)
        ensures
            yes == self.spec_is_system(),
    {
        self.in_range(KeyCode::SystemPower, KeyCode::SystemWake)
    }

    /// Returns `true` if the keycode is a keycode of the consumer page.
    /// These are the keycodes from `AudioMute` to `Launchpad`.
    pub open spec fn spec_is_consumer(self) -> bool {
        0x00A8 <= self.spec_code() <= 0x00C2
    }

    /// Returns `true` if the keycode is a keycode of the consumer page.
    #[verifier::when_used_as_spec(spec_is_consumer)]
    pub fn is_consumer(self) -> (yes: bool)
        ensures
            yes == self.spec_is_consumer(),
    {
        self.in_range(KeyCode::AudioMute, KeyCode::Launchpad)
    }

    /// Returns `true` if the keycode is a mouse keycode.
    /// These are the keycodes from `MouseUp` to `MouseAccel2`.
    pub open spec fn spec_is_mouse_key(self) -> bool {
        0x00CD <= self.spec_code() <= 0x00DF
    }

    /// Returns `true` if the keycode is a mouse keycode.
    #[verifier::when_used_as_spec(spec_is_mouse_key)]
    pub fn is_mouse_key(self) -> (yes: bool)
        ensures
            yes == self.spec_is_mouse_key(),
    {
        self.in_range(KeyCode::MouseUp, KeyCode::MouseAccel2)
    }

    /// Returns `true` if the keycode is a swap-hands keycode.
    /// These are the keycodes from `SwapHandsToggle` to `SwapHandsOneShot`.
    pub open spec fn spec_is_swap_hands(self) -> bool {
        0x56F0 <= self.spec_code() <= 0x56F6
    }

    /// Returns `true` if the keycode is a swap-hands keycode.
    #[verifier::when_used_as_spec(spec_is_swap_hands)]
    pub fn is_swap_hands(self) -> (yes: bool)
        ensures
            yes == self.spec_is_swap_hands(),
    {
        self.in_range(KeyCode::SwapHandsToggle, KeyCode::SwapHandsOneShot)
    }

    /// Returns `true` if the keycode is a magic keycode.
    /// These are the keycodes from `MagicSwapControlCapsLock` to `MagicToggleEscapeCapsLock`.
    pub open spec fn spec_is_magic(self) -> bool {
        0x7000 <= self.spec_code() <= 0x7022
    }

    /// Returns `true` if the keycode is a magic keycode.
    #[verifier::when_used_as_spec(spec_is_magic)]
    pub fn is_magic(self) -> (yes: bool)
        ensures
            yes == self.spec_is_magic(),
    {
        self.in_range(KeyCode::MagicSwapControlCapsLock, KeyCode::MagicToggleEscapeCapsLock)
    }

    /// Returns `true` if the keycode is a MIDI keycode.
    /// These are the keycodes from `MidiOn` to `MidiPitchBendUp`.
    pub open spec fn spec_is_midi(self) -> bool {
        0x7100 <= self.spec_code() <= 0x718F
    }

    /// Returns `true` if the keycode is a MIDI keycode.
    #[verifier::when_used_as_spec(spec_is_midi)]
    pub fn is_midi(self) -> (yes: bool)
        ensures
            yes == self.spec_is_midi(),
    {
        self.in_range(KeyCode::MidiOn, KeyCode::MidiPitchBendUp)
    }

    /// Returns `true` if the keycode is a sequencer keycode.
    /// These are the keycodes from `SequencerOn` to `SequencerStepsClear`.
    pub open spec fn spec_is_sequencer(self) -> bool {
        0x7200 <= self.spec_code() <= 0x7208
    }

    /// Returns `true` if the keycode is a sequencer keycode.
    #[verifier::when_used_as_spec(spec_is_sequencer)]
    pub fn is_sequencer(self) -> (yes: bool)
        ensures
            yes == self.spec_is_sequencer(),
    {
        self.in_range(KeyCode::SequencerOn, KeyCode::SequencerStepsClear)
    }

    /// Returns `true` if the keycode is a joystick keycode.
    /// These are the keycodes from `JoystickButton0` to `JoystickButton31`.
    pub open spec fn spec_is_joystick(self) -> bool {
        0x7400 <= self.spec_code() <= 0x741F
    }

    /// Returns `true` if the keycode is a joystick keycode.
    #[verifier::when_used_as_spec(spec_is_joystick)]
    pub fn is_joystick(self) -> (yes: bool)
        ensures
            yes == self.spec_is_joystick(),
    {
        self.in_range(KeyCode::JoystickButton0, KeyCode::JoystickButton31)
    }

    /// Returns `true` if the keycode is a programmable-button keycode.
    /// These are the keycodes from `ProgrammableButton1` to `ProgrammableButton32`.
    pub open spec fn spec_is_programmable_button(self) -> bool {
        0x7440 <= self.spec_code() <= 0x745F
    }

    /// Returns `true` if the keycode is a programmable-button keycode.
    #[verifier::when_used_as_spec(spec_is_programmable_button)]
    pub fn is_programmable_button(self) -> (yes: bool)
        ensures
            yes == self.spec_is_programmable_button(),
    {
        self.in_range(KeyCode::ProgrammableButton1, KeyCode::ProgrammableButton32)
    }

    /// Returns `true` if the keycode is an audio keycode. The basic audio
    /// keycodes do not count.
    /// These are the keycodes from `AudioOn` to `AudioVoicePrevious`.
    pub open spec fn spec_is_audio(self) -> bool {
        0x7480 <= self.spec_code() <= 0x7495
    }

    /// Returns `true` if the keycode is an audio keycode. The basic audio
    /// keycodes do not count.
    #[verifier::when_used_as_spec(spec_is_audio)]
    pub fn is_audio(self) -> (yes: bool)
        ensures
            yes == self.spec_is_audio(),
    {
        self.in_range(KeyCode::AudioOn, KeyCode::AudioVoicePrevious)
    }

    /// Returns `true` if the keycode is a steno keycode.
    /// These are the keycodes from `StenoBolt` to `StenoCombMax`.
    pub open spec fn spec_is_steno(self) -> bool {
        0x74F0 <= self.spec_code() <= 0x74FC
    }

    /// Returns `true` if the keycode is a steno keycode.
    #[verifier::when_used_as_spec(spec_is_steno)]
    pub fn is_steno(self) -> (yes: bool)
        ensures
            yes == self.spec_is_steno(),
    {
        self.in_range(KeyCode::StenoBolt, KeyCode::StenoCombMax)
    }

    /// Returns `true` if the keycode is a macro keycode.
    /// These are the keycodes from `Macro0` to `Macro31`.
    pub open spec fn spec_is_macro(self) -> bool {
        0x7700 <= self.spec_code() <= 0x771F
    }

    /// Returns `true` if the keycode is a macro keycode.
    #[verifier::when_used_as_spec(spec_is_macro)]
    pub fn is_macro(self) -> (yes: bool)
        ensures
            yes == self.spec_is_macro(),
    {
        self.in_range(KeyCode::Macro0, KeyCode::Macro31)
    }

    /// Returns `true` if the keycode is a backlight keycode.
    /// These are the keycodes from `BacklightOn` to `BacklightToggleBreathing`.
    pub open spec fn spec_is_backlight(self) -> bool {
        0x7800 <= self.spec_code() <= 0x7806
    }

    /// Returns `true` if the keycode is a backlight keycode.
    #[verifier::when_used_as_spec(spec_is_backlight)]
    pub fn is_backlight(self) -> (yes: bool)
        ensures
            yes == self.spec_is_backlight(),
    {
        self.in_range(KeyCode::BacklightOn, KeyCode::BacklightToggleBreathing)
    }

    /// Returns `true` if the keycode is an RGB keycode.
    /// These are the keycodes from `RgbTog` to `RgbModeTwinkle`.
    pub open spec fn spec_is_rgb(self) -> bool {
        0x7820 <= self.spec_code() <= 0x7834
    }

    /// Returns `true` if the keycode is an RGB keycode.
    #[verifier::when_used_as_spec(spec_is_rgb)]
    pub fn is_rgb(self) -> (yes: bool)
        ensures
            yes == self.spec_is_rgb(),
    {
        self.in_range(KeyCode::RgbTog, KeyCode::RgbModeTwinkle)
    }

    /// Returns `true` if the keycode is one of the firmware's own, for special
    /// functions such as rebooting the keyboard or jumping to the bootloader.
    /// These are the keycodes from `Bootloader` to `AltRepeatKey`.
    pub open spec fn spec_is_rmk(self) -> bool {
        0x7C00 <= self.spec_code() <= 0x7C7A
    }

    /// Returns `true` if the keycode is one of the firmware's own, for special
    /// functions such as rebooting the keyboard or jumping to the bootloader.
    #[verifier::when_used_as_spec(spec_is_rmk)]
    pub fn is_rmk(self) -> (yes: bool)
        ensures
            yes == self.spec_is_rmk(),
    {
        self.in_range(KeyCode::Bootloader, KeyCode::AltRepeatKey)
    }

    /// Returns `true` if the keycode is a kb keycode.
    /// These are the keycodes from `Kb0` to `Kb31`.
    pub open spec fn spec_is_kb(self) -> bool {
        0x7E00 <= self.spec_code() <= 0x7E1F
    }

    /// Returns `true` if the keycode is a kb keycode.
    #[verifier::when_used_as_spec(spec_is_kb)]
    pub fn is_kb(self) -> (yes: bool)
        ensures
            yes == self.spec_is_kb(),
    {
        self.in_range(KeyCode::Kb0, KeyCode::Kb31)
    }

    /// Returns `true` if the keycode is a user keycode.
    /// These are the keycodes from `User0` to `User31`.
    pub open spec fn spec_is_user(self) -> bool {
        0x7E40 <= self.spec_code() <= 0x7E5F
    }

    /// Returns `true` if the keycode is a user keycode.
    #[verifier::when_used_as_spec(spec_is_user)]
    pub fn is_user(self) -> (yes: bool)
        ensures
            yes == self.spec_is_user(),
    {
        self.in_range(KeyCode::User0, KeyCode::User31)
    }

    /// The base keycode with the number of this keycode, for a basic keycode
    /// whose number a base keycode has, and `No` for every other.
    pub open spec fn spec_to_base_keycode(self) -> BaseKeyCode {
        if self.spec_is_basic() {
            BaseKeyCode::spec_from_primitive(self.spec_code() as u8)
        } else {
            BaseKeyCode::No
        }
    }

    /// The base keycode with the number of this keycode, for a basic keycode
    /// whose number a base keycode has, and `No` for every other.
    #[verifier::when_used_as_spec(spec_to_base_keycode)]
    pub fn to_base_keycode(self) -> (base: BaseKeyCode)
        ensures
            base == self.spec_to_base_keycode(),
    {
        if self.is_basic() {
            BaseKeyCode::from_primitive(self.code() as u8)
        } else {
            BaseKeyCode::No
        }
    }

    /// The keycode with the number of `keycode`, or `No` where no keycode
    /// has it.
    pub open spec fn spec_from_base_keycode(keycode: BaseKeyCode) -> KeyCode {
        KeyCode::spec_from_primitive(keycode.spec_code() as u16)
    }

    /// The keycode with the number of `keycode`, or `No` where no keycode
    /// has it.
    #[verifier::when_used_as_spec(spec_from_base_keycode)]
    pub fn from_base_keycode(keycode: BaseKeyCode) -> (full: KeyCode)
        ensures
            full == Self::spec_from_base_keycode(keycode),
    {
        KeyCode::from_primitive(keycode.code() as u16)
    }

    /// Reading a keycode's number back gives the keycode.
    pub proof fn lemma_code_round_trip(keycode: KeyCode)
        ensures
            Self::spec_from_primitive(keycode.spec_code()) == keycode,
    {
    }

    /// No two keycodes share a number.
    pub proof fn lemma_code_injective(a: KeyCode, b: KeyCode)
        requires
            a.spec_code() == b.spec_code(),
        ensures
            a == b,
    {
        Self::lemma_code_round_trip(a);
        Self::lemma_code_round_trip(b);
    }

    /// Where a number is not read as a keycode that has it, no keycode has
    /// it.
    pub proof fn lemma_unused_number(number: u16, keycode: KeyCode)
        requires
            Self::spec_from_primitive(number).spec_code() != number,
        ensures
            keycode.spec_code() != number,
    {
        Self::lemma_code_round_trip(keycode);
    }

}

} // verus!
