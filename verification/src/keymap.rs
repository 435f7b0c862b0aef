//! The Android key map: every Android keycode, its numeric value and its
//! name, the host-key table that raw-input mode translates through, and the
//! meta-state flag names.

use vstd::prelude::*;
use vstd::string::StringSliceAdditionalSpecFns;

verus! {

/// Whether two byte buffers hold the same bytes.
fn bytes_eq_str(b: &Vec<u8>, s: &str) -> (r: bool)
    ensures
        r == (b@ == s.spec_bytes()),
{
    let sb = s.as_bytes();
    if b.len() != sb.len() {
        proof {
            assert(b@ != s.spec_bytes());
        }
        return false;
    }
    let n = b.len();
    let mut i: usize = 0;
    while i < n
        invariant
            0 <= i <= n,
            n == b@.len() == sb@.len(),
            sb@ == s.spec_bytes(),
            forall|k: int| 0 <= k < i ==> b@[k] == sb@[k],
        decreases n - i,
    {
        if b[i] != *vstd::slice::slice_index_get(sb, i) {
            return false;
        }
        i = i + 1;
    }
    proof {
        assert(b@ =~= s.spec_bytes());
    }
    true
}

/// An Android keycode, as named by the platform.
#[derive(Debug, Clone, Copy, PartialEq, Eq, Structural)]
pub enum Keycode {
    Unknown,
    SoftLeft,
    SoftRight,
    Home,
    Back,
    Call,
    Endcall,
    Keycode0,
    Keycode1,
    Keycode2,
    Keycode3,
    Keycode4,
    Keycode5,
    Keycode6,
    Keycode7,
    Keycode8,
    Keycode9,
    Star,
    Pound,
    DpadUp,
    DpadDown,
    DpadLeft,
    DpadRight,
    DpadCenter,
    VolumeUp,
    VolumeDown,
    Power,
    Camera,
    Clear,
    A,
    B,
    C,
    D,
    E,
    F,
    G,
    H,
    I,
    J,
    K,
    L,
    M,
    N,
    O,
    P,
    Q,
    R,
    S,
    T,
    U,
    V,
    W,
    X,
    Y,
    Z,
    Comma,
    Period,
    AltLeft,
    AltRight,
    ShiftLeft,
    ShiftRight,
    Tab,
    Space,
    Sym,
    Explorer,
    Envelope,
    Enter,
    Del,
    Grave,
    Minus,
    Equals,
    LeftBracket,
    RightBracket,
    Backslash,
    Semicolon,
    Apostrophe,
    Slash,
    At,
    Num,
    Headsethook,
    Focus,
    Plus,
    Menu,
    Notification,
    Search,
    MediaPlayPause,
    MediaStop,
    MediaNext,
    MediaPrevious,
    MediaRewind,
    MediaFastForward,
    Mute,
    PageUp,
    PageDown,
    Pictsymbols,
    SwitchCharset,
    ButtonA,
    ButtonB,
    ButtonC,
    ButtonX,
    ButtonY,
    ButtonZ,
    ButtonL1,
    ButtonR1,
    ButtonL2,
    ButtonR2,
    ButtonThumbl,
    ButtonThumbr,
    ButtonStart,
    ButtonSelect,
    ButtonMode,
    Escape,
    ForwardDel,
    CtrlLeft,
    CtrlRight,
    CapsLock,
    ScrollLock,
    MetaLeft,
    MetaRight,
    Function,
    Sysrq,
    Break,
    MoveHome,
    MoveEnd,
    Insert,
    Forward,
    MediaPlay,
    MediaPause,
    MediaClose,
    MediaEject,
    MediaRecord,
    F1,
    F2,
    F3,
    F4,
    F5,
    F6,
    F7,
    F8,
    F9,
    F10,
    F11,
    F12,
    NumLock,
    Numpad0,
    Numpad1,
    Numpad2,
    Numpad3,
    Numpad4,
    Numpad5,
    Numpad6,
    Numpad7,
    Numpad8,
    Numpad9,
    NumpadDivide,
    NumpadMultiply,
    NumpadSubtract,
    NumpadAdd,
    NumpadDot,
    NumpadComma,
    NumpadEnter,
    NumpadEquals,
    NumpadLeftParen,
    NumpadRightParen,
    VolumeMute,
    Info,
    ChannelUp,
    ChannelDown,
    ZoomIn,
    ZoomOut,
    Tv,
    Window,
    Guide,
    Dvr,
    Bookmark,
    Captions,
    Settings,
    TvPower,
    TvInput,
    StbPower,
    StbInput,
    AvrPower,
    AvrInput,
    ProgRed,
    ProgGreen,
    ProgYellow,
    ProgBlue,
    AppSwitch,
    Button1,
    Button2,
    Button3,
    Button4,
    Button5,
    Button6,
    Button7,
    Button8,
    Button9,
    Button10,
    Button11,
    Button12,
    Button13,
    Button14,
    Button15,
    Button16,
    LanguageSwitch,
    MannerMode,
    Keycode3dMode,
    Contacts,
    Calendar,
    Music,
    Calculator,
    ZenkakuHankaku,
    Eisu,
    Muhenkan,
    Henkan,
    KatakanaHiragana,
    Yen,
    Ro,
    Kana,
    Assist,
    BrightnessDown,
    BrightnessUp,
    MediaAudioTrack,
    Sleep,
    Wakeup,
    Pairing,
    MediaTopMenu,
    Keycode11,
    Keycode12,
    LastChannel,
    TvDataService,
    VoiceAssist,
    TvRadioService,
    TvTeletext,
    TvNumberEntry,
    TvTerrestrialAnalog,
    TvTerrestrialDigital,
    TvSatellite,
    TvSatelliteBs,
    TvSatelliteCs,
    TvSatelliteService,
    TvNetwork,
    TvAntennaCable,
    TvInputHdmi1,
    TvInputHdmi2,
    TvInputHdmi3,
    TvInputHdmi4,
    TvInputComposite1,
    TvInputComposite2,
    TvInputComponent1,
    TvInputComponent2,
    TvInputVga1,
    TvAudioDescription,
    TvAudioDescriptionMixUp,
    TvAudioDescriptionMixDown,
    TvZoomMode,
    TvContentsMenu,
    TvMediaContextMenu,
    TvTimerProgramming,
    Help,
    NavigatePrevious,
    NavigateNext,
    NavigateIn,
    NavigateOut,
    StemPrimary,
    Stem1,
    Stem2,
    Stem3,
    DpadUpLeft,
    DpadDownLeft,
    DpadUpRight,
    DpadDownRight,
    MediaSkipForward,
    MediaSkipBackward,
    MediaStepForward,
    MediaStepBackward,
    SoftSleep,
    Cut,
    Copy,
    Paste,
    SystemNavigationUp,
    SystemNavigationDown,
    SystemNavigationLeft,
    SystemNavigationRight,
    AllApps,
    Refresh,
    ThumbsUp,
    ThumbsDown,
    ProfileSwitch,
}

impl Keycode {
    /// The numeric value sent on the wire for this keycode.
    pub open spec fn spec_value(self) -> u32 {
        match self {
            Keycode::Unknown => 0,
            Keycode::SoftLeft => 1,
            Keycode::SoftRight => 2,
            Keycode::Home => 3,
            Keycode::Back => 4,
            Keycode::Call => 5,
            Keycode::Endcall => 6,
            Keycode::Keycode0 => 7,
            Keycode::Keycode1 => 8,
            Keycode::Keycode2 => 9,
            Keycode::Keycode3 => 10,
            Keycode::Keycode4 => 11,
            Keycode::Keycode5 => 12,
            Keycode::Keycode6 => 13,
            Keycode::Keycode7 => 14,
            Keycode::Keycode8 => 15,
            Keycode::Keycode9 => 16,
            Keycode::Star => 17,
            Keycode::Pound => 18,
            Keycode::DpadUp => 19,
            Keycode::DpadDown => 20,
            Keycode::DpadLeft => 21,
            Keycode::DpadRight => 22,
            Keycode::DpadCenter => 23,
            Keycode::VolumeUp => 24,
            Keycode::VolumeDown => 25,
            Keycode::Power => 26,
            Keycode::Camera => 27,
            Keycode::Clear => 28,
            Keycode::A => 29,
            Keycode::B => 30,
            Keycode::C => 31,
            Keycode::D => 32,
            Keycode::E => 33,
            Keycode::F => 34,
            Keycode::G => 35,
            Keycode::H => 36,
            Keycode::I => 37,
            Keycode::J => 38,
            Keycode::K => 39,
            Keycode::L => 40,
            Keycode::M => 41,
            Keycode::N => 42,
            Keycode::O => 43,
            Keycode::P => 44,
            Keycode::Q => 45,
            Keycode::R => 46,
            Keycode::S => 47,
            Keycode::T => 48,
            Keycode::U => 49,
            Keycode::V => 50,
            Keycode::W => 51,
            Keycode::X => 52,
            Keycode::Y => 53,
            Keycode::Z => 54,
            Keycode::Comma => 55,
            Keycode::Period => 56,
            Keycode::AltLeft => 57,
            Keycode::AltRight => 58,
            Keycode::ShiftLeft => 59,
            Keycode::ShiftRight => 60,
            Keycode::Tab => 61,
            Keycode::Space => 62,
            Keycode::Sym => 63,
            Keycode::Explorer => 64,
            Keycode::Envelope => 65,
            Keycode::Enter => 66,
            Keycode::Del => 67,
            Keycode::Grave => 68,
            Keycode::Minus => 69,
            Keycode::Equals => 70,
            Keycode::LeftBracket => 71,
            Keycode::RightBracket => 72,
            Keycode::Backslash => 73,
            Keycode::Semicolon => 74,
            Keycode::Apostrophe => 75,
            Keycode::Slash => 76,
            Keycode::At => 77,
            Keycode::Num => 78,
            Keycode::Headsethook => 79,
            Keycode::Focus => 80,
            Keycode::Plus => 81,
            Keycode::Menu => 82,
            Keycode::Notification => 83,
            Keycode::Search => 84,
            Keycode::MediaPlayPause => 85,
            Keycode::MediaStop => 86,
            Keycode::MediaNext => 87,
            Keycode::MediaPrevious => 88,
            Keycode::MediaRewind => 89,
            Keycode::MediaFastForward => 90,
            Keycode::Mute => 91,
            Keycode::PageUp => 92,
            Keycode::PageDown => 93,
            Keycode::Pictsymbols => 94,
            Keycode::SwitchCharset => 95,
            Keycode::ButtonA => 96,
            Keycode::ButtonB => 97,
            Keycode::ButtonC => 98,
            Keycode::ButtonX => 99,
            Keycode::ButtonY => 100,
            Keycode::ButtonZ => 101,
            Keycode::ButtonL1 => 102,
            Keycode::ButtonR1 => 103,
            Keycode::ButtonL2 => 104,
            Keycode::ButtonR2 => 105,
            Keycode::ButtonThumbl => 106,
            Keycode::ButtonThumbr => 107,
            Keycode::ButtonStart => 108,
            Keycode::ButtonSelect => 109,
            Keycode::ButtonMode => 110,
            Keycode::Escape => 111,
            Keycode::ForwardDel => 112,
            Keycode::CtrlLeft => 113,
            Keycode::CtrlRight => 114,
            Keycode::CapsLock => 115,
            Keycode::ScrollLock => 116,
            Keycode::MetaLeft => 117,
            Keycode::MetaRight => 118,
            Keycode::Function => 119,
            Keycode::Sysrq => 120,
            Keycode::Break => 121,
            Keycode::MoveHome => 122,
            Keycode::MoveEnd => 123,
            Keycode::Insert => 124,
            Keycode::Forward => 125,
            Keycode::MediaPlay => 126,
            Keycode::MediaPause => 127,
            Keycode::MediaClose => 128,
            Keycode::MediaEject => 129,
            Keycode::MediaRecord => 130,
            Keycode::F1 => 131,
            Keycode::F2 => 132,
            Keycode::F3 => 133,
            Keycode::F4 => 134,
            Keycode::F5 => 135,
            Keycode::F6 => 136,
            Keycode::F7 => 137,
            Keycode::F8 => 138,
            Keycode::F9 => 139,
            Keycode::F10 => 140,
            Keycode::F11 => 141,
            Keycode::F12 => 142,
            Keycode::NumLock => 143,
            Keycode::Numpad0 => 144,
            Keycode::Numpad1 => 145,
            Keycode::Numpad2 => 146,
            Keycode::Numpad3 => 147,
            Keycode::Numpad4 => 148,
            Keycode::Numpad5 => 149,
            Keycode::Numpad6 => 150,
            Keycode::Numpad7 => 151,
            Keycode::Numpad8 => 152,
            Keycode::Numpad9 => 153,
            Keycode::NumpadDivide => 154,
            Keycode::NumpadMultiply => 155,
            Keycode::NumpadSubtract => 156,
            Keycode::NumpadAdd => 157,
            Keycode::NumpadDot => 158,
            Keycode::NumpadComma => 159,
            Keycode::NumpadEnter => 160,
            Keycode::NumpadEquals => 161,
            Keycode::NumpadLeftParen => 162,
            Keycode::NumpadRightParen => 163,
            Keycode::VolumeMute => 164,
            Keycode::Info => 165,
            Keycode::ChannelUp => 166,
            Keycode::ChannelDown => 167,
            Keycode::ZoomIn => 168,
            Keycode::ZoomOut => 169,
            Keycode::Tv => 170,
            Keycode::Window => 171,
            Keycode::Guide => 172,
            Keycode::Dvr => 173,
            Keycode::Bookmark => 174,
            Keycode::Captions => 175,
            Keycode::Settings => 176,
            Keycode::TvPower => 177,
            Keycode::TvInput => 178,
            Keycode::StbPower => 179,
            Keycode::StbInput => 180,
            Keycode::AvrPower => 181,
            Keycode::AvrInput => 182,
            Keycode::ProgRed => 183,
            Keycode::ProgGreen => 184,
            Keycode::ProgYellow => 185,
            Keycode::ProgBlue => 186,
            Keycode::AppSwitch => 187,
            Keycode::Button1 => 188,
            Keycode::Button2 => 189,
            Keycode::Button3 => 190,
            Keycode::Button4 => 191,
            Keycode::Button5 => 192,
            Keycode::Button6 => 193,
            Keycode::Button7 => 194,
            Keycode::Button8 => 195,
            Keycode::Button9 => 196,
            Keycode::Button10 => 197,
            Keycode::Button11 => 198,
            Keycode::Button12 => 199,
            Keycode::Button13 => 200,
            Keycode::Button14 => 201,
            Keycode::Button15 => 202,
            Keycode::Button16 => 203,
            Keycode::LanguageSwitch => 204,
            Keycode::MannerMode => 205,
            Keycode::Keycode3dMode => 206,
            Keycode::Contacts => 207,
            Keycode::Calendar => 208,
            Keycode::Music => 209,
            Keycode::Calculator => 210,
            Keycode::ZenkakuHankaku => 211,
            Keycode::Eisu => 212,
            Keycode::Muhenkan => 213,
            Keycode::Henkan => 214,
            Keycode::KatakanaHiragana => 215,
            Keycode::Yen => 216,
            Keycode::Ro => 217,
            Keycode::Kana => 218,
            Keycode::Assist => 219,
            Keycode::BrightnessDown => 220,
            Keycode::BrightnessUp => 221,
            Keycode::MediaAudioTrack => 222,
            Keycode::Sleep => 223,
            Keycode::Wakeup => 224,
            Keycode::Pairing => 225,
            Keycode::MediaTopMenu => 226,
            Keycode::Keycode11 => 227,
            Keycode::Keycode12 => 228,
            Keycode::LastChannel => 229,
            Keycode::TvDataService => 230,
            Keycode::VoiceAssist => 231,
            Keycode::TvRadioService => 232,
            Keycode::TvTeletext => 233,
            Keycode::TvNumberEntry => 234,
            Keycode::TvTerrestrialAnalog => 235,
            Keycode::TvTerrestrialDigital => 236,
            Keycode::TvSatellite => 237,
            Keycode::TvSatelliteBs => 238,
            Keycode::TvSatelliteCs => 239,
            Keycode::TvSatelliteService => 240,
            Keycode::TvNetwork => 241,
            Keycode::TvAntennaCable => 242,
            Keycode::TvInputHdmi1 => 243,
            Keycode::TvInputHdmi2 => 244,
            Keycode::TvInputHdmi3 => 245,
            Keycode::TvInputHdmi4 => 246,
            Keycode::TvInputComposite1 => 247,
            Keycode::TvInputComposite2 => 248,
            Keycode::TvInputComponent1 => 249,
            Keycode::TvInputComponent2 => 250,
            Keycode::TvInputVga1 => 251,
            Keycode::TvAudioDescription => 252,
            Keycode::TvAudioDescriptionMixUp => 253,
            Keycode::TvAudioDescriptionMixDown => 254,
            Keycode::TvZoomMode => 255,
            Keycode::TvContentsMenu => 256,
            Keycode::TvMediaContextMenu => 257,
            Keycode::TvTimerProgramming => 258,
            Keycode::Help => 259,
            Keycode::NavigatePrevious => 260,
            Keycode::NavigateNext => 261,
            Keycode::NavigateIn => 262,
            Keycode::NavigateOut => 263,
            Keycode::StemPrimary => 264,
            Keycode::Stem1 => 265,
            Keycode::Stem2 => 266,
            Keycode::Stem3 => 267,
            Keycode::DpadUpLeft => 268,
            Keycode::DpadDownLeft => 269,
            Keycode::DpadUpRight => 270,
            Keycode::DpadDownRight => 271,
            Keycode::MediaSkipForward => 272,
            Keycode::MediaSkipBackward => 273,
            Keycode::MediaStepForward => 274,
            Keycode::MediaStepBackward => 275,
            Keycode::SoftSleep => 276,
            Keycode::Cut => 277,
            Keycode::Copy => 278,
            Keycode::Paste => 279,
            Keycode::SystemNavigationUp => 280,
            Keycode::SystemNavigationDown => 281,
            Keycode::SystemNavigationLeft => 282,
            Keycode::SystemNavigationRight => 283,
            Keycode::AllApps => 284,
            Keycode::Refresh => 285,
            Keycode::ThumbsUp => 286,
            Keycode::ThumbsDown => 287,
            Keycode::ProfileSwitch => 288,
        }
    }

    #[verifier::when_used_as_spec(spec_value)]
    pub fn value(self) -> (r: u32)
        ensures
            r == self.spec_value(),
    {
        match self {
            Keycode::Unknown => 0,
            Keycode::SoftLeft => 1,
            Keycode::SoftRight => 2,
            Keycode::Home => 3,
            Keycode::Back => 4,
            Keycode::Call => 5,
            Keycode::Endcall => 6,
            Keycode::Keycode0 => 7,
            Keycode::Keycode1 => 8,
            Keycode::Keycode2 => 9,
            Keycode::Keycode3 => 10,
            Keycode::Keycode4 => 11,
            Keycode::Keycode5 => 12,
            Keycode::Keycode6 => 13,
            Keycode::Keycode7 => 14,
            Keycode::Keycode8 => 15,
            Keycode::Keycode9 => 16,
            Keycode::Star => 17,
            Keycode::Pound => 18,
            Keycode::DpadUp => 19,
            Keycode::DpadDown => 20,
            Keycode::DpadLeft => 21,
            Keycode::DpadRight => 22,
            Keycode::DpadCenter => 23,
            Keycode::VolumeUp => 24,
            Keycode::VolumeDown => 25,
            Keycode::Power => 26,
            Keycode::Camera => 27,
            Keycode::Clear => 28,
            Keycode::A => 29,
            Keycode::B => 30,
            Keycode::C => 31,
            Keycode::D => 32,
            Keycode::E => 33,
            Keycode::F => 34,
            Keycode::G => 35,
            Keycode::H => 36,
            Keycode::I => 37,
            Keycode::J => 38,
            Keycode::K => 39,
            Keycode::L => 40,
            Keycode::M => 41,
            Keycode::N => 42,
            Keycode::O => 43,
            Keycode::P => 44,
            Keycode::Q => 45,
            Keycode::R => 46,
            Keycode::S => 47,
            Keycode::T => 48,
            Keycode::U => 49,
            Keycode::V => 50,
            Keycode::W => 51,
            Keycode::X => 52,
            Keycode::Y => 53,
            Keycode::Z => 54,
            Keycode::Comma => 55,
            Keycode::Period => 56,
            Keycode::AltLeft => 57,
            Keycode::AltRight => 58,
            Keycode::ShiftLeft => 59,
            Keycode::ShiftRight => 60,
            Keycode::Tab => 61,
            Keycode::Space => 62,
            Keycode::Sym => 63,
            Keycode::Explorer => 64,
            Keycode::Envelope => 65,
            Keycode::Enter => 66,
            Keycode::Del => 67,
            Keycode::Grave => 68,
            Keycode::Minus => 69,
            Keycode::Equals => 70,
            Keycode::LeftBracket => 71,
            Keycode::RightBracket => 72,
            Keycode::Backslash => 73,
            Keycode::Semicolon => 74,
            Keycode::Apostrophe => 75,
            Keycode::Slash => 76,
            Keycode::At => 77,
            Keycode::Num => 78,
            Keycode::Headsethook => 79,
            Keycode::Focus => 80,
            Keycode::Plus => 81,
            Keycode::Menu => 82,
            Keycode::Notification => 83,
            Keycode::Search => 84,
            Keycode::MediaPlayPause => 85,
            Keycode::MediaStop => 86,
            Keycode::MediaNext => 87,
            Keycode::MediaPrevious => 88,
            Keycode::MediaRewind => 89,
            Keycode::MediaFastForward => 90,
            Keycode::Mute => 91,
            Keycode::PageUp => 92,
            Keycode::PageDown => 93,
            Keycode::Pictsymbols => 94,
            Keycode::SwitchCharset => 95,
            Keycode::ButtonA => 96,
            Keycode::ButtonB => 97,
            Keycode::ButtonC => 98,
            Keycode::ButtonX => 99,
            Keycode::ButtonY => 100,
            Keycode::ButtonZ => 101,
            Keycode::ButtonL1 => 102,
            Keycode::ButtonR1 => 103,
            Keycode::ButtonL2 => 104,
            Keycode::ButtonR2 => 105,
            Keycode::ButtonThumbl => 106,
            Keycode::ButtonThumbr => 107,
            Keycode::ButtonStart => 108,
            Keycode::ButtonSelect => 109,
            Keycode::ButtonMode => 110,
            Keycode::Escape => 111,
            Keycode::ForwardDel => 112,
            Keycode::CtrlLeft => 113,
            Keycode::CtrlRight => 114,
            Keycode::CapsLock => 115,
            Keycode::ScrollLock => 116,
            Keycode::MetaLeft => 117,
            Keycode::MetaRight => 118,
            Keycode::Function => 119,
            Keycode::Sysrq => 120,
            Keycode::Break => 121,
            Keycode::MoveHome => 122,
            Keycode::MoveEnd => 123,
            Keycode::Insert => 124,
            Keycode::Forward => 125,
            Keycode::MediaPlay => 126,
            Keycode::MediaPause => 127,
            Keycode::MediaClose => 128,
            Keycode::MediaEject => 129,
            Keycode::MediaRecord => 130,
            Keycode::F1 => 131,
            Keycode::F2 => 132,
            Keycode::F3 => 133,
            Keycode::F4 => 134,
            Keycode::F5 => 135,
            Keycode::F6 => 136,
            Keycode::F7 => 137,
            Keycode::F8 => 138,
            Keycode::F9 => 139,
            Keycode::F10 => 140,
            Keycode::F11 => 141,
            Keycode::F12 => 142,
            Keycode::NumLock => 143,
            Keycode::Numpad0 => 144,
            Keycode::Numpad1 => 145,
            Keycode::Numpad2 => 146,
            Keycode::Numpad3 => 147,
            Keycode::Numpad4 => 148,
            Keycode::Numpad5 => 149,
            Keycode::Numpad6 => 150,
            Keycode::Numpad7 => 151,
            Keycode::Numpad8 => 152,
            Keycode::Numpad9 => 153,
            Keycode::NumpadDivide => 154,
            Keycode::NumpadMultiply => 155,
            Keycode::NumpadSubtract => 156,
            Keycode::NumpadAdd => 157,
            Keycode::NumpadDot => 158,
            Keycode::NumpadComma => 159,
            Keycode::NumpadEnter => 160,
            Keycode::NumpadEquals => 161,
            Keycode::NumpadLeftParen => 162,
            Keycode::NumpadRightParen => 163,
            Keycode::VolumeMute => 164,
            Keycode::Info => 165,
            Keycode::ChannelUp => 166,
            Keycode::ChannelDown => 167,
            Keycode::ZoomIn => 168,
            Keycode::ZoomOut => 169,
            Keycode::Tv => 170,
            Keycode::Window => 171,
            Keycode::Guide => 172,
            Keycode::Dvr => 173,
            Keycode::Bookmark => 174,
            Keycode::Captions => 175,
            Keycode::Settings => 176,
            Keycode::TvPower => 177,
            Keycode::TvInput => 178,
            Keycode::StbPower => 179,
            Keycode::StbInput => 180,
            Keycode::AvrPower => 181,
            Keycode::AvrInput => 182,
            Keycode::ProgRed => 183,
            Keycode::ProgGreen => 184,
            Keycode::ProgYellow => 185,
            Keycode::ProgBlue => 186,
            Keycode::AppSwitch => 187,
            Keycode::Button1 => 188,
            Keycode::Button2 => 189,
            Keycode::Button3 => 190,
            Keycode::Button4 => 191,
            Keycode::Button5 => 192,
            Keycode::Button6 => 193,
            Keycode::Button7 => 194,
            Keycode::Button8 => 195,
            Keycode::Button9 => 196,
            Keycode::Button10 => 197,
            Keycode::Button11 => 198,
            Keycode::Button12 => 199,
            Keycode::Button13 => 200,
            Keycode::Button14 => 201,
            Keycode::Button15 => 202,
            Keycode::Button16 => 203,
            Keycode::LanguageSwitch => 204,
            Keycode::MannerMode => 205,
            Keycode::Keycode3dMode => 206,
            Keycode::Contacts => 207,
            Keycode::Calendar => 208,
            Keycode::Music => 209,
            Keycode::Calculator => 210,
            Keycode::ZenkakuHankaku => 211,
            Keycode::Eisu => 212,
            Keycode::Muhenkan => 213,
            Keycode::Henkan => 214,
            Keycode::KatakanaHiragana => 215,
            Keycode::Yen => 216,
            Keycode::Ro => 217,
            Keycode::Kana => 218,
            Keycode::Assist => 219,
            Keycode::BrightnessDown => 220,
            Keycode::BrightnessUp => 221,
            Keycode::MediaAudioTrack => 222,
            Keycode::Sleep => 223,
            Keycode::Wakeup => 224,
            Keycode::Pairing => 225,
            Keycode::MediaTopMenu => 226,
            Keycode::Keycode11 => 227,
            Keycode::Keycode12 => 228,
            Keycode::LastChannel => 229,
            Keycode::TvDataService => 230,
            Keycode::VoiceAssist => 231,
            Keycode::TvRadioService => 232,
            Keycode::TvTeletext => 233,
            Keycode::TvNumberEntry => 234,
            Keycode::TvTerrestrialAnalog => 235,
            Keycode::TvTerrestrialDigital => 236,
            Keycode::TvSatellite => 237,
            Keycode::TvSatelliteBs => 238,
            Keycode::TvSatelliteCs => 239,
            Keycode::TvSatelliteService => 240,
            Keycode::TvNetwork => 241,
            Keycode::TvAntennaCable => 242,
            Keycode::TvInputHdmi1 => 243,
            Keycode::TvInputHdmi2 => 244,
            Keycode::TvInputHdmi3 => 245,
            Keycode::TvInputHdmi4 => 246,
            Keycode::TvInputComposite1 => 247,
            Keycode::TvInputComposite2 => 248,
            Keycode::TvInputComponent1 => 249,
            Keycode::TvInputComponent2 => 250,
            Keycode::TvInputVga1 => 251,
            Keycode::TvAudioDescription => 252,
            Keycode::TvAudioDescriptionMixUp => 253,
            Keycode::TvAudioDescriptionMixDown => 254,
            Keycode::TvZoomMode => 255,
            Keycode::TvContentsMenu => 256,
            Keycode::TvMediaContextMenu => 257,
            Keycode::TvTimerProgramming => 258,
            Keycode::Help => 259,
            Keycode::NavigatePrevious => 260,
            Keycode::NavigateNext => 261,
            Keycode::NavigateIn => 262,
            Keycode::NavigateOut => 263,
            Keycode::StemPrimary => 264,
            Keycode::Stem1 => 265,
            Keycode::Stem2 => 266,
            Keycode::Stem3 => 267,
            Keycode::DpadUpLeft => 268,
            Keycode::DpadDownLeft => 269,
            Keycode::DpadUpRight => 270,
            Keycode::DpadDownRight => 271,
            Keycode::MediaSkipForward => 272,
            Keycode::MediaSkipBackward => 273,
            Keycode::MediaStepForward => 274,
            Keycode::MediaStepBackward => 275,
            Keycode::SoftSleep => 276,
            Keycode::Cut => 277,
            Keycode::Copy => 278,
            Keycode::Paste => 279,
            Keycode::SystemNavigationUp => 280,
            Keycode::SystemNavigationDown => 281,
            Keycode::SystemNavigationLeft => 282,
            Keycode::SystemNavigationRight => 283,
            Keycode::AllApps => 284,
            Keycode::Refresh => 285,
            Keycode::ThumbsUp => 286,
            Keycode::ThumbsDown => 287,
            Keycode::ProfileSwitch => 288,
        }
    }

    /// The keycode with this name, if any. Names are the variant names.
    pub open spec fn spec_from_name(name: Seq<u8>) -> Option<Keycode> {
        if name == "Unknown".spec_bytes() {
            Some(Keycode::Unknown)
        } else if name == "SoftLeft".spec_bytes() {
            Some(Keycode::SoftLeft)
        } else if name == "SoftRight".spec_bytes() {
            Some(Keycode::SoftRight)
        } else if name == "Home".spec_bytes() {
            Some(Keycode::Home)
        } else if name == "Back".spec_bytes() {
            Some(Keycode::Back)
        } else if name == "Call".spec_bytes() {
            Some(Keycode::Call)
        } else if name == "Endcall".spec_bytes() {
            Some(Keycode::Endcall)
        } else if name == "Keycode0".spec_bytes() {
            Some(Keycode::Keycode0)
        } else if name == "Keycode1".spec_bytes() {
            Some(Keycode::Keycode1)
        } else if name == "Keycode2".spec_bytes() {
            Some(Keycode::Keycode2)
        } else if name == "Keycode3".spec_bytes() {
            Some(Keycode::Keycode3)
        } else if name == "Keycode4".spec_bytes() {
            Some(Keycode::Keycode4)
        } else if name == "Keycode5".spec_bytes() {
            Some(Keycode::Keycode5)
        } else if name == "Keycode6".spec_bytes() {
            Some(Keycode::Keycode6)
        } else if name == "Keycode7".spec_bytes() {
            Some(Keycode::Keycode7)
        } else if name == "Keycode8".spec_bytes() {
            Some(Keycode::Keycode8)
        } else if name == "Keycode9".spec_bytes() {
            Some(Keycode::Keycode9)
        } else if name == "Star".spec_bytes() {
            Some(Keycode::Star)
        } else if name == "Pound".spec_bytes() {
            Some(Keycode::Pound)
        } else if name == "DpadUp".spec_bytes() {
            Some(Keycode::DpadUp)
        } else if name == "DpadDown".spec_bytes() {
            Some(Keycode::DpadDown)
        } else if name == "DpadLeft".spec_bytes() {
            Some(Keycode::DpadLeft)
        } else if name == "DpadRight".spec_bytes() {
            Some(Keycode::DpadRight)
        } else if name == "DpadCenter".spec_bytes() {
            Some(Keycode::DpadCenter)
        } else if name == "VolumeUp".spec_bytes() {
            Some(Keycode::VolumeUp)
        } else if name == "VolumeDown".spec_bytes() {
            Some(Keycode::VolumeDown)
        } else if name == "Power".spec_bytes() {
            Some(Keycode::Power)
        } else if name == "Camera".spec_bytes() {
            Some(Keycode::Camera)
        } else if name == "Clear".spec_bytes() {
            Some(Keycode::Clear)
        } else if name == "A".spec_bytes() {
            Some(Keycode::A)
        } else if name == "B".spec_bytes() {
            Some(Keycode::B)
        } else if name == "C".spec_bytes() {
            Some(Keycode::C)
        } else if name == "D".spec_bytes() {
            Some(Keycode::D)
        } else if name == "E".spec_bytes() {
            Some(Keycode::E)
        } else if name == "F".spec_bytes() {
            Some(Keycode::F)
        } else if name == "G".spec_bytes() {
            Some(Keycode::G)
        } else if name == "H".spec_bytes() {
            Some(Keycode::H)
        } else if name == "I".spec_bytes() {
            Some(Keycode::I)
        } else if name == "J".spec_bytes() {
            Some(Keycode::J)
        } else if name == "K".spec_bytes() {
            Some(Keycode::K)
        } else if name == "L".spec_bytes() {
            Some(Keycode::L)
        } else if name == "M".spec_bytes() {
            Some(Keycode::M)
        } else if name == "N".spec_bytes() {
            Some(Keycode::N)
        } else if name == "O".spec_bytes() {
            Some(Keycode::O)
        } else if name == "P".spec_bytes() {
            Some(Keycode::P)
        } else if name == "Q".spec_bytes() {
            Some(Keycode::Q)
        } else if name == "R".spec_bytes() {
            Some(Keycode::R)
        } else if name == "S".spec_bytes() {
            Some(Keycode::S)
        } else if name == "T".spec_bytes() {
            Some(Keycode::T)
        } else if name == "U".spec_bytes() {
            Some(Keycode::U)
        } else if name == "V".spec_bytes() {
            Some(Keycode::V)
        } else if name == "W".spec_bytes() {
            Some(Keycode::W)
        } else if name == "X".spec_bytes() {
            Some(Keycode::X)
        } else if name == "Y".spec_bytes() {
            Some(Keycode::Y)
        } else if name == "Z".spec_bytes() {
            Some(Keycode::Z)
        } else if name == "Comma".spec_bytes() {
            Some(Keycode::Comma)
        } else if name == "Period".spec_bytes() {
            Some(Keycode::Period)
        } else if name == "AltLeft".spec_bytes() {
            Some(Keycode::AltLeft)
        } else if name == "AltRight".spec_bytes() {
            Some(Keycode::AltRight)
        } else if name == "ShiftLeft".spec_bytes() {
            Some(Keycode::ShiftLeft)
        } else if name == "ShiftRight".spec_bytes() {
            Some(Keycode::ShiftRight)
        } else if name == "Tab".spec_bytes() {
            Some(Keycode::Tab)
        } else if name == "Space".spec_bytes() {
            Some(Keycode::Space)
        } else if name == "Sym".spec_bytes() {
            Some(Keycode::Sym)
        } else if name == "Explorer".spec_bytes() {
            Some(Keycode::Explorer)
        } else if name == "Envelope".spec_bytes() {
            Some(Keycode::Envelope)
        } else if name == "Enter".spec_bytes() {
            Some(Keycode::Enter)
        } else if name == "Del".spec_bytes() {
            Some(Keycode::Del)
        } else if name == "Grave".spec_bytes() {
            Some(Keycode::Grave)
        } else if name == "Minus".spec_bytes() {
            Some(Keycode::Minus)
        } else if name == "Equals".spec_bytes() {
            Some(Keycode::Equals)
        } else if name == "LeftBracket".spec_bytes() {
            Some(Keycode::LeftBracket)
        } else if name == "RightBracket".spec_bytes() {
            Some(Keycode::RightBracket)
        } else if name == "Backslash".spec_bytes() {
            Some(Keycode::Backslash)
        } else if name == "Semicolon".spec_bytes() {
            Some(Keycode::Semicolon)
        } else if name == "Apostrophe".spec_bytes() {
            Some(Keycode::Apostrophe)
        } else if name == "Slash".spec_bytes() {
            Some(Keycode::Slash)
        } else if name == "At".spec_bytes() {
            Some(Keycode::At)
        } else if name == "Num".spec_bytes() {
            Some(Keycode::Num)
        } else if name == "Headsethook".spec_bytes() {
            Some(Keycode::Headsethook)
        } else if name == "Focus".spec_bytes() {
            Some(Keycode::Focus)
        } else if name == "Plus".spec_bytes() {
            Some(Keycode::Plus)
        } else if name == "Menu".spec_bytes() {
            Some(Keycode::Menu)
        } else if name == "Notification".spec_bytes() {
            Some(Keycode::Notification)
        } else if name == "Search".spec_bytes() {
            Some(Keycode::Search)
        } else if name == "MediaPlayPause".spec_bytes() {
            Some(Keycode::MediaPlayPause)
        } else if name == "MediaStop".spec_bytes() {
            Some(Keycode::MediaStop)
        } else if name == "MediaNext".spec_bytes() {
            Some(Keycode::MediaNext)
        } else if name == "MediaPrevious".spec_bytes() {
            Some(Keycode::MediaPrevious)
        } else if name == "MediaRewind".spec_bytes() {
            Some(Keycode::MediaRewind)
        } else if name == "MediaFastForward".spec_bytes() {
            Some(Keycode::MediaFastForward)
        } else if name == "Mute".spec_bytes() {
            Some(Keycode::Mute)
        } else if name == "PageUp".spec_bytes() {
            Some(Keycode::PageUp)
        } else if name == "PageDown".spec_bytes() {
            Some(Keycode::PageDown)
        } else if name == "Pictsymbols".spec_bytes() {
            Some(Keycode::Pictsymbols)
        } else if name == "SwitchCharset".spec_bytes() {
            Some(Keycode::SwitchCharset)
        } else if name == "ButtonA".spec_bytes() {
            Some(Keycode::ButtonA)
        } else if name == "ButtonB".spec_bytes() {
            Some(Keycode::ButtonB)
        } else if name == "ButtonC".spec_bytes() {
            Some(Keycode::ButtonC)
        } else if name == "ButtonX".spec_bytes() {
            Some(Keycode::ButtonX)
        } else if name == "ButtonY".spec_bytes() {
            Some(Keycode::ButtonY)
        } else if name == "ButtonZ".spec_bytes() {
            Some(Keycode::ButtonZ)
        } else if name == "ButtonL1".spec_bytes() {
            Some(Keycode::ButtonL1)
        } else if name == "ButtonR1".spec_bytes() {
            Some(Keycode::ButtonR1)
        } else if name == "ButtonL2".spec_bytes() {
            Some(Keycode::ButtonL2)
        } else if name == "ButtonR2".spec_bytes() {
            Some(Keycode::ButtonR2)
        } else if name == "ButtonThumbl".spec_bytes() {
            Some(Keycode::ButtonThumbl)
        } else if name == "ButtonThumbr".spec_bytes() {
            Some(Keycode::ButtonThumbr)
        } else if name == "ButtonStart".spec_bytes() {
            Some(Keycode::ButtonStart)
        } else if name == "ButtonSelect".spec_bytes() {
            Some(Keycode::ButtonSelect)
        } else if name == "ButtonMode".spec_bytes() {
            Some(Keycode::ButtonMode)
        } else if name == "Escape".spec_bytes() {
            Some(Keycode::Escape)
        } else if name == "ForwardDel".spec_bytes() {
            Some(Keycode::ForwardDel)
        } else if name == "CtrlLeft".spec_bytes() {
            Some(Keycode::CtrlLeft)
        } else if name == "CtrlRight".spec_bytes() {
            Some(Keycode::CtrlRight)
        } else if name == "CapsLock".spec_bytes() {
            Some(Keycode::CapsLock)
        } else if name == "ScrollLock".spec_bytes() {
            Some(Keycode::ScrollLock)
        } else if name == "MetaLeft".spec_bytes() {
            Some(Keycode::MetaLeft)
        } else if name == "MetaRight".spec_bytes() {
            Some(Keycode::MetaRight)
        } else if name == "Function".spec_bytes() {
            Some(Keycode::Function)
        } else if name == "Sysrq".spec_bytes() {
            Some(Keycode::Sysrq)
        } else if name == "Break".spec_bytes() {
            Some(Keycode::Break)
        } else if name == "MoveHome".spec_bytes() {
            Some(Keycode::MoveHome)
        } else if name == "MoveEnd".spec_bytes() {
            Some(Keycode::MoveEnd)
        } else if name == "Insert".spec_bytes() {
            Some(Keycode::Insert)
        } else if name == "Forward".spec_bytes() {
            Some(Keycode::Forward)
        } else if name == "MediaPlay".spec_bytes() {
            Some(Keycode::MediaPlay)
        } else if name == "MediaPause".spec_bytes() {
            Some(Keycode::MediaPause)
        } else if name == "MediaClose".spec_bytes() {
            Some(Keycode::MediaClose)
        } else if name == "MediaEject".spec_bytes() {
            Some(Keycode::MediaEject)
        } else if name == "MediaRecord".spec_bytes() {
            Some(Keycode::MediaRecord)
        } else if name == "F1".spec_bytes() {
            Some(Keycode::F1)
        } else if name == "F2".spec_bytes() {
            Some(Keycode::F2)
        } else if name == "F3".spec_bytes() {
            Some(Keycode::F3)
        } else if name == "F4".spec_bytes() {
            Some(Keycode::F4)
        } else if name == "F5".spec_bytes() {
            Some(Keycode::F5)
        } else if name == "F6".spec_bytes() {
            Some(Keycode::F6)
        } else if name == "F7".spec_bytes() {
            Some(Keycode::F7)
        } else if name == "F8".spec_bytes() {
            Some(Keycode::F8)
        } else if name == "F9".spec_bytes() {
            Some(Keycode::F9)
        } else if name == "F10".spec_bytes() {
            Some(Keycode::F10)
        } else if name == "F11".spec_bytes() {
            Some(Keycode::F11)
        } else if name == "F12".spec_bytes() {
            Some(Keycode::F12)
        } else if name == "NumLock".spec_bytes() {
            Some(Keycode::NumLock)
        } else if name == "Numpad0".spec_bytes() {
            Some(Keycode::Numpad0)
        } else if name == "Numpad1".spec_bytes() {
            Some(Keycode::Numpad1)
        } else if name == "Numpad2".spec_bytes() {
            Some(Keycode::Numpad2)
        } else if name == "Numpad3".spec_bytes() {
            Some(Keycode::Numpad3)
        } else if name == "Numpad4".spec_bytes() {
            Some(Keycode::Numpad4)
        } else if name == "Numpad5".spec_bytes() {
            Some(Keycode::Numpad5)
        } else if name == "Numpad6".spec_bytes() {
            Some(Keycode::Numpad6)
        } else if name == "Numpad7".spec_bytes() {
            Some(Keycode::Numpad7)
        } else if name == "Numpad8".spec_bytes() {
            Some(Keycode::Numpad8)
        } else if name == "Numpad9".spec_bytes() {
            Some(Keycode::Numpad9)
        } else if name == "NumpadDivide".spec_bytes() {
            Some(Keycode::NumpadDivide)
        } else if name == "NumpadMultiply".spec_bytes() {
            Some(Keycode::NumpadMultiply)
        } else if name == "NumpadSubtract".spec_bytes() {
            Some(Keycode::NumpadSubtract)
        } else if name == "NumpadAdd".spec_bytes() {
            Some(Keycode::NumpadAdd)
        } else if name == "NumpadDot".spec_bytes() {
            Some(Keycode::NumpadDot)
        } else if name == "NumpadComma".spec_bytes() {
            Some(Keycode::NumpadComma)
        } else if name == "NumpadEnter".spec_bytes() {
            Some(Keycode::NumpadEnter)
        } else if name == "NumpadEquals".spec_bytes() {
            Some(Keycode::NumpadEquals)
        } else if name == "NumpadLeftParen".spec_bytes() {
            Some(Keycode::NumpadLeftParen)
        } else if name == "NumpadRightParen".spec_bytes() {
            Some(Keycode::NumpadRightParen)
        } else if name == "VolumeMute".spec_bytes() {
            Some(Keycode::VolumeMute)
        } else if name == "Info".spec_bytes() {
            Some(Keycode::Info)
        } else if name == "ChannelUp".spec_bytes() {
            Some(Keycode::ChannelUp)
        } else if name == "ChannelDown".spec_bytes() {
            Some(Keycode::ChannelDown)
        } else if name == "ZoomIn".spec_bytes() {
            Some(Keycode::ZoomIn)
        } else if name == "ZoomOut".spec_bytes() {
            Some(Keycode::ZoomOut)
        } else if name == "Tv".spec_bytes() {
            Some(Keycode::Tv)
        } else if name == "Window".spec_bytes() {
            Some(Keycode::Window)
        } else if name == "Guide".spec_bytes() {
            Some(Keycode::Guide)
        } else if name == "Dvr".spec_bytes() {
            Some(Keycode::Dvr)
        } else if name == "Bookmark".spec_bytes() {
            Some(Keycode::Bookmark)
        } else if name == "Captions".spec_bytes() {
            Some(Keycode::Captions)
        } else if name == "Settings".spec_bytes() {
            Some(Keycode::Settings)
        } else if name == "TvPower".spec_bytes() {
            Some(Keycode::TvPower)
        } else if name == "TvInput".spec_bytes() {
            Some(Keycode::TvInput)
        } else if name == "StbPower".spec_bytes() {
            Some(Keycode::StbPower)
        } else if name == "StbInput".spec_bytes() {
            Some(Keycode::StbInput)
        } else if name == "AvrPower".spec_bytes() {
            Some(Keycode::AvrPower)
        } else if name == "AvrInput".spec_bytes() {
            Some(Keycode::AvrInput)
        } else if name == "ProgRed".spec_bytes() {
            Some(Keycode::ProgRed)
        } else if name == "ProgGreen".spec_bytes() {
            Some(Keycode::ProgGreen)
        } else if name == "ProgYellow".spec_bytes() {
            Some(Keycode::ProgYellow)
        } else if name == "ProgBlue".spec_bytes() {
            Some(Keycode::ProgBlue)
        } else if name == "AppSwitch".spec_bytes() {
            Some(Keycode::AppSwitch)
        } else if name == "Button1".spec_bytes() {
            Some(Keycode::Button1)
        } else if name == "Button2".spec_bytes() {
            Some(Keycode::Button2)
        } else if name == "Button3".spec_bytes() {
            Some(Keycode::Button3)
        } else if name == "Button4".spec_bytes() {
            Some(Keycode::Button4)
        } else if name == "Button5".spec_bytes() {
            Some(Keycode::Button5)
        } else if name == "Button6".spec_bytes() {
            Some(Keycode::Button6)
        } else if name == "Button7".spec_bytes() {
            Some(Keycode::Button7)
        } else if name == "Button8".spec_bytes() {
            Some(Keycode::Button8)
        } else if name == "Button9".spec_bytes() {
            Some(Keycode::Button9)
        } else if name == "Button10".spec_bytes() {
            Some(Keycode::Button10)
        } else if name == "Button11".spec_bytes() {
            Some(Keycode::Button11)
        } else if name == "Button12".spec_bytes() {
            Some(Keycode::Button12)
        } else if name == "Button13".spec_bytes() {
            Some(Keycode::Button13)
        } else if name == "Button14".spec_bytes() {
            Some(Keycode::Button14)
        } else if name == "Button15".spec_bytes() {
            Some(Keycode::Button15)
        } else if name == "Button16".spec_bytes() {
            Some(Keycode::Button16)
        } else if name == "LanguageSwitch".spec_bytes() {
            Some(Keycode::LanguageSwitch)
        } else if name == "MannerMode".spec_bytes() {
            Some(Keycode::MannerMode)
        } else if name == "Keycode3dMode".spec_bytes() {
            Some(Keycode::Keycode3dMode)
        } else if name == "Contacts".spec_bytes() {
            Some(Keycode::Contacts)
        } else if name == "Calendar".spec_bytes() {
            Some(Keycode::Calendar)
        } else if name == "Music".spec_bytes() {
            Some(Keycode::Music)
        } else if name == "Calculator".spec_bytes() {
            Some(Keycode::Calculator)
        } else if name == "ZenkakuHankaku".spec_bytes() {
            Some(Keycode::ZenkakuHankaku)
        } else if name == "Eisu".spec_bytes() {
            Some(Keycode::Eisu)
        } else if name == "Muhenkan".spec_bytes() {
            Some(Keycode::Muhenkan)
        } else if name == "Henkan".spec_bytes() {
            Some(Keycode::Henkan)
        } else if name == "KatakanaHiragana".spec_bytes() {
            Some(Keycode::KatakanaHiragana)
        } else if name == "Yen".spec_bytes() {
            Some(Keycode::Yen)
        } else if name == "Ro".spec_bytes() {
            Some(Keycode::Ro)
        } else if name == "Kana".spec_bytes() {
            Some(Keycode::Kana)
        } else if name == "Assist".spec_bytes() {
            Some(Keycode::Assist)
        } else if name == "BrightnessDown".spec_bytes() {
            Some(Keycode::BrightnessDown)
        } else if name == "BrightnessUp".spec_bytes() {
            Some(Keycode::BrightnessUp)
        } else if name == "MediaAudioTrack".spec_bytes() {
            Some(Keycode::MediaAudioTrack)
        } else if name == "Sleep".spec_bytes() {
            Some(Keycode::Sleep)
        } else if name == "Wakeup".spec_bytes() {
            Some(Keycode::Wakeup)
        } else if name == "Pairing".spec_bytes() {
            Some(Keycode::Pairing)
        } else if name == "MediaTopMenu".spec_bytes() {
            Some(Keycode::MediaTopMenu)
        } else if name == "Keycode11".spec_bytes() {
            Some(Keycode::Keycode11)
        } else if name == "Keycode12".spec_bytes() {
            Some(Keycode::Keycode12)
        } else if name == "LastChannel".spec_bytes() {
            Some(Keycode::LastChannel)
        } else if name == "TvDataService".spec_bytes() {
            Some(Keycode::TvDataService)
        } else if name == "VoiceAssist".spec_bytes() {
            Some(Keycode::VoiceAssist)
        } else if name == "TvRadioService".spec_bytes() {
            Some(Keycode::TvRadioService)
        } else if name == "TvTeletext".spec_bytes() {
            Some(Keycode::TvTeletext)
        } else if name == "TvNumberEntry".spec_bytes() {
            Some(Keycode::TvNumberEntry)
        } else if name == "TvTerrestrialAnalog".spec_bytes() {
            Some(Keycode::TvTerrestrialAnalog)
        } else if name == "TvTerrestrialDigital".spec_bytes() {
            Some(Keycode::TvTerrestrialDigital)
        } else if name == "TvSatellite".spec_bytes() {
            Some(Keycode::TvSatellite)
        } else if name == "TvSatelliteBs".spec_bytes() {
            Some(Keycode::TvSatelliteBs)
        } else if name == "TvSatelliteCs".spec_bytes() {
            Some(Keycode::TvSatelliteCs)
        } else if name == "TvSatelliteService".spec_bytes() {
            Some(Keycode::TvSatelliteService)
        } else if name == "TvNetwork".spec_bytes() {
            Some(Keycode::TvNetwork)
        } else if name == "TvAntennaCable".spec_bytes() {
            Some(Keycode::TvAntennaCable)
        } else if name == "TvInputHdmi1".spec_bytes() {
            Some(Keycode::TvInputHdmi1)
        } else if name == "TvInputHdmi2".spec_bytes() {
            Some(Keycode::TvInputHdmi2)
        } else if name == "TvInputHdmi3".spec_bytes() {
            Some(Keycode::TvInputHdmi3)
        } else if name == "TvInputHdmi4".spec_bytes() {
            Some(Keycode::TvInputHdmi4)
        } else if name == "TvInputComposite1".spec_bytes() {
            Some(Keycode::TvInputComposite1)
        } else if name == "TvInputComposite2".spec_bytes() {
            Some(Keycode::TvInputComposite2)
        } else if name == "TvInputComponent1".spec_bytes() {
            Some(Keycode::TvInputComponent1)
        } else if name == "TvInputComponent2".spec_bytes() {
            Some(Keycode::TvInputComponent2)
        } else if name == "TvInputVga1".spec_bytes() {
            Some(Keycode::TvInputVga1)
        } else if name == "TvAudioDescription".spec_bytes() {
            Some(Keycode::TvAudioDescription)
        } else if name == "TvAudioDescriptionMixUp".spec_bytes() {
            Some(Keycode::TvAudioDescriptionMixUp)
        } else if name == "TvAudioDescriptionMixDown".spec_bytes() {
            Some(Keycode::TvAudioDescriptionMixDown)
        } else if name == "TvZoomMode".spec_bytes() {
            Some(Keycode::TvZoomMode)
        } else if name == "TvContentsMenu".spec_bytes() {
            Some(Keycode::TvContentsMenu)
        } else if name == "TvMediaContextMenu".spec_bytes() {
            Some(Keycode::TvMediaContextMenu)
        } else if name == "TvTimerProgramming".spec_bytes() {
            Some(Keycode::TvTimerProgramming)
        } else if name == "Help".spec_bytes() {
            Some(Keycode::Help)
        } else if name == "NavigatePrevious".spec_bytes() {
            Some(Keycode::NavigatePrevious)
        } else if name == "NavigateNext".spec_bytes() {
            Some(Keycode::NavigateNext)
        } else if name == "NavigateIn".spec_bytes() {
            Some(Keycode::NavigateIn)
        } else if name == "NavigateOut".spec_bytes() {
            Some(Keycode::NavigateOut)
        } else if name == "StemPrimary".spec_bytes() {
            Some(Keycode::StemPrimary)
        } else if name == "Stem1".spec_bytes() {
            Some(Keycode::Stem1)
        } else if name == "Stem2".spec_bytes() {
            Some(Keycode::Stem2)
        } else if name == "Stem3".spec_bytes() {
            Some(Keycode::Stem3)
        } else if name == "DpadUpLeft".spec_bytes() {
            Some(Keycode::DpadUpLeft)
        } else if name == "DpadDownLeft".spec_bytes() {
            Some(Keycode::DpadDownLeft)
        } else if name == "DpadUpRight".spec_bytes() {
            Some(Keycode::DpadUpRight)
        } else if name == "DpadDownRight".spec_bytes() {
            Some(Keycode::DpadDownRight)
        } else if name == "MediaSkipForward".spec_bytes() {
            Some(Keycode::MediaSkipForward)
        } else if name == "MediaSkipBackward".spec_bytes() {
            Some(Keycode::MediaSkipBackward)
        } else if name == "MediaStepForward".spec_bytes() {
            Some(Keycode::MediaStepForward)
        } else if name == "MediaStepBackward".spec_bytes() {
            Some(Keycode::MediaStepBackward)
        } else if name == "SoftSleep".spec_bytes() {
            Some(Keycode::SoftSleep)
        } else if name == "Cut".spec_bytes() {
            Some(Keycode::Cut)
        } else if name == "Copy".spec_bytes() {
            Some(Keycode::Copy)
        } else if name == "Paste".spec_bytes() {
            Some(Keycode::Paste)
        } else if name == "SystemNavigationUp".spec_bytes() {
            Some(Keycode::SystemNavigationUp)
        } else if name == "SystemNavigationDown".spec_bytes() {
            Some(Keycode::SystemNavigationDown)
        } else if name == "SystemNavigationLeft".spec_bytes() {
            Some(Keycode::SystemNavigationLeft)
        } else if name == "SystemNavigationRight".spec_bytes() {
            Some(Keycode::SystemNavigationRight)
        } else if name == "AllApps".spec_bytes() {
            Some(Keycode::AllApps)
        } else if name == "Refresh".spec_bytes() {
            Some(Keycode::Refresh)
        } else if name == "ThumbsUp".spec_bytes() {
            Some(Keycode::ThumbsUp)
        } else if name == "ThumbsDown".spec_bytes() {
            Some(Keycode::ThumbsDown)
        } else if name == "ProfileSwitch".spec_bytes() {
            Some(Keycode::ProfileSwitch)
        } else {
            None
        }
    }

    /// Looks a keycode up by name.
    pub fn from_name(name: &Vec<u8>) -> (r: Option<Keycode>)
        ensures
            r == Self::spec_from_name(name@),
    {
        if bytes_eq_str(name, "Unknown") {
            Some(Keycode::Unknown)
        } else if bytes_eq_str(name, "SoftLeft") {
            Some(Keycode::SoftLeft)
        } else if bytes_eq_str(name, "SoftRight") {
            Some(Keycode::SoftRight)
        } else if bytes_eq_str(name, "Home") {
            Some(Keycode::Home)
        } else if bytes_eq_str(name, "Back") {
            Some(Keycode::Back)
        } else if bytes_eq_str(name, "Call") {
            Some(Keycode::Call)
        } else if bytes_eq_str(name, "Endcall") {
            Some(Keycode::Endcall)
        } else if bytes_eq_str(name, "Keycode0") {
            Some(Keycode::Keycode0)
        } else if bytes_eq_str(name, "Keycode1") {
            Some(Keycode::Keycode1)
        } else if bytes_eq_str(name, "Keycode2") {
            Some(Keycode::Keycode2)
        } else if bytes_eq_str(name, "Keycode3") {
            Some(Keycode::Keycode3)
        } else if bytes_eq_str(name, "Keycode4") {
            Some(Keycode::Keycode4)
        } else if bytes_eq_str(name, "Keycode5") {
            Some(Keycode::Keycode5)
        } else if bytes_eq_str(name, "Keycode6") {
            Some(Keycode::Keycode6)
        } else if bytes_eq_str(name, "Keycode7") {
            Some(Keycode::Keycode7)
        } else if bytes_eq_str(name, "Keycode8") {
            Some(Keycode::Keycode8)
        } else if bytes_eq_str(name, "Keycode9") {
            Some(Keycode::Keycode9)
        } else if bytes_eq_str(name, "Star") {
            Some(Keycode::Star)
        } else if bytes_eq_str(name, "Pound") {
            Some(Keycode::Pound)
        } else if bytes_eq_str(name, "DpadUp") {
            Some(Keycode::DpadUp)
        } else if bytes_eq_str(name, "DpadDown") {
            Some(Keycode::DpadDown)
        } else if bytes_eq_str(name, "DpadLeft") {
            Some(Keycode::DpadLeft)
        } else if bytes_eq_str(name, "DpadRight") {
            Some(Keycode::DpadRight)
        } else if bytes_eq_str(name, "DpadCenter") {
            Some(Keycode::DpadCenter)
        } else if bytes_eq_str(name, "VolumeUp") {
            Some(Keycode::VolumeUp)
        } else if bytes_eq_str(name, "VolumeDown") {
            Some(Keycode::VolumeDown)
        } else if bytes_eq_str(name, "Power") {
            Some(Keycode::Power)
        } else if bytes_eq_str(name, "Camera") {
            Some(Keycode::Camera)
        } else if bytes_eq_str(name, "Clear") {
            Some(Keycode::Clear)
        } else if bytes_eq_str(name, "A") {
            Some(Keycode::A)
        } else if bytes_eq_str(name, "B") {
            Some(Keycode::B)
        } else if bytes_eq_str(name, "C") {
            Some(Keycode::C)
        } else if bytes_eq_str(name, "D") {
            Some(Keycode::D)
        } else if bytes_eq_str(name, "E") {
            Some(Keycode::E)
        } else if bytes_eq_str(name, "F") {
            Some(Keycode::F)
        } else if bytes_eq_str(name, "G") {
            Some(Keycode::G)
        } else if bytes_eq_str(name, "H") {
            Some(Keycode::H)
        } else if bytes_eq_str(name, "I") {
            Some(Keycode::I)
        } else if bytes_eq_str(name, "J") {
            Some(Keycode::J)
        } else if bytes_eq_str(name, "K") {
            Some(Keycode::K)
        } else if bytes_eq_str(name, "L") {
            Some(Keycode::L)
        } else if bytes_eq_str(name, "M") {
            Some(Keycode::M)
        } else if bytes_eq_str(name, "N") {
            Some(Keycode::N)
        } else if bytes_eq_str(name, "O") {
            Some(Keycode::O)
        } else if bytes_eq_str(name, "P") {
            Some(Keycode::P)
        } else if bytes_eq_str(name, "Q") {
            Some(Keycode::Q)
        } else if bytes_eq_str(name, "R") {
            Some(Keycode::R)
        } else if bytes_eq_str(name, "S") {
            Some(Keycode::S)
        } else if bytes_eq_str(name, "T") {
            Some(Keycode::T)
        } else if bytes_eq_str(name, "U") {
            Some(Keycode::U)
        } else if bytes_eq_str(name, "V") {
            Some(Keycode::V)
        } else if bytes_eq_str(name, "W") {
            Some(Keycode::W)
        } else if bytes_eq_str(name, "X") {
            Some(Keycode::X)
        } else if bytes_eq_str(name, "Y") {
            Some(Keycode::Y)
        } else if bytes_eq_str(name, "Z") {
            Some(Keycode::Z)
        } else if bytes_eq_str(name, "Comma") {
            Some(Keycode::Comma)
        } else if bytes_eq_str(name, "Period") {
            Some(Keycode::Period)
        } else if bytes_eq_str(name, "AltLeft") {
            Some(Keycode::AltLeft)
        } else if bytes_eq_str(name, "AltRight") {
            Some(Keycode::AltRight)
        } else if bytes_eq_str(name, "ShiftLeft") {
            Some(Keycode::ShiftLeft)
        } else if bytes_eq_str(name, "ShiftRight") {
            Some(Keycode::ShiftRight)
        } else if bytes_eq_str(name, "Tab") {
            Some(Keycode::Tab)
        } else if bytes_eq_str(name, "Space") {
            Some(Keycode::Space)
        } else if bytes_eq_str(name, "Sym") {
            Some(Keycode::Sym)
        } else if bytes_eq_str(name, "Explorer") {
            Some(Keycode::Explorer)
        } else if bytes_eq_str(name, "Envelope") {
            Some(Keycode::Envelope)
        } else if bytes_eq_str(name, "Enter") {
            Some(Keycode::Enter)
        } else if bytes_eq_str(name, "Del") {
            Some(Keycode::Del)
        } else if bytes_eq_str(name, "Grave") {
            Some(Keycode::Grave)
        } else if bytes_eq_str(name, "Minus") {
            Some(Keycode::Minus)
        } else if bytes_eq_str(name, "Equals") {
            Some(Keycode::Equals)
        } else if bytes_eq_str(name, "LeftBracket") {
            Some(Keycode::LeftBracket)
        } else if bytes_eq_str(name, "RightBracket") {
            Some(Keycode::RightBracket)
        } else if bytes_eq_str(name, "Backslash") {
            Some(Keycode::Backslash)
        } else if bytes_eq_str(name, "Semicolon") {
            Some(Keycode::Semicolon)
        } else if bytes_eq_str(name, "Apostrophe") {
            Some(Keycode::Apostrophe)
        } else if bytes_eq_str(name, "Slash") {
            Some(Keycode::Slash)
        } else if bytes_eq_str(name, "At") {
            Some(Keycode::At)
        } else if bytes_eq_str(name, "Num") {
            Some(Keycode::Num)
        } else if bytes_eq_str(name, "Headsethook") {
            Some(Keycode::Headsethook)
        } else if bytes_eq_str(name, "Focus") {
            Some(Keycode::Focus)
        } else if bytes_eq_str(name, "Plus") {
            Some(Keycode::Plus)
        } else if bytes_eq_str(name, "Menu") {
            Some(Keycode::Menu)
        } else if bytes_eq_str(name, "Notification") {
            Some(Keycode::Notification)
        } else if bytes_eq_str(name, "Search") {
            Some(Keycode::Search)
        } else if bytes_eq_str(name, "MediaPlayPause") {
            Some(Keycode::MediaPlayPause)
        } else if bytes_eq_str(name, "MediaStop") {
            Some(Keycode::MediaStop)
        } else if bytes_eq_str(name, "MediaNext") {
            Some(Keycode::MediaNext)
        } else if bytes_eq_str(name, "MediaPrevious") {
            Some(Keycode::MediaPrevious)
        } else if bytes_eq_str(name, "MediaRewind") {
            Some(Keycode::MediaRewind)
        } else if bytes_eq_str(name, "MediaFastForward") {
            Some(Keycode::MediaFastForward)
        } else if bytes_eq_str(name, "Mute") {
            Some(Keycode::Mute)
        } else if bytes_eq_str(name, "PageUp") {
            Some(Keycode::PageUp)
        } else if bytes_eq_str(name, "PageDown") {
            Some(Keycode::PageDown)
        } else if bytes_eq_str(name, "Pictsymbols") {
            Some(Keycode::Pictsymbols)
        } else if bytes_eq_str(name, "SwitchCharset") {
            Some(Keycode::SwitchCharset)
        } else if bytes_eq_str(name, "ButtonA") {
            Some(Keycode::ButtonA)
        } else if bytes_eq_str(name, "ButtonB") {
            Some(Keycode::ButtonB)
        } else if bytes_eq_str(name, "ButtonC") {
            Some(Keycode::ButtonC)
        } else if bytes_eq_str(name, "ButtonX") {
            Some(Keycode::ButtonX)
        } else if bytes_eq_str(name, "ButtonY") {
            Some(Keycode::ButtonY)
        } else if bytes_eq_str(name, "ButtonZ") {
            Some(Keycode::ButtonZ)
        } else if bytes_eq_str(name, "ButtonL1") {
            Some(Keycode::ButtonL1)
        } else if bytes_eq_str(name, "ButtonR1") {
            Some(Keycode::ButtonR1)
        } else if bytes_eq_str(name, "ButtonL2") {
            Some(Keycode::ButtonL2)
        } else if bytes_eq_str(name, "ButtonR2") {
            Some(Keycode::ButtonR2)
        } else if bytes_eq_str(name, "ButtonThumbl") {
            Some(Keycode::ButtonThumbl)
        } else if bytes_eq_str(name, "ButtonThumbr") {
            Some(Keycode::ButtonThumbr)
        } else if bytes_eq_str(name, "ButtonStart") {
            Some(Keycode::ButtonStart)
        } else if bytes_eq_str(name, "ButtonSelect") {
            Some(Keycode::ButtonSelect)
        } else if bytes_eq_str(name, "ButtonMode") {
            Some(Keycode::ButtonMode)
        } else if bytes_eq_str(name, "Escape") {
            Some(Keycode::Escape)
        } else if bytes_eq_str(name, "ForwardDel") {
            Some(Keycode::ForwardDel)
        } else if bytes_eq_str(name, "CtrlLeft") {
            Some(Keycode::CtrlLeft)
        } else if bytes_eq_str(name, "CtrlRight") {
            Some(Keycode::CtrlRight)
        } else if bytes_eq_str(name, "CapsLock") {
            Some(Keycode::CapsLock)
        } else if bytes_eq_str(name, "ScrollLock") {
            Some(Keycode::ScrollLock)
        } else if bytes_eq_str(name, "MetaLeft") {
            Some(Keycode::MetaLeft)
        } else if bytes_eq_str(name, "MetaRight") {
            Some(Keycode::MetaRight)
        } else if bytes_eq_str(name, "Function") {
            Some(Keycode::Function)
        } else if bytes_eq_str(name, "Sysrq") {
            Some(Keycode::Sysrq)
        } else if bytes_eq_str(name, "Break") {
            Some(Keycode::Break)
        } else if bytes_eq_str(name, "MoveHome") {
            Some(Keycode::MoveHome)
        } else if bytes_eq_str(name, "MoveEnd") {
            Some(Keycode::MoveEnd)
        } else if bytes_eq_str(name, "Insert") {
            Some(Keycode::Insert)
        } else if bytes_eq_str(name, "Forward") {
            Some(Keycode::Forward)
        } else if bytes_eq_str(name, "MediaPlay") {
            Some(Keycode::MediaPlay)
        } else if bytes_eq_str(name, "MediaPause") {
            Some(Keycode::MediaPause)
        } else if bytes_eq_str(name, "MediaClose") {
            Some(Keycode::MediaClose)
        } else if bytes_eq_str(name, "MediaEject") {
            Some(Keycode::MediaEject)
        } else if bytes_eq_str(name, "MediaRecord") {
            Some(Keycode::MediaRecord)
        } else if bytes_eq_str(name, "F1") {
            Some(Keycode::F1)
        } else if bytes_eq_str(name, "F2") {
            Some(Keycode::F2)
        } else if bytes_eq_str(name, "F3") {
            Some(Keycode::F3)
        } else if bytes_eq_str(name, "F4") {
            Some(Keycode::F4)
        } else if bytes_eq_str(name, "F5") {
            Some(Keycode::F5)
        } else if bytes_eq_str(name, "F6") {
            Some(Keycode::F6)
        } else if bytes_eq_str(name, "F7") {
            Some(Keycode::F7)
        } else if bytes_eq_str(name, "F8") {
            Some(Keycode::F8)
        } else if bytes_eq_str(name, "F9") {
            Some(Keycode::F9)
        } else if bytes_eq_str(name, "F10") {
            Some(Keycode::F10)
        } else if bytes_eq_str(name, "F11") {
            Some(Keycode::F11)
        } else if bytes_eq_str(name, "F12") {
            Some(Keycode::F12)
        } else if bytes_eq_str(name, "NumLock") {
            Some(Keycode::NumLock)
        } else if bytes_eq_str(name, "Numpad0") {
            Some(Keycode::Numpad0)
        } else if bytes_eq_str(name, "Numpad1") {
            Some(Keycode::Numpad1)
        } else if bytes_eq_str(name, "Numpad2") {
            Some(Keycode::Numpad2)
        } else if bytes_eq_str(name, "Numpad3") {
            Some(Keycode::Numpad3)
        } else if bytes_eq_str(name, "Numpad4") {
            Some(Keycode::Numpad4)
        } else if bytes_eq_str(name, "Numpad5") {
            Some(Keycode::Numpad5)
        } else if bytes_eq_str(name, "Numpad6") {
            Some(Keycode::Numpad6)
        } else if bytes_eq_str(name, "Numpad7") {
            Some(Keycode::Numpad7)
        } else if bytes_eq_str(name, "Numpad8") {
            Some(Keycode::Numpad8)
        } else if bytes_eq_str(name, "Numpad9") {
            Some(Keycode::Numpad9)
        } else if bytes_eq_str(name, "NumpadDivide") {
            Some(Keycode::NumpadDivide)
        } else if bytes_eq_str(name, "NumpadMultiply") {
            Some(Keycode::NumpadMultiply)
        } else if bytes_eq_str(name, "NumpadSubtract") {
            Some(Keycode::NumpadSubtract)
        } else if bytes_eq_str(name, "NumpadAdd") {
            Some(Keycode::NumpadAdd)
        } else if bytes_eq_str(name, "NumpadDot") {
            Some(Keycode::NumpadDot)
        } else if bytes_eq_str(name, "NumpadComma") {
            Some(Keycode::NumpadComma)
        } else if bytes_eq_str(name, "NumpadEnter") {
            Some(Keycode::NumpadEnter)
        } else if bytes_eq_str(name, "NumpadEquals") {
            Some(Keycode::NumpadEquals)
        } else if bytes_eq_str(name, "NumpadLeftParen") {
            Some(Keycode::NumpadLeftParen)
        } else if bytes_eq_str(name, "NumpadRightParen") {
            Some(Keycode::NumpadRightParen)
        } else if bytes_eq_str(name, "VolumeMute") {
            Some(Keycode::VolumeMute)
        } else if bytes_eq_str(name, "Info") {
            Some(Keycode::Info)
        } else if bytes_eq_str(name, "ChannelUp") {
            Some(Keycode::ChannelUp)
        } else if bytes_eq_str(name, "ChannelDown") {
            Some(Keycode::ChannelDown)
        } else if bytes_eq_str(name, "ZoomIn") {
            Some(Keycode::ZoomIn)
        } else if bytes_eq_str(name, "ZoomOut") {
            Some(Keycode::ZoomOut)
        } else if bytes_eq_str(name, "Tv") {
            Some(Keycode::Tv)
        } else if bytes_eq_str(name, "Window") {
            Some(Keycode::Window)
        } else if bytes_eq_str(name, "Guide") {
            Some(Keycode::Guide)
        } else if bytes_eq_str(name, "Dvr") {
            Some(Keycode::Dvr)
        } else if bytes_eq_str(name, "Bookmark") {
            Some(Keycode::Bookmark)
        } else if bytes_eq_str(name, "Captions") {
            Some(Keycode::Captions)
        } else if bytes_eq_str(name, "Settings") {
            Some(Keycode::Settings)
        } else if bytes_eq_str(name, "TvPower") {
            Some(Keycode::TvPower)
        } else if bytes_eq_str(name, "TvInput") {
            Some(Keycode::TvInput)
        } else if bytes_eq_str(name, "StbPower") {
            Some(Keycode::StbPower)
        } else if bytes_eq_str(name, "StbInput") {
            Some(Keycode::StbInput)
        } else if bytes_eq_str(name, "AvrPower") {
            Some(Keycode::AvrPower)
        } else if bytes_eq_str(name, "AvrInput") {
            Some(Keycode::AvrInput)
        } else if bytes_eq_str(name, "ProgRed") {
            Some(Keycode::ProgRed)
        } else if bytes_eq_str(name, "ProgGreen") {
            Some(Keycode::ProgGreen)
        } else if bytes_eq_str(name, "ProgYellow") {
            Some(Keycode::ProgYellow)
        } else if bytes_eq_str(name, "ProgBlue") {
            Some(Keycode::ProgBlue)
        } else if bytes_eq_str(name, "AppSwitch") {
            Some(Keycode::AppSwitch)
        } else if bytes_eq_str(name, "Button1") {
            Some(Keycode::Button1)
        } else if bytes_eq_str(name, "Button2") {
            Some(Keycode::Button2)
        } else if bytes_eq_str(name, "Button3") {
            Some(Keycode::Button3)
        } else if bytes_eq_str(name, "Button4") {
            Some(Keycode::Button4)
        } else if bytes_eq_str(name, "Button5") {
            Some(Keycode::Button5)
        } else if bytes_eq_str(name, "Button6") {
            Some(Keycode::Button6)
        } else if bytes_eq_str(name, "Button7") {
            Some(Keycode::Button7)
        } else if bytes_eq_str(name, "Button8") {
            Some(Keycode::Button8)
        } else if bytes_eq_str(name, "Button9") {
            Some(Keycode::Button9)
        } else if bytes_eq_str(name, "Button10") {
            Some(Keycode::Button10)
        } else if bytes_eq_str(name, "Button11") {
            Some(Keycode::Button11)
        } else if bytes_eq_str(name, "Button12") {
            Some(Keycode::Button12)
        } else if bytes_eq_str(name, "Button13") {
            Some(Keycode::Button13)
        } else if bytes_eq_str(name, "Button14") {
            Some(Keycode::Button14)
        } else if bytes_eq_str(name, "Button15") {
            Some(Keycode::Button15)
        } else if bytes_eq_str(name, "Button16") {
            Some(Keycode::Button16)
        } else if bytes_eq_str(name, "LanguageSwitch") {
            Some(Keycode::LanguageSwitch)
        } else if bytes_eq_str(name, "MannerMode") {
            Some(Keycode::MannerMode)
        } else if bytes_eq_str(name, "Keycode3dMode") {
            Some(Keycode::Keycode3dMode)
        } else if bytes_eq_str(name, "Contacts") {
            Some(Keycode::Contacts)
        } else if bytes_eq_str(name, "Calendar") {
            Some(Keycode::Calendar)
        } else if bytes_eq_str(name, "Music") {
            Some(Keycode::Music)
        } else if bytes_eq_str(name, "Calculator") {
            Some(Keycode::Calculator)
        } else if bytes_eq_str(name, "ZenkakuHankaku") {
            Some(Keycode::ZenkakuHankaku)
        } else if bytes_eq_str(name, "Eisu") {
            Some(Keycode::Eisu)
        } else if bytes_eq_str(name, "Muhenkan") {
            Some(Keycode::Muhenkan)
        } else if bytes_eq_str(name, "Henkan") {
            Some(Keycode::Henkan)
        } else if bytes_eq_str(name, "KatakanaHiragana") {
            Some(Keycode::KatakanaHiragana)
        } else if bytes_eq_str(name, "Yen") {
            Some(Keycode::Yen)
        } else if bytes_eq_str(name, "Ro") {
            Some(Keycode::Ro)
        } else if bytes_eq_str(name, "Kana") {
            Some(Keycode::Kana)
        } else if bytes_eq_str(name, "Assist") {
            Some(Keycode::Assist)
        } else if bytes_eq_str(name, "BrightnessDown") {
            Some(Keycode::BrightnessDown)
        } else if bytes_eq_str(name, "BrightnessUp") {
            Some(Keycode::BrightnessUp)
        } else if bytes_eq_str(name, "MediaAudioTrack") {
            Some(Keycode::MediaAudioTrack)
        } else if bytes_eq_str(name, "Sleep") {
            Some(Keycode::Sleep)
        } else if bytes_eq_str(name, "Wakeup") {
            Some(Keycode::Wakeup)
        } else if bytes_eq_str(name, "Pairing") {
            Some(Keycode::Pairing)
        } else if bytes_eq_str(name, "MediaTopMenu") {
            Some(Keycode::MediaTopMenu)
        } else if bytes_eq_str(name, "Keycode11") {
            Some(Keycode::Keycode11)
        } else if bytes_eq_str(name, "Keycode12") {
            Some(Keycode::Keycode12)
        } else if bytes_eq_str(name, "LastChannel") {
            Some(Keycode::LastChannel)
        } else if bytes_eq_str(name, "TvDataService") {
            Some(Keycode::TvDataService)
        } else if bytes_eq_str(name, "VoiceAssist") {
            Some(Keycode::VoiceAssist)
        } else if bytes_eq_str(name, "TvRadioService") {
            Some(Keycode::TvRadioService)
        } else if bytes_eq_str(name, "TvTeletext") {
            Some(Keycode::TvTeletext)
        } else if bytes_eq_str(name, "TvNumberEntry") {
            Some(Keycode::TvNumberEntry)
        } else if bytes_eq_str(name, "TvTerrestrialAnalog") {
            Some(Keycode::TvTerrestrialAnalog)
        } else if bytes_eq_str(name, "TvTerrestrialDigital") {
            Some(Keycode::TvTerrestrialDigital)
        } else if bytes_eq_str(name, "TvSatellite") {
            Some(Keycode::TvSatellite)
        } else if bytes_eq_str(name, "TvSatelliteBs") {
            Some(Keycode::TvSatelliteBs)
        } else if bytes_eq_str(name, "TvSatelliteCs") {
            Some(Keycode::TvSatelliteCs)
        } else if bytes_eq_str(name, "TvSatelliteService") {
            Some(Keycode::TvSatelliteService)
        } else if bytes_eq_str(name, "TvNetwork") {
            Some(Keycode::TvNetwork)
        } else if bytes_eq_str(name, "TvAntennaCable") {
            Some(Keycode::TvAntennaCable)
        } else if bytes_eq_str(name, "TvInputHdmi1") {
            Some(Keycode::TvInputHdmi1)
        } else if bytes_eq_str(name, "TvInputHdmi2") {
            Some(Keycode::TvInputHdmi2)
        } else if bytes_eq_str(name, "TvInputHdmi3") {
            Some(Keycode::TvInputHdmi3)
        } else if bytes_eq_str(name, "TvInputHdmi4") {
            Some(Keycode::TvInputHdmi4)
        } else if bytes_eq_str(name, "TvInputComposite1") {
            Some(Keycode::TvInputComposite1)
        } else if bytes_eq_str(name, "TvInputComposite2") {
            Some(Keycode::TvInputComposite2)
        } else if bytes_eq_str(name, "TvInputComponent1") {
            Some(Keycode::TvInputComponent1)
        } else if bytes_eq_str(name, "TvInputComponent2") {
            Some(Keycode::TvInputComponent2)
        } else if bytes_eq_str(name, "TvInputVga1") {
            Some(Keycode::TvInputVga1)
        } else if bytes_eq_str(name, "TvAudioDescription") {
            Some(Keycode::TvAudioDescription)
        } else if bytes_eq_str(name, "TvAudioDescriptionMixUp") {
            Some(Keycode::TvAudioDescriptionMixUp)
        } else if bytes_eq_str(name, "TvAudioDescriptionMixDown") {
            Some(Keycode::TvAudioDescriptionMixDown)
        } else if bytes_eq_str(name, "TvZoomMode") {
            Some(Keycode::TvZoomMode)
        } else if bytes_eq_str(name, "TvContentsMenu") {
            Some(Keycode::TvContentsMenu)
        } else if bytes_eq_str(name, "TvMediaContextMenu") {
            Some(Keycode::TvMediaContextMenu)
        } else if bytes_eq_str(name, "TvTimerProgramming") {
            Some(Keycode::TvTimerProgramming)
        } else if bytes_eq_str(name, "Help") {
            Some(Keycode::Help)
        } else if bytes_eq_str(name, "NavigatePrevious") {
            Some(Keycode::NavigatePrevious)
        } else if bytes_eq_str(name, "NavigateNext") {
            Some(Keycode::NavigateNext)
        } else if bytes_eq_str(name, "NavigateIn") {
            Some(Keycode::NavigateIn)
        } else if bytes_eq_str(name, "NavigateOut") {
            Some(Keycode::NavigateOut)
        } else if bytes_eq_str(name, "StemPrimary") {
            Some(Keycode::StemPrimary)
        } else if bytes_eq_str(name, "Stem1") {
            Some(Keycode::Stem1)
        } else if bytes_eq_str(name, "Stem2") {
            Some(Keycode::Stem2)
        } else if bytes_eq_str(name, "Stem3") {
            Some(Keycode::Stem3)
        } else if bytes_eq_str(name, "DpadUpLeft") {
            Some(Keycode::DpadUpLeft)
        } else if bytes_eq_str(name, "DpadDownLeft") {
            Some(Keycode::DpadDownLeft)
        } else if bytes_eq_str(name, "DpadUpRight") {
            Some(Keycode::DpadUpRight)
        } else if bytes_eq_str(name, "DpadDownRight") {
            Some(Keycode::DpadDownRight)
        } else if bytes_eq_str(name, "MediaSkipForward") {
            Some(Keycode::MediaSkipForward)
        } else if bytes_eq_str(name, "MediaSkipBackward") {
            Some(Keycode::MediaSkipBackward)
        } else if bytes_eq_str(name, "MediaStepForward") {
            Some(Keycode::MediaStepForward)
        } else if bytes_eq_str(name, "MediaStepBackward") {
            Some(Keycode::MediaStepBackward)
        } else if bytes_eq_str(name, "SoftSleep") {
            Some(Keycode::SoftSleep)
        } else if bytes_eq_str(name, "Cut") {
            Some(Keycode::Cut)
        } else if bytes_eq_str(name, "Copy") {
            Some(Keycode::Copy)
        } else if bytes_eq_str(name, "Paste") {
            Some(Keycode::Paste)
        } else if bytes_eq_str(name, "SystemNavigationUp") {
            Some(Keycode::SystemNavigationUp)
        } else if bytes_eq_str(name, "SystemNavigationDown") {
            Some(Keycode::SystemNavigationDown)
        } else if bytes_eq_str(name, "SystemNavigationLeft") {
            Some(Keycode::SystemNavigationLeft)
        } else if bytes_eq_str(name, "SystemNavigationRight") {
            Some(Keycode::SystemNavigationRight)
        } else if bytes_eq_str(name, "AllApps") {
            Some(Keycode::AllApps)
        } else if bytes_eq_str(name, "Refresh") {
            Some(Keycode::Refresh)
        } else if bytes_eq_str(name, "ThumbsUp") {
            Some(Keycode::ThumbsUp)
        } else if bytes_eq_str(name, "ThumbsDown") {
            Some(Keycode::ThumbsDown)
        } else if bytes_eq_str(name, "ProfileSwitch") {
            Some(Keycode::ProfileSwitch)
        } else {
            None
        }
    }
}

/// A physical key on the host, named as the windowing layer reports it.
#[derive(Debug, Clone, Copy, PartialEq, Eq, Hash, Structural)]
pub enum HostKey {
    Backquote,
    Backslash,
    BracketLeft,
    BracketRight,
    Comma,
    Digit0,
    Digit1,
    Digit2,
    Digit3,
    Digit4,
    Digit5,
    Digit6,
    Digit7,
    Digit8,
    Digit9,
    Equal,
    IntlBackslash,
    IntlRo,
    IntlYen,
    KeyA,
    KeyB,
    KeyC,
    KeyD,
    KeyE,
    KeyF,
    KeyG,
    KeyH,
    KeyI,
    KeyJ,
    KeyK,
    KeyL,
    KeyM,
    KeyN,
    KeyO,
    KeyP,
    KeyQ,
    KeyR,
    KeyS,
    KeyT,
    KeyU,
    KeyV,
    KeyW,
    KeyX,
    KeyY,
    KeyZ,
    Minus,
    Period,
    Quote,
    Semicolon,
    Slash,
    AltLeft,
    AltRight,
    Backspace,
    CapsLock,
    ControlLeft,
    ControlRight,
    Enter,
    SuperLeft,
    SuperRight,
    ShiftLeft,
    ShiftRight,
    Space,
    Tab,
    Delete,
    End,
    Help,
    Home,
    Insert,
    PageDown,
    PageUp,
    ArrowDown,
    ArrowLeft,
    ArrowRight,
    ArrowUp,
    NumLock,
    Numpad0,
    Numpad1,
    Numpad2,
    Numpad3,
    Numpad4,
    Numpad5,
    Numpad6,
    Numpad7,
    Numpad8,
    Numpad9,
    NumpadAdd,
    NumpadComma,
    NumpadDecimal,
    NumpadDivide,
    NumpadEnter,
    NumpadEqual,
    NumpadMultiply,
    NumpadParenLeft,
    NumpadParenRight,
    NumpadSubtract,
    Escape,
    Fn,
    PrintScreen,
    ScrollLock,
    Pause,
    MediaPlayPause,
    MediaStop,
    MediaTrackNext,
    MediaTrackPrevious,
    Power,
    Sleep,
    AudioVolumeDown,
    AudioVolumeMute,
    AudioVolumeUp,
    WakeUp,
    NumpadBackspace,
    NumpadClear,
    NumpadClearEntry,
    NumpadHash,
    NumpadStar,
    Copy,
    Cut,
    Paste,
    F1,
    F2,
    F3,
    F4,
    F5,
    F6,
    F7,
    F8,
    F9,
    F10,
    F11,
    F12,
}

/// The Android keycode that raw-input mode sends for a host key. This is
/// the fixed translation table; a host key outside it is dropped.
pub open spec fn spec_host_keycode(key: HostKey) -> Keycode {
    match key {
        HostKey::Backquote => Keycode::Grave,
        HostKey::Backslash => Keycode::Backslash,
        HostKey::BracketLeft => Keycode::LeftBracket,
        HostKey::BracketRight => Keycode::RightBracket,
        HostKey::Comma => Keycode::Comma,
        HostKey::Digit0 => Keycode::Keycode0,
        HostKey::Digit1 => Keycode::Keycode1,
        HostKey::Digit2 => Keycode::Keycode2,
        HostKey::Digit3 => Keycode::Keycode3,
        HostKey::Digit4 => Keycode::Keycode4,
        HostKey::Digit5 => Keycode::Keycode5,
        HostKey::Digit6 => Keycode::Keycode6,
        HostKey::Digit7 => Keycode::Keycode7,
        HostKey::Digit8 => Keycode::Keycode8,
        HostKey::Digit9 => Keycode::Keycode9,
        HostKey::Equal => Keycode::Equals,
        HostKey::IntlBackslash => Keycode::Backslash,
        HostKey::IntlRo => Keycode::Ro,
        HostKey::IntlYen => Keycode::Yen,
        HostKey::KeyA => Keycode::A,
        HostKey::KeyB => Keycode::B,
        HostKey::KeyC => Keycode::C,
        HostKey::KeyD => Keycode::D,
        HostKey::KeyE => Keycode::E,
        HostKey::KeyF => Keycode::F,
        HostKey::KeyG => Keycode::G,
        HostKey::KeyH => Keycode::H,
        HostKey::KeyI => Keycode::I,
        HostKey::KeyJ => Keycode::J,
        HostKey::KeyK => Keycode::K,
        HostKey::KeyL => Keycode::L,
        HostKey::KeyM => Keycode::M,
        HostKey::KeyN => Keycode::N,
        HostKey::KeyO => Keycode::O,
        HostKey::KeyP => Keycode::P,
        HostKey::KeyQ => Keycode::Q,
        HostKey::KeyR => Keycode::R,
        HostKey::KeyS => Keycode::S,
        HostKey::KeyT => Keycode::T,
        HostKey::KeyU => Keycode::U,
        HostKey::KeyV => Keycode::V,
        HostKey::KeyW => Keycode::W,
        HostKey::KeyX => Keycode::X,
        HostKey::KeyY => Keycode::Y,
        HostKey::KeyZ => Keycode::Z,
        HostKey::Minus => Keycode::Minus,
        HostKey::Period => Keycode::Period,
        HostKey::Quote => Keycode::Apostrophe,
        HostKey::Semicolon => Keycode::Semicolon,
        HostKey::Slash => Keycode::Slash,
        HostKey::AltLeft => Keycode::AltLeft,
        HostKey::AltRight => Keycode::AltRight,
        HostKey::Backspace => Keycode::Del,
        HostKey::CapsLock => Keycode::CapsLock,
        HostKey::ControlLeft => Keycode::CtrlLeft,
        HostKey::ControlRight => Keycode::CtrlRight,
        HostKey::Enter => Keycode::Enter,
        HostKey::SuperLeft => Keycode::MetaLeft,
        HostKey::SuperRight => Keycode::MetaRight,
        HostKey::ShiftLeft => Keycode::ShiftLeft,
        HostKey::ShiftRight => Keycode::ShiftRight,
        HostKey::Space => Keycode::Space,
        HostKey::Tab => Keycode::Tab,
        HostKey::Delete => Keycode::ForwardDel,
        HostKey::End => Keycode::MoveEnd,
        HostKey::Help => Keycode::Help,
        HostKey::Home => Keycode::MoveHome,
        HostKey::Insert => Keycode::Insert,
        HostKey::PageDown => Keycode::PageDown,
        HostKey::PageUp => Keycode::PageUp,
        HostKey::ArrowDown => Keycode::DpadDown,
        HostKey::ArrowLeft => Keycode::DpadLeft,
        HostKey::ArrowRight => Keycode::DpadRight,
        HostKey::ArrowUp => Keycode::DpadUp,
        HostKey::NumLock => Keycode::NumLock,
        HostKey::Numpad0 => Keycode::Numpad0,
        HostKey::Numpad1 => Keycode::Numpad1,
        HostKey::Numpad2 => Keycode::Numpad2,
        HostKey::Numpad3 => Keycode::Numpad3,
        HostKey::Numpad4 => Keycode::Numpad4,
        HostKey::Numpad5 => Keycode::Numpad5,
        HostKey::Numpad6 => Keycode::Numpad6,
        HostKey::Numpad7 => Keycode::Numpad7,
        HostKey::Numpad8 => Keycode::Numpad8,
        HostKey::Numpad9 => Keycode::Numpad9,
        HostKey::NumpadAdd => Keycode::NumpadAdd,
        HostKey::NumpadComma => Keycode::NumpadComma,
        HostKey::NumpadDecimal => Keycode::NumpadDot,
        HostKey::NumpadDivide => Keycode::NumpadDivide,
        HostKey::NumpadEnter => Keycode::NumpadEnter,
        HostKey::NumpadEqual => Keycode::NumpadEquals,
        HostKey::NumpadMultiply => Keycode::NumpadMultiply,
        HostKey::NumpadParenLeft => Keycode::NumpadLeftParen,
        HostKey::NumpadParenRight => Keycode::NumpadRightParen,
        HostKey::NumpadSubtract => Keycode::NumpadSubtract,
        HostKey::Escape => Keycode::Escape,
        HostKey::Fn => Keycode::Function,
        HostKey::PrintScreen => Keycode::Sysrq,
        HostKey::ScrollLock => Keycode::ScrollLock,
        HostKey::Pause => Keycode::Break,
        HostKey::MediaPlayPause => Keycode::MediaPlayPause,
        HostKey::MediaStop => Keycode::MediaStop,
        HostKey::MediaTrackNext => Keycode::MediaNext,
        HostKey::MediaTrackPrevious => Keycode::MediaPrevious,
        HostKey::Power => Keycode::Power,
        HostKey::Sleep => Keycode::Sleep,
        HostKey::AudioVolumeDown => Keycode::VolumeDown,
        HostKey::AudioVolumeMute => Keycode::Mute,
        HostKey::AudioVolumeUp => Keycode::VolumeUp,
        HostKey::WakeUp => Keycode::Wakeup,
        HostKey::NumpadBackspace => Keycode::Del,
        HostKey::NumpadClear => Keycode::Clear,
        HostKey::NumpadClearEntry => Keycode::Clear,
        HostKey::NumpadHash => Keycode::Pound,
        HostKey::NumpadStar => Keycode::Star,
        HostKey::Copy => Keycode::Copy,
        HostKey::Cut => Keycode::Cut,
        HostKey::Paste => Keycode::Paste,
        HostKey::F1 => Keycode::F1,
        HostKey::F2 => Keycode::F2,
        HostKey::F3 => Keycode::F3,
        HostKey::F4 => Keycode::F4,
        HostKey::F5 => Keycode::F5,
        HostKey::F6 => Keycode::F6,
        HostKey::F7 => Keycode::F7,
        HostKey::F8 => Keycode::F8,
        HostKey::F9 => Keycode::F9,
        HostKey::F10 => Keycode::F10,
        HostKey::F11 => Keycode::F11,
        HostKey::F12 => Keycode::F12,
    }
}

/// Translates a host key to the Android keycode raw-input mode sends.
#[verifier::when_used_as_spec(spec_host_keycode)]
pub fn get_keycode(key: HostKey) -> (r: Keycode)
    ensures
        r == spec_host_keycode(key),
{
    match key {
        HostKey::Backquote => Keycode::Grave,
        HostKey::Backslash => Keycode::Backslash,
        HostKey::BracketLeft => Keycode::LeftBracket,
        HostKey::BracketRight => Keycode::RightBracket,
        HostKey::Comma => Keycode::Comma,
        HostKey::Digit0 => Keycode::Keycode0,
        HostKey::Digit1 => Keycode::Keycode1,
        HostKey::Digit2 => Keycode::Keycode2,
        HostKey::Digit3 => Keycode::Keycode3,
        HostKey::Digit4 => Keycode::Keycode4,
        HostKey::Digit5 => Keycode::Keycode5,
        HostKey::Digit6 => Keycode::Keycode6,
        HostKey::Digit7 => Keycode::Keycode7,
        HostKey::Digit8 => Keycode::Keycode8,
        HostKey::Digit9 => Keycode::Keycode9,
        HostKey::Equal => Keycode::Equals,
        HostKey::IntlBackslash => Keycode::Backslash,
        HostKey::IntlRo => Keycode::Ro,
        HostKey::IntlYen => Keycode::Yen,
        HostKey::KeyA => Keycode::A,
        HostKey::KeyB => Keycode::B,
        HostKey::KeyC => Keycode::C,
        HostKey::KeyD => Keycode::D,
        HostKey::KeyE => Keycode::E,
        HostKey::KeyF => Keycode::F,
        HostKey::KeyG => Keycode::G,
        HostKey::KeyH => Keycode::H,
        HostKey::KeyI => Keycode::I,
        HostKey::KeyJ => Keycode::J,
        HostKey::KeyK => Keycode::K,
        HostKey::KeyL => Keycode::L,
        HostKey::KeyM => Keycode::M,
        HostKey::KeyN => Keycode::N,
        HostKey::KeyO => Keycode::O,
        HostKey::KeyP => Keycode::P,
        HostKey::KeyQ => Keycode::Q,
        HostKey::KeyR => Keycode::R,
        HostKey::KeyS => Keycode::S,
        HostKey::KeyT => Keycode::T,
        HostKey::KeyU => Keycode::U,
        HostKey::KeyV => Keycode::V,
        HostKey::KeyW => Keycode::W,
        HostKey::KeyX => Keycode::X,
        HostKey::KeyY => Keycode::Y,
        HostKey::KeyZ => Keycode::Z,
        HostKey::Minus => Keycode::Minus,
        HostKey::Period => Keycode::Period,
        HostKey::Quote => Keycode::Apostrophe,
        HostKey::Semicolon => Keycode::Semicolon,
        HostKey::Slash => Keycode::Slash,
        HostKey::AltLeft => Keycode::AltLeft,
        HostKey::AltRight => Keycode::AltRight,
        HostKey::Backspace => Keycode::Del,
        HostKey::CapsLock => Keycode::CapsLock,
        HostKey::ControlLeft => Keycode::CtrlLeft,
        HostKey::ControlRight => Keycode::CtrlRight,
        HostKey::Enter => Keycode::Enter,
        HostKey::SuperLeft => Keycode::MetaLeft,
        HostKey::SuperRight => Keycode::MetaRight,
        HostKey::ShiftLeft => Keycode::ShiftLeft,
        HostKey::ShiftRight => Keycode::ShiftRight,
        HostKey::Space => Keycode::Space,
        HostKey::Tab => Keycode::Tab,
        HostKey::Delete => Keycode::ForwardDel,
        HostKey::End => Keycode::MoveEnd,
        HostKey::Help => Keycode::Help,
        HostKey::Home => Keycode::MoveHome,
        HostKey::Insert => Keycode::Insert,
        HostKey::PageDown => Keycode::PageDown,
        HostKey::PageUp => Keycode::PageUp,
        HostKey::ArrowDown => Keycode::DpadDown,
        HostKey::ArrowLeft => Keycode::DpadLeft,
        HostKey::ArrowRight => Keycode::DpadRight,
        HostKey::ArrowUp => Keycode::DpadUp,
        HostKey::NumLock => Keycode::NumLock,
        HostKey::Numpad0 => Keycode::Numpad0,
        HostKey::Numpad1 => Keycode::Numpad1,
        HostKey::Numpad2 => Keycode::Numpad2,
        HostKey::Numpad3 => Keycode::Numpad3,
        HostKey::Numpad4 => Keycode::Numpad4,
        HostKey::Numpad5 => Keycode::Numpad5,
        HostKey::Numpad6 => Keycode::Numpad6,
        HostKey::Numpad7 => Keycode::Numpad7,
        HostKey::Numpad8 => Keycode::Numpad8,
        HostKey::Numpad9 => Keycode::Numpad9,
        HostKey::NumpadAdd => Keycode::NumpadAdd,
        HostKey::NumpadComma => Keycode::NumpadComma,
        HostKey::NumpadDecimal => Keycode::NumpadDot,
        HostKey::NumpadDivide => Keycode::NumpadDivide,
        HostKey::NumpadEnter => Keycode::NumpadEnter,
        HostKey::NumpadEqual => Keycode::NumpadEquals,
        HostKey::NumpadMultiply => Keycode::NumpadMultiply,
        HostKey::NumpadParenLeft => Keycode::NumpadLeftParen,
        HostKey::NumpadParenRight => Keycode::NumpadRightParen,
        HostKey::NumpadSubtract => Keycode::NumpadSubtract,
        HostKey::Escape => Keycode::Escape,
        HostKey::Fn => Keycode::Function,
        HostKey::PrintScreen => Keycode::Sysrq,
        HostKey::ScrollLock => Keycode::ScrollLock,
        HostKey::Pause => Keycode::Break,
        HostKey::MediaPlayPause => Keycode::MediaPlayPause,
        HostKey::MediaStop => Keycode::MediaStop,
        HostKey::MediaTrackNext => Keycode::MediaNext,
        HostKey::MediaTrackPrevious => Keycode::MediaPrevious,
        HostKey::Power => Keycode::Power,
        HostKey::Sleep => Keycode::Sleep,
        HostKey::AudioVolumeDown => Keycode::VolumeDown,
        HostKey::AudioVolumeMute => Keycode::Mute,
        HostKey::AudioVolumeUp => Keycode::VolumeUp,
        HostKey::WakeUp => Keycode::Wakeup,
        HostKey::NumpadBackspace => Keycode::Del,
        HostKey::NumpadClear => Keycode::Clear,
        HostKey::NumpadClearEntry => Keycode::Clear,
        HostKey::NumpadHash => Keycode::Pound,
        HostKey::NumpadStar => Keycode::Star,
        HostKey::Copy => Keycode::Copy,
        HostKey::Cut => Keycode::Cut,
        HostKey::Paste => Keycode::Paste,
        HostKey::F1 => Keycode::F1,
        HostKey::F2 => Keycode::F2,
        HostKey::F3 => Keycode::F3,
        HostKey::F4 => Keycode::F4,
        HostKey::F5 => Keycode::F5,
        HostKey::F6 => Keycode::F6,
        HostKey::F7 => Keycode::F7,
        HostKey::F8 => Keycode::F8,
        HostKey::F9 => Keycode::F9,
        HostKey::F10 => Keycode::F10,
        HostKey::F11 => Keycode::F11,
        HostKey::F12 => Keycode::F12,
    }
}

/// The meta-state bits named by one flag name, if it is known.
pub open spec fn spec_metastate_bit(name: Seq<u8>) -> Option<u32> {
        if name == "NONE".spec_bytes() {
            Some(0x0)
        } else if name == "SHIFT_ON".spec_bytes() {
            Some(0x1)
        } else if name == "ALT_ON".spec_bytes() {
            Some(0x2)
        } else if name == "SYM_ON".spec_bytes() {
            Some(0x4)
        } else if name == "FUNCTION_ON".spec_bytes() {
            Some(0x8)
        } else if name == "ALT_LEFT_ON".spec_bytes() {
            Some(0x10)
        } else if name == "ALT_RIGHT_ON".spec_bytes() {
            Some(0x20)
        } else if name == "SHIFT_LEFT_ON".spec_bytes() {
            Some(0x40)
        } else if name == "SHIFT_RIGHT_ON".spec_bytes() {
            Some(0x80)
        } else if name == "CTRL_ON".spec_bytes() {
            Some(0x1000)
        } else if name == "CTRL_LEFT_ON".spec_bytes() {
            Some(0x2000)
        } else if name == "CTRL_RIGHT_ON".spec_bytes() {
            Some(0x4000)
        } else if name == "META_ON".spec_bytes() {
            Some(0x10000)
        } else if name == "META_LEFT_ON".spec_bytes() {
            Some(0x20000)
        } else if name == "META_RIGHT_ON".spec_bytes() {
            Some(0x40000)
        } else if name == "CAPS_LOCK_ON".spec_bytes() {
            Some(0x100000)
        } else if name == "NUM_LOCK_ON".spec_bytes() {
            Some(0x200000)
        } else if name == "SCROLL_LOCK_ON".spec_bytes() {
            Some(0x400000)
        } else {
            None
        }
    }

fn metastate_bit(name: &Vec<u8>) -> (r: Option<u32>)
    ensures
        r == spec_metastate_bit(name@),
{
    if bytes_eq_str(name, "NONE") {
        Some(0x0u32)
    } else if bytes_eq_str(name, "SHIFT_ON") {
        Some(0x1u32)
    } else if bytes_eq_str(name, "ALT_ON") {
        Some(0x2u32)
    } else if bytes_eq_str(name, "SYM_ON") {
        Some(0x4u32)
    } else if bytes_eq_str(name, "FUNCTION_ON") {
        Some(0x8u32)
    } else if bytes_eq_str(name, "ALT_LEFT_ON") {
        Some(0x10u32)
    } else if bytes_eq_str(name, "ALT_RIGHT_ON") {
        Some(0x20u32)
    } else if bytes_eq_str(name, "SHIFT_LEFT_ON") {
        Some(0x40u32)
    } else if bytes_eq_str(name, "SHIFT_RIGHT_ON") {
        Some(0x80u32)
    } else if bytes_eq_str(name, "CTRL_ON") {
        Some(0x1000u32)
    } else if bytes_eq_str(name, "CTRL_LEFT_ON") {
        Some(0x2000u32)
    } else if bytes_eq_str(name, "CTRL_RIGHT_ON") {
        Some(0x4000u32)
    } else if bytes_eq_str(name, "META_ON") {
        Some(0x10000u32)
    } else if bytes_eq_str(name, "META_LEFT_ON") {
        Some(0x20000u32)
    } else if bytes_eq_str(name, "META_RIGHT_ON") {
        Some(0x40000u32)
    } else if bytes_eq_str(name, "CAPS_LOCK_ON") {
        Some(0x100000u32)
    } else if bytes_eq_str(name, "NUM_LOCK_ON") {
        Some(0x200000u32)
    } else if bytes_eq_str(name, "SCROLL_LOCK_ON") {
        Some(0x400000u32)
    } else {
        None
    }
}

/// The position of the first `|` in the bytes, or a negative value when
/// there is none.
pub open spec fn spec_find_pipe(b: Seq<u8>) -> int
    decreases b.len(),
{
    if b.len() == 0 {
        -1
    } else if b[0] == 0x7C {
        0
    } else {
        let r = spec_find_pipe(b.skip(1));
        if r < 0 {
            -1
        } else {
            r + 1
        }
    }
}

proof fn lemma_find_pipe_bounds(b: Seq<u8>)
    ensures
        spec_find_pipe(b) < b.len(),
        spec_find_pipe(b) >= 0 ==> b[spec_find_pipe(b)] == 0x7C,
    decreases b.len(),
{
    if b.len() > 0 && b[0] != 0x7C {
        lemma_find_pipe_bounds(b.skip(1));
    }
}

/// The meta state named by a `|`-separated list of flag names: the union of
/// the named bits, or nothing when any name is unknown.
pub open spec fn spec_metastate_from_name(b: Seq<u8>) -> Option<u32>
    decreases b.len(),
{
    let p = spec_find_pipe(b);
    if p < 0 || p >= b.len() {
        spec_metastate_bit(b)
    } else {
        match (spec_metastate_bit(b.take(p)), spec_metastate_from_name(b.skip(p + 1))) {
            (Some(a), Some(c)) => Some(a | c),
            _ => None,
        }
    }
}

fn find_pipe(b: &Vec<u8>, start: usize) -> (r: Option<usize>)
    requires
        start <= b@.len(),
    ensures
        match r {
            Some(i) => start <= i < b@.len() && spec_find_pipe(b@.skip(start as int)) == i - start,
            None => spec_find_pipe(b@.skip(start as int)) < 0,
        },
    decreases b@.len() - start,
{
    if start >= b.len() {
        return None;
    }
    if b[start] == 0x7C {
        proof {
            assert(b@.skip(start as int)[0] == b@[start as int]);
        }
        return Some(start);
    }
    let r = find_pipe(b, start + 1);
    proof {
        assert(b@.skip(start as int)[0] == b@[start as int]);
        assert(b@.skip(start as int).skip(1) =~= b@.skip(start as int + 1));
    }
    match r {
        Some(i) => Some(i),
        None => None,
    }
}

fn metastate_from_at(b: &Vec<u8>, start: usize) -> (r: Option<u32>)
    requires
        start <= b@.len(),
    ensures
        r == spec_metastate_from_name(b@.skip(start as int)),
    decreases b@.len() - start,
{
    let ghost s = b@.skip(start as int);
    let n = b.len();
    match find_pipe(b, start) {
        None => {
            let part = vstd::slice::slice_to_vec(
                vstd::slice::slice_subrange(b.as_slice(), start, b.len()),
            );
            proof {
                assert(part@ =~= s);
            }
            metastate_bit(&part)
        },
        Some(p) => {
            let part = vstd::slice::slice_to_vec(
                vstd::slice::slice_subrange(b.as_slice(), start, p),
            );
            proof {
                assert(part@ =~= s.take(p - start));
                assert(b@.skip(p as int + 1) =~= s.skip(p - start + 1));
            }
            let rest = metastate_from_at(b, p + 1);
            match (metastate_bit(&part), rest) {
                (Some(a), Some(c)) => Some(a | c),
                _ => None,
            }
        },
    }
}

/// Parses a `|`-separated list of meta-state flag names into the meta-state
/// word, failing on any unknown name.
pub fn metastate_from_name(name: &Vec<u8>) -> (r: Option<u32>)
    ensures
        r == spec_metastate_from_name(name@),
{
    proof {
        assert(name@.skip(0int) =~= name@);
    }
    metastate_from_at(name, 0)
}

} // verus!
