//! The canonical key symbols: the closed set of keys the hotkey grammar,
//! the key-state accumulator and the trigger daemon speak about. Every
//! platform key code is mapped onto this enumeration at the system boundary.

use vstd::prelude::*;

use crate::text::chars_eq_str;

verus! {

/// One canonical key. The set covers the grammar's key table (letters,
/// digits, punctuation, navigation, editing, numpad, function and media
/// keys) and the eight physical modifier keys.
#[derive(Debug, Clone, Copy, PartialEq, Eq, Structural, Hash)]
pub enum KeyCode {
    Backquote,
    Backslash,
    BracketLeft,
    BracketRight,
    Pause,
    Comma,
    Digit0,
    Digit1,
    Digit2,
    Digit3,
    Digit4,
    Digit5,
    Digit6,
    Digit7,
    Digit8,
    Digit9,
    Equal,
    KeyA,
    KeyB,
    KeyC,
    KeyD,
    KeyE,
    KeyF,
    KeyG,
    KeyH,
    KeyI,
    KeyJ,
    KeyK,
    KeyL,
    KeyM,
    KeyN,
    KeyO,
    KeyP,
    KeyQ,
    KeyR,
    KeyS,
    KeyT,
    KeyU,
    KeyV,
    KeyW,
    KeyX,
    KeyY,
    KeyZ,
    Minus,
    Period,
    Quote,
    Semicolon,
    Slash,
    Backspace,
    CapsLock,
    Enter,
    Space,
    Tab,
    Delete,
    End,
    Home,
    Insert,
    PageDown,
    PageUp,
    PrintScreen,
    ScrollLock,
    ArrowDown,
    ArrowLeft,
    ArrowRight,
    ArrowUp,
    NumLock,
    Numpad0,
    Numpad1,
    Numpad2,
    Numpad3,
    Numpad4,
    Numpad5,
    Numpad6,
    Numpad7,
    Numpad8,
    Numpad9,
    NumpadAdd,
    NumpadDecimal,
    NumpadDivide,
    NumpadEnter,
    NumpadEqual,
    NumpadMultiply,
    NumpadSubtract,
    Escape,
    F1,
    F2,
    F3,
    F4,
    F5,
    F6,
    F7,
    F8,
    F9,
    F10,
    F11,
    F12,
    AudioVolumeDown,
    AudioVolumeUp,
    AudioVolumeMute,
    MediaPlay,
    MediaPause,
    MediaPlayPause,
    MediaStop,
    MediaTrackNext,
    MediaTrackPrevious,
    F13,
    F14,
    F15,
    F16,
    F17,
    F18,
    F19,
    F20,
    F21,
    F22,
    F23,
    F24,
    ShiftLeft,
    ShiftRight,
    ControlLeft,
    ControlRight,
    AltLeft,
    AltRight,
    MetaLeft,
    MetaRight,
}

/// The canonical lower-case name of a key: the spelling that
/// `HotKey::into_string` emits for it.
pub open spec fn spec_key_name(k: KeyCode) -> Seq<char> {
    match k {
        KeyCode::Backquote => "backquote"@,
        KeyCode::Backslash => "backslash"@,
        KeyCode::BracketLeft => "bracketleft"@,
        KeyCode::BracketRight => "bracketright"@,
        KeyCode::Pause => "pause"@,
        KeyCode::Comma => "comma"@,
        KeyCode::Digit0 => "digit0"@,
        KeyCode::Digit1 => "digit1"@,
        KeyCode::Digit2 => "digit2"@,
        KeyCode::Digit3 => "digit3"@,
        KeyCode::Digit4 => "digit4"@,
        KeyCode::Digit5 => "digit5"@,
        KeyCode::Digit6 => "digit6"@,
        KeyCode::Digit7 => "digit7"@,
        KeyCode::Digit8 => "digit8"@,
        KeyCode::Digit9 => "digit9"@,
        KeyCode::Equal => "equal"@,
        KeyCode::KeyA => "keya"@,
        KeyCode::KeyB => "keyb"@,
        KeyCode::KeyC => "keyc"@,
        KeyCode::KeyD => "keyd"@,
        KeyCode::KeyE => "keye"@,
        KeyCode::KeyF => "keyf"@,
        KeyCode::KeyG => "keyg"@,
        KeyCode::KeyH => "keyh"@,
        KeyCode::KeyI => "keyi"@,
        KeyCode::KeyJ => "keyj"@,
        KeyCode::KeyK => "keyk"@,
        KeyCode::KeyL => "keyl"@,
        KeyCode::KeyM => "keym"@,
        KeyCode::KeyN => "keyn"@,
        KeyCode::KeyO => "keyo"@,
        KeyCode::KeyP => "keyp"@,
        KeyCode::KeyQ => "keyq"@,
        KeyCode::KeyR => "keyr"@,
        KeyCode::KeyS => "keys"@,
        KeyCode::KeyT => "keyt"@,
        KeyCode::KeyU => "keyu"@,
        KeyCode::KeyV => "keyv"@,
        KeyCode::KeyW => "keyw"@,
        KeyCode::KeyX => "keyx"@,
        KeyCode::KeyY => "keyy"@,
        KeyCode::KeyZ => "keyz"@,
        KeyCode::Minus => "minus"@,
        KeyCode::Period => "period"@,
        KeyCode::Quote => "quote"@,
        KeyCode::Semicolon => "semicolon"@,
        KeyCode::Slash => "slash"@,
        KeyCode::Backspace => "backspace"@,
        KeyCode::CapsLock => "capslock"@,
        KeyCode::Enter => "enter"@,
        KeyCode::Space => "space"@,
        KeyCode::Tab => "tab"@,
        KeyCode::Delete => "delete"@,
        KeyCode::End => "end"@,
        KeyCode::Home => "home"@,
        KeyCode::Insert => "insert"@,
        KeyCode::PageDown => "pagedown"@,
        KeyCode::PageUp => "pageup"@,
        KeyCode::PrintScreen => "printscreen"@,
        KeyCode::ScrollLock => "scrolllock"@,
        KeyCode::ArrowDown => "arrowdown"@,
        KeyCode::ArrowLeft => "arrowleft"@,
        KeyCode::ArrowRight => "arrowright"@,
        KeyCode::ArrowUp => "arrowup"@,
        KeyCode::NumLock => "numlock"@,
        KeyCode::Numpad0 => "numpad0"@,
        KeyCode::Numpad1 => "numpad1"@,
        KeyCode::Numpad2 => "numpad2"@,
        KeyCode::Numpad3 => "numpad3"@,
        KeyCode::Numpad4 => "numpad4"@,
        KeyCode::Numpad5 => "numpad5"@,
        KeyCode::Numpad6 => "numpad6"@,
        KeyCode::Numpad7 => "numpad7"@,
        KeyCode::Numpad8 => "numpad8"@,
        KeyCode::Numpad9 => "numpad9"@,
        KeyCode::NumpadAdd => "numpadadd"@,
        KeyCode::NumpadDecimal => "numpaddecimal"@,
        KeyCode::NumpadDivide => "numpaddivide"@,
        KeyCode::NumpadEnter => "numpadenter"@,
        KeyCode::NumpadEqual => "numpadequal"@,
        KeyCode::NumpadMultiply => "numpadmultiply"@,
        KeyCode::NumpadSubtract => "numpadsubtract"@,
        KeyCode::Escape => "escape"@,
        KeyCode::F1 => "f1"@,
        KeyCode::F2 => "f2"@,
        KeyCode::F3 => "f3"@,
        KeyCode::F4 => "f4"@,
        KeyCode::F5 => "f5"@,
        KeyCode::F6 => "f6"@,
        KeyCode::F7 => "f7"@,
        KeyCode::F8 => "f8"@,
        KeyCode::F9 => "f9"@,
        KeyCode::F10 => "f10"@,
        KeyCode::F11 => "f11"@,
        KeyCode::F12 => "f12"@,
        KeyCode::AudioVolumeDown => "audiovolumedown"@,
        KeyCode::AudioVolumeUp => "audiovolumeup"@,
        KeyCode::AudioVolumeMute => "audiovolumemute"@,
        KeyCode::MediaPlay => "mediaplay"@,
        KeyCode::MediaPause => "mediapause"@,
        KeyCode::MediaPlayPause => "mediaplaypause"@,
        KeyCode::MediaStop => "mediastop"@,
        KeyCode::MediaTrackNext => "mediatracknext"@,
        KeyCode::MediaTrackPrevious => "mediatrackprevious"@,
        KeyCode::F13 => "f13"@,
        KeyCode::F14 => "f14"@,
        KeyCode::F15 => "f15"@,
        KeyCode::F16 => "f16"@,
        KeyCode::F17 => "f17"@,
        KeyCode::F18 => "f18"@,
        KeyCode::F19 => "f19"@,
        KeyCode::F20 => "f20"@,
        KeyCode::F21 => "f21"@,
        KeyCode::F22 => "f22"@,
        KeyCode::F23 => "f23"@,
        KeyCode::F24 => "f24"@,
        KeyCode::ShiftLeft => "shiftleft"@,
        KeyCode::ShiftRight => "shiftright"@,
        KeyCode::ControlLeft => "controlleft"@,
        KeyCode::ControlRight => "controlright"@,
        KeyCode::AltLeft => "altleft"@,
        KeyCode::AltRight => "altright"@,
        KeyCode::MetaLeft => "metaleft"@,
        KeyCode::MetaRight => "metaright"@,
    }
}

pub fn key_name(k: KeyCode) -> (r: &'static str)
    ensures
        r@ == spec_key_name(k),
{
    match k {
        KeyCode::Backquote => "backquote",
        KeyCode::Backslash => "backslash",
        KeyCode::BracketLeft => "bracketleft",
        KeyCode::BracketRight => "bracketright",
        KeyCode::Pause => "pause",
        KeyCode::Comma => "comma",
        KeyCode::Digit0 => "digit0",
        KeyCode::Digit1 => "digit1",
        KeyCode::Digit2 => "digit2",
        KeyCode::Digit3 => "digit3",
        KeyCode::Digit4 => "digit4",
        KeyCode::Digit5 => "digit5",
        KeyCode::Digit6 => "digit6",
        KeyCode::Digit7 => "digit7",
        KeyCode::Digit8 => "digit8",
        KeyCode::Digit9 => "digit9",
        KeyCode::Equal => "equal",
        KeyCode::KeyA => "keya",
        KeyCode::KeyB => "keyb",
        KeyCode::KeyC => "keyc",
        KeyCode::KeyD => "keyd",
        KeyCode::KeyE => "keye",
        KeyCode::KeyF => "keyf",
        KeyCode::KeyG => "keyg",
        KeyCode::KeyH => "keyh",
        KeyCode::KeyI => "keyi",
        KeyCode::KeyJ => "keyj",
        KeyCode::KeyK => "keyk",
        KeyCode::KeyL => "keyl",
        KeyCode::KeyM => "keym",
        KeyCode::KeyN => "keyn",
        KeyCode::KeyO => "keyo",
        KeyCode::KeyP => "keyp",
        KeyCode::KeyQ => "keyq",
        KeyCode::KeyR => "keyr",
        KeyCode::KeyS => "keys",
        KeyCode::KeyT => "keyt",
        KeyCode::KeyU => "keyu",
        KeyCode::KeyV => "keyv",
        KeyCode::KeyW => "keyw",
        KeyCode::KeyX => "keyx",
        KeyCode::KeyY => "keyy",
        KeyCode::KeyZ => "keyz",
        KeyCode::Minus => "minus",
        KeyCode::Period => "period",
        KeyCode::Quote => "quote",
        KeyCode::Semicolon => "semicolon",
        KeyCode::Slash => "slash",
        KeyCode::Backspace => "backspace",
        KeyCode::CapsLock => "capslock",
        KeyCode::Enter => "enter",
        KeyCode::Space => "space",
        KeyCode::Tab => "tab",
        KeyCode::Delete => "delete",
        KeyCode::End => "end",
        KeyCode::Home => "home",
        KeyCode::Insert => "insert",
        KeyCode::PageDown => "pagedown",
        KeyCode::PageUp => "pageup",
        KeyCode::PrintScreen => "printscreen",
        KeyCode::ScrollLock => "scrolllock",
        KeyCode::ArrowDown => "arrowdown",
        KeyCode::ArrowLeft => "arrowleft",
        KeyCode::ArrowRight => "arrowright",
        KeyCode::ArrowUp => "arrowup",
        KeyCode::NumLock => "numlock",
        KeyCode::Numpad0 => "numpad0",
        KeyCode::Numpad1 => "numpad1",
        KeyCode::Numpad2 => "numpad2",
        KeyCode::Numpad3 => "numpad3",
        KeyCode::Numpad4 => "numpad4",
        KeyCode::Numpad5 => "numpad5",
        KeyCode::Numpad6 => "numpad6",
        KeyCode::Numpad7 => "numpad7",
        KeyCode::Numpad8 => "numpad8",
        KeyCode::Numpad9 => "numpad9",
        KeyCode::NumpadAdd => "numpadadd",
        KeyCode::NumpadDecimal => "numpaddecimal",
        KeyCode::NumpadDivide => "numpaddivide",
        KeyCode::NumpadEnter => "numpadenter",
        KeyCode::NumpadEqual => "numpadequal",
        KeyCode::NumpadMultiply => "numpadmultiply",
        KeyCode::NumpadSubtract => "numpadsubtract",
        KeyCode::Escape => "escape",
        KeyCode::F1 => "f1",
        KeyCode::F2 => "f2",
        KeyCode::F3 => "f3",
        KeyCode::F4 => "f4",
        KeyCode::F5 => "f5",
        KeyCode::F6 => "f6",
        KeyCode::F7 => "f7",
        KeyCode::F8 => "f8",
        KeyCode::F9 => "f9",
        KeyCode::F10 => "f10",
        KeyCode::F11 => "f11",
        KeyCode::F12 => "f12",
        KeyCode::AudioVolumeDown => "audiovolumedown",
        KeyCode::AudioVolumeUp => "audiovolumeup",
        KeyCode::AudioVolumeMute => "audiovolumemute",
        KeyCode::MediaPlay => "mediaplay",
        KeyCode::MediaPause => "mediapause",
        KeyCode::MediaPlayPause => "mediaplaypause",
        KeyCode::MediaStop => "mediastop",
        KeyCode::MediaTrackNext => "mediatracknext",
        KeyCode::MediaTrackPrevious => "mediatrackprevious",
        KeyCode::F13 => "f13",
        KeyCode::F14 => "f14",
        KeyCode::F15 => "f15",
        KeyCode::F16 => "f16",
        KeyCode::F17 => "f17",
        KeyCode::F18 => "f18",
        KeyCode::F19 => "f19",
        KeyCode::F20 => "f20",
        KeyCode::F21 => "f21",
        KeyCode::F22 => "f22",
        KeyCode::F23 => "f23",
        KeyCode::F24 => "f24",
        KeyCode::ShiftLeft => "shiftleft",
        KeyCode::ShiftRight => "shiftright",
        KeyCode::ControlLeft => "controlleft",
        KeyCode::ControlRight => "controlright",
        KeyCode::AltLeft => "altleft",
        KeyCode::AltRight => "altright",
        KeyCode::MetaLeft => "metaleft",
        KeyCode::MetaRight => "metaright",
    }
}

/// The key named by an upper-cased grammar token, if any: the first entry
/// of the alias table that equals the token.
pub open spec fn spec_key_of(u: Seq<char>) -> Option<KeyCode> {
    if u == "BACKQUOTE"@ || u == "`"@ {
        Some(KeyCode::Backquote)
    } else if u == "BACKSLASH"@ || u == "\\"@ {
        Some(KeyCode::Backslash)
    } else if u == "BRACKETLEFT"@ || u == "["@ {
        Some(KeyCode::BracketLeft)
    } else if u == "BRACKETRIGHT"@ || u == "]"@ {
        Some(KeyCode::BracketRight)
    } else if u == "PAUSE"@ || u == "PAUSEBREAK"@ {
        Some(KeyCode::Pause)
    } else if u == "COMMA"@ || u == ","@ {
        Some(KeyCode::Comma)
    } else if u == "DIGIT0"@ || u == "0"@ {
        Some(KeyCode::Digit0)
    } else if u == "DIGIT1"@ || u == "1"@ {
        Some(KeyCode::Digit1)
    } else if u == "DIGIT2"@ || u == "2"@ {
        Some(KeyCode::Digit2)
    } else if u == "DIGIT3"@ || u == "3"@ {
        Some(KeyCode::Digit3)
    } else if u == "DIGIT4"@ || u == "4"@ {
        Some(KeyCode::Digit4)
    } else if u == "DIGIT5"@ || u == "5"@ {
        Some(KeyCode::Digit5)
    } else if u == "DIGIT6"@ || u == "6"@ {
        Some(KeyCode::Digit6)
    } else if u == "DIGIT7"@ || u == "7"@ {
        Some(KeyCode::Digit7)
    } else if u == "DIGIT8"@ || u == "8"@ {
        Some(KeyCode::Digit8)
    } else if u == "DIGIT9"@ || u == "9"@ {
        Some(KeyCode::Digit9)
    } else if u == "EQUAL"@ || u == "="@ {
        Some(KeyCode::Equal)
    } else if u == "KEYA"@ || u == "A"@ {
        Some(KeyCode::KeyA)
    } else if u == "KEYB"@ || u == "B"@ {
        Some(KeyCode::KeyB)
    } else if u == "KEYC"@ || u == "C"@ {
        Some(KeyCode::KeyC)
    } else if u == "KEYD"@ || u == "D"@ {
        Some(KeyCode::KeyD)
    } else if u == "KEYE"@ || u == "E"@ {
        Some(KeyCode::KeyE)
    } else if u == "KEYF"@ || u == "F"@ {
        Some(KeyCode::KeyF)
    } else if u == "KEYG"@ || u == "G"@ {
        Some(KeyCode::KeyG)
    } else if u == "KEYH"@ || u == "H"@ {
        Some(KeyCode::KeyH)
    } else if u == "KEYI"@ || u == "I"@ {
        Some(KeyCode::KeyI)
    } else if u == "KEYJ"@ || u == "J"@ {
        Some(KeyCode::KeyJ)
    } else if u == "KEYK"@ || u == "K"@ {
        Some(KeyCode::KeyK)
    } else if u == "KEYL"@ || u == "L"@ {
        Some(KeyCode::KeyL)
    } else if u == "KEYM"@ || u == "M"@ {
        Some(KeyCode::KeyM)
    } else if u == "KEYN"@ || u == "N"@ {
        Some(KeyCode::KeyN)
    } else if u == "KEYO"@ || u == "O"@ {
        Some(KeyCode::KeyO)
    } else if u == "KEYP"@ || u == "P"@ {
        Some(KeyCode::KeyP)
    } else if u == "KEYQ"@ || u == "Q"@ {
        Some(KeyCode::KeyQ)
    } else if u == "KEYR"@ || u == "R"@ {
        Some(KeyCode::KeyR)
    } else if u == "KEYS"@ || u == "S"@ {
        Some(KeyCode::KeyS)
    } else if u == "KEYT"@ || u == "T"@ {
        Some(KeyCode::KeyT)
    } else if u == "KEYU"@ || u == "U"@ {
        Some(KeyCode::KeyU)
    } else if u == "KEYV"@ || u == "V"@ {
        Some(KeyCode::KeyV)
    } else if u == "KEYW"@ || u == "W"@ {
        Some(KeyCode::KeyW)
    } else if u == "KEYX"@ || u == "X"@ {
        Some(KeyCode::KeyX)
    } else if u == "KEYY"@ || u == "Y"@ {
        Some(KeyCode::KeyY)
    } else if u == "KEYZ"@ || u == "Z"@ {
        Some(KeyCode::KeyZ)
    } else if u == "MINUS"@ || u == "-"@ {
        Some(KeyCode::Minus)
    } else if u == "PERIOD"@ || u == "."@ {
        Some(KeyCode::Period)
    } else if u == "QUOTE"@ || u == "'"@ {
        Some(KeyCode::Quote)
    } else if u == "SEMICOLON"@ || u == ";"@ {
        Some(KeyCode::Semicolon)
    } else if u == "SLASH"@ || u == "/"@ {
        Some(KeyCode::Slash)
    } else if u == "BACKSPACE"@ {
        Some(KeyCode::Backspace)
    } else if u == "CAPSLOCK"@ {
        Some(KeyCode::CapsLock)
    } else if u == "ENTER"@ {
        Some(KeyCode::Enter)
    } else if u == "SPACE"@ {
        Some(KeyCode::Space)
    } else if u == "TAB"@ {
        Some(KeyCode::Tab)
    } else if u == "DELETE"@ {
        Some(KeyCode::Delete)
    } else if u == "END"@ {
        Some(KeyCode::End)
    } else if u == "HOME"@ {
        Some(KeyCode::Home)
    } else if u == "INSERT"@ {
        Some(KeyCode::Insert)
    } else if u == "PAGEDOWN"@ {
        Some(KeyCode::PageDown)
    } else if u == "PAGEUP"@ {
        Some(KeyCode::PageUp)
    } else if u == "PRINTSCREEN"@ {
        Some(KeyCode::PrintScreen)
    } else if u == "SCROLLLOCK"@ {
        Some(KeyCode::ScrollLock)
    } else if u == "ARROWDOWN"@ || u == "DOWN"@ {
        Some(KeyCode::ArrowDown)
    } else if u == "ARROWLEFT"@ || u == "LEFT"@ {
        Some(KeyCode::ArrowLeft)
    } else if u == "ARROWRIGHT"@ || u == "RIGHT"@ {
        Some(KeyCode::ArrowRight)
    } else if u == "ARROWUP"@ || u == "UP"@ {
        Some(KeyCode::ArrowUp)
    } else if u == "NUMLOCK"@ {
        Some(KeyCode::NumLock)
    } else if u == "NUMPAD0"@ || u == "NUM0"@ {
        Some(KeyCode::Numpad0)
    } else if u == "NUMPAD1"@ || u == "NUM1"@ {
        Some(KeyCode::Numpad1)
    } else if u == "NUMPAD2"@ || u == "NUM2"@ {
        Some(KeyCode::Numpad2)
    } else if u == "NUMPAD3"@ || u == "NUM3"@ {
        Some(KeyCode::Numpad3)
    } else if u == "NUMPAD4"@ || u == "NUM4"@ {
        Some(KeyCode::Numpad4)
    } else if u == "NUMPAD5"@ || u == "NUM5"@ {
        Some(KeyCode::Numpad5)
    } else if u == "NUMPAD6"@ || u == "NUM6"@ {
        Some(KeyCode::Numpad6)
    } else if u == "NUMPAD7"@ || u == "NUM7"@ {
        Some(KeyCode::Numpad7)
    } else if u == "NUMPAD8"@ || u == "NUM8"@ {
        Some(KeyCode::Numpad8)
    } else if u == "NUMPAD9"@ || u == "NUM9"@ {
        Some(KeyCode::Numpad9)
    } else if u == "NUMPADADD"@ || u == "NUMADD"@ || u == "NUMPADPLUS"@ || u == "NUMPLUS"@ {
        Some(KeyCode::NumpadAdd)
    } else if u == "NUMPADDECIMAL"@ || u == "NUMDECIMAL"@ {
        Some(KeyCode::NumpadDecimal)
    } else if u == "NUMPADDIVIDE"@ || u == "NUMDIVIDE"@ {
        Some(KeyCode::NumpadDivide)
    } else if u == "NUMPADENTER"@ || u == "NUMENTER"@ {
        Some(KeyCode::NumpadEnter)
    } else if u == "NUMPADEQUAL"@ || u == "NUMEQUAL"@ {
        Some(KeyCode::NumpadEqual)
    } else if u == "NUMPADMULTIPLY"@ || u == "NUMMULTIPLY"@ {
        Some(KeyCode::NumpadMultiply)
    } else if u == "NUMPADSUBTRACT"@ || u == "NUMSUBTRACT"@ {
        Some(KeyCode::NumpadSubtract)
    } else if u == "ESCAPE"@ || u == "ESC"@ {
        Some(KeyCode::Escape)
    } else if u == "F1"@ {
        Some(KeyCode::F1)
    } else if u == "F2"@ {
        Some(KeyCode::F2)
    } else if u == "F3"@ {
        Some(KeyCode::F3)
    } else if u == "F4"@ {
        Some(KeyCode::F4)
    } else if u == "F5"@ {
        Some(KeyCode::F5)
    } else if u == "F6"@ {
        Some(KeyCode::F6)
    } else if u == "F7"@ {
        Some(KeyCode::F7)
    } else if u == "F8"@ {
        Some(KeyCode::F8)
    } else if u == "F9"@ {
        Some(KeyCode::F9)
    } else if u == "F10"@ {
        Some(KeyCode::F10)
    } else if u == "F11"@ {
        Some(KeyCode::F11)
    } else if u == "F12"@ {
        Some(KeyCode::F12)
    } else if u == "AUDIOVOLUMEDOWN"@ || u == "VOLUMEDOWN"@ {
        Some(KeyCode::AudioVolumeDown)
    } else if u == "AUDIOVOLUMEUP"@ || u == "VOLUMEUP"@ {
        Some(KeyCode::AudioVolumeUp)
    } else if u == "AUDIOVOLUMEMUTE"@ || u == "VOLUMEMUTE"@ {
        Some(KeyCode::AudioVolumeMute)
    } else if u == "MEDIAPLAY"@ {
        Some(KeyCode::MediaPlay)
    } else if u == "MEDIAPAUSE"@ {
        Some(KeyCode::MediaPause)
    } else if u == "MEDIAPLAYPAUSE"@ {
        Some(KeyCode::MediaPlayPause)
    } else if u == "MEDIASTOP"@ {
        Some(KeyCode::MediaStop)
    } else if u == "MEDIATRACKNEXT"@ {
        Some(KeyCode::MediaTrackNext)
    } else if u == "MEDIATRACKPREV"@ || u == "MEDIATRACKPREVIOUS"@ {
        Some(KeyCode::MediaTrackPrevious)
    } else if u == "F13"@ {
        Some(KeyCode::F13)
    } else if u == "F14"@ {
        Some(KeyCode::F14)
    } else if u == "F15"@ {
        Some(KeyCode::F15)
    } else if u == "F16"@ {
        Some(KeyCode::F16)
    } else if u == "F17"@ {
        Some(KeyCode::F17)
    } else if u == "F18"@ {
        Some(KeyCode::F18)
    } else if u == "F19"@ {
        Some(KeyCode::F19)
    } else if u == "F20"@ {
        Some(KeyCode::F20)
    } else if u == "F21"@ {
        Some(KeyCode::F21)
    } else if u == "F22"@ {
        Some(KeyCode::F22)
    } else if u == "F23"@ {
        Some(KeyCode::F23)
    } else if u == "F24"@ {
        Some(KeyCode::F24)
    } else {
        None
    }
}

pub fn key_of_token(u: &Vec<char>) -> (r: Option<KeyCode>)
    ensures
        r == spec_key_of(u@),
{
    if chars_eq_str(u, "BACKQUOTE") || chars_eq_str(u, "`") {
        Some(KeyCode::Backquote)
    } else if chars_eq_str(u, "BACKSLASH") || chars_eq_str(u, "\\") {
        Some(KeyCode::Backslash)
    } else if chars_eq_str(u, "BRACKETLEFT") || chars_eq_str(u, "[") {
        Some(KeyCode::BracketLeft)
    } else if chars_eq_str(u, "BRACKETRIGHT") || chars_eq_str(u, "]") {
        Some(KeyCode::BracketRight)
    } else if chars_eq_str(u, "PAUSE") || chars_eq_str(u, "PAUSEBREAK") {
        Some(KeyCode::Pause)
    } else if chars_eq_str(u, "COMMA") || chars_eq_str(u, ",") {
        Some(KeyCode::Comma)
    } else if chars_eq_str(u, "DIGIT0") || chars_eq_str(u, "0") {
        Some(KeyCode::Digit0)
    } else if chars_eq_str(u, "DIGIT1") || chars_eq_str(u, "1") {
        Some(KeyCode::Digit1)
    } else if chars_eq_str(u, "DIGIT2") || chars_eq_str(u, "2") {
        Some(KeyCode::Digit2)
    } else if chars_eq_str(u, "DIGIT3") || chars_eq_str(u, "3") {
        Some(KeyCode::Digit3)
    } else if chars_eq_str(u, "DIGIT4") || chars_eq_str(u, "4") {
        Some(KeyCode::Digit4)
    } else if chars_eq_str(u, "DIGIT5") || chars_eq_str(u, "5") {
        Some(KeyCode::Digit5)
    } else if chars_eq_str(u, "DIGIT6") || chars_eq_str(u, "6") {
        Some(KeyCode::Digit6)
    } else if chars_eq_str(u, "DIGIT7") || chars_eq_str(u, "7") {
        Some(KeyCode::Digit7)
    } else if chars_eq_str(u, "DIGIT8") || chars_eq_str(u, "8") {
        Some(KeyCode::Digit8)
    } else if chars_eq_str(u, "DIGIT9") || chars_eq_str(u, "9") {
        Some(KeyCode::Digit9)
    } else if chars_eq_str(u, "EQUAL") || chars_eq_str(u, "=") {
        Some(KeyCode::Equal)
    } else if chars_eq_str(u, "KEYA") || chars_eq_str(u, "A") {
        Some(KeyCode::KeyA)
    } else if chars_eq_str(u, "KEYB") || chars_eq_str(u, "B") {
        Some(KeyCode::KeyB)
    } else if chars_eq_str(u, "KEYC") || chars_eq_str(u, "C") {
        Some(KeyCode::KeyC)
    } else if chars_eq_str(u, "KEYD") || chars_eq_str(u, "D") {
        Some(KeyCode::KeyD)
    } else if chars_eq_str(u, "KEYE") || chars_eq_str(u, "E") {
        Some(KeyCode::KeyE)
    } else if chars_eq_str(u, "KEYF") || chars_eq_str(u, "F") {
        Some(KeyCode::KeyF)
    } else if chars_eq_str(u, "KEYG") || chars_eq_str(u, "G") {
        Some(KeyCode::KeyG)
    } else if chars_eq_str(u, "KEYH") || chars_eq_str(u, "H") {
        Some(KeyCode::KeyH)
    } else if chars_eq_str(u, "KEYI") || chars_eq_str(u, "I") {
        Some(KeyCode::KeyI)
    } else if chars_eq_str(u, "KEYJ") || chars_eq_str(u, "J") {
        Some(KeyCode::KeyJ)
    } else if chars_eq_str(u, "KEYK") || chars_eq_str(u, "K") {
        Some(KeyCode::KeyK)
    } else if chars_eq_str(u, "KEYL") || chars_eq_str(u, "L") {
        Some(KeyCode::KeyL)
    } else if chars_eq_str(u, "KEYM") || chars_eq_str(u, "M") {
        Some(KeyCode::KeyM)
    } else if chars_eq_str(u, "KEYN") || chars_eq_str(u, "N") {
        Some(KeyCode::KeyN)
    } else if chars_eq_str(u, "KEYO") || chars_eq_str(u, "O") {
        Some(KeyCode::KeyO)
    } else if chars_eq_str(u, "KEYP") || chars_eq_str(u, "P") {
        Some(KeyCode::KeyP)
    } else if chars_eq_str(u, "KEYQ") || chars_eq_str(u, "Q") {
        Some(KeyCode::KeyQ)
    } else if chars_eq_str(u, "KEYR") || chars_eq_str(u, "R") {
        Some(KeyCode::KeyR)
    } else if chars_eq_str(u, "KEYS") || chars_eq_str(u, "S") {
        Some(KeyCode::KeyS)
    } else if chars_eq_str(u, "KEYT") || chars_eq_str(u, "T") {
        Some(KeyCode::KeyT)
    } else if chars_eq_str(u, "KEYU") || chars_eq_str(u, "U") {
        Some(KeyCode::KeyU)
    } else if chars_eq_str(u, "KEYV") || chars_eq_str(u, "V") {
        Some(KeyCode::KeyV)
    } else if chars_eq_str(u, "KEYW") || chars_eq_str(u, "W") {
        Some(KeyCode::KeyW)
    } else if chars_eq_str(u, "KEYX") || chars_eq_str(u, "X") {
        Some(KeyCode::KeyX)
    } else if chars_eq_str(u, "KEYY") || chars_eq_str(u, "Y") {
        Some(KeyCode::KeyY)
    } else if chars_eq_str(u, "KEYZ") || chars_eq_str(u, "Z") {
        Some(KeyCode::KeyZ)
    } else if chars_eq_str(u, "MINUS") || chars_eq_str(u, "-") {
        Some(KeyCode::Minus)
    } else if chars_eq_str(u, "PERIOD") || chars_eq_str(u, ".") {
        Some(KeyCode::Period)
    } else if chars_eq_str(u, "QUOTE") || chars_eq_str(u, "'") {
        Some(KeyCode::Quote)
    } else if chars_eq_str(u, "SEMICOLON") || chars_eq_str(u, ";") {
        Some(KeyCode::Semicolon)
    } else if chars_eq_str(u, "SLASH") || chars_eq_str(u, "/") {
        Some(KeyCode::Slash)
    } else if chars_eq_str(u, "BACKSPACE") {
        Some(KeyCode::Backspace)
    } else if chars_eq_str(u, "CAPSLOCK") {
        Some(KeyCode::CapsLock)
    } else if chars_eq_str(u, "ENTER") {
        Some(KeyCode::Enter)
    } else if chars_eq_str(u, "SPACE") {
        Some(KeyCode::Space)
    } else if chars_eq_str(u, "TAB") {
        Some(KeyCode::Tab)
    } else if chars_eq_str(u, "DELETE") {
        Some(KeyCode::Delete)
    } else if chars_eq_str(u, "END") {
        Some(KeyCode::End)
    } else if chars_eq_str(u, "HOME") {
        Some(KeyCode::Home)
    } else if chars_eq_str(u, "INSERT") {
        Some(KeyCode::Insert)
    } else if chars_eq_str(u, "PAGEDOWN") {
        Some(KeyCode::PageDown)
    } else if chars_eq_str(u, "PAGEUP") {
        Some(KeyCode::PageUp)
    } else if chars_eq_str(u, "PRINTSCREEN") {
        Some(KeyCode::PrintScreen)
    } else if chars_eq_str(u, "SCROLLLOCK") {
        Some(KeyCode::ScrollLock)
    } else if chars_eq_str(u, "ARROWDOWN") || chars_eq_str(u, "DOWN") {
        Some(KeyCode::ArrowDown)
    } else if chars_eq_str(u, "ARROWLEFT") || chars_eq_str(u, "LEFT") {
        Some(KeyCode::ArrowLeft)
    } else if chars_eq_str(u, "ARROWRIGHT") || chars_eq_str(u, "RIGHT") {
        Some(KeyCode::ArrowRight)
    } else if chars_eq_str(u, "ARROWUP") || chars_eq_str(u, "UP") {
        Some(KeyCode::ArrowUp)
    } else if chars_eq_str(u, "NUMLOCK") {
        Some(KeyCode::NumLock)
    } else if chars_eq_str(u, "NUMPAD0") || chars_eq_str(u, "NUM0") {
        Some(KeyCode::Numpad0)
    } else if chars_eq_str(u, "NUMPAD1") || chars_eq_str(u, "NUM1") {
        Some(KeyCode::Numpad1)
    } else if chars_eq_str(u, "NUMPAD2") || chars_eq_str(u, "NUM2") {
        Some(KeyCode::Numpad2)
    } else if chars_eq_str(u, "NUMPAD3") || chars_eq_str(u, "NUM3") {
        Some(KeyCode::Numpad3)
    } else if chars_eq_str(u, "NUMPAD4") || chars_eq_str(u, "NUM4") {
        Some(KeyCode::Numpad4)
    } else if chars_eq_str(u, "NUMPAD5") || chars_eq_str(u, "NUM5") {
        Some(KeyCode::Numpad5)
    } else if chars_eq_str(u, "NUMPAD6") || chars_eq_str(u, "NUM6") {
        Some(KeyCode::Numpad6)
    } else if chars_eq_str(u, "NUMPAD7") || chars_eq_str(u, "NUM7") {
        Some(KeyCode::Numpad7)
    } else if chars_eq_str(u, "NUMPAD8") || chars_eq_str(u, "NUM8") {
        Some(KeyCode::Numpad8)
    } else if chars_eq_str(u, "NUMPAD9") || chars_eq_str(u, "NUM9") {
        Some(KeyCode::Numpad9)
    } else if chars_eq_str(u, "NUMPADADD") || chars_eq_str(u, "NUMADD") || chars_eq_str(u, "NUMPADPLUS") || chars_eq_str(u, "NUMPLUS") {
        Some(KeyCode::NumpadAdd)
    } else if chars_eq_str(u, "NUMPADDECIMAL") || chars_eq_str(u, "NUMDECIMAL") {
        Some(KeyCode::NumpadDecimal)
    } else if chars_eq_str(u, "NUMPADDIVIDE") || chars_eq_str(u, "NUMDIVIDE") {
        Some(KeyCode::NumpadDivide)
    } else if chars_eq_str(u, "NUMPADENTER") || chars_eq_str(u, "NUMENTER") {
        Some(KeyCode::NumpadEnter)
    } else if chars_eq_str(u, "NUMPADEQUAL") || chars_eq_str(u, "NUMEQUAL") {
        Some(KeyCode::NumpadEqual)
    } else if chars_eq_str(u, "NUMPADMULTIPLY") || chars_eq_str(u, "NUMMULTIPLY") {
        Some(KeyCode::NumpadMultiply)
    } else if chars_eq_str(u, "NUMPADSUBTRACT") || chars_eq_str(u, "NUMSUBTRACT") {
        Some(KeyCode::NumpadSubtract)
    } else if chars_eq_str(u, "ESCAPE") || chars_eq_str(u, "ESC") {
        Some(KeyCode::Escape)
    } else if chars_eq_str(u, "F1") {
        Some(KeyCode::F1)
    } else if chars_eq_str(u, "F2") {
        Some(KeyCode::F2)
    } else if chars_eq_str(u, "F3") {
        Some(KeyCode::F3)
    } else if chars_eq_str(u, "F4") {
        Some(KeyCode::F4)
    } else if chars_eq_str(u, "F5") {
        Some(KeyCode::F5)
    } else if chars_eq_str(u, "F6") {
        Some(KeyCode::F6)
    } else if chars_eq_str(u, "F7") {
        Some(KeyCode::F7)
    } else if chars_eq_str(u, "F8") {
        Some(KeyCode::F8)
    } else if chars_eq_str(u, "F9") {
        Some(KeyCode::F9)
    } else if chars_eq_str(u, "F10") {
        Some(KeyCode::F10)
    } else if chars_eq_str(u, "F11") {
        Some(KeyCode::F11)
    } else if chars_eq_str(u, "F12") {
        Some(KeyCode::F12)
    } else if chars_eq_str(u, "AUDIOVOLUMEDOWN") || chars_eq_str(u, "VOLUMEDOWN") {
        Some(KeyCode::AudioVolumeDown)
    } else if chars_eq_str(u, "AUDIOVOLUMEUP") || chars_eq_str(u, "VOLUMEUP") {
        Some(KeyCode::AudioVolumeUp)
    } else if chars_eq_str(u, "AUDIOVOLUMEMUTE") || chars_eq_str(u, "VOLUMEMUTE") {
        Some(KeyCode::AudioVolumeMute)
    } else if chars_eq_str(u, "MEDIAPLAY") {
        Some(KeyCode::MediaPlay)
    } else if chars_eq_str(u, "MEDIAPAUSE") {
        Some(KeyCode::MediaPause)
    } else if chars_eq_str(u, "MEDIAPLAYPAUSE") {
        Some(KeyCode::MediaPlayPause)
    } else if chars_eq_str(u, "MEDIASTOP") {
        Some(KeyCode::MediaStop)
    } else if chars_eq_str(u, "MEDIATRACKNEXT") {
        Some(KeyCode::MediaTrackNext)
    } else if chars_eq_str(u, "MEDIATRACKPREV") || chars_eq_str(u, "MEDIATRACKPREVIOUS") {
        Some(KeyCode::MediaTrackPrevious)
    } else if chars_eq_str(u, "F13") {
        Some(KeyCode::F13)
    } else if chars_eq_str(u, "F14") {
        Some(KeyCode::F14)
    } else if chars_eq_str(u, "F15") {
        Some(KeyCode::F15)
    } else if chars_eq_str(u, "F16") {
        Some(KeyCode::F16)
    } else if chars_eq_str(u, "F17") {
        Some(KeyCode::F17)
    } else if chars_eq_str(u, "F18") {
        Some(KeyCode::F18)
    } else if chars_eq_str(u, "F19") {
        Some(KeyCode::F19)
    } else if chars_eq_str(u, "F20") {
        Some(KeyCode::F20)
    } else if chars_eq_str(u, "F21") {
        Some(KeyCode::F21)
    } else if chars_eq_str(u, "F22") {
        Some(KeyCode::F22)
    } else if chars_eq_str(u, "F23") {
        Some(KeyCode::F23)
    } else if chars_eq_str(u, "F24") {
        Some(KeyCode::F24)
    } else {
        None
    }
}

/// Keys that act as modifiers when held: they feed the modifier mask of the
/// key-state accumulator instead of becoming a main key.
pub open spec fn spec_is_modifier_key(k: KeyCode) -> bool {
    match k {
        KeyCode::ShiftLeft | KeyCode::ShiftRight | KeyCode::ControlLeft | KeyCode::ControlRight
            | KeyCode::AltLeft | KeyCode::AltRight | KeyCode::MetaLeft | KeyCode::MetaRight => true,
        _ => false,
    }
}

pub fn is_modifier_key(k: KeyCode) -> (r: bool)
    ensures
        r == spec_is_modifier_key(k),
{
    match k {
        KeyCode::ShiftLeft | KeyCode::ShiftRight | KeyCode::ControlLeft | KeyCode::ControlRight
            | KeyCode::AltLeft | KeyCode::AltRight | KeyCode::MetaLeft | KeyCode::MetaRight => true,
        _ => false,
    }
}

/// A small stable number for each key, used in the hotkey id.
pub open spec fn spec_key_index(k: KeyCode) -> u32 {
    match k {
        KeyCode::Backquote => 0,
        KeyCode::Backslash => 1,
        KeyCode::BracketLeft => 2,
        KeyCode::BracketRight => 3,
        KeyCode::Pause => 4,
        KeyCode::Comma => 5,
        KeyCode::Digit0 => 6,
        KeyCode::Digit1 => 7,
        KeyCode::Digit2 => 8,
        KeyCode::Digit3 => 9,
        KeyCode::Digit4 => 10,
        KeyCode::Digit5 => 11,
        KeyCode::Digit6 => 12,
        KeyCode::Digit7 => 13,
        KeyCode::Digit8 => 14,
        KeyCode::Digit9 => 15,
        KeyCode::Equal => 16,
        KeyCode::KeyA => 17,
        KeyCode::KeyB => 18,
        KeyCode::KeyC => 19,
        KeyCode::KeyD => 20,
        KeyCode::KeyE => 21,
        KeyCode::KeyF => 22,
        KeyCode::KeyG => 23,
        KeyCode::KeyH => 24,
        KeyCode::KeyI => 25,
        KeyCode::KeyJ => 26,
        KeyCode::KeyK => 27,
        KeyCode::KeyL => 28,
        KeyCode::KeyM => 29,
        KeyCode::KeyN => 30,
        KeyCode::KeyO => 31,
        KeyCode::KeyP => 32,
        KeyCode::KeyQ => 33,
        KeyCode::KeyR => 34,
        KeyCode::KeyS => 35,
        KeyCode::KeyT => 36,
        KeyCode::KeyU => 37,
        KeyCode::KeyV => 38,
        KeyCode::KeyW => 39,
        KeyCode::KeyX => 40,
        KeyCode::KeyY => 41,
        KeyCode::KeyZ => 42,
        KeyCode::Minus => 43,
        KeyCode::Period => 44,
        KeyCode::Quote => 45,
        KeyCode::Semicolon => 46,
        KeyCode::Slash => 47,
        KeyCode::Backspace => 48,
        KeyCode::CapsLock => 49,
        KeyCode::Enter => 50,
        KeyCode::Space => 51,
        KeyCode::Tab => 52,
        KeyCode::Delete => 53,
        KeyCode::End => 54,
        KeyCode::Home => 55,
        KeyCode::Insert => 56,
        KeyCode::PageDown => 57,
        KeyCode::PageUp => 58,
        KeyCode::PrintScreen => 59,
        KeyCode::ScrollLock => 60,
        KeyCode::ArrowDown => 61,
        KeyCode::ArrowLeft => 62,
        KeyCode::ArrowRight => 63,
        KeyCode::ArrowUp => 64,
        KeyCode::NumLock => 65,
        KeyCode::Numpad0 => 66,
        KeyCode::Numpad1 => 67,
        KeyCode::Numpad2 => 68,
        KeyCode::Numpad3 => 69,
        KeyCode::Numpad4 => 70,
        KeyCode::Numpad5 => 71,
        KeyCode::Numpad6 => 72,
        KeyCode::Numpad7 => 73,
        KeyCode::Numpad8 => 74,
        KeyCode::Numpad9 => 75,
        KeyCode::NumpadAdd => 76,
        KeyCode::NumpadDecimal => 77,
        KeyCode::NumpadDivide => 78,
        KeyCode::NumpadEnter => 79,
        KeyCode::NumpadEqual => 80,
        KeyCode::NumpadMultiply => 81,
        KeyCode::NumpadSubtract => 82,
        KeyCode::Escape => 83,
        KeyCode::F1 => 84,
        KeyCode::F2 => 85,
        KeyCode::F3 => 86,
        KeyCode::F4 => 87,
        KeyCode::F5 => 88,
        KeyCode::F6 => 89,
        KeyCode::F7 => 90,
        KeyCode::F8 => 91,
        KeyCode::F9 => 92,
        KeyCode::F10 => 93,
        KeyCode::F11 => 94,
        KeyCode::F12 => 95,
        KeyCode::AudioVolumeDown => 96,
        KeyCode::AudioVolumeUp => 97,
        KeyCode::AudioVolumeMute => 98,
        KeyCode::MediaPlay => 99,
        KeyCode::MediaPause => 100,
        KeyCode::MediaPlayPause => 101,
        KeyCode::MediaStop => 102,
        KeyCode::MediaTrackNext => 103,
        KeyCode::MediaTrackPrevious => 104,
        KeyCode::F13 => 105,
        KeyCode::F14 => 106,
        KeyCode::F15 => 107,
        KeyCode::F16 => 108,
        KeyCode::F17 => 109,
        KeyCode::F18 => 110,
        KeyCode::F19 => 111,
        KeyCode::F20 => 112,
        KeyCode::F21 => 113,
        KeyCode::F22 => 114,
        KeyCode::F23 => 115,
        KeyCode::F24 => 116,
        KeyCode::ShiftLeft => 117,
        KeyCode::ShiftRight => 118,
        KeyCode::ControlLeft => 119,
        KeyCode::ControlRight => 120,
        KeyCode::AltLeft => 121,
        KeyCode::AltRight => 122,
        KeyCode::MetaLeft => 123,
        KeyCode::MetaRight => 124,
    }
}

pub fn key_index(k: KeyCode) -> (r: u32)
    ensures
        r == spec_key_index(k),
{
    match k {
        KeyCode::Backquote => 0,
        KeyCode::Backslash => 1,
        KeyCode::BracketLeft => 2,
        KeyCode::BracketRight => 3,
        KeyCode::Pause => 4,
        KeyCode::Comma => 5,
        KeyCode::Digit0 => 6,
        KeyCode::Digit1 => 7,
        KeyCode::Digit2 => 8,
        KeyCode::Digit3 => 9,
        KeyCode::Digit4 => 10,
        KeyCode::Digit5 => 11,
        KeyCode::Digit6 => 12,
        KeyCode::Digit7 => 13,
        KeyCode::Digit8 => 14,
        KeyCode::Digit9 => 15,
        KeyCode::Equal => 16,
        KeyCode::KeyA => 17,
        KeyCode::KeyB => 18,
        KeyCode::KeyC => 19,
        KeyCode::KeyD => 20,
        KeyCode::KeyE => 21,
        KeyCode::KeyF => 22,
        KeyCode::KeyG => 23,
        KeyCode::KeyH => 24,
        KeyCode::KeyI => 25,
        KeyCode::KeyJ => 26,
        KeyCode::KeyK => 27,
        KeyCode::KeyL => 28,
        KeyCode::KeyM => 29,
        KeyCode::KeyN => 30,
        KeyCode::KeyO => 31,
        KeyCode::KeyP => 32,
        KeyCode::KeyQ => 33,
        KeyCode::KeyR => 34,
        KeyCode::KeyS => 35,
        KeyCode::KeyT => 36,
        KeyCode::KeyU => 37,
        KeyCode::KeyV => 38,
        KeyCode::KeyW => 39,
        KeyCode::KeyX => 40,
        KeyCode::KeyY => 41,
        KeyCode::KeyZ => 42,
        KeyCode::Minus => 43,
        KeyCode::Period => 44,
        KeyCode::Quote => 45,
        KeyCode::Semicolon => 46,
        KeyCode::Slash => 47,
        KeyCode::Backspace => 48,
        KeyCode::CapsLock => 49,
        KeyCode::Enter => 50,
        KeyCode::Space => 51,
        KeyCode::Tab => 52,
        KeyCode::Delete => 53,
        KeyCode::End => 54,
        KeyCode::Home => 55,
        KeyCode::Insert => 56,
        KeyCode::PageDown => 57,
        KeyCode::PageUp => 58,
        KeyCode::PrintScreen => 59,
        KeyCode::ScrollLock => 60,
        KeyCode::ArrowDown => 61,
        KeyCode::ArrowLeft => 62,
        KeyCode::ArrowRight => 63,
        KeyCode::ArrowUp => 64,
        KeyCode::NumLock => 65,
        KeyCode::Numpad0 => 66,
        KeyCode::Numpad1 => 67,
        KeyCode::Numpad2 => 68,
        KeyCode::Numpad3 => 69,
        KeyCode::Numpad4 => 70,
        KeyCode::Numpad5 => 71,
        KeyCode::Numpad6 => 72,
        KeyCode::Numpad7 => 73,
        KeyCode::Numpad8 => 74,
        KeyCode::Numpad9 => 75,
        KeyCode::NumpadAdd => 76,
        KeyCode::NumpadDecimal => 77,
        KeyCode::NumpadDivide => 78,
        KeyCode::NumpadEnter => 79,
        KeyCode::NumpadEqual => 80,
        KeyCode::NumpadMultiply => 81,
        KeyCode::NumpadSubtract => 82,
        KeyCode::Escape => 83,
        KeyCode::F1 => 84,
        KeyCode::F2 => 85,
        KeyCode::F3 => 86,
        KeyCode::F4 => 87,
        KeyCode::F5 => 88,
        KeyCode::F6 => 89,
        KeyCode::F7 => 90,
        KeyCode::F8 => 91,
        KeyCode::F9 => 92,
        KeyCode::F10 => 93,
        KeyCode::F11 => 94,
        KeyCode::F12 => 95,
        KeyCode::AudioVolumeDown => 96,
        KeyCode::AudioVolumeUp => 97,
        KeyCode::AudioVolumeMute => 98,
        KeyCode::MediaPlay => 99,
        KeyCode::MediaPause => 100,
        KeyCode::MediaPlayPause => 101,
        KeyCode::MediaStop => 102,
        KeyCode::MediaTrackNext => 103,
        KeyCode::MediaTrackPrevious => 104,
        KeyCode::F13 => 105,
        KeyCode::F14 => 106,
        KeyCode::F15 => 107,
        KeyCode::F16 => 108,
        KeyCode::F17 => 109,
        KeyCode::F18 => 110,
        KeyCode::F19 => 111,
        KeyCode::F20 => 112,
        KeyCode::F21 => 113,
        KeyCode::F22 => 114,
        KeyCode::F23 => 115,
        KeyCode::F24 => 116,
        KeyCode::ShiftLeft => 117,
        KeyCode::ShiftRight => 118,
        KeyCode::ControlLeft => 119,
        KeyCode::ControlRight => 120,
        KeyCode::AltLeft => 121,
        KeyCode::AltRight => 122,
        KeyCode::MetaLeft => 123,
        KeyCode::MetaRight => 124,
    }
}

} // verus!
