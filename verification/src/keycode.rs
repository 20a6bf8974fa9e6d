//! Keyboard keys that a binding can name, with their display labels.

use vstd::prelude::*;

verus! {

/// A physical keyboard key, identified by its position on a US layout.
#[derive(Debug, Clone, Copy, PartialEq, Eq, Hash, Structural)]
pub enum KeyCode {
    Backquote,
    Backslash,
    BracketLeft,
    BracketRight,
    Comma,
    Digit0,
    Digit1,
    Digit2,
    Digit3,
    Digit4,
    Digit5,
    Digit6,
    Digit7,
    Digit8,
    Digit9,
    Equal,
    IntlBackslash,
    IntlRo,
    IntlYen,
    KeyA,
    KeyB,
    KeyC,
    KeyD,
    KeyE,
    KeyF,
    KeyG,
    KeyH,
    KeyI,
    KeyJ,
    KeyK,
    KeyL,
    KeyM,
    KeyN,
    KeyO,
    KeyP,
    KeyQ,
    KeyR,
    KeyS,
    KeyT,
    KeyU,
    KeyV,
    KeyW,
    KeyX,
    KeyY,
    KeyZ,
    Minus,
    Period,
    Quote,
    Semicolon,
    Slash,
    AltLeft,
    AltRight,
    Backspace,
    CapsLock,
    ContextMenu,
    ControlLeft,
    ControlRight,
    Enter,
    SuperLeft,
    SuperRight,
    ShiftLeft,
    ShiftRight,
    Space,
    Tab,
    Convert,
    KanaMode,
    Lang1,
    Lang2,
    Lang3,
    Lang4,
    Lang5,
    NonConvert,
    Delete,
    End,
    Help,
    Home,
    Insert,
    PageDown,
    PageUp,
    ArrowDown,
    ArrowLeft,
    ArrowRight,
    ArrowUp,
    NumLock,
    Numpad0,
    Numpad1,
    Numpad2,
    Numpad3,
    Numpad4,
    Numpad5,
    Numpad6,
    Numpad7,
    Numpad8,
    Numpad9,
    NumpadAdd,
    NumpadBackspace,
    NumpadClear,
    NumpadClearEntry,
    NumpadComma,
    NumpadDecimal,
    NumpadDivide,
    NumpadEnter,
    NumpadEqual,
    NumpadHash,
    NumpadMemoryAdd,
    NumpadMemoryClear,
    NumpadMemoryRecall,
    NumpadMemoryStore,
    NumpadMemorySubtract,
    NumpadMultiply,
    NumpadParenLeft,
    NumpadParenRight,
    NumpadStar,
    NumpadSubtract,
    Escape,
    Fn,
    FnLock,
    PrintScreen,
    ScrollLock,
    Pause,
    BrowserBack,
    BrowserFavorites,
    BrowserForward,
    BrowserHome,
    BrowserRefresh,
    BrowserSearch,
    BrowserStop,
    Eject,
    LaunchApp1,
    LaunchApp2,
    LaunchMail,
    MediaPlayPause,
    MediaSelect,
    MediaStop,
    MediaTrackNext,
    MediaTrackPrevious,
    Power,
    Sleep,
    AudioVolumeDown,
    AudioVolumeMute,
    AudioVolumeUp,
    WakeUp,
    Meta,
    Hyper,
    Turbo,
    Abort,
    Resume,
    Suspend,
    Again,
    Copy,
    Cut,
    Find,
    Open,
    Paste,
    Props,
    Select,
    Undo,
    Hiragana,
    Katakana,
    F1,
    F2,
    F3,
    F4,
    F5,
    F6,
    F7,
    F8,
    F9,
    F10,
    F11,
    F12,
    F13,
    F14,
    F15,
    F16,
    F17,
    F18,
    F19,
    F20,
    F21,
    F22,
    F23,
    F24,
    F25,
    F26,
    F27,
    F28,
    F29,
    F30,
    F31,
    F32,
    F33,
    F34,
    F35,
}

/// The key's identifier, spelled as its variant name.
pub open spec fn key_name_spec(k: KeyCode) -> Seq<char> {
    match k {
        KeyCode::Backquote => "Backquote"@,
        KeyCode::Backslash => "Backslash"@,
        KeyCode::BracketLeft => "BracketLeft"@,
        KeyCode::BracketRight => "BracketRight"@,
        KeyCode::Comma => "Comma"@,
        KeyCode::Digit0 => "Digit0"@,
        KeyCode::Digit1 => "Digit1"@,
        KeyCode::Digit2 => "Digit2"@,
        KeyCode::Digit3 => "Digit3"@,
        KeyCode::Digit4 => "Digit4"@,
        KeyCode::Digit5 => "Digit5"@,
        KeyCode::Digit6 => "Digit6"@,
        KeyCode::Digit7 => "Digit7"@,
        KeyCode::Digit8 => "Digit8"@,
        KeyCode::Digit9 => "Digit9"@,
        KeyCode::Equal => "Equal"@,
        KeyCode::IntlBackslash => "IntlBackslash"@,
        KeyCode::IntlRo => "IntlRo"@,
        KeyCode::IntlYen => "IntlYen"@,
        KeyCode::KeyA => "KeyA"@,
        KeyCode::KeyB => "KeyB"@,
        KeyCode::KeyC => "KeyC"@,
        KeyCode::KeyD => "KeyD"@,
        KeyCode::KeyE => "KeyE"@,
        KeyCode::KeyF => "KeyF"@,
        KeyCode::KeyG => "KeyG"@,
        KeyCode::KeyH => "KeyH"@,
        KeyCode::KeyI => "KeyI"@,
        KeyCode::KeyJ => "KeyJ"@,
        KeyCode::KeyK => "KeyK"@,
        KeyCode::KeyL => "KeyL"@,
        KeyCode::KeyM => "KeyM"@,
        KeyCode::KeyN => "KeyN"@,
        KeyCode::KeyO => "KeyO"@,
        KeyCode::KeyP => "KeyP"@,
        KeyCode::KeyQ => "KeyQ"@,
        KeyCode::KeyR => "KeyR"@,
        KeyCode::KeyS => "KeyS"@,
        KeyCode::KeyT => "KeyT"@,
        KeyCode::KeyU => "KeyU"@,
        KeyCode::KeyV => "KeyV"@,
        KeyCode::KeyW => "KeyW"@,
        KeyCode::KeyX => "KeyX"@,
        KeyCode::KeyY => "KeyY"@,
        KeyCode::KeyZ => "KeyZ"@,
        KeyCode::Minus => "Minus"@,
        KeyCode::Period => "Period"@,
        KeyCode::Quote => "Quote"@,
        KeyCode::Semicolon => "Semicolon"@,
        KeyCode::Slash => "Slash"@,
        KeyCode::AltLeft => "AltLeft"@,
        KeyCode::AltRight => "AltRight"@,
        KeyCode::Backspace => "Backspace"@,
        KeyCode::CapsLock => "CapsLock"@,
        KeyCode::ContextMenu => "ContextMenu"@,
        KeyCode::ControlLeft => "ControlLeft"@,
        KeyCode::ControlRight => "ControlRight"@,
        KeyCode::Enter => "Enter"@,
        KeyCode::SuperLeft => "SuperLeft"@,
        KeyCode::SuperRight => "SuperRight"@,
        KeyCode::ShiftLeft => "ShiftLeft"@,
        KeyCode::ShiftRight => "ShiftRight"@,
        KeyCode::Space => "Space"@,
        KeyCode::Tab => "Tab"@,
        KeyCode::Convert => "Convert"@,
        KeyCode::KanaMode => "KanaMode"@,
        KeyCode::Lang1 => "Lang1"@,
        KeyCode::Lang2 => "Lang2"@,
        KeyCode::Lang3 => "Lang3"@,
        KeyCode::Lang4 => "Lang4"@,
        KeyCode::Lang5 => "Lang5"@,
        KeyCode::NonConvert => "NonConvert"@,
        KeyCode::Delete => "Delete"@,
        KeyCode::End => "End"@,
        KeyCode::Help => "Help"@,
        KeyCode::Home => "Home"@,
        KeyCode::Insert => "Insert"@,
        KeyCode::PageDown => "PageDown"@,
        KeyCode::PageUp => "PageUp"@,
        KeyCode::ArrowDown => "ArrowDown"@,
        KeyCode::ArrowLeft => "ArrowLeft"@,
        KeyCode::ArrowRight => "ArrowRight"@,
        KeyCode::ArrowUp => "ArrowUp"@,
        KeyCode::NumLock => "NumLock"@,
        KeyCode::Numpad0 => "Numpad0"@,
        KeyCode::Numpad1 => "Numpad1"@,
        KeyCode::Numpad2 => "Numpad2"@,
        KeyCode::Numpad3 => "Numpad3"@,
        KeyCode::Numpad4 => "Numpad4"@,
        KeyCode::Numpad5 => "Numpad5"@,
        KeyCode::Numpad6 => "Numpad6"@,
        KeyCode::Numpad7 => "Numpad7"@,
        KeyCode::Numpad8 => "Numpad8"@,
        KeyCode::Numpad9 => "Numpad9"@,
        KeyCode::NumpadAdd => "NumpadAdd"@,
        KeyCode::NumpadBackspace => "NumpadBackspace"@,
        KeyCode::NumpadClear => "NumpadClear"@,
        KeyCode::NumpadClearEntry => "NumpadClearEntry"@,
        KeyCode::NumpadComma => "NumpadComma"@,
        KeyCode::NumpadDecimal => "NumpadDecimal"@,
        KeyCode::NumpadDivide => "NumpadDivide"@,
        KeyCode::NumpadEnter => "NumpadEnter"@,
        KeyCode::NumpadEqual => "NumpadEqual"@,
        KeyCode::NumpadHash => "NumpadHash"@,
        KeyCode::NumpadMemoryAdd => "NumpadMemoryAdd"@,
        KeyCode::NumpadMemoryClear => "NumpadMemoryClear"@,
        KeyCode::NumpadMemoryRecall => "NumpadMemoryRecall"@,
        KeyCode::NumpadMemoryStore => "NumpadMemoryStore"@,
        KeyCode::NumpadMemorySubtract => "NumpadMemorySubtract"@,
        KeyCode::NumpadMultiply => "NumpadMultiply"@,
        KeyCode::NumpadParenLeft => "NumpadParenLeft"@,
        KeyCode::NumpadParenRight => "NumpadParenRight"@,
        KeyCode::NumpadStar => "NumpadStar"@,
        KeyCode::NumpadSubtract => "NumpadSubtract"@,
        KeyCode::Escape => "Escape"@,
        KeyCode::Fn => "Fn"@,
        KeyCode::FnLock => "FnLock"@,
        KeyCode::PrintScreen => "PrintScreen"@,
        KeyCode::ScrollLock => "ScrollLock"@,
        KeyCode::Pause => "Pause"@,
        KeyCode::BrowserBack => "BrowserBack"@,
        KeyCode::BrowserFavorites => "BrowserFavorites"@,
        KeyCode::BrowserForward => "BrowserForward"@,
        KeyCode::BrowserHome => "BrowserHome"@,
        KeyCode::BrowserRefresh => "BrowserRefresh"@,
        KeyCode::BrowserSearch => "BrowserSearch"@,
        KeyCode::BrowserStop => "BrowserStop"@,
        KeyCode::Eject => "Eject"@,
        KeyCode::LaunchApp1 => "LaunchApp1"@,
        KeyCode::LaunchApp2 => "LaunchApp2"@,
        KeyCode::LaunchMail => "LaunchMail"@,
        KeyCode::MediaPlayPause => "MediaPlayPause"@,
        KeyCode::MediaSelect => "MediaSelect"@,
        KeyCode::MediaStop => "MediaStop"@,
        KeyCode::MediaTrackNext => "MediaTrackNext"@,
        KeyCode::MediaTrackPrevious => "MediaTrackPrevious"@,
        KeyCode::Power => "Power"@,
        KeyCode::Sleep => "Sleep"@,
        KeyCode::AudioVolumeDown => "AudioVolumeDown"@,
        KeyCode::AudioVolumeMute => "AudioVolumeMute"@,
        KeyCode::AudioVolumeUp => "AudioVolumeUp"@,
        KeyCode::WakeUp => "WakeUp"@,
        KeyCode::Meta => "Meta"@,
        KeyCode::Hyper => "Hyper"@,
        KeyCode::Turbo => "Turbo"@,
        KeyCode::Abort => "Abort"@,
        KeyCode::Resume => "Resume"@,
        KeyCode::Suspend => "Suspend"@,
        KeyCode::Again => "Again"@,
        KeyCode::Copy => "Copy"@,
        KeyCode::Cut => "Cut"@,
        KeyCode::Find => "Find"@,
        KeyCode::Open => "Open"@,
        KeyCode::Paste => "Paste"@,
        KeyCode::Props => "Props"@,
        KeyCode::Select => "Select"@,
        KeyCode::Undo => "Undo"@,
        KeyCode::Hiragana => "Hiragana"@,
        KeyCode::Katakana => "Katakana"@,
        KeyCode::F1 => "F1"@,
        KeyCode::F2 => "F2"@,
        KeyCode::F3 => "F3"@,
        KeyCode::F4 => "F4"@,
        KeyCode::F5 => "F5"@,
        KeyCode::F6 => "F6"@,
        KeyCode::F7 => "F7"@,
        KeyCode::F8 => "F8"@,
        KeyCode::F9 => "F9"@,
        KeyCode::F10 => "F10"@,
        KeyCode::F11 => "F11"@,
        KeyCode::F12 => "F12"@,
        KeyCode::F13 => "F13"@,
        KeyCode::F14 => "F14"@,
        KeyCode::F15 => "F15"@,
        KeyCode::F16 => "F16"@,
        KeyCode::F17 => "F17"@,
        KeyCode::F18 => "F18"@,
        KeyCode::F19 => "F19"@,
        KeyCode::F20 => "F20"@,
        KeyCode::F21 => "F21"@,
        KeyCode::F22 => "F22"@,
        KeyCode::F23 => "F23"@,
        KeyCode::F24 => "F24"@,
        KeyCode::F25 => "F25"@,
        KeyCode::F26 => "F26"@,
        KeyCode::F27 => "F27"@,
        KeyCode::F28 => "F28"@,
        KeyCode::F29 => "F29"@,
        KeyCode::F30 => "F30"@,
        KeyCode::F31 => "F31"@,
        KeyCode::F32 => "F32"@,
        KeyCode::F33 => "F33"@,
        KeyCode::F34 => "F34"@,
        KeyCode::F35 => "F35"@,
    }
}

impl KeyCode {
    /// The key's identifier, spelled as its variant name (for example `KeyW`).
    pub fn name(&self) -> (r: &'static str)
        ensures
            r@ == key_name_spec(*self),
    {
        match self {
            KeyCode::Backquote => "Backquote",
            KeyCode::Backslash => "Backslash",
            KeyCode::BracketLeft => "BracketLeft",
            KeyCode::BracketRight => "BracketRight",
            KeyCode::Comma => "Comma",
            KeyCode::Digit0 => "Digit0",
            KeyCode::Digit1 => "Digit1",
            KeyCode::Digit2 => "Digit2",
            KeyCode::Digit3 => "Digit3",
            KeyCode::Digit4 => "Digit4",
            KeyCode::Digit5 => "Digit5",
            KeyCode::Digit6 => "Digit6",
            KeyCode::Digit7 => "Digit7",
            KeyCode::Digit8 => "Digit8",
            KeyCode::Digit9 => "Digit9",
            KeyCode::Equal => "Equal",
            KeyCode::IntlBackslash => "IntlBackslash",
            KeyCode::IntlRo => "IntlRo",
            KeyCode::IntlYen => "IntlYen",
            KeyCode::KeyA => "KeyA",
            KeyCode::KeyB => "KeyB",
            KeyCode::KeyC => "KeyC",
            KeyCode::KeyD => "KeyD",
            KeyCode::KeyE => "KeyE",
            KeyCode::KeyF => "KeyF",
            KeyCode::KeyG => "KeyG",
            KeyCode::KeyH => "KeyH",
            KeyCode::KeyI => "KeyI",
            KeyCode::KeyJ => "KeyJ",
            KeyCode::KeyK => "KeyK",
            KeyCode::KeyL => "KeyL",
            KeyCode::KeyM => "KeyM",
            KeyCode::KeyN => "KeyN",
            KeyCode::KeyO => "KeyO",
            KeyCode::KeyP => "KeyP",
            KeyCode::KeyQ => "KeyQ",
            KeyCode::KeyR => "KeyR",
            KeyCode::KeyS => "KeyS",
            KeyCode::KeyT => "KeyT",
            KeyCode::KeyU => "KeyU",
            KeyCode::KeyV => "KeyV",
            KeyCode::KeyW => "KeyW",
            KeyCode::KeyX => "KeyX",
            KeyCode::KeyY => "KeyY",
            KeyCode::KeyZ => "KeyZ",
            KeyCode::Minus => "Minus",
            KeyCode::Period => "Period",
            KeyCode::Quote => "Quote",
            KeyCode::Semicolon => "Semicolon",
            KeyCode::Slash => "Slash",
            KeyCode::AltLeft => "AltLeft",
            KeyCode::AltRight => "AltRight",
            KeyCode::Backspace => "Backspace",
            KeyCode::CapsLock => "CapsLock",
            KeyCode::ContextMenu => "ContextMenu",
            KeyCode::ControlLeft => "ControlLeft",
            KeyCode::ControlRight => "ControlRight",
            KeyCode::Enter => "Enter",
            KeyCode::SuperLeft => "SuperLeft",
            KeyCode::SuperRight => "SuperRight",
            KeyCode::ShiftLeft => "ShiftLeft",
            KeyCode::ShiftRight => "ShiftRight",
            KeyCode::Space => "Space",
            KeyCode::Tab => "Tab",
            KeyCode::Convert => "Convert",
            KeyCode::KanaMode => "KanaMode",
            KeyCode::Lang1 => "Lang1",
            KeyCode::Lang2 => "Lang2",
            KeyCode::Lang3 => "Lang3",
            KeyCode::Lang4 => "Lang4",
            KeyCode::Lang5 => "Lang5",
            KeyCode::NonConvert => "NonConvert",
            KeyCode::Delete => "Delete",
            KeyCode::End => "End",
            KeyCode::Help => "Help",
            KeyCode::Home => "Home",
            KeyCode::Insert => "Insert",
            KeyCode::PageDown => "PageDown",
            KeyCode::PageUp => "PageUp",
            KeyCode::ArrowDown => "ArrowDown",
            KeyCode::ArrowLeft => "ArrowLeft",
            KeyCode::ArrowRight => "ArrowRight",
            KeyCode::ArrowUp => "ArrowUp",
            KeyCode::NumLock => "NumLock",
            KeyCode::Numpad0 => "Numpad0",
            KeyCode::Numpad1 => "Numpad1",
            KeyCode::Numpad2 => "Numpad2",
            KeyCode::Numpad3 => "Numpad3",
            KeyCode::Numpad4 => "Numpad4",
            KeyCode::Numpad5 => "Numpad5",
            KeyCode::Numpad6 => "Numpad6",
            KeyCode::Numpad7 => "Numpad7",
            KeyCode::Numpad8 => "Numpad8",
            KeyCode::Numpad9 => "Numpad9",
            KeyCode::NumpadAdd => "NumpadAdd",
            KeyCode::NumpadBackspace => "NumpadBackspace",
            KeyCode::NumpadClear => "NumpadClear",
            KeyCode::NumpadClearEntry => "NumpadClearEntry",
            KeyCode::NumpadComma => "NumpadComma",
            KeyCode::NumpadDecimal => "NumpadDecimal",
            KeyCode::NumpadDivide => "NumpadDivide",
            KeyCode::NumpadEnter => "NumpadEnter",
            KeyCode::NumpadEqual => "NumpadEqual",
            KeyCode::NumpadHash => "NumpadHash",
            KeyCode::NumpadMemoryAdd => "NumpadMemoryAdd",
            KeyCode::NumpadMemoryClear => "NumpadMemoryClear",
            KeyCode::NumpadMemoryRecall => "NumpadMemoryRecall",
            KeyCode::NumpadMemoryStore => "NumpadMemoryStore",
            KeyCode::NumpadMemorySubtract => "NumpadMemorySubtract",
            KeyCode::NumpadMultiply => "NumpadMultiply",
            KeyCode::NumpadParenLeft => "NumpadParenLeft",
            KeyCode::NumpadParenRight => "NumpadParenRight",
            KeyCode::NumpadStar => "NumpadStar",
            KeyCode::NumpadSubtract => "NumpadSubtract",
            KeyCode::Escape => "Escape",
            KeyCode::Fn => "Fn",
            KeyCode::FnLock => "FnLock",
            KeyCode::PrintScreen => "PrintScreen",
            KeyCode::ScrollLock => "ScrollLock",
            KeyCode::Pause => "Pause",
            KeyCode::BrowserBack => "BrowserBack",
            KeyCode::BrowserFavorites => "BrowserFavorites",
            KeyCode::BrowserForward => "BrowserForward",
            KeyCode::BrowserHome => "BrowserHome",
            KeyCode::BrowserRefresh => "BrowserRefresh",
            KeyCode::BrowserSearch => "BrowserSearch",
            KeyCode::BrowserStop => "BrowserStop",
            KeyCode::Eject => "Eject",
            KeyCode::LaunchApp1 => "LaunchApp1",
            KeyCode::LaunchApp2 => "LaunchApp2",
            KeyCode::LaunchMail => "LaunchMail",
            KeyCode::MediaPlayPause => "MediaPlayPause",
            KeyCode::MediaSelect => "MediaSelect",
            KeyCode::MediaStop => "MediaStop",
            KeyCode::MediaTrackNext => "MediaTrackNext",
            KeyCode::MediaTrackPrevious => "MediaTrackPrevious",
            KeyCode::Power => "Power",
            KeyCode::Sleep => "Sleep",
            KeyCode::AudioVolumeDown => "AudioVolumeDown",
            KeyCode::AudioVolumeMute => "AudioVolumeMute",
            KeyCode::AudioVolumeUp => "AudioVolumeUp",
            KeyCode::WakeUp => "WakeUp",
            KeyCode::Meta => "Meta",
            KeyCode::Hyper => "Hyper",
            KeyCode::Turbo => "Turbo",
            KeyCode::Abort => "Abort",
            KeyCode::Resume => "Resume",
            KeyCode::Suspend => "Suspend",
            KeyCode::Again => "Again",
            KeyCode::Copy => "Copy",
            KeyCode::Cut => "Cut",
            KeyCode::Find => "Find",
            KeyCode::Open => "Open",
            KeyCode::Paste => "Paste",
            KeyCode::Props => "Props",
            KeyCode::Select => "Select",
            KeyCode::Undo => "Undo",
            KeyCode::Hiragana => "Hiragana",
            KeyCode::Katakana => "Katakana",
            KeyCode::F1 => "F1",
            KeyCode::F2 => "F2",
            KeyCode::F3 => "F3",
            KeyCode::F4 => "F4",
            KeyCode::F5 => "F5",
            KeyCode::F6 => "F6",
            KeyCode::F7 => "F7",
            KeyCode::F8 => "F8",
            KeyCode::F9 => "F9",
            KeyCode::F10 => "F10",
            KeyCode::F11 => "F11",
            KeyCode::F12 => "F12",
            KeyCode::F13 => "F13",
            KeyCode::F14 => "F14",
            KeyCode::F15 => "F15",
            KeyCode::F16 => "F16",
            KeyCode::F17 => "F17",
            KeyCode::F18 => "F18",
            KeyCode::F19 => "F19",
            KeyCode::F20 => "F20",
            KeyCode::F21 => "F21",
            KeyCode::F22 => "F22",
            KeyCode::F23 => "F23",
            KeyCode::F24 => "F24",
            KeyCode::F25 => "F25",
            KeyCode::F26 => "F26",
            KeyCode::F27 => "F27",
            KeyCode::F28 => "F28",
            KeyCode::F29 => "F29",
            KeyCode::F30 => "F30",
            KeyCode::F31 => "F31",
            KeyCode::F32 => "F32",
            KeyCode::F33 => "F33",
            KeyCode::F34 => "F34",
            KeyCode::F35 => "F35",
        }
    }
}

/// Every key, in declaration order.
pub const ALL_KEYS: [KeyCode; 194] = [
    KeyCode::Backquote,
    KeyCode::Backslash,
    KeyCode::BracketLeft,
    KeyCode::BracketRight,
    KeyCode::Comma,
    KeyCode::Digit0,
    KeyCode::Digit1,
    KeyCode::Digit2,
    KeyCode::Digit3,
    KeyCode::Digit4,
    KeyCode::Digit5,
    KeyCode::Digit6,
    KeyCode::Digit7,
    KeyCode::Digit8,
    KeyCode::Digit9,
    KeyCode::Equal,
    KeyCode::IntlBackslash,
    KeyCode::IntlRo,
    KeyCode::IntlYen,
    KeyCode::KeyA,
    KeyCode::KeyB,
    KeyCode::KeyC,
    KeyCode::KeyD,
    KeyCode::KeyE,
    KeyCode::KeyF,
    KeyCode::KeyG,
    KeyCode::KeyH,
    KeyCode::KeyI,
    KeyCode::KeyJ,
    KeyCode::KeyK,
    KeyCode::KeyL,
    KeyCode::KeyM,
    KeyCode::KeyN,
    KeyCode::KeyO,
    KeyCode::KeyP,
    KeyCode::KeyQ,
    KeyCode::KeyR,
    KeyCode::KeyS,
    KeyCode::KeyT,
    KeyCode::KeyU,
    KeyCode::KeyV,
    KeyCode::KeyW,
    KeyCode::KeyX,
    KeyCode::KeyY,
    KeyCode::KeyZ,
    KeyCode::Minus,
    KeyCode::Period,
    KeyCode::Quote,
    KeyCode::Semicolon,
    KeyCode::Slash,
    KeyCode::AltLeft,
    KeyCode::AltRight,
    KeyCode::Backspace,
    KeyCode::CapsLock,
    KeyCode::ContextMenu,
    KeyCode::ControlLeft,
    KeyCode::ControlRight,
    KeyCode::Enter,
    KeyCode::SuperLeft,
    KeyCode::SuperRight,
    KeyCode::ShiftLeft,
    KeyCode::ShiftRight,
    KeyCode::Space,
    KeyCode::Tab,
    KeyCode::Convert,
    KeyCode::KanaMode,
    KeyCode::Lang1,
    KeyCode::Lang2,
    KeyCode::Lang3,
    KeyCode::Lang4,
    KeyCode::Lang5,
    KeyCode::NonConvert,
    KeyCode::Delete,
    KeyCode::End,
    KeyCode::Help,
    KeyCode::Home,
    KeyCode::Insert,
    KeyCode::PageDown,
    KeyCode::PageUp,
    KeyCode::ArrowDown,
    KeyCode::ArrowLeft,
    KeyCode::ArrowRight,
    KeyCode::ArrowUp,
    KeyCode::NumLock,
    KeyCode::Numpad0,
    KeyCode::Numpad1,
    KeyCode::Numpad2,
    KeyCode::Numpad3,
    KeyCode::Numpad4,
    KeyCode::Numpad5,
    KeyCode::Numpad6,
    KeyCode::Numpad7,
    KeyCode::Numpad8,
    KeyCode::Numpad9,
    KeyCode::NumpadAdd,
    KeyCode::NumpadBackspace,
    KeyCode::NumpadClear,
    KeyCode::NumpadClearEntry,
    KeyCode::NumpadComma,
    KeyCode::NumpadDecimal,
    KeyCode::NumpadDivide,
    KeyCode::NumpadEnter,
    KeyCode::NumpadEqual,
    KeyCode::NumpadHash,
    KeyCode::NumpadMemoryAdd,
    KeyCode::NumpadMemoryClear,
    KeyCode::NumpadMemoryRecall,
    KeyCode::NumpadMemoryStore,
    KeyCode::NumpadMemorySubtract,
    KeyCode::NumpadMultiply,
    KeyCode::NumpadParenLeft,
    KeyCode::NumpadParenRight,
    KeyCode::NumpadStar,
    KeyCode::NumpadSubtract,
    KeyCode::Escape,
    KeyCode::Fn,
    KeyCode::FnLock,
    KeyCode::PrintScreen,
    KeyCode::ScrollLock,
    KeyCode::Pause,
    KeyCode::BrowserBack,
    KeyCode::BrowserFavorites,
    KeyCode::BrowserForward,
    KeyCode::BrowserHome,
    KeyCode::BrowserRefresh,
    KeyCode::BrowserSearch,
    KeyCode::BrowserStop,
    KeyCode::Eject,
    KeyCode::LaunchApp1,
    KeyCode::LaunchApp2,
    KeyCode::LaunchMail,
    KeyCode::MediaPlayPause,
    KeyCode::MediaSelect,
    KeyCode::MediaStop,
    KeyCode::MediaTrackNext,
    KeyCode::MediaTrackPrevious,
    KeyCode::Power,
    KeyCode::Sleep,
    KeyCode::AudioVolumeDown,
    KeyCode::AudioVolumeMute,
    KeyCode::AudioVolumeUp,
    KeyCode::WakeUp,
    KeyCode::Meta,
    KeyCode::Hyper,
    KeyCode::Turbo,
    KeyCode::Abort,
    KeyCode::Resume,
    KeyCode::Suspend,
    KeyCode::Again,
    KeyCode::Copy,
    KeyCode::Cut,
    KeyCode::Find,
    KeyCode::Open,
    KeyCode::Paste,
    KeyCode::Props,
    KeyCode::Select,
    KeyCode::Undo,
    KeyCode::Hiragana,
    KeyCode::Katakana,
    KeyCode::F1,
    KeyCode::F2,
    KeyCode::F3,
    KeyCode::F4,
    KeyCode::F5,
    KeyCode::F6,
    KeyCode::F7,
    KeyCode::F8,
    KeyCode::F9,
    KeyCode::F10,
    KeyCode::F11,
    KeyCode::F12,
    KeyCode::F13,
    KeyCode::F14,
    KeyCode::F15,
    KeyCode::F16,
    KeyCode::F17,
    KeyCode::F18,
    KeyCode::F19,
    KeyCode::F20,
    KeyCode::F21,
    KeyCode::F22,
    KeyCode::F23,
    KeyCode::F24,
    KeyCode::F25,
    KeyCode::F26,
    KeyCode::F27,
    KeyCode::F28,
    KeyCode::F29,
    KeyCode::F30,
    KeyCode::F31,
    KeyCode::F32,
    KeyCode::F33,
    KeyCode::F34,
    KeyCode::F35,
];

/// Every key occurs in `ALL_KEYS`.
proof fn lemma_all_keys_cover(k: KeyCode)
    ensures
        exists|i: int| 0 <= i < ALL_KEYS@.len() && ALL_KEYS@[i] == k,
{
    match k {
        KeyCode::Backquote => assert(ALL_KEYS@[0] == k),
        KeyCode::Backslash => assert(ALL_KEYS@[1] == k),
        KeyCode::BracketLeft => assert(ALL_KEYS@[2] == k),
        KeyCode::BracketRight => assert(ALL_KEYS@[3] == k),
        KeyCode::Comma => assert(ALL_KEYS@[4] == k),
        KeyCode::Digit0 => assert(ALL_KEYS@[5] == k),
        KeyCode::Digit1 => assert(ALL_KEYS@[6] == k),
        KeyCode::Digit2 => assert(ALL_KEYS@[7] == k),
        KeyCode::Digit3 => assert(ALL_KEYS@[8] == k),
        KeyCode::Digit4 => assert(ALL_KEYS@[9] == k),
        KeyCode::Digit5 => assert(ALL_KEYS@[10] == k),
        KeyCode::Digit6 => assert(ALL_KEYS@[11] == k),
        KeyCode::Digit7 => assert(ALL_KEYS@[12] == k),
        KeyCode::Digit8 => assert(ALL_KEYS@[13] == k),
        KeyCode::Digit9 => assert(ALL_KEYS@[14] == k),
        KeyCode::Equal => assert(ALL_KEYS@[15] == k),
        KeyCode::IntlBackslash => assert(ALL_KEYS@[16] == k),
        KeyCode::IntlRo => assert(ALL_KEYS@[17] == k),
        KeyCode::IntlYen => assert(ALL_KEYS@[18] == k),
        KeyCode::KeyA => assert(ALL_KEYS@[19] == k),
        KeyCode::KeyB => assert(ALL_KEYS@[20] == k),
        KeyCode::KeyC => assert(ALL_KEYS@[21] == k),
        KeyCode::KeyD => assert(ALL_KEYS@[22] == k),
        KeyCode::KeyE => assert(ALL_KEYS@[23] == k),
        KeyCode::KeyF => assert(ALL_KEYS@[24] == k),
        KeyCode::KeyG => assert(ALL_KEYS@[25] == k),
        KeyCode::KeyH => assert(ALL_KEYS@[26] == k),
        KeyCode::KeyI => assert(ALL_KEYS@[27] == k),
        KeyCode::KeyJ => assert(ALL_KEYS@[28] == k),
        KeyCode::KeyK => assert(ALL_KEYS@[29] == k),
        KeyCode::KeyL => assert(ALL_KEYS@[30] == k),
        KeyCode::KeyM => assert(ALL_KEYS@[31] == k),
        KeyCode::KeyN => assert(ALL_KEYS@[32] == k),
        KeyCode::KeyO => assert(ALL_KEYS@[33] == k),
        KeyCode::KeyP => assert(ALL_KEYS@[34] == k),
        KeyCode::KeyQ => assert(ALL_KEYS@[35] == k),
        KeyCode::KeyR => assert(ALL_KEYS@[36] == k),
        KeyCode::KeyS => assert(ALL_KEYS@[37] == k),
        KeyCode::KeyT => assert(ALL_KEYS@[38] == k),
        KeyCode::KeyU => assert(ALL_KEYS@[39] == k),
        KeyCode::KeyV => assert(ALL_KEYS@[40] == k),
        KeyCode::KeyW => assert(ALL_KEYS@[41] == k),
        KeyCode::KeyX => assert(ALL_KEYS@[42] == k),
        KeyCode::KeyY => assert(ALL_KEYS@[43] == k),
        KeyCode::KeyZ => assert(ALL_KEYS@[44] == k),
        KeyCode::Minus => assert(ALL_KEYS@[45] == k),
        KeyCode::Period => assert(ALL_KEYS@[46] == k),
        KeyCode::Quote => assert(ALL_KEYS@[47] == k),
        KeyCode::Semicolon => assert(ALL_KEYS@[48] == k),
        KeyCode::Slash => assert(ALL_KEYS@[49] == k),
        KeyCode::AltLeft => assert(ALL_KEYS@[50] == k),
        KeyCode::AltRight => assert(ALL_KEYS@[51] == k),
        KeyCode::Backspace => assert(ALL_KEYS@[52] == k),
        KeyCode::CapsLock => assert(ALL_KEYS@[53] == k),
        KeyCode::ContextMenu => assert(ALL_KEYS@[54] == k),
        KeyCode::ControlLeft => assert(ALL_KEYS@[55] == k),
        KeyCode::ControlRight => assert(ALL_KEYS@[56] == k),
        KeyCode::Enter => assert(ALL_KEYS@[57] == k),
        KeyCode::SuperLeft => assert(ALL_KEYS@[58] == k),
        KeyCode::SuperRight => assert(ALL_KEYS@[59] == k),
        KeyCode::ShiftLeft => assert(ALL_KEYS@[60] == k),
        KeyCode::ShiftRight => assert(ALL_KEYS@[61] == k),
        KeyCode::Space => assert(ALL_KEYS@[62] == k),
        KeyCode::Tab => assert(ALL_KEYS@[63] == k),
        KeyCode::Convert => assert(ALL_KEYS@[64] == k),
        KeyCode::KanaMode => assert(ALL_KEYS@[65] == k),
        KeyCode::Lang1 => assert(ALL_KEYS@[66] == k),
        KeyCode::Lang2 => assert(ALL_KEYS@[67] == k),
        KeyCode::Lang3 => assert(ALL_KEYS@[68] == k),
        KeyCode::Lang4 => assert(ALL_KEYS@[69] == k),
        KeyCode::Lang5 => assert(ALL_KEYS@[70] == k),
        KeyCode::NonConvert => assert(ALL_KEYS@[71] == k),
        KeyCode::Delete => assert(ALL_KEYS@[72] == k),
        KeyCode::End => assert(ALL_KEYS@[73] == k),
        KeyCode::Help => assert(ALL_KEYS@[74] == k),
        KeyCode::Home => assert(ALL_KEYS@[75] == k),
        KeyCode::Insert => assert(ALL_KEYS@[76] == k),
        KeyCode::PageDown => assert(ALL_KEYS@[77] == k),
        KeyCode::PageUp => assert(ALL_KEYS@[78] == k),
        KeyCode::ArrowDown => assert(ALL_KEYS@[79] == k),
        KeyCode::ArrowLeft => assert(ALL_KEYS@[80] == k),
        KeyCode::ArrowRight => assert(ALL_KEYS@[81] == k),
        KeyCode::ArrowUp => assert(ALL_KEYS@[82] == k),
        KeyCode::NumLock => assert(ALL_KEYS@[83] == k),
        KeyCode::Numpad0 => assert(ALL_KEYS@[84] == k),
        KeyCode::Numpad1 => assert(ALL_KEYS@[85] == k),
        KeyCode::Numpad2 => assert(ALL_KEYS@[86] == k),
        KeyCode::Numpad3 => assert(ALL_KEYS@[87] == k),
        KeyCode::Numpad4 => assert(ALL_KEYS@[88] == k),
        KeyCode::Numpad5 => assert(ALL_KEYS@[89] == k),
        KeyCode::Numpad6 => assert(ALL_KEYS@[90] == k),
        KeyCode::Numpad7 => assert(ALL_KEYS@[91] == k),
        KeyCode::Numpad8 => assert(ALL_KEYS@[92] == k),
        KeyCode::Numpad9 => assert(ALL_KEYS@[93] == k),
        KeyCode::NumpadAdd => assert(ALL_KEYS@[94] == k),
        KeyCode::NumpadBackspace => assert(ALL_KEYS@[95] == k),
        KeyCode::NumpadClear => assert(ALL_KEYS@[96] == k),
        KeyCode::NumpadClearEntry => assert(ALL_KEYS@[97] == k),
        KeyCode::NumpadComma => assert(ALL_KEYS@[98] == k),
        KeyCode::NumpadDecimal => assert(ALL_KEYS@[99] == k),
        KeyCode::NumpadDivide => assert(ALL_KEYS@[100] == k),
        KeyCode::NumpadEnter => assert(ALL_KEYS@[101] == k),
        KeyCode::NumpadEqual => assert(ALL_KEYS@[102] == k),
        KeyCode::NumpadHash => assert(ALL_KEYS@[103] == k),
        KeyCode::NumpadMemoryAdd => assert(ALL_KEYS@[104] == k),
        KeyCode::NumpadMemoryClear => assert(ALL_KEYS@[105] == k),
        KeyCode::NumpadMemoryRecall => assert(ALL_KEYS@[106] == k),
        KeyCode::NumpadMemoryStore => assert(ALL_KEYS@[107] == k),
        KeyCode::NumpadMemorySubtract => assert(ALL_KEYS@[108] == k),
        KeyCode::NumpadMultiply => assert(ALL_KEYS@[109] == k),
        KeyCode::NumpadParenLeft => assert(ALL_KEYS@[110] == k),
        KeyCode::NumpadParenRight => assert(ALL_KEYS@[111] == k),
        KeyCode::NumpadStar => assert(ALL_KEYS@[112] == k),
        KeyCode::NumpadSubtract => assert(ALL_KEYS@[113] == k),
        KeyCode::Escape => assert(ALL_KEYS@[114] == k),
        KeyCode::Fn => assert(ALL_KEYS@[115] == k),
        KeyCode::FnLock => assert(ALL_KEYS@[116] == k),
        KeyCode::PrintScreen => assert(ALL_KEYS@[117] == k),
        KeyCode::ScrollLock => assert(ALL_KEYS@[118] == k),
        KeyCode::Pause => assert(ALL_KEYS@[119] == k),
        KeyCode::BrowserBack => assert(ALL_KEYS@[120] == k),
        KeyCode::BrowserFavorites => assert(ALL_KEYS@[121] == k),
        KeyCode::BrowserForward => assert(ALL_KEYS@[122] == k),
        KeyCode::BrowserHome => assert(ALL_KEYS@[123] == k),
        KeyCode::BrowserRefresh => assert(ALL_KEYS@[124] == k),
        KeyCode::BrowserSearch => assert(ALL_KEYS@[125] == k),
        KeyCode::BrowserStop => assert(ALL_KEYS@[126] == k),
        KeyCode::Eject => assert(ALL_KEYS@[127] == k),
        KeyCode::LaunchApp1 => assert(ALL_KEYS@[128] == k),
        KeyCode::LaunchApp2 => assert(ALL_KEYS@[129] == k),
        KeyCode::LaunchMail => assert(ALL_KEYS@[130] == k),
        KeyCode::MediaPlayPause => assert(ALL_KEYS@[131] == k),
        KeyCode::MediaSelect => assert(ALL_KEYS@[132] == k),
        KeyCode::MediaStop => assert(ALL_KEYS@[133] == k),
        KeyCode::MediaTrackNext => assert(ALL_KEYS@[134] == k),
        KeyCode::MediaTrackPrevious => assert(ALL_KEYS@[135] == k),
        KeyCode::Power => assert(ALL_KEYS@[136] == k),
        KeyCode::Sleep => assert(ALL_KEYS@[137] == k),
        KeyCode::AudioVolumeDown => assert(ALL_KEYS@[138] == k),
        KeyCode::AudioVolumeMute => assert(ALL_KEYS@[139] == k),
        KeyCode::AudioVolumeUp => assert(ALL_KEYS@[140] == k),
        KeyCode::WakeUp => assert(ALL_KEYS@[141] == k),
        KeyCode::Meta => assert(ALL_KEYS@[142] == k),
        KeyCode::Hyper => assert(ALL_KEYS@[143] == k),
        KeyCode::Turbo => assert(ALL_KEYS@[144] == k),
        KeyCode::Abort => assert(ALL_KEYS@[145] == k),
        KeyCode::Resume => assert(ALL_KEYS@[146] == k),
        KeyCode::Suspend => assert(ALL_KEYS@[147] == k),
        KeyCode::Again => assert(ALL_KEYS@[148] == k),
        KeyCode::Copy => assert(ALL_KEYS@[149] == k),
        KeyCode::Cut => assert(ALL_KEYS@[150] == k),
        KeyCode::Find => assert(ALL_KEYS@[151] == k),
        KeyCode::Open => assert(ALL_KEYS@[152] == k),
        KeyCode::Paste => assert(ALL_KEYS@[153] == k),
        KeyCode::Props => assert(ALL_KEYS@[154] == k),
        KeyCode::Select => assert(ALL_KEYS@[155] == k),
        KeyCode::Undo => assert(ALL_KEYS@[156] == k),
        KeyCode::Hiragana => assert(ALL_KEYS@[157] == k),
        KeyCode::Katakana => assert(ALL_KEYS@[158] == k),
        KeyCode::F1 => assert(ALL_KEYS@[159] == k),
        KeyCode::F2 => assert(ALL_KEYS@[160] == k),
        KeyCode::F3 => assert(ALL_KEYS@[161] == k),
        KeyCode::F4 => assert(ALL_KEYS@[162] == k),
        KeyCode::F5 => assert(ALL_KEYS@[163] == k),
        KeyCode::F6 => assert(ALL_KEYS@[164] == k),
        KeyCode::F7 => assert(ALL_KEYS@[165] == k),
        KeyCode::F8 => assert(ALL_KEYS@[166] == k),
        KeyCode::F9 => assert(ALL_KEYS@[167] == k),
        KeyCode::F10 => assert(ALL_KEYS@[168] == k),
        KeyCode::F11 => assert(ALL_KEYS@[169] == k),
        KeyCode::F12 => assert(ALL_KEYS@[170] == k),
        KeyCode::F13 => assert(ALL_KEYS@[171] == k),
        KeyCode::F14 => assert(ALL_KEYS@[172] == k),
        KeyCode::F15 => assert(ALL_KEYS@[173] == k),
        KeyCode::F16 => assert(ALL_KEYS@[174] == k),
        KeyCode::F17 => assert(ALL_KEYS@[175] == k),
        KeyCode::F18 => assert(ALL_KEYS@[176] == k),
        KeyCode::F19 => assert(ALL_KEYS@[177] == k),
        KeyCode::F20 => assert(ALL_KEYS@[178] == k),
        KeyCode::F21 => assert(ALL_KEYS@[179] == k),
        KeyCode::F22 => assert(ALL_KEYS@[180] == k),
        KeyCode::F23 => assert(ALL_KEYS@[181] == k),
        KeyCode::F24 => assert(ALL_KEYS@[182] == k),
        KeyCode::F25 => assert(ALL_KEYS@[183] == k),
        KeyCode::F26 => assert(ALL_KEYS@[184] == k),
        KeyCode::F27 => assert(ALL_KEYS@[185] == k),
        KeyCode::F28 => assert(ALL_KEYS@[186] == k),
        KeyCode::F29 => assert(ALL_KEYS@[187] == k),
        KeyCode::F30 => assert(ALL_KEYS@[188] == k),
        KeyCode::F31 => assert(ALL_KEYS@[189] == k),
        KeyCode::F32 => assert(ALL_KEYS@[190] == k),
        KeyCode::F33 => assert(ALL_KEYS@[191] == k),
        KeyCode::F34 => assert(ALL_KEYS@[192] == k),
        KeyCode::F35 => assert(ALL_KEYS@[193] == k),
    }
}

impl KeyCode {
    /// The key whose identifier is `name`, if any.
    pub fn from_name(name: &str) -> (r: Option<KeyCode>)
        ensures
            r matches Some(k) ==> key_name_spec(k) == name@,
            r is None ==> forall|k: KeyCode| key_name_spec(k) != name@,
    {
        let mut i: usize = 0;
        while i < ALL_KEYS.len()
            invariant
                i <= ALL_KEYS@.len(),
                forall|j: int| 0 <= j < i ==> key_name_spec(#[trigger] ALL_KEYS@[j]) != name@,
            decreases ALL_KEYS@.len() - i,
        {
            let k = ALL_KEYS[i];
            if crate::text::str_eq(k.name(), name) {
                return Some(k);
            }
            i = i + 1;
        }
        assert forall|k: KeyCode| key_name_spec(k) != name@ by {
            lemma_all_keys_cover(k);
        }
        None
    }
}

} // verus!
