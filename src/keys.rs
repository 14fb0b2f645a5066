//! Keys of the keyboard and the codes the browser engine takes for them,
//! and the player's shader hotkeys.

use vstd::prelude::*;

verus! {

/// A physical key, as the window layer reports it.
#[derive(Debug, Clone, Copy, PartialEq, Eq, Structural)]
pub enum Key {
    Backspace,
    Tab,
    Enter,
    Escape,
    Space,
    PageUp,
    PageDown,
    End,
    Home,
    ArrowLeft,
    ArrowUp,
    ArrowRight,
    ArrowDown,
    Digit0,
    Digit1,
    Digit2,
    Digit3,
    Digit4,
    Digit5,
    Digit6,
    Digit7,
    Digit8,
    Digit9,
    Equal,
    KeyA,
    KeyB,
    KeyC,
    KeyD,
    KeyE,
    KeyF,
    KeyG,
    KeyH,
    KeyI,
    KeyJ,
    KeyK,
    KeyL,
    KeyM,
    KeyN,
    KeyO,
    KeyP,
    KeyQ,
    KeyR,
    KeyS,
    KeyT,
    KeyU,
    KeyV,
    KeyW,
    KeyX,
    KeyY,
    KeyZ,
    F1,
    F2,
    F3,
    F4,
    F5,
    F6,
    F7,
    F8,
    F9,
    F10,
    F11,
    F12,
    Insert,
    Delete,
    Minus,
    Comma,
    Period,
    Slash,
    Semicolon,
    Quote,
    BracketLeft,
    BracketRight,
    Backslash,
    Backquote,
    Other,
}

/// The Windows virtual-key code of a key.
#[derive(Debug, Clone, Copy, PartialEq, Eq, Structural)]
pub struct WindowsKeyCode(pub i32);

/// The X11 keycode of a key.
#[derive(Debug, Clone, Copy, PartialEq, Eq, Structural)]
pub struct NativeKeyCode(pub i32);

/// The Windows virtual-key code of a key the engine knows.
pub open spec fn windows_code(key: Key) -> Option<i32> {
    match key {
        Key::Backspace => Some(8),
        Key::Tab => Some(9),
        Key::Enter => Some(13),
        Key::Escape => Some(27),
        Key::Space => Some(32),
        Key::PageUp => Some(33),
        Key::PageDown => Some(34),
        Key::End => Some(35),
        Key::Home => Some(36),
        Key::ArrowLeft => Some(37),
        Key::ArrowUp => Some(38),
        Key::ArrowRight => Some(39),
        Key::ArrowDown => Some(40),
        Key::Digit0 => Some(48),
        Key::Digit1 => Some(49),
        Key::Digit2 => Some(50),
        Key::Digit3 => Some(51),
        Key::Digit4 => Some(52),
        Key::Digit5 => Some(53),
        Key::Digit6 => Some(54),
        Key::Digit7 => Some(55),
        Key::Digit8 => Some(56),
        Key::Digit9 => Some(57),
        Key::Equal => Some(61),
        Key::KeyA => Some(65),
        Key::KeyB => Some(66),
        Key::KeyC => Some(67),
        Key::KeyD => Some(68),
        Key::KeyE => Some(69),
        Key::KeyF => Some(70),
        Key::KeyG => Some(71),
        Key::KeyH => Some(72),
        Key::KeyI => Some(73),
        Key::KeyJ => Some(74),
        Key::KeyK => Some(75),
        Key::KeyL => Some(76),
        Key::KeyM => Some(77),
        Key::KeyN => Some(78),
        Key::KeyO => Some(79),
        Key::KeyP => Some(80),
        Key::KeyQ => Some(81),
        Key::KeyR => Some(82),
        Key::KeyS => Some(83),
        Key::KeyT => Some(84),
        Key::KeyU => Some(85),
        Key::KeyV => Some(86),
        Key::KeyW => Some(87),
        Key::KeyX => Some(88),
        Key::KeyY => Some(89),
        Key::KeyZ => Some(90),
        Key::F1 => Some(112),
        Key::F2 => Some(113),
        Key::F3 => Some(114),
        Key::F4 => Some(115),
        Key::F5 => Some(116),
        Key::F6 => Some(117),
        Key::F7 => Some(118),
        Key::F8 => Some(119),
        Key::F9 => Some(120),
        Key::F10 => Some(121),
        Key::F11 => Some(122),
        Key::F12 => Some(123),
        Key::Insert => Some(45),
        Key::Delete => Some(46),
        Key::Minus => Some(173),
        Key::Comma => Some(188),
        Key::Period => Some(190),
        Key::Slash => Some(191),
        Key::Semicolon => Some(186),
        Key::Quote => Some(222),
        Key::BracketLeft => Some(219),
        Key::BracketRight => Some(221),
        Key::Backslash => Some(220),
        Key::Backquote => Some(192),
        Key::Other => None,
    }
}

/// The X11 keycode of a key the engine knows.
pub open spec fn native_code(key: Key) -> Option<i32> {
    match key {
        Key::Backspace => Some(22),
        Key::Tab => Some(23),
        Key::Enter => Some(36),
        Key::Escape => Some(9),
        Key::Space => Some(65),
        Key::PageUp => Some(112),
        Key::PageDown => Some(117),
        Key::End => Some(115),
        Key::Home => Some(110),
        Key::ArrowLeft => Some(113),
        Key::ArrowUp => Some(111),
        Key::ArrowRight => Some(114),
        Key::ArrowDown => Some(116),
        Key::Digit0 => Some(19),
        Key::Digit1 => Some(10),
        Key::Digit2 => Some(11),
        Key::Digit3 => Some(12),
        Key::Digit4 => Some(13),
        Key::Digit5 => Some(14),
        Key::Digit6 => Some(15),
        Key::Digit7 => Some(16),
        Key::Digit8 => Some(17),
        Key::Digit9 => Some(18),
        Key::Equal => Some(21),
        Key::KeyA => Some(38),
        Key::KeyB => Some(56),
        Key::KeyC => Some(54),
        Key::KeyD => Some(40),
        Key::KeyE => Some(26),
        Key::KeyF => Some(41),
        Key::KeyG => Some(42),
        Key::KeyH => Some(43),
        Key::KeyI => Some(31),
        Key::KeyJ => Some(44),
        Key::KeyK => Some(45),
        Key::KeyL => Some(46),
        Key::KeyM => Some(58),
        Key::KeyN => Some(57),
        Key::KeyO => Some(32),
        Key::KeyP => Some(33),
        Key::KeyQ => Some(24),
        Key::KeyR => Some(27),
        Key::KeyS => Some(39),
        Key::KeyT => Some(28),
        Key::KeyU => Some(30),
        Key::KeyV => Some(55),
        Key::KeyW => Some(25),
        Key::KeyX => Some(53),
        Key::KeyY => Some(29),
        Key::KeyZ => Some(52),
        Key::F1 => Some(67),
        Key::F2 => Some(68),
        Key::F3 => Some(69),
        Key::F4 => Some(70),
        Key::F5 => Some(71),
        Key::F6 => Some(72),
        Key::F7 => Some(73),
        Key::F8 => Some(74),
        Key::F9 => Some(75),
        Key::F10 => Some(76),
        Key::F11 => Some(95),
        Key::F12 => Some(96),
        Key::Insert => Some(118),
        Key::Delete => Some(119),
        Key::Minus => Some(20),
        Key::Comma => Some(59),
        Key::Period => Some(60),
        Key::Slash => Some(61),
        Key::Semicolon => Some(47),
        Key::Quote => Some(48),
        Key::BracketLeft => Some(34),
        Key::BracketRight => Some(35),
        Key::Backslash => Some(51),
        Key::Backquote => Some(49),
        Key::Other => None,
    }
}

impl WindowsKeyCode {
    pub fn try_from_key(key: Key) -> (r: Option<WindowsKeyCode>)
        ensures
            match windows_code(key) {
                Some(c) => r == Some(WindowsKeyCode(c)),
                None => r is None,
            },
    {
        match key {
            Key::Backspace => Some(WindowsKeyCode(8)),
            Key::Tab => Some(WindowsKeyCode(9)),
            Key::Enter => Some(WindowsKeyCode(13)),
            Key::Escape => Some(WindowsKeyCode(27)),
            Key::Space => Some(WindowsKeyCode(32)),
            Key::PageUp => Some(WindowsKeyCode(33)),
            Key::PageDown => Some(WindowsKeyCode(34)),
            Key::End => Some(WindowsKeyCode(35)),
            Key::Home => Some(WindowsKeyCode(36)),
            Key::ArrowLeft => Some(WindowsKeyCode(37)),
            Key::ArrowUp => Some(WindowsKeyCode(38)),
            Key::ArrowRight => Some(WindowsKeyCode(39)),
            Key::ArrowDown => Some(WindowsKeyCode(40)),
            Key::Digit0 => Some(WindowsKeyCode(48)),
            Key::Digit1 => Some(WindowsKeyCode(49)),
            Key::Digit2 => Some(WindowsKeyCode(50)),
            Key::Digit3 => Some(WindowsKeyCode(51)),
            Key::Digit4 => Some(WindowsKeyCode(52)),
            Key::Digit5 => Some(WindowsKeyCode(53)),
            Key::Digit6 => Some(WindowsKeyCode(54)),
            Key::Digit7 => Some(WindowsKeyCode(55)),
            Key::Digit8 => Some(WindowsKeyCode(56)),
            Key::Digit9 => Some(WindowsKeyCode(57)),
            Key::Equal => Some(WindowsKeyCode(61)),
            Key::KeyA => Some(WindowsKeyCode(65)),
            Key::KeyB => Some(WindowsKeyCode(66)),
            Key::KeyC => Some(WindowsKeyCode(67)),
            Key::KeyD => Some(WindowsKeyCode(68)),
            Key::KeyE => Some(WindowsKeyCode(69)),
            Key::KeyF => Some(WindowsKeyCode(70)),
            Key::KeyG => Some(WindowsKeyCode(71)),
            Key::KeyH => Some(WindowsKeyCode(72)),
            Key::KeyI => Some(WindowsKeyCode(73)),
            Key::KeyJ => Some(WindowsKeyCode(74)),
            Key::KeyK => Some(WindowsKeyCode(75)),
            Key::KeyL => Some(WindowsKeyCode(76)),
            Key::KeyM => Some(WindowsKeyCode(77)),
            Key::KeyN => Some(WindowsKeyCode(78)),
            Key::KeyO => Some(WindowsKeyCode(79)),
            Key::KeyP => Some(WindowsKeyCode(80)),
            Key::KeyQ => Some(WindowsKeyCode(81)),
            Key::KeyR => Some(WindowsKeyCode(82)),
            Key::KeyS => Some(WindowsKeyCode(83)),
            Key::KeyT => Some(WindowsKeyCode(84)),
            Key::KeyU => Some(WindowsKeyCode(85)),
            Key::KeyV => Some(WindowsKeyCode(86)),
            Key::KeyW => Some(WindowsKeyCode(87)),
            Key::KeyX => Some(WindowsKeyCode(88)),
            Key::KeyY => Some(WindowsKeyCode(89)),
            Key::KeyZ => Some(WindowsKeyCode(90)),
            Key::F1 => Some(WindowsKeyCode(112)),
            Key::F2 => Some(WindowsKeyCode(113)),
            Key::F3 => Some(WindowsKeyCode(114)),
            Key::F4 => Some(WindowsKeyCode(115)),
            Key::F5 => Some(WindowsKeyCode(116)),
            Key::F6 => Some(WindowsKeyCode(117)),
            Key::F7 => Some(WindowsKeyCode(118)),
            Key::F8 => Some(WindowsKeyCode(119)),
            Key::F9 => Some(WindowsKeyCode(120)),
            Key::F10 => Some(WindowsKeyCode(121)),
            Key::F11 => Some(WindowsKeyCode(122)),
            Key::F12 => Some(WindowsKeyCode(123)),
            Key::Insert => Some(WindowsKeyCode(45)),
            Key::Delete => Some(WindowsKeyCode(46)),
            Key::Minus => Some(WindowsKeyCode(173)),
            Key::Comma => Some(WindowsKeyCode(188)),
            Key::Period => Some(WindowsKeyCode(190)),
            Key::Slash => Some(WindowsKeyCode(191)),
            Key::Semicolon => Some(WindowsKeyCode(186)),
            Key::Quote => Some(WindowsKeyCode(222)),
            Key::BracketLeft => Some(WindowsKeyCode(219)),
            Key::BracketRight => Some(WindowsKeyCode(221)),
            Key::Backslash => Some(WindowsKeyCode(220)),
            Key::Backquote => Some(WindowsKeyCode(192)),
            Key::Other => None,
        }
    }
}

impl NativeKeyCode {
    pub fn try_from_key(key: Key) -> (r: Option<NativeKeyCode>)
        ensures
            match native_code(key) {
                Some(c) => r == Some(NativeKeyCode(c)),
                None => r is None,
            },
    {
        match key {
            Key::Backspace => Some(NativeKeyCode(22)),
            Key::Tab => Some(NativeKeyCode(23)),
            Key::Enter => Some(NativeKeyCode(36)),
            Key::Escape => Some(NativeKeyCode(9)),
            Key::Space => Some(NativeKeyCode(65)),
            Key::PageUp => Some(NativeKeyCode(112)),
            Key::PageDown => Some(NativeKeyCode(117)),
            Key::End => Some(NativeKeyCode(115)),
            Key::Home => Some(NativeKeyCode(110)),
            Key::ArrowLeft => Some(NativeKeyCode(113)),
            Key::ArrowUp => Some(NativeKeyCode(111)),
            Key::ArrowRight => Some(NativeKeyCode(114)),
            Key::ArrowDown => Some(NativeKeyCode(116)),
            Key::Digit0 => Some(NativeKeyCode(19)),
            Key::Digit1 => Some(NativeKeyCode(10)),
            Key::Digit2 => Some(NativeKeyCode(11)),
            Key::Digit3 => Some(NativeKeyCode(12)),
            Key::Digit4 => Some(NativeKeyCode(13)),
            Key::Digit5 => Some(NativeKeyCode(14)),
            Key::Digit6 => Some(NativeKeyCode(15)),
            Key::Digit7 => Some(NativeKeyCode(16)),
            Key::Digit8 => Some(NativeKeyCode(17)),
            Key::Digit9 => Some(NativeKeyCode(18)),
            Key::Equal => Some(NativeKeyCode(21)),
            Key::KeyA => Some(NativeKeyCode(38)),
            Key::KeyB => Some(NativeKeyCode(56)),
            Key::KeyC => Some(NativeKeyCode(54)),
            Key::KeyD => Some(NativeKeyCode(40)),
            Key::KeyE => Some(NativeKeyCode(26)),
            Key::KeyF => Some(NativeKeyCode(41)),
            Key::KeyG => Some(NativeKeyCode(42)),
            Key::KeyH => Some(NativeKeyCode(43)),
            Key::KeyI => Some(NativeKeyCode(31)),
            Key::KeyJ => Some(NativeKeyCode(44)),
            Key::KeyK => Some(NativeKeyCode(45)),
            Key::KeyL => Some(NativeKeyCode(46)),
            Key::KeyM => Some(NativeKeyCode(58)),
            Key::KeyN => Some(NativeKeyCode(57)),
            Key::KeyO => Some(NativeKeyCode(32)),
            Key::KeyP => Some(NativeKeyCode(33)),
            Key::KeyQ => Some(NativeKeyCode(24)),
            Key::KeyR => Some(NativeKeyCode(27)),
            Key::KeyS => Some(NativeKeyCode(39)),
            Key::KeyT => Some(NativeKeyCode(28)),
            Key::KeyU => Some(NativeKeyCode(30)),
            Key::KeyV => Some(NativeKeyCode(55)),
            Key::KeyW => Some(NativeKeyCode(25)),
            Key::KeyX => Some(NativeKeyCode(53)),
            Key::KeyY => Some(NativeKeyCode(29)),
            Key::KeyZ => Some(NativeKeyCode(52)),
            Key::F1 => Some(NativeKeyCode(67)),
            Key::F2 => Some(NativeKeyCode(68)),
            Key::F3 => Some(NativeKeyCode(69)),
            Key::F4 => Some(NativeKeyCode(70)),
            Key::F5 => Some(NativeKeyCode(71)),
            Key::F6 => Some(NativeKeyCode(72)),
            Key::F7 => Some(NativeKeyCode(73)),
            Key::F8 => Some(NativeKeyCode(74)),
            Key::F9 => Some(NativeKeyCode(75)),
            Key::F10 => Some(NativeKeyCode(76)),
            Key::F11 => Some(NativeKeyCode(95)),
            Key::F12 => Some(NativeKeyCode(96)),
            Key::Insert => Some(NativeKeyCode(118)),
            Key::Delete => Some(NativeKeyCode(119)),
            Key::Minus => Some(NativeKeyCode(20)),
            Key::Comma => Some(NativeKeyCode(59)),
            Key::Period => Some(NativeKeyCode(60)),
            Key::Slash => Some(NativeKeyCode(61)),
            Key::Semicolon => Some(NativeKeyCode(47)),
            Key::Quote => Some(NativeKeyCode(48)),
            Key::BracketLeft => Some(NativeKeyCode(34)),
            Key::BracketRight => Some(NativeKeyCode(35)),
            Key::Backslash => Some(NativeKeyCode(51)),
            Key::Backquote => Some(NativeKeyCode(49)),
            Key::Other => None,
        }
    }
}

/// `EVENTFLAG_CONTROL_DOWN` of the browser engine.
pub const EVENTFLAG_CONTROL_DOWN: u32 = 4;

#[derive(Debug, Clone, Copy, PartialEq, Eq, Structural)]
pub enum KeyEventKind {
    KeyDown,
    KeyUp,
    Char,
}

/// A key event for the browser engine.
#[derive(Debug, Clone, Copy, PartialEq, Eq, Structural)]
pub struct KeyEventData {
    pub kind: KeyEventKind,
    pub windows_key_code: i32,
    pub native_key_code: i32,
    pub modifiers: u32,
    pub character: u32,
}

/// The events a key press or release sends: a key-down or key-up for a key
/// the engine knows, with the control flag when control is held; then, for
/// a press that types text, a character event with its first character.
pub open spec fn key_events_spec(key: Key, pressed: bool, control: bool, text: Option<char>) -> Seq<KeyEventData> {
    (if windows_code(key) is Some && native_code(key) is Some {
        seq![KeyEventData {
            kind: if pressed { KeyEventKind::KeyDown } else { KeyEventKind::KeyUp },
            windows_key_code: windows_code(key)->Some_0,
            native_key_code: native_code(key)->Some_0,
            modifiers: if control { EVENTFLAG_CONTROL_DOWN } else { 0 },
            character: 0,
        }]
    } else {
        seq![]
    }) + (if pressed && text is Some {
        seq![KeyEventData {
            kind: KeyEventKind::Char,
            windows_key_code: 0,
            native_key_code: 0,
            modifiers: 0,
            character: text->Some_0 as u32,
        }]
    } else {
        seq![]
    })
}

pub fn key_events(key: Key, pressed: bool, control: bool, text: Option<char>) -> (r: Vec<KeyEventData>)
    ensures
        r@ == key_events_spec(key, pressed, control, text),
{
    let mut events: Vec<KeyEventData> = Vec::new();
    match (WindowsKeyCode::try_from_key(key), NativeKeyCode::try_from_key(key)) {
        (Some(WindowsKeyCode(w)), Some(NativeKeyCode(n))) => {
            events.push(KeyEventData {
                kind: if pressed { KeyEventKind::KeyDown } else { KeyEventKind::KeyUp },
                windows_key_code: w,
                native_key_code: n,
                modifiers: if control { EVENTFLAG_CONTROL_DOWN } else { 0 },
                character: 0,
            });
        },
        _ => {},
    }
    if pressed {
        if let Some(c) = text {
            events.push(KeyEventData {
                kind: KeyEventKind::Char,
                windows_key_code: 0,
                native_key_code: 0,
                modifiers: 0,
                character: c as u32,
            });
        }
    }
    assert(events@ =~= key_events_spec(key, pressed, control, text));
    events
}

/// The shader action and argument a digit key selects: `clr` clears the
/// shader list, `set` replaces it with the given list.
pub open spec fn anime4k_spec(key: Key) -> Option<(Seq<char>, Seq<char>)> {
    match key {
        Key::Digit0 => Some(("clr"@, "Shaders cleared"@)),
        Key::Digit1 => Some(("set"@, "~~/shaders/anime4k/Restore/Anime4K_Clamp_Highlights.glsl;~~/shaders/anime4k/Restore/Anime4K_Restore_CNN_VL.glsl;~~/shaders/anime4k/Upscale/Anime4K_Upscale_CNN_x2_VL.glsl;~~/shaders/anime4k/Restore/Anime4K_AutoDownscalePre_x2.glsl;~~/shaders/anime4k/Restore/Anime4K_AutoDownscalePre_x4.glsl;~~/shaders/anime4k/Upscale/Anime4K_Upscale_CNN_x2_M.glsl"@)),
        Key::Digit2 => Some(("set"@, "~~/shaders/anime4k/Restore/Anime4K_Clamp_Highlights.glsl;~~/shaders/anime4k/Upscale/Anime4K_Upscale_Denoise_CNN_x2_VL.glsl;~~/shaders/anime4k/Restore/Anime4K_AutoDownscalePre_x2.glsl;~~/shaders/anime4k/Restore/Anime4K_AutoDownscalePre_x4.glsl;~~/shaders/anime4k/Upscale/Anime4K_Upscale_CNN_x2_M.glsl"@)),
        Key::Digit3 => Some(("set"@, "~~/shaders/anime4k/Restore/Anime4K_Clamp_Highlights.glsl;~~/shaders/anime4k/Upscale/Anime4K_Upscale_CNN_x2_VL.glsl;~~/shaders/anime4k/Restore/Anime4K_AutoDownscalePre_x2.glsl;~~/shaders/anime4k/Restore/Anime4K_AutoDownscalePre_x4.glsl;~~/shaders/anime4k/Upscale/Anime4K_Upscale_CNN_x2_M.glsl"@)),
        Key::Digit4 => Some(("set"@, "~~/shaders/anime4k/Restore/Anime4K_Clamp_Highlights.glsl;~~/shaders/anime4k/Restore/Anime4K_Restore_CNN_M.glsl;~~/shaders/anime4k/Upscale/Anime4K_Upscale_CNN_x2_M.glsl;~~/shaders/anime4k/Restore/Anime4K_AutoDownscalePre_x2.glsl;~~/shaders/anime4k/Restore/Anime4K_AutoDownscalePre_x4.glsl;~~/shaders/anime4k/Upscale/Anime4K_Upscale_CNN_x2_M.glsl"@)),
        Key::Digit5 => Some(("set"@, "~~/shaders/anime4k/Restore/Anime4K_Clamp_Highlights.glsl;~~/shaders/anime4k/Upscale/Anime4K_Upscale_Denoise_CNN_x2_M.glsl;~~/shaders/anime4k/Restore/Anime4K_AutoDownscalePre_x2.glsl;~~/shaders/anime4k/Restore/Anime4K_AutoDownscalePre_x4.glsl;~~/shaders/anime4k/Upscale/Anime4K_Upscale_CNN_x2_M.glsl"@)),
        Key::Digit6 => Some(("set"@, "~~/shaders/anime4k/Restore/Anime4K_Clamp_Highlights.glsl;~~/shaders/anime4k/Upscale/Anime4K_Upscale_CNN_x2_M.glsl;~~/shaders/anime4k/Restore/Anime4K_AutoDownscalePre_x2.glsl;~~/shaders/anime4k/Restore/Anime4K_AutoDownscalePre_x4.glsl;~~/shaders/anime4k/Upscale/Anime4K_Upscale_CNN_x2_M.glsl"@)),
        _ => None,
    }
}

pub fn get_anime4k_shader_command(key: Key) -> (r: Option<(&'static str, &'static str)>)
    ensures
        match anime4k_spec(key) {
            Some(c) => (r matches Some(p) && p.0@ == c.0 && p.1@ == c.1),
            None => r is None,
        },
{
    match key {
        Key::Digit0 => Some(("clr", "Shaders cleared")),
        Key::Digit1 => Some(("set", "~~/shaders/anime4k/Restore/Anime4K_Clamp_Highlights.glsl;~~/shaders/anime4k/Restore/Anime4K_Restore_CNN_VL.glsl;~~/shaders/anime4k/Upscale/Anime4K_Upscale_CNN_x2_VL.glsl;~~/shaders/anime4k/Restore/Anime4K_AutoDownscalePre_x2.glsl;~~/shaders/anime4k/Restore/Anime4K_AutoDownscalePre_x4.glsl;~~/shaders/anime4k/Upscale/Anime4K_Upscale_CNN_x2_M.glsl")),
        Key::Digit2 => Some(("set", "~~/shaders/anime4k/Restore/Anime4K_Clamp_Highlights.glsl;~~/shaders/anime4k/Upscale/Anime4K_Upscale_Denoise_CNN_x2_VL.glsl;~~/shaders/anime4k/Restore/Anime4K_AutoDownscalePre_x2.glsl;~~/shaders/anime4k/Restore/Anime4K_AutoDownscalePre_x4.glsl;~~/shaders/anime4k/Upscale/Anime4K_Upscale_CNN_x2_M.glsl")),
        Key::Digit3 => Some(("set", "~~/shaders/anime4k/Restore/Anime4K_Clamp_Highlights.glsl;~~/shaders/anime4k/Upscale/Anime4K_Upscale_CNN_x2_VL.glsl;~~/shaders/anime4k/Restore/Anime4K_AutoDownscalePre_x2.glsl;~~/shaders/anime4k/Restore/Anime4K_AutoDownscalePre_x4.glsl;~~/shaders/anime4k/Upscale/Anime4K_Upscale_CNN_x2_M.glsl")),
        Key::Digit4 => Some(("set", "~~/shaders/anime4k/Restore/Anime4K_Clamp_Highlights.glsl;~~/shaders/anime4k/Restore/Anime4K_Restore_CNN_M.glsl;~~/shaders/anime4k/Upscale/Anime4K_Upscale_CNN_x2_M.glsl;~~/shaders/anime4k/Restore/Anime4K_AutoDownscalePre_x2.glsl;~~/shaders/anime4k/Restore/Anime4K_AutoDownscalePre_x4.glsl;~~/shaders/anime4k/Upscale/Anime4K_Upscale_CNN_x2_M.glsl")),
        Key::Digit5 => Some(("set", "~~/shaders/anime4k/Restore/Anime4K_Clamp_Highlights.glsl;~~/shaders/anime4k/Upscale/Anime4K_Upscale_Denoise_CNN_x2_M.glsl;~~/shaders/anime4k/Restore/Anime4K_AutoDownscalePre_x2.glsl;~~/shaders/anime4k/Restore/Anime4K_AutoDownscalePre_x4.glsl;~~/shaders/anime4k/Upscale/Anime4K_Upscale_CNN_x2_M.glsl")),
        Key::Digit6 => Some(("set", "~~/shaders/anime4k/Restore/Anime4K_Clamp_Highlights.glsl;~~/shaders/anime4k/Upscale/Anime4K_Upscale_CNN_x2_M.glsl;~~/shaders/anime4k/Restore/Anime4K_AutoDownscalePre_x2.glsl;~~/shaders/anime4k/Restore/Anime4K_AutoDownscalePre_x4.glsl;~~/shaders/anime4k/Upscale/Anime4K_Upscale_CNN_x2_M.glsl")),
        _ => None,
    }
}

/// The on-screen label of a shader mode.
pub open spec fn mode_label_spec(key: Key) -> Seq<char> {
    match key {
        Key::Digit1 => "Anime4K: Mode A (HQ)"@,
        Key::Digit2 => "Anime4K: Mode B (HQ+Denoise)"@,
        Key::Digit3 => "Anime4K: Mode C (Fast)"@,
        Key::Digit4 => "Anime4K: Mode A+A (HQ)"@,
        Key::Digit5 => "Anime4K: Mode B+B (HQ+Denoise)"@,
        Key::Digit6 => "Anime4K: Mode C+A (Fast)"@,
        _ => "Anime4K"@,
    }
}

pub fn mode_label(key: Key) -> (r: &'static str)
    ensures
        r@ == mode_label_spec(key),
{
    match key {
        Key::Digit1 => "Anime4K: Mode A (HQ)",
        Key::Digit2 => "Anime4K: Mode B (HQ+Denoise)",
        Key::Digit3 => "Anime4K: Mode C (Fast)",
        Key::Digit4 => "Anime4K: Mode A+A (HQ)",
        Key::Digit5 => "Anime4K: Mode B+B (HQ+Denoise)",
        Key::Digit6 => "Anime4K: Mode C+A (Fast)",
        _ => "Anime4K",
    }
}

pub open spec fn texts_view(v: Seq<String>) -> Seq<Seq<char>> {
    v.map_values(|s: String| s@)
}

/// The player commands of a shader hotkey (control and a digit key,
/// pressed): change the shader list, then show what was done.
pub open spec fn shader_hotkey_spec(key: Key, control: bool, pressed: bool) -> Option<Seq<(Seq<char>, Seq<Seq<char>>)>> {
    if control && pressed && anime4k_spec(key) is Some {
        let (action, list) = anime4k_spec(key)->Some_0;
        if action == "clr"@ {
            Some(seq![
                ("change-list"@, seq!["glsl-shaders"@, "clr"@, ""@]),
                ("show-text"@, seq!["Shaders cleared"@]),
            ])
        } else {
            Some(seq![
                ("change-list"@, seq!["glsl-shaders"@, "set"@, list]),
                ("show-text"@, seq![mode_label_spec(key)]),
            ])
        }
    } else {
        None
    }
}

fn command(name: &str, args: Vec<String>) -> (r: (String, Vec<String>))
    ensures
        r.0@ == name@,
        r.1 == args,
{
    (name.to_string(), args)
}

fn push_text(v: &mut Vec<String>, s: &str)
    ensures
        texts_view(final(v)@) == texts_view(old(v)@).push(s@),
{
    v.push(s.to_string());
    assert(texts_view(final(v)@) =~= texts_view(old(v)@).push(s@));
}

/// The player commands for a key, when it is a shader hotkey.
pub fn shader_hotkey(key: Key, control: bool, pressed: bool) -> (r: Option<Vec<(String, Vec<String>)>>)
    ensures
        match shader_hotkey_spec(key, control, pressed) {
            Some(cmds) => (r matches Some(v) && v@.len() == cmds.len()
                && forall|i: int| 0 <= i < v@.len() ==> (#[trigger] v@[i]).0@ == cmds[i].0 && texts_view(v@[i].1@) == cmds[i].1),
            None => r is None,
        },
{
    if !control || !pressed {
        return None;
    }
    let (action, list) = match get_anime4k_shader_command(key) {
        Some(c) => c,
        None => {
            return None;
        },
    };
    proof {
        reveal_strlit("clr");
        reveal_strlit("set");
    }
    let mut change: Vec<String> = Vec::new();
    push_text(&mut change, "glsl-shaders");
    let mut show: Vec<String> = Vec::new();
    if crate::json::str_eq(action, "clr") {
        push_text(&mut change, "clr");
        push_text(&mut change, "");
        push_text(&mut show, "Shaders cleared");
    } else {
        push_text(&mut change, "set");
        push_text(&mut change, list);
        push_text(&mut show, mode_label(key));
    }
    let ghost change_view = texts_view(change@);
    let ghost show_view = texts_view(show@);
    let mut cmds: Vec<(String, Vec<String>)> = Vec::new();
    cmds.push(command("change-list", change));
    cmds.push(command("show-text", show));
    assert(texts_view(cmds@[0].1@) == change_view);
    assert(texts_view(cmds@[1].1@) == show_view);
    assert(change_view =~= shader_hotkey_spec(key, control, pressed)->Some_0[0].1);
    assert(show_view =~= shader_hotkey_spec(key, control, pressed)->Some_0[1].1);
    Some(cmds)
}

/// A zoom step of the browser page.
#[derive(Debug, Clone, Copy, PartialEq, Eq, Structural)]
pub enum ZoomStep {
    In,
    Out,
}

/// The Windows virtual-key code of `=`.
pub const EQUAL_KEY_CODE: i32 = 61;

/// The Windows virtual-key code of `-`.
pub const MINUS_KEY_CODE: i32 = 173;

/// The zoom a raw key-down asks for: control alone with `=` zooms in,
/// control alone with `-` zooms out.
pub fn zoom_step(raw_key_down: bool, modifiers: u32, windows_key_code: i32) -> (r: Option<ZoomStep>)
    ensures
        raw_key_down && modifiers == EVENTFLAG_CONTROL_DOWN && windows_key_code == EQUAL_KEY_CODE
            ==> r == Some(ZoomStep::In),
        raw_key_down && modifiers == EVENTFLAG_CONTROL_DOWN && windows_key_code == MINUS_KEY_CODE
            ==> r == Some(ZoomStep::Out),
        !(raw_key_down && modifiers == EVENTFLAG_CONTROL_DOWN
            && (windows_key_code == EQUAL_KEY_CODE || windows_key_code == MINUS_KEY_CODE)) ==> r is None,
{
    if raw_key_down && modifiers == EVENTFLAG_CONTROL_DOWN {
        if windows_key_code == EQUAL_KEY_CODE {
            return Some(ZoomStep::In);
        }
        if windows_key_code == MINUS_KEY_CODE {
            return Some(ZoomStep::Out);
        }
    }
    None
}

} // verus!
