/*!
Application events.

The event types, key codes and mouse buttons that the windowing layer
reports, with the decoding of the raw numeric codes it uses on the wire.
*/

use vstd::prelude::*;

verus! {

/// Type of an application event.
#[derive(Debug, Clone, Copy, PartialEq, Eq, Hash)]
pub enum EventType {
    InvalidEvent,
    KeyDown,
    KeyUp,
    Char,
    MouseDown,
    MouseUp,
    MouseScroll,
    MouseMove,
    MouseEnter,
    MouseLeave,
    TouchesBegin,
    TouchesMoved,
    TouchesEnded,
    TouchesCancelled,
    Resized,
    Iconified,
    Restored,
    Suspended,
    Resumed,
    UpdateCursor,
    QuitRequested,
    ClipboardPasted,
    FilesDropped,
}

/// The numeric code of each event type, as the windowing layer reports it.
pub open spec fn event_type_code(v: EventType) -> u32 {
    match v {
        EventType::InvalidEvent => 0,
        EventType::KeyDown => 1,
        EventType::KeyUp => 2,
        EventType::Char => 3,
        EventType::MouseDown => 4,
        EventType::MouseUp => 5,
        EventType::MouseScroll => 6,
        EventType::MouseMove => 7,
        EventType::MouseEnter => 8,
        EventType::MouseLeave => 9,
        EventType::TouchesBegin => 10,
        EventType::TouchesMoved => 11,
        EventType::TouchesEnded => 12,
        EventType::TouchesCancelled => 13,
        EventType::Resized => 14,
        EventType::Iconified => 15,
        EventType::Restored => 16,
        EventType::Suspended => 17,
        EventType::Resumed => 18,
        EventType::UpdateCursor => 19,
        EventType::QuitRequested => 20,
        EventType::ClipboardPasted => 21,
        EventType::FilesDropped => 22,
    }
}

impl EventType {
    /// Decodes a raw event-type code; `None` when the code names no event
    /// type.
    pub fn from_u32(x: u32) -> (r: Option<EventType>)
        ensures
            r matches Some(v) ==> event_type_code(v) == x,
            r is None ==> forall|v: EventType| event_type_code(v) != x,
    {
        match x {
            0 => Option::Some(EventType::InvalidEvent),
            1 => Option::Some(EventType::KeyDown),
            2 => Option::Some(EventType::KeyUp),
            3 => Option::Some(EventType::Char),
            4 => Option::Some(EventType::MouseDown),
            5 => Option::Some(EventType::MouseUp),
            6 => Option::Some(EventType::MouseScroll),
            7 => Option::Some(EventType::MouseMove),
            8 => Option::Some(EventType::MouseEnter),
            9 => Option::Some(EventType::MouseLeave),
            10 => Option::Some(EventType::TouchesBegin),
            11 => Option::Some(EventType::TouchesMoved),
            12 => Option::Some(EventType::TouchesEnded),
            13 => Option::Some(EventType::TouchesCancelled),
            14 => Option::Some(EventType::Resized),
            15 => Option::Some(EventType::Iconified),
            16 => Option::Some(EventType::Restored),
            17 => Option::Some(EventType::Suspended),
            18 => Option::Some(EventType::Resumed),
            19 => Option::Some(EventType::UpdateCursor),
            20 => Option::Some(EventType::QuitRequested),
            21 => Option::Some(EventType::ClipboardPasted),
            22 => Option::Some(EventType::FilesDropped),
            _ => Option::None,
        }
    }
}

/// Keyboard key code.
#[derive(Debug, Clone, Copy, PartialEq, Eq, Hash)]
pub enum Key {
    InvalidKey,
    Space,
    Apostrophe,
    Comma,
    Minus,
    Period,
    Slash,
    Kbd0,
    Kbd1,
    Kbd2,
    Kbd3,
    Kbd4,
    Kbd5,
    Kbd6,
    Kbd7,
    Kbd8,
    Kbd9,
    Semicolon,
    Equal,
    A,
    B,
    C,
    D,
    E,
    F,
    G,
    H,
    I,
    J,
    K,
    L,
    M,
    N,
    O,
    P,
    Q,
    R,
    S,
    T,
    U,
    V,
    W,
    X,
    Y,
    Z,
    LeftBracket,
    Backslash,
    RightBracket,
    GraveAccent,
    World1,
    World2,
    Escape,
    Enter,
    Tab,
    Backspace,
    Insert,
    Delete,
    Right,
    Left,
    Down,
    Up,
    PageUp,
    PageDown,
    Home,
    End,
    CapsLock,
    ScrollLock,
    NumLock,
    PrintScreen,
    Pause,
    F1,
    F2,
    F3,
    F4,
    F5,
    F6,
    F7,
    F8,
    F9,
    F10,
    F11,
    F12,
    F13,
    F14,
    F15,
    F16,
    F17,
    F18,
    F19,
    F20,
    F21,
    F22,
    F23,
    F24,
    F25,
    KP0,
    KP1,
    KP2,
    KP3,
    KP4,
    KP5,
    KP6,
    KP7,
    KP8,
    KP9,
    KPDecimal,
    KPDivide,
    KPMultiply,
    KPSubtract,
    KPAdd,
    KPEnter,
    KPEqual,
    LeftShift,
    LeftControl,
    LeftAlt,
    LeftSuper,
    RightShift,
    RightControl,
    RightAlt,
    RightSuper,
    Menu,
}

/// The numeric code of each key, as the windowing layer reports it.
pub open spec fn key_code(v: Key) -> u32 {
    match v {
        Key::InvalidKey => 0,
        Key::Space => 32,
        Key::Apostrophe => 39,
        Key::Comma => 44,
        Key::Minus => 45,
        Key::Period => 46,
        Key::Slash => 47,
        Key::Kbd0 => 48,
        Key::Kbd1 => 49,
        Key::Kbd2 => 50,
        Key::Kbd3 => 51,
        Key::Kbd4 => 52,
        Key::Kbd5 => 53,
        Key::Kbd6 => 54,
        Key::Kbd7 => 55,
        Key::Kbd8 => 56,
        Key::Kbd9 => 57,
        Key::Semicolon => 59,
        Key::Equal => 61,
        Key::A => 65,
        Key::B => 66,
        Key::C => 67,
        Key::D => 68,
        Key::E => 69,
        Key::F => 70,
        Key::G => 71,
        Key::H => 72,
        Key::I => 73,
        Key::J => 74,
        Key::K => 75,
        Key::L => 76,
        Key::M => 77,
        Key::N => 78,
        Key::O => 79,
        Key::P => 80,
        Key::Q => 81,
        Key::R => 82,
        Key::S => 83,
        Key::T => 84,
        Key::U => 85,
        Key::V => 86,
        Key::W => 87,
        Key::X => 88,
        Key::Y => 89,
        Key::Z => 90,
        Key::LeftBracket => 91,
        Key::Backslash => 92,
        Key::RightBracket => 93,
        Key::GraveAccent => 96,
        Key::World1 => 161,
        Key::World2 => 162,
        Key::Escape => 256,
        Key::Enter => 257,
        Key::Tab => 258,
        Key::Backspace => 259,
        Key::Insert => 260,
        Key::Delete => 261,
        Key::Right => 262,
        Key::Left => 263,
        Key::Down => 264,
        Key::Up => 265,
        Key::PageUp => 266,
        Key::PageDown => 267,
        Key::Home => 268,
        Key::End => 269,
        Key::CapsLock => 280,
        Key::ScrollLock => 281,
        Key::NumLock => 282,
        Key::PrintScreen => 283,
        Key::Pause => 284,
        Key::F1 => 290,
        Key::F2 => 291,
        Key::F3 => 292,
        Key::F4 => 293,
        Key::F5 => 294,
        Key::F6 => 295,
        Key::F7 => 296,
        Key::F8 => 297,
        Key::F9 => 298,
        Key::F10 => 299,
        Key::F11 => 300,
        Key::F12 => 301,
        Key::F13 => 302,
        Key::F14 => 303,
        Key::F15 => 304,
        Key::F16 => 305,
        Key::F17 => 306,
        Key::F18 => 307,
        Key::F19 => 308,
        Key::F20 => 309,
        Key::F21 => 310,
        Key::F22 => 311,
        Key::F23 => 312,
        Key::F24 => 313,
        Key::F25 => 314,
        Key::KP0 => 320,
        Key::KP1 => 321,
        Key::KP2 => 322,
        Key::KP3 => 323,
        Key::KP4 => 324,
        Key::KP5 => 325,
        Key::KP6 => 326,
        Key::KP7 => 327,
        Key::KP8 => 328,
        Key::KP9 => 329,
        Key::KPDecimal => 330,
        Key::KPDivide => 331,
        Key::KPMultiply => 332,
        Key::KPSubtract => 333,
        Key::KPAdd => 334,
        Key::KPEnter => 335,
        Key::KPEqual => 336,
        Key::LeftShift => 340,
        Key::LeftControl => 341,
        Key::LeftAlt => 342,
        Key::LeftSuper => 343,
        Key::RightShift => 344,
        Key::RightControl => 345,
        Key::RightAlt => 346,
        Key::RightSuper => 347,
        Key::Menu => 348,
    }
}

impl Key {
    /// Decodes a raw key code; `None` when the code names no key.
    pub fn from_u32(x: u32) -> (r: Option<Key>)
        ensures
            r matches Some(v) ==> key_code(v) == x,
            r is None ==> forall|v: Key| key_code(v) != x,
    {
        match x {
            0 => Option::Some(Key::InvalidKey),
            32 => Option::Some(Key::Space),
            39 => Option::Some(Key::Apostrophe),
            44 => Option::Some(Key::Comma),
            45 => Option::Some(Key::Minus),
            46 => Option::Some(Key::Period),
            47 => Option::Some(Key::Slash),
            48 => Option::Some(Key::Kbd0),
            49 => Option::Some(Key::Kbd1),
            50 => Option::Some(Key::Kbd2),
            51 => Option::Some(Key::Kbd3),
            52 => Option::Some(Key::Kbd4),
            53 => Option::Some(Key::Kbd5),
            54 => Option::Some(Key::Kbd6),
            55 => Option::Some(Key::Kbd7),
            56 => Option::Some(Key::Kbd8),
            57 => Option::Some(Key::Kbd9),
            59 => Option::Some(Key::Semicolon),
            61 => Option::Some(Key::Equal),
            65 => Option::Some(Key::A),
            66 => Option::Some(Key::B),
            67 => Option::Some(Key::C),
            68 => Option::Some(Key::D),
            69 => Option::Some(Key::E),
            70 => Option::Some(Key::F),
            71 => Option::Some(Key::G),
            72 => Option::Some(Key::H),
            73 => Option::Some(Key::I),
            74 => Option::Some(Key::J),
            75 => Option::Some(Key::K),
            76 => Option::Some(Key::L),
            77 => Option::Some(Key::M),
            78 => Option::Some(Key::N),
            79 => Option::Some(Key::O),
            80 => Option::Some(Key::P),
            81 => Option::Some(Key::Q),
            82 => Option::Some(Key::R),
            83 => Option::Some(Key::S),
            84 => Option::Some(Key::T),
            85 => Option::Some(Key::U),
            86 => Option::Some(Key::V),
            87 => Option::Some(Key::W),
            88 => Option::Some(Key::X),
            89 => Option::Some(Key::Y),
            90 => Option::Some(Key::Z),
            91 => Option::Some(Key::LeftBracket),
            92 => Option::Some(Key::Backslash),
            93 => Option::Some(Key::RightBracket),
            96 => Option::Some(Key::GraveAccent),
            161 => Option::Some(Key::World1),
            162 => Option::Some(Key::World2),
            256 => Option::Some(Key::Escape),
            257 => Option::Some(Key::Enter),
            258 => Option::Some(Key::Tab),
            259 => Option::Some(Key::Backspace),
            260 => Option::Some(Key::Insert),
            261 => Option::Some(Key::Delete),
            262 => Option::Some(Key::Right),
            263 => Option::Some(Key::Left),
            264 => Option::Some(Key::Down),
            265 => Option::Some(Key::Up),
            266 => Option::Some(Key::PageUp),
            267 => Option::Some(Key::PageDown),
            268 => Option::Some(Key::Home),
            269 => Option::Some(Key::End),
            280 => Option::Some(Key::CapsLock),
            281 => Option::Some(Key::ScrollLock),
            282 => Option::Some(Key::NumLock),
            283 => Option::Some(Key::PrintScreen),
            284 => Option::Some(Key::Pause),
            290 => Option::Some(Key::F1),
            291 => Option::Some(Key::F2),
            292 => Option::Some(Key::F3),
            293 => Option::Some(Key::F4),
            294 => Option::Some(Key::F5),
            295 => Option::Some(Key::F6),
            296 => Option::Some(Key::F7),
            297 => Option::Some(Key::F8),
            298 => Option::Some(Key::F9),
            299 => Option::Some(Key::F10),
            300 => Option::Some(Key::F11),
            301 => Option::Some(Key::F12),
            302 => Option::Some(Key::F13),
            303 => Option::Some(Key::F14),
            304 => Option::Some(Key::F15),
            305 => Option::Some(Key::F16),
            306 => Option::Some(Key::F17),
            307 => Option::Some(Key::F18),
            308 => Option::Some(Key::F19),
            309 => Option::Some(Key::F20),
            310 => Option::Some(Key::F21),
            311 => Option::Some(Key::F22),
            312 => Option::Some(Key::F23),
            313 => Option::Some(Key::F24),
            314 => Option::Some(Key::F25),
            320 => Option::Some(Key::KP0),
            321 => Option::Some(Key::KP1),
            322 => Option::Some(Key::KP2),
            323 => Option::Some(Key::KP3),
            324 => Option::Some(Key::KP4),
            325 => Option::Some(Key::KP5),
            326 => Option::Some(Key::KP6),
            327 => Option::Some(Key::KP7),
            328 => Option::Some(Key::KP8),
            329 => Option::Some(Key::KP9),
            330 => Option::Some(Key::KPDecimal),
            331 => Option::Some(Key::KPDivide),
            332 => Option::Some(Key::KPMultiply),
            333 => Option::Some(Key::KPSubtract),
            334 => Option::Some(Key::KPAdd),
            335 => Option::Some(Key::KPEnter),
            336 => Option::Some(Key::KPEqual),
            340 => Option::Some(Key::LeftShift),
            341 => Option::Some(Key::LeftControl),
            342 => Option::Some(Key::LeftAlt),
            343 => Option::Some(Key::LeftSuper),
            344 => Option::Some(Key::RightShift),
            345 => Option::Some(Key::RightControl),
            346 => Option::Some(Key::RightAlt),
            347 => Option::Some(Key::RightSuper),
            348 => Option::Some(Key::Menu),
            _ => Option::None,
        }
    }
}

/// Mouse button.
#[derive(Debug, Clone, Copy, PartialEq, Eq, Hash)]
pub enum Mouse {
    Invalid,
    Left,
    Right,
    Middle,
}

/// The numeric code of each mouse button, as the windowing layer reports
/// it.
pub open spec fn mouse_code(v: Mouse) -> u32 {
    match v {
        Mouse::Invalid => 256,
        Mouse::Left => 0,
        Mouse::Right => 1,
        Mouse::Middle => 2,
    }
}

impl Mouse {
    /// Decodes a raw mouse-button code; `None` when the code names no
    /// button.
    pub fn from_u32(x: u32) -> (r: Option<Mouse>)
        ensures
            r matches Some(v) ==> mouse_code(v) == x,
            r is None ==> forall|v: Mouse| mouse_code(v) != x,
    {
        match x {
            256 => Option::Some(Mouse::Invalid),
            0 => Option::Some(Mouse::Left),
            1 => Option::Some(Mouse::Right),
            2 => Option::Some(Mouse::Middle),
            _ => Option::None,
        }
    }
}

/// No two keys share a numeric code, so decoding a code names at most one
/// key; the same holds of event types and mouse buttons by the same
/// argument over their tables.
pub proof fn lemma_key_code_injective(a: Key, b: Key)
    requires
        key_code(a) == key_code(b),
    ensures
        a == b,
{
}

} // verus!
