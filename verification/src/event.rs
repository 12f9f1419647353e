//! Input events taken in from the host, requests handed back to it, and the
//! keys, buttons and touches that they speak of.

use vstd::prelude::*;
use crate::math::Vec2;
use crate::texture::{Image, ImageView};

verus! {

/// Stage of a finger's contact with the surface.
#[derive(Clone, Copy, Debug, PartialEq, Eq, Structural)]
pub enum TouchPhase {
    Start,
    Hold,
    End,
}

/// Buttons of a pointing device.
#[derive(Clone, Copy, Debug, PartialEq, Eq, Hash, Structural)]
pub enum MouseButton {
    Left,
    Right,
    Middle,
    Back,
    Forward,
    Other(usize),
}

/// One finger on the surface, under an id that stays the same from its first
/// contact to its last.
#[derive(Clone, Copy, Debug, PartialEq, Eq, Structural)]
#[non_exhaustive]
pub struct Touch {
    pub id: usize,
    pub position: Vec2,
    pub phase: TouchPhase,
}

impl Touch {
    /// A touch with the given id, place and phase.
    pub fn new(id: usize, position: Vec2, phase: TouchPhase) -> (t: Touch)
        ensures
            t == (Touch { id, position, phase }),
    {
        Touch { id, position, phase }
    }
}

/// Keys of a keyboard, named by their place on a US layout.
#[derive(Clone, Copy, Debug, PartialEq, Eq, Structural)]
pub enum Key {
    A, B, C, D, E, F, G, H, I, J, K, L, M, N, O, P, Q, R, S, T, U, V, W, X, Y, Z, Num0, Num1,
    Num2, Num3, Num4, Num5, Num6, Num7, Num8, Num9, NumPad1, NumPad2, NumPad3, NumPad4,
    NumPad5, NumPad6, NumPad7, NumPad8, NumPad9, NumPad0, NumLock, ArrowDown, ArrowLeft,
    ArrowRight, ArrowUp, Escape, Tab, Backquote, Backspace, Enter, Space, Insert, Delete, Home,
    End, PageUp, PageDown, PrintScreen, Minus, Equal, Pause, Period, ScrollLock, Backslash,
    BracketLeft, BracketRight, Comma, Slash, Semicolon, Quote, ControlLeft, ControlRight,
    CapsLock, ShiftLeft, ShiftRight, AltLeft, AltRight, F1, F2, F3, F4, F5, F6, F7, F8, F9,
    F10, F11, F12, F13, F14, F15, F16, F17, F18, F19, F20, F21, F22, F23, F24, F25, F26, F27,
    F28, F29, F30, F31, F32, F33, F34, F35,
    /// A key outside this list, with the host's code for it; zero when the
    /// host has none.
    Unknown(usize),
}

impl Key {
    /// The character that the key types, with or without shift held, if it
    /// types one.
    pub open spec fn spec_symbol(self, is_uppercase: bool) -> Option<char> {
        match self {
            Key::A => Some(if is_uppercase { 'A' } else { 'a' }),
            Key::B => Some(if is_uppercase { 'B' } else { 'b' }),
            Key::C => Some(if is_uppercase { 'C' } else { 'c' }),
            Key::D => Some(if is_uppercase { 'D' } else { 'd' }),
            Key::E => Some(if is_uppercase { 'E' } else { 'e' }),
            Key::F => Some(if is_uppercase { 'F' } else { 'f' }),
            Key::G => Some(if is_uppercase { 'G' } else { 'g' }),
            Key::H => Some(if is_uppercase { 'H' } else { 'h' }),
            Key::I => Some(if is_uppercase { 'I' } else { 'i' }),
            Key::J => Some(if is_uppercase { 'J' } else { 'j' }),
            Key::K => Some(if is_uppercase { 'K' } else { 'k' }),
            Key::L => Some(if is_uppercase { 'L' } else { 'l' }),
            Key::M => Some(if is_uppercase { 'M' } else { 'm' }),
            Key::N => Some(if is_uppercase { 'N' } else { 'n' }),
            Key::O => Some(if is_uppercase { 'O' } else { 'o' }),
            Key::P => Some(if is_uppercase { 'P' } else { 'p' }),
            Key::Q => Some(if is_uppercase { 'Q' } else { 'q' }),
            Key::R => Some(if is_uppercase { 'R' } else { 'r' }),
            Key::S => Some(if is_uppercase { 'S' } else { 's' }),
            Key::T => Some(if is_uppercase { 'T' } else { 't' }),
            Key::U => Some(if is_uppercase { 'U' } else { 'u' }),
            Key::V => Some(if is_uppercase { 'V' } else { 'v' }),
            Key::W => Some(if is_uppercase { 'W' } else { 'w' }),
            Key::X => Some(if is_uppercase { 'X' } else { 'x' }),
            Key::Y => Some(if is_uppercase { 'Y' } else { 'y' }),
            Key::Z => Some(if is_uppercase { 'Z' } else { 'z' }),
            Key::Num0 => Some(if is_uppercase { ')' } else { '0' }),
            Key::Num1 => Some(if is_uppercase { '!' } else { '1' }),
            Key::Num2 => Some(if is_uppercase { '@' } else { '2' }),
            Key::Num3 => Some(if is_uppercase { '#' } else { '3' }),
            Key::Num4 => Some(if is_uppercase { '$' } else { '4' }),
            Key::Num5 => Some(if is_uppercase { '%' } else { '5' }),
            Key::Num6 => Some(if is_uppercase { '^' } else { '6' }),
            Key::Num7 => Some(if is_uppercase { '&' } else { '7' }),
            Key::Num8 => Some(if is_uppercase { '*' } else { '8' }),
            Key::Num9 => Some(if is_uppercase { '(' } else { '9' }),
            Key::NumPad0 => if is_uppercase { None } else { Some('0') },
            Key::NumPad1 => if is_uppercase { None } else { Some('1') },
            Key::NumPad2 => if is_uppercase { None } else { Some('2') },
            Key::NumPad3 => if is_uppercase { None } else { Some('3') },
            Key::NumPad4 => if is_uppercase { None } else { Some('4') },
            Key::NumPad5 => if is_uppercase { None } else { Some('5') },
            Key::NumPad6 => if is_uppercase { None } else { Some('6') },
            Key::NumPad7 => if is_uppercase { None } else { Some('7') },
            Key::NumPad8 => if is_uppercase { None } else { Some('8') },
            Key::NumPad9 => if is_uppercase { None } else { Some('9') },
            Key::Backquote => Some(if is_uppercase { '~' } else { '`' }),
            Key::Backslash => Some(if is_uppercase { '|' } else { '\\' }),
            Key::BracketLeft => Some(if is_uppercase { '{' } else { '[' }),
            Key::BracketRight => Some(if is_uppercase { '}' } else { ']' }),
            Key::Comma => Some(if is_uppercase { '<' } else { ',' }),
            Key::Space => Some(' '),
            Key::Minus => Some(if is_uppercase { '_' } else { '-' }),
            Key::Equal => Some(if is_uppercase { '+' } else { '=' }),
            Key::Slash => Some(if is_uppercase { '?' } else { '/' }),
            Key::Semicolon => Some(if is_uppercase { ':' } else { ';' }),
            Key::Quote => Some(if is_uppercase { '"' } else { '\'' }),
            Key::Period => Some(if is_uppercase { '>' } else { '.' }),
            _ => None,
        }
    }

    /// The text that the key types: its character alone, or nothing.
    pub open spec fn text(self, is_uppercase: bool) -> Seq<char> {
        match self.spec_symbol(is_uppercase) {
            Some(c) => seq![c],
            None => Seq::empty(),
        }
    }

    /// The character that the key types, with or without shift held, if it
    /// types one.
    pub fn symbol(&self, is_uppercase: bool) -> (r: Option<char>)
        ensures
            r == self.spec_symbol(is_uppercase),
    {
        match self {
            Key::A => Some(if is_uppercase { 'A' } else { 'a' }),
            Key::B => Some(if is_uppercase { 'B' } else { 'b' }),
            Key::C => Some(if is_uppercase { 'C' } else { 'c' }),
            Key::D => Some(if is_uppercase { 'D' } else { 'd' }),
            Key::E => Some(if is_uppercase { 'E' } else { 'e' }),
            Key::F => Some(if is_uppercase { 'F' } else { 'f' }),
            Key::G => Some(if is_uppercase { 'G' } else { 'g' }),
            Key::H => Some(if is_uppercase { 'H' } else { 'h' }),
            Key::I => Some(if is_uppercase { 'I' } else { 'i' }),
            Key::J => Some(if is_uppercase { 'J' } else { 'j' }),
            Key::K => Some(if is_uppercase { 'K' } else { 'k' }),
            Key::L => Some(if is_uppercase { 'L' } else { 'l' }),
            Key::M => Some(if is_uppercase { 'M' } else { 'm' }),
            Key::N => Some(if is_uppercase { 'N' } else { 'n' }),
            Key::O => Some(if is_uppercase { 'O' } else { 'o' }),
            Key::P => Some(if is_uppercase { 'P' } else { 'p' }),
            Key::Q => Some(if is_uppercase { 'Q' } else { 'q' }),
            Key::R => Some(if is_uppercase { 'R' } else { 'r' }),
            Key::S => Some(if is_uppercase { 'S' } else { 's' }),
            Key::T => Some(if is_uppercase { 'T' } else { 't' }),
            Key::U => Some(if is_uppercase { 'U' } else { 'u' }),
            Key::V => Some(if is_uppercase { 'V' } else { 'v' }),
            Key::W => Some(if is_uppercase { 'W' } else { 'w' }),
            Key::X => Some(if is_uppercase { 'X' } else { 'x' }),
            Key::Y => Some(if is_uppercase { 'Y' } else { 'y' }),
            Key::Z => Some(if is_uppercase { 'Z' } else { 'z' }),
            Key::Num0 => Some(if is_uppercase { ')' } else { '0' }),
            Key::Num1 => Some(if is_uppercase { '!' } else { '1' }),
            Key::Num2 => Some(if is_uppercase { '@' } else { '2' }),
            Key::Num3 => Some(if is_uppercase { '#' } else { '3' }),
            Key::Num4 => Some(if is_uppercase { '$' } else { '4' }),
            Key::Num5 => Some(if is_uppercase { '%' } else { '5' }),
            Key::Num6 => Some(if is_uppercase { '^' } else { '6' }),
            Key::Num7 => Some(if is_uppercase { '&' } else { '7' }),
            Key::Num8 => Some(if is_uppercase { '*' } else { '8' }),
            Key::Num9 => Some(if is_uppercase { '(' } else { '9' }),
            Key::NumPad0 => if is_uppercase { None } else { Some('0') },
            Key::NumPad1 => if is_uppercase { None } else { Some('1') },
            Key::NumPad2 => if is_uppercase { None } else { Some('2') },
            Key::NumPad3 => if is_uppercase { None } else { Some('3') },
            Key::NumPad4 => if is_uppercase { None } else { Some('4') },
            Key::NumPad5 => if is_uppercase { None } else { Some('5') },
            Key::NumPad6 => if is_uppercase { None } else { Some('6') },
            Key::NumPad7 => if is_uppercase { None } else { Some('7') },
            Key::NumPad8 => if is_uppercase { None } else { Some('8') },
            Key::NumPad9 => if is_uppercase { None } else { Some('9') },
            Key::Backquote => Some(if is_uppercase { '~' } else { '`' }),
            Key::Backslash => Some(if is_uppercase { '|' } else { '\\' }),
            Key::BracketLeft => Some(if is_uppercase { '{' } else { '[' }),
            Key::BracketRight => Some(if is_uppercase { '}' } else { ']' }),
            Key::Comma => Some(if is_uppercase { '<' } else { ',' }),
            Key::Space => Some(' '),
            Key::Minus => Some(if is_uppercase { '_' } else { '-' }),
            Key::Equal => Some(if is_uppercase { '+' } else { '=' }),
            Key::Slash => Some(if is_uppercase { '?' } else { '/' }),
            Key::Semicolon => Some(if is_uppercase { ':' } else { ';' }),
            Key::Quote => Some(if is_uppercase { '"' } else { '\'' }),
            Key::Period => Some(if is_uppercase { '>' } else { '.' }),
            _ => None,
        }
    }

    /// The text that the key types: its character alone, or nothing.
    pub fn to_string(&self, is_uppercase: bool) -> (s: String)
        ensures
            s@ == self.text(is_uppercase),
    {
        let mut s = String::new();
        match self.symbol(is_uppercase) {
            Some(c) => {
                s.push(c);
            },
            None => {},
        }
        s
    }
}

/// `String::push` appends one character to the end of the string.
pub assume_specification[ String::push ](s: &mut String, c: char)
    ensures
        final(s)@ == old(s)@.push(c),
;

/// What the host reports to the interface.
#[derive(Debug)]
#[non_exhaustive]
pub enum Event {
    /// A key went down.
    KeyPressed(Key),
    /// A key came up.
    KeyRelease(Key),
    /// The cursor is now at this place.
    CursorMoved(Vec2),
    CursorEntered,
    CursorLeft,
    /// A mouse button went down.
    MouseClick(MouseButton),
    /// A mouse button came up.
    MouseRelease(MouseButton),
    /// The surface has this size now.
    Resized(Vec2),
    ImeEnable,
    ImeDisable,
    /// Text committed by an input method or pasted.
    TextInput(String),
    TouchStart(Touch),
    TouchMove(Touch),
    TouchEnd(Touch),
    TouchCancel(Touch),
    /// The wheel moved by this much.
    Scroll(Vec2),
    NotSupported,
}

/// Mathematical value of an [`Event`].
pub enum EventView {
    KeyPressed(Key),
    KeyRelease(Key),
    CursorMoved(Vec2),
    CursorEntered,
    CursorLeft,
    MouseClick(MouseButton),
    MouseRelease(MouseButton),
    Resized(Vec2),
    ImeEnable,
    ImeDisable,
    TextInput(Seq<char>),
    TouchStart(Touch),
    TouchMove(Touch),
    TouchEnd(Touch),
    TouchCancel(Touch),
    Scroll(Vec2),
    NotSupported,
}

impl View for Event {
    type V = EventView;

    open spec fn view(&self) -> EventView {
        match self {
            Event::KeyPressed(k) => EventView::KeyPressed(*k),
            Event::KeyRelease(k) => EventView::KeyRelease(*k),
            Event::CursorMoved(p) => EventView::CursorMoved(*p),
            Event::CursorEntered => EventView::CursorEntered,
            Event::CursorLeft => EventView::CursorLeft,
            Event::MouseClick(b) => EventView::MouseClick(*b),
            Event::MouseRelease(b) => EventView::MouseRelease(*b),
            Event::Resized(s) => EventView::Resized(*s),
            Event::ImeEnable => EventView::ImeEnable,
            Event::ImeDisable => EventView::ImeDisable,
            Event::TextInput(t) => EventView::TextInput(t@),
            Event::TouchStart(t) => EventView::TouchStart(*t),
            Event::TouchMove(t) => EventView::TouchMove(*t),
            Event::TouchEnd(t) => EventView::TouchEnd(*t),
            Event::TouchCancel(t) => EventView::TouchCancel(*t),
            Event::Scroll(s) => EventView::Scroll(*s),
            Event::NotSupported => EventView::NotSupported,
        }
    }
}

impl Clone for Event {
    fn clone(&self) -> (r: Self)
        ensures
            r@ == self@,
    {
        match self {
            Event::KeyPressed(k) => Event::KeyPressed(*k),
            Event::KeyRelease(k) => Event::KeyRelease(*k),
            Event::CursorMoved(p) => Event::CursorMoved(*p),
            Event::CursorEntered => Event::CursorEntered,
            Event::CursorLeft => Event::CursorLeft,
            Event::MouseClick(b) => Event::MouseClick(*b),
            Event::MouseRelease(b) => Event::MouseRelease(*b),
            Event::Resized(s) => Event::Resized(*s),
            Event::ImeEnable => Event::ImeEnable,
            Event::ImeDisable => Event::ImeDisable,
            Event::TextInput(t) => Event::TextInput(t.clone()),
            Event::TouchStart(t) => Event::TouchStart(*t),
            Event::TouchMove(t) => Event::TouchMove(*t),
            Event::TouchEnd(t) => Event::TouchEnd(*t),
            Event::TouchCancel(t) => Event::TouchCancel(*t),
            Event::Scroll(s) => Event::Scroll(*s),
            Event::NotSupported => Event::NotSupported,
        }
    }
}

/// What the interface asks of the host. The host works through these once
/// per frame; the interface never carries them out itself.
#[derive(Debug)]
#[non_exhaustive]
pub enum OutputEvent {
    TextureCreate(Image),
    TextureChange(Image),
    TextureDelete(String),
    ClipboardCopy(String),
    /// `true` to show the on-screen keyboard, `false` to hide it.
    RequireSoftKeyboard(bool),
    /// Close the window.
    Close,
    /// Switch to the shader registered under this id, or back to the built-in
    /// one.
    ChangeShader(Option<String>),
    /// Register shader code under an id.
    RegstrateShader(String, String),
    /// Forget the shader registered under this id.
    RemoveShader(String),
}

/// Mathematical value of an [`OutputEvent`].
pub enum OutputEventView {
    TextureCreate(ImageView),
    TextureChange(ImageView),
    TextureDelete(Seq<char>),
    ClipboardCopy(Seq<char>),
    RequireSoftKeyboard(bool),
    Close,
    ChangeShader(Option<Seq<char>>),
    RegstrateShader(Seq<char>, Seq<char>),
    RemoveShader(Seq<char>),
}

impl View for OutputEvent {
    type V = OutputEventView;

    open spec fn view(&self) -> OutputEventView {
        match self {
            OutputEvent::TextureCreate(i) => OutputEventView::TextureCreate(i@),
            OutputEvent::TextureChange(i) => OutputEventView::TextureChange(i@),
            OutputEvent::TextureDelete(s) => OutputEventView::TextureDelete(s@),
            OutputEvent::ClipboardCopy(s) => OutputEventView::ClipboardCopy(s@),
            OutputEvent::RequireSoftKeyboard(b) => OutputEventView::RequireSoftKeyboard(*b),
            OutputEvent::Close => OutputEventView::Close,
            OutputEvent::ChangeShader(s) => OutputEventView::ChangeShader(
                match s {
                    Some(t) => Some(t@),
                    None => None,
                },
            ),
            OutputEvent::RegstrateShader(a, b) => OutputEventView::RegstrateShader(a@, b@),
            OutputEvent::RemoveShader(s) => OutputEventView::RemoveShader(s@),
        }
    }
}

impl Clone for OutputEvent {
    fn clone(&self) -> (r: Self)
        ensures
            r@ == self@,
    {
        match self {
            OutputEvent::TextureCreate(i) => OutputEvent::TextureCreate(i.clone()),
            OutputEvent::TextureChange(i) => OutputEvent::TextureChange(i.clone()),
            OutputEvent::TextureDelete(s) => OutputEvent::TextureDelete(s.clone()),
            OutputEvent::ClipboardCopy(s) => OutputEvent::ClipboardCopy(s.clone()),
            OutputEvent::RequireSoftKeyboard(b) => OutputEvent::RequireSoftKeyboard(*b),
            OutputEvent::Close => OutputEvent::Close,
            OutputEvent::ChangeShader(s) => OutputEvent::ChangeShader(
                match s {
                    Some(t) => Some(t.clone()),
                    None => None,
                },
            ),
            OutputEvent::RegstrateShader(a, b) => OutputEvent::RegstrateShader(a.clone(), b.clone()),
            OutputEvent::RemoveShader(s) => OutputEvent::RemoveShader(s.clone()),
        }
    }
}

} // verus!
