//! Input events: keys, mouse, resizing and ticks, and the events components send each other.
use vstd::prelude::*;

use crate::geometry::{Pos, Size};

verus! {

/// The state of a key.
#[derive(Debug, Copy, Clone, PartialEq, Eq, Structural)]
pub enum KeyState {
    Press,
    Repeat,
    Release,
}

/// A key code.
#[derive(Debug, Copy, Clone, PartialEq, Eq, Structural)]
pub enum KeyCode {
    Char(char),
    Tab,
    BackTab,
    CtrlC,
    Backspace,
    Enter,
    Left,
    Right,
    Up,
    Down,
    Home,
    End,
    PageUp,
    PageDown,
    Delete,
    Insert,
    F(u8),
    Null,
    Esc,
    CapsLock,
    ScrollLock,
    NumLock,
    PrintScreen,
    Pause,
    Menu,
    KeypadBegin,
}

/// A key event.
#[derive(Debug, Copy, Clone, PartialEq, Eq, Structural)]
pub struct KeyEvent {
    pub code: KeyCode,
    pub ctrl: bool,
    pub state: KeyState,
}

impl KeyEvent {
    /// The character of the key, if the key is a character.
    pub fn get_char(&self) -> (r: Option<char>)
        ensures
            r == match self.code {
                KeyCode::Char(c) => Some(c),
                _ => None,
            },
    {
        match self.code {
            KeyCode::Char(c) => Some(c),
            _ => None,
        }
    }
}

/// A mouse button.
#[derive(Debug, Copy, Clone, PartialEq, Eq, Structural)]
pub enum MouseButton {
    Left,
    Middle,
    Right,
}

/// The state of the mouse.
#[derive(Debug, Copy, Clone, PartialEq, Eq, Structural)]
pub enum MouseState {
    Down(MouseButton),
    Up(MouseButton),
    Drag(MouseButton),
    Move,
    ScrollUp,
    ScrollDown,
    ScrollLeft,
    ScrollRight,
}

/// A mouse event at a cell of the screen.
#[derive(Debug, Copy, Clone, PartialEq, Eq, Structural)]
pub struct MouseEvent {
    pub x: u16,
    pub y: u16,
    pub state: MouseState,
}

impl MouseEvent {
    /// Translate the x and y position into a `Pos`.
    pub fn pos(&self) -> (p: Pos)
        ensures
            p.x == self.x,
            p.y == self.y,
    {
        Pos { x: self.x as i32, y: self.y as i32 }
    }

    /// Returns true if the left mouse button is pressed.
    pub fn left_down(&self) -> (r: bool)
        ensures
            r == (self.state == MouseState::Down(MouseButton::Left)),
    {
        matches!(self.state, MouseState::Down(MouseButton::Left))
    }

    /// Returns true if the right mouse button is pressed.
    pub fn right_down(&self) -> (r: bool)
        ensures
            r == (self.state == MouseState::Down(MouseButton::Right)),
    {
        matches!(self.state, MouseState::Down(MouseButton::Right))
    }

    /// Returns true if the middle mouse button is pressed.
    pub fn middle_down(&self) -> (r: bool)
        ensures
            r == (self.state == MouseState::Down(MouseButton::Middle)),
    {
        matches!(self.state, MouseState::Down(MouseButton::Middle))
    }

    /// Returns true if the left mouse button is down (pressed or dragging).
    pub fn is_left_down(&self) -> (r: bool)
        ensures
            r == (self.state == MouseState::Down(MouseButton::Left) || self.state == MouseState::Drag(
                MouseButton::Left,
            )),
    {
        matches!(self.state, MouseState::Down(MouseButton::Left) | MouseState::Drag(MouseButton::Left))
    }

    /// Returns true if the right mouse button is down (pressed or dragging).
    pub fn is_right_down(&self) -> (r: bool)
        ensures
            r == (self.state == MouseState::Down(MouseButton::Right) || self.state
                == MouseState::Drag(MouseButton::Right)),
    {
        matches!(self.state, MouseState::Down(MouseButton::Right) | MouseState::Drag(MouseButton::Right))
    }

    /// Returns true if the middle mouse button is down (pressed or dragging).
    pub fn is_middle_down(&self) -> (r: bool)
        ensures
            r == (self.state == MouseState::Down(MouseButton::Middle) || self.state
                == MouseState::Drag(MouseButton::Middle)),
    {
        matches!(self.state, MouseState::Down(MouseButton::Middle) | MouseState::Drag(MouseButton::Middle))
    }

    /// Returns true if the left mouse button is released.
    pub fn left_up(&self) -> (r: bool)
        ensures
            r == (self.state == MouseState::Up(MouseButton::Left)),
    {
        matches!(self.state, MouseState::Up(MouseButton::Left))
    }

    /// Returns true if the right mouse button is released.
    pub fn right_up(&self) -> (r: bool)
        ensures
            r == (self.state == MouseState::Up(MouseButton::Right)),
    {
        matches!(self.state, MouseState::Up(MouseButton::Right))
    }

    /// Returns true if the middle mouse button is released.
    pub fn middle_up(&self) -> (r: bool)
        ensures
            r == (self.state == MouseState::Up(MouseButton::Middle)),
    {
        matches!(self.state, MouseState::Up(MouseButton::Middle))
    }
}

/// An event.
#[derive(Debug, Copy, Clone, PartialEq)]
pub enum ComponentEvent {
    /// No op.
    Noop,
    /// Stop the runtime.
    Stop,
    /// Terminal lost focus (not widely supported).
    Blur,
    /// Terminal gained focus (not widely supported).
    Focus,
    /// Key event.
    Key(KeyEvent),
    /// Mouse event.
    Mouse(MouseEvent),
    /// Window was resized.
    Resize(Size),
    /// Tick.
    Tick(std::time::Duration),
}

impl ComponentEvent {
    /// Returns true if this is a mouse event.
    pub fn is_mouse_event(&self) -> (r: bool)
        ensures
            r == (*self is Mouse),
    {
        matches!(self, Self::Mouse(_))
    }

    /// The character of a key event, if the key is a character.
    pub fn get_char(&self) -> (r: Option<char>)
        ensures
            r == match *self {
                ComponentEvent::Key(KeyEvent { code: KeyCode::Char(c), .. }) => Some(c),
                _ => None,
            },
    {
        match self {
            Self::Key(event) => event.get_char(),
            _ => None,
        }
    }

    /// Returns true if this is the key `c` pressed with control.
    pub fn is_ctrl_c(&self) -> (r: bool)
        ensures
            r == match *self {
                ComponentEvent::Key(KeyEvent { code: KeyCode::Char(c), ctrl, .. }) => c == 'c' && ctrl,
                _ => false,
            },
    {
        match self {
            Self::Key(event) => match event.code {
                KeyCode::Char(c) => c == 'c' && event.ctrl,
                _ => false,
            },
            _ => false,
        }
    }
}

/// An event a component publishes to its parent: the names it goes by and whether it should
/// travel further up.
#[derive(Debug, Copy, Clone)]
pub struct Event<'a> {
    pub sender: &'a str,
    pub external_ident: &'a str,
    pub internal_ident: &'a str,
    stop_propagation: bool,
}

impl<'a> Event<'a> {
    /// The name the parent knows the event by.
    pub closed spec fn spec_name(&self) -> Seq<char> {
        self.external_ident@
    }

    /// The name of the component that sent the event.
    pub closed spec fn spec_sender(&self) -> Seq<char> {
        self.sender@
    }

    /// The name the sending component knows the event by.
    pub closed spec fn spec_internal(&self) -> Seq<char> {
        self.internal_ident@
    }

    /// Whether propagation was stopped.
    pub closed spec fn stopped(&self) -> bool {
        self.stop_propagation
    }

    /// A new event that propagates.
    pub fn new(sender: &'a str, external_ident: &'a str, internal_ident: &'a str) -> (e: Self)
        ensures
            e.spec_name() == external_ident@,
            e.spec_sender() == sender@,
            e.spec_internal() == internal_ident@,
            !e.stopped(),
    {
        Event { sender, external_ident, internal_ident, stop_propagation: false }
    }

    /// Stop the event from propagating further.
    pub fn stop_propagation(&mut self)
        ensures
            final(self).stopped(),
            final(self).spec_name() == old(self).spec_name(),
            final(self).spec_sender() == old(self).spec_sender(),
            final(self).spec_internal() == old(self).spec_internal(),
    {
        self.stop_propagation = true;
    }

    /// The name of the event, as the parent knows it.
    pub fn name(&self) -> (r: &str)
        ensures
            r@ == self.spec_name(),
    {
        self.external_ident
    }

    /// Returns true if the event should not propagate further.
    pub fn should_stop_propagation(&self) -> (r: bool)
        ensures
            r == self.stopped(),
    {
        self.stop_propagation
    }
}

/// How a component came to be.
#[derive(Debug, Copy, Clone, PartialEq, Eq, Structural)]
pub enum ComponentKind {
    Instance,
    Prototype,
}

} // verus!
