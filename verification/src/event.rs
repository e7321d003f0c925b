//! The events that the multiplexer delivers, and the raw device input that
//! they are made from.

use vstd::prelude::*;

verus! {

/// The key that a keyboard notification is about.
#[derive(Clone, Copy, Debug, PartialEq, Eq)]
pub enum KeyCode {
    Backspace,
    Enter,
    Left,
    Right,
    Up,
    Down,
    Home,
    End,
    PageUp,
    PageDown,
    Tab,
    BackTab,
    Delete,
    Insert,
    F(u8),
    Char(char),
    Null,
    Esc,
    CapsLock,
    ScrollLock,
    NumLock,
    PrintScreen,
    Pause,
    Menu,
    KeypadBegin,
    Media,
    Modifier,
}

/// Whether a key went down, is being held, or came up.
#[derive(Clone, Copy, Debug, PartialEq, Eq)]
pub enum KeyEventKind {
    Press,
    Repeat,
    Release,
}

/// The modifier keys held during a notification, one bit each.
#[derive(Clone, Copy, Debug, PartialEq, Eq)]
pub struct KeyModifiers {
    pub bits: u8,
}

/// One keyboard notification.
#[derive(Clone, Copy, Debug, PartialEq, Eq)]
pub struct KeyEvent {
    pub code: KeyCode,
    pub modifiers: KeyModifiers,
    pub kind: KeyEventKind,
}

#[derive(Clone, Copy, Debug, PartialEq, Eq)]
pub enum MouseButton {
    Left,
    Right,
    Middle,
}

#[derive(Clone, Copy, Debug, PartialEq, Eq)]
pub enum MouseEventKind {
    Down(MouseButton),
    Up(MouseButton),
    Drag(MouseButton),
    Moved,
    ScrollDown,
    ScrollUp,
    ScrollLeft,
    ScrollRight,
}

/// One mouse notification, with the cell it happened in.
#[derive(Clone, Copy, Debug, PartialEq, Eq)]
pub struct MouseEvent {
    pub kind: MouseEventKind,
    pub column: u16,
    pub row: u16,
    pub modifiers: KeyModifiers,
}

/// A notification as the terminal driver reports it.
#[derive(Clone, Debug, PartialEq, Eq)]
pub enum Input {
    Key(KeyEvent),
    Mouse(MouseEvent),
    Resize(u16, u16),
    FocusLost,
    FocusGained,
    Paste(String),
}

/// One occurrence in the multiplexer's stream.
#[derive(Clone, Debug, PartialEq, Eq)]
pub enum Event {
    Init,
    Quit,
    Error,
    Closed,
    Tick,
    Render,
    FocusGained,
    FocusLost,
    Paste(String),
    Key(KeyEvent),
    Mouse(MouseEvent),
    Resize(u16, u16),
}

impl KeyModifiers {
    /// No modifier held.
    pub fn none() -> (m: KeyModifiers)
        ensures
            m.bits == 0,
    {
        KeyModifiers { bits: 0 }
    }
}

impl KeyEvent {
    /// Whether this notification is a key going down.
    pub open spec fn pressed(self) -> bool {
        self.kind is Press
    }

    /// A key going down with no modifier held.
    pub fn press(code: KeyCode) -> (key: KeyEvent)
        ensures
            key.code == code,
            key.modifiers.bits == 0,
            key.kind is Press,
    {
        KeyEvent { code, modifiers: KeyModifiers { bits: 0 }, kind: KeyEventKind::Press }
    }

    /// Whether this notification is a key going down.
    pub fn is_press(&self) -> (b: bool)
        ensures
            b == self.pressed(),
    {
        match self.kind {
            KeyEventKind::Press => true,
            _ => false,
        }
    }
}

/// What the multiplexer forwards for one driver notification: every
/// notification becomes the event of the same name with the same payload,
/// except keyboard notifications other than a press, which are dropped.
pub open spec fn forwarded(input: Input) -> Option<Event> {
    match input {
        Input::Key(key) => if key.pressed() {
            Some(Event::Key(key))
        } else {
            None
        },
        Input::Mouse(mouse) => Some(Event::Mouse(mouse)),
        Input::Resize(width, height) => Some(Event::Resize(width, height)),
        Input::FocusLost => Some(Event::FocusLost),
        Input::FocusGained => Some(Event::FocusGained),
        Input::Paste(text) => Some(Event::Paste(text)),
    }
}

/// Translates one driver notification into the event to enqueue, if any.
pub fn translate(input: Input) -> (out: Option<Event>)
    ensures
        out == forwarded(input),
{
    match input {
        Input::Key(key) => {
            if key.is_press() {
                Some(Event::Key(key))
            } else {
                None
            }
        },
        Input::Mouse(mouse) => Some(Event::Mouse(mouse)),
        Input::Resize(width, height) => Some(Event::Resize(width, height)),
        Input::FocusLost => Some(Event::FocusLost),
        Input::FocusGained => Some(Event::FocusGained),
        Input::Paste(text) => Some(Event::Paste(text)),
    }
}

} // verus!
