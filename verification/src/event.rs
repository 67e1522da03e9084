//! Input events, as plain values. A terminal driver turns what it reads into
//! these before handing it to a widget.
use vstd::prelude::*;

verus! {

/// The key that was pressed.
#[derive(Clone, Copy, Debug, PartialEq, Eq, Structural)]
pub enum KeyCode {
    Backspace,
    Enter,
    Left,
    Right,
    Up,
    Down,
    Home,
    End,
    PageUp,
    PageDown,
    Tab,
    BackTab,
    Delete,
    Insert,
    F(u8),
    Char(char),
    Null,
    Esc,
    /// Any key that has no variant of its own.
    Other,
}

/// The modifier keys held down with a key.
#[derive(Clone, Copy, Debug, PartialEq, Eq, Structural)]
pub struct KeyModifiers {
    pub shift: bool,
    pub control: bool,
    pub alt: bool,
    pub super_key: bool,
    pub hyper: bool,
    pub meta: bool,
}

impl KeyModifiers {
    /// No modifier.
    pub open spec fn spec_none() -> KeyModifiers {
        KeyModifiers {
            shift: false,
            control: false,
            alt: false,
            super_key: false,
            hyper: false,
            meta: false,
        }
    }

    /// No modifier.
    #[verifier::when_used_as_spec(spec_none)]
    pub fn none() -> (m: KeyModifiers)
        ensures
            m == Self::spec_none(),
    {
        KeyModifiers {
            shift: false,
            control: false,
            alt: false,
            super_key: false,
            hyper: false,
            meta: false,
        }
    }

    /// Shift alone.
    pub open spec fn spec_shift() -> KeyModifiers {
        KeyModifiers { shift: true, ..Self::spec_none() }
    }

    /// Shift alone.
    #[verifier::when_used_as_spec(spec_shift)]
    pub fn shift() -> (m: KeyModifiers)
        ensures
            m == Self::spec_shift(),
    {
        let mut m = KeyModifiers::none();
        m.shift = true;
        m
    }

    /// Control alone.
    pub open spec fn spec_control() -> KeyModifiers {
        KeyModifiers { control: true, ..Self::spec_none() }
    }

    /// Control alone.
    #[verifier::when_used_as_spec(spec_control)]
    pub fn control() -> (m: KeyModifiers)
        ensures
            m == Self::spec_control(),
    {
        let mut m = KeyModifiers::none();
        m.control = true;
        m
    }
}

/// Whether a key went down, is held, or came up.
#[derive(Clone, Copy, Debug, PartialEq, Eq, Structural)]
pub enum KeyEventKind {
    Press,
    Repeat,
    Release,
}

/// What the keyboard reported besides the key.
#[derive(Clone, Copy, Debug, PartialEq, Eq, Structural)]
pub struct KeyEventState {
    pub keypad: bool,
    pub caps_lock: bool,
    pub num_lock: bool,
}

impl KeyEventState {
    /// Nothing reported.
    pub open spec fn spec_none() -> KeyEventState {
        KeyEventState { keypad: false, caps_lock: false, num_lock: false }
    }

    /// Nothing reported.
    #[verifier::when_used_as_spec(spec_none)]
    pub fn none() -> (s: KeyEventState)
        ensures
            s == Self::spec_none(),
    {
        KeyEventState { keypad: false, caps_lock: false, num_lock: false }
    }
}

/// A key with what was held down and reported with it.
#[derive(Clone, Copy, Debug, PartialEq, Eq, Structural)]
pub struct KeyEvent {
    pub code: KeyCode,
    pub modifiers: KeyModifiers,
    pub kind: KeyEventKind,
    pub state: KeyEventState,
}

impl KeyEvent {
    /// A press of `code` with `modifiers` held, and nothing else reported.
    pub open spec fn spec_new(code: KeyCode, modifiers: KeyModifiers) -> KeyEvent {
        KeyEvent { code, modifiers, kind: KeyEventKind::Press, state: KeyEventState::spec_none() }
    }

    /// A press of `code` with `modifiers` held, and nothing else reported.
    #[verifier::when_used_as_spec(spec_new)]
    pub fn new(code: KeyCode, modifiers: KeyModifiers) -> (k: KeyEvent)
        ensures
            k == Self::spec_new(code, modifiers),
    {
        KeyEvent { code, modifiers, kind: KeyEventKind::Press, state: KeyEventState::none() }
    }

    /// Whether this is a press of `code` with exactly `modifiers` held and
    /// nothing else reported.
    pub fn is(&self, code: KeyCode, modifiers: KeyModifiers) -> (b: bool)
        ensures
            b == (*self == Self::spec_new(code, modifiers)),
    {
        self.code == code && self.modifiers == modifiers && self.kind == KeyEventKind::Press
            && self.state == KeyEventState::none()
    }
}

/// One input event.
#[derive(Debug, PartialEq, Eq)]
pub enum Event {
    FocusGained,
    FocusLost,
    Key(KeyEvent),
    Mouse,
    Paste(String),
    Resize(u16, u16),
}

impl Event {
    /// The event of pressing `code` with `modifiers` held.
    pub open spec fn press(code: KeyCode, modifiers: KeyModifiers) -> Event {
        Event::Key(KeyEvent::spec_new(code, modifiers))
    }

    /// Control and `c` pressed together, which asks for the session to stop.
    pub open spec fn is_interrupt(self) -> bool {
        self == Event::press(KeyCode::Char('c'), KeyModifiers::spec_control())
    }

    /// Whether the event asks for the session to stop.
    pub fn interrupts(&self) -> (b: bool)
        ensures
            b == self.is_interrupt(),
    {
        match self {
            Event::Key(key) => key.is(KeyCode::Char('c'), KeyModifiers::control()),
            _ => false,
        }
    }
}

} // verus!
