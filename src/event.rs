use vstd::prelude::*;

verus! {

/// A key as the terminal reports it.
#[derive(Debug, Clone, Copy, PartialEq, Eq, Structural)]
pub enum KeyCode {
    Char(char),
    Enter,
    Esc,
    Backspace,
    Tab,
    Left,
    Right,
    Up,
    Down,
    Home,
    End,
    /// Any key that no binding names.
    Other,
}

/// The modifier keys held with a key.
#[derive(Debug, Clone, Copy, PartialEq, Eq, Structural)]
pub struct KeyModifiers {
    pub shift: bool,
    pub control: bool,
    pub alt: bool,
    pub super_key: bool,
    pub hyper: bool,
    pub meta: bool,
}

impl KeyModifiers {
    /// No modifier held.
    pub open spec fn is_none(self) -> bool {
        !self.shift && !self.control && !self.alt && !self.super_key && !self.hyper && !self.meta
    }

    /// Control and nothing else held.
    pub open spec fn is_control(self) -> bool {
        !self.shift && self.control && !self.alt && !self.super_key && !self.hyper && !self.meta
    }

    /// Super and nothing else held.
    pub open spec fn is_super(self) -> bool {
        !self.shift && !self.control && !self.alt && self.super_key && !self.hyper && !self.meta
    }

    pub fn none() -> (r: KeyModifiers)
        ensures
            r.is_none(),
    {
        KeyModifiers {
            shift: false,
            control: false,
            alt: false,
            super_key: false,
            hyper: false,
            meta: false,
        }
    }

    pub fn control() -> (r: KeyModifiers)
        ensures
            r.is_control(),
    {
        KeyModifiers { control: true, ..KeyModifiers::none() }
    }

    pub fn none_held(&self) -> (r: bool)
        ensures
            r == self.is_none(),
    {
        !self.shift && !self.control && !self.alt && !self.super_key && !self.hyper && !self.meta
    }

    pub fn control_only(&self) -> (r: bool)
        ensures
            r == self.is_control(),
    {
        !self.shift && self.control && !self.alt && !self.super_key && !self.hyper && !self.meta
    }

    pub fn super_only(&self) -> (r: bool)
        ensures
            r == self.is_super(),
    {
        !self.shift && !self.control && !self.alt && self.super_key && !self.hyper && !self.meta
    }
}

/// What the views and the view stack react to.
#[derive(Debug, Clone, Copy, PartialEq, Eq, Structural)]
pub enum AppEvent {
    Key(KeyCode, KeyModifiers),
    /// Redraw now (the terminal was resized or regained focus).
    Render,
    /// The animation clock ticked.
    Tick,
}

/// `e` is a press of `code`, whatever the modifiers.
pub open spec fn is_key(e: AppEvent, code: KeyCode) -> bool {
    match e {
        AppEvent::Key(c, _) => c == code,
        _ => false,
    }
}

/// `e` is a press of `code` with no modifier held.
pub open spec fn is_plain_key(e: AppEvent, code: KeyCode) -> bool {
    match e {
        AppEvent::Key(c, m) => c == code && m.is_none(),
        _ => false,
    }
}

/// `e` is a press of `code` with super alone held.
pub open spec fn is_super_key(e: AppEvent, code: KeyCode) -> bool {
    match e {
        AppEvent::Key(c, m) => c == code && m.is_super(),
        _ => false,
    }
}

/// The character a key event types, if it is a character key.
pub open spec fn typed_char(e: AppEvent) -> Option<char> {
    match e {
        AppEvent::Key(KeyCode::Char(c), _) => Some(c),
        _ => None,
    }
}

/// The quit combination: control-q.
pub open spec fn is_quit_combo(e: AppEvent) -> bool {
    match e {
        AppEvent::Key(c, m) => c == KeyCode::Char('q') && m.is_control(),
        _ => false,
    }
}

/// The pop key: q with any other modifiers.
pub open spec fn is_pop_key(e: AppEvent) -> bool {
    is_key(e, KeyCode::Char('q')) && !is_quit_combo(e)
}

/// The key that quits even while an overlay blocks input: q or Q, with any
/// modifiers.
pub open spec fn is_forced_quit_key(e: AppEvent) -> bool {
    is_key(e, KeyCode::Char('q')) || is_key(e, KeyCode::Char('Q'))
}

/// The key that acknowledges a blocking overlay: escape, with any modifiers.
pub open spec fn is_dismiss_key(e: AppEvent) -> bool {
    is_key(e, KeyCode::Esc)
}

pub fn key_is(e: &AppEvent, code: KeyCode) -> (r: bool)
    ensures
        r == is_key(*e, code),
{
    match e {
        AppEvent::Key(c, _) => *c == code,
        _ => false,
    }
}

pub fn plain_key_is(e: &AppEvent, code: KeyCode) -> (r: bool)
    ensures
        r == is_plain_key(*e, code),
{
    match e {
        AppEvent::Key(c, m) => *c == code && m.none_held(),
        _ => false,
    }
}

pub fn super_key_is(e: &AppEvent, code: KeyCode) -> (r: bool)
    ensures
        r == is_super_key(*e, code),
{
    match e {
        AppEvent::Key(c, m) => *c == code && m.super_only(),
        _ => false,
    }
}

pub fn key_char(e: &AppEvent) -> (r: Option<char>)
    ensures
        r == typed_char(*e),
{
    match e {
        AppEvent::Key(KeyCode::Char(c), _) => Some(*c),
        _ => None,
    }
}

pub fn quit_combo(e: &AppEvent) -> (r: bool)
    ensures
        r == is_quit_combo(*e),
{
    match e {
        AppEvent::Key(KeyCode::Char(c), m) => *c == 'q' && m.control_only(),
        _ => false,
    }
}

pub fn pop_key(e: &AppEvent) -> (r: bool)
    ensures
        r == is_pop_key(*e),
{
    match e {
        AppEvent::Key(KeyCode::Char(c), m) => *c == 'q' && !m.control_only(),
        _ => false,
    }
}

pub fn dismiss_key(e: &AppEvent) -> (r: bool)
    ensures
        r == is_dismiss_key(*e),
{
    match e {
        AppEvent::Key(KeyCode::Esc, _) => true,
        _ => false,
    }
}

pub fn forced_quit_key(e: &AppEvent) -> (r: bool)
    ensures
        r == is_forced_quit_key(*e),
{
    match e {
        AppEvent::Key(KeyCode::Char(c), _) => *c == 'q' || *c == 'Q',
        _ => false,
    }
}

/// Whether a key event is a press, a repeat or a release.
#[derive(Debug, Clone, Copy, PartialEq, Eq, Structural)]
pub enum KeyEventKind {
    Press,
    Repeat,
    Release,
}

/// A raw event of the terminal's input stream.
#[derive(Debug, Clone, Copy, PartialEq, Eq, Structural)]
pub enum TerminalEvent {
    Key(KeyCode, KeyModifiers, KeyEventKind),
    FocusGained,
    FocusLost,
    Resize(u16, u16),
    Mouse,
    Paste,
}

/// The event that a raw terminal event stands for, if any.
pub open spec fn normalized(e: TerminalEvent) -> Option<AppEvent> {
    match e {
        TerminalEvent::Key(code, m, kind) => if kind == KeyEventKind::Release {
            None
        } else {
            Some(AppEvent::Key(code, m))
        },
        TerminalEvent::FocusGained | TerminalEvent::Resize(_, _) => Some(AppEvent::Render),
        _ => None,
    }
}

impl AppEvent {
    /// Keeps key presses and repeats, turns focus and resize into a redraw,
    /// and drops everything else.
    pub fn from_terminal(e: TerminalEvent) -> (r: Option<AppEvent>)
        ensures
            r == normalized(e),
    {
        match e {
            TerminalEvent::Key(code, m, KeyEventKind::Press)
            | TerminalEvent::Key(code, m, KeyEventKind::Repeat) => Some(AppEvent::Key(code, m)),
            TerminalEvent::FocusGained | TerminalEvent::Resize(_, _) => Some(AppEvent::Render),
            _ => None,
        }
    }
}

} // verus!
