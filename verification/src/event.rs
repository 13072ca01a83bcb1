//! Input events as the screens see them.
//!
//! The host decodes whatever its terminal backend reports into these plain
//! values before it hands them to the active screen.

use vstd::prelude::*;

verus! {

/// The key of a key event. Keys that no screen reacts to are `Other`.
#[derive(Clone, Copy, Debug, PartialEq, Eq, Structural)]
pub enum KeyCode {
    Backspace,
    Enter,
    Left,
    Right,
    Up,
    Down,
    Tab,
    BackTab,
    Esc,
    Char(char),
    Other,
}

/// The phase of a key event, for event sources that report press, repeat and
/// release separately.
#[derive(Clone, Copy, Debug, PartialEq, Eq, Structural)]
pub enum KeyEventKind {
    Press,
    Repeat,
    Release,
}

/// A key event: the key and the phase.
#[derive(Clone, Copy, Debug, PartialEq, Eq, Structural)]
pub struct KeyEvent {
    pub code: KeyCode,
    pub kind: KeyEventKind,
}

/// One decoded input event. Everything that is not a key event (mouse,
/// resize, focus, paste) is `Other`.
#[derive(Clone, Copy, Debug, PartialEq, Eq, Structural)]
pub enum Event {
    Key(KeyEvent),
    Other,
}

impl KeyEvent {
    /// A key press.
    pub fn press(code: KeyCode) -> (r: KeyEvent)
        ensures
            r == (KeyEvent { code, kind: KeyEventKind::Press }),
    {
        KeyEvent { code, kind: KeyEventKind::Press }
    }
}

impl Event {
    /// The event of pressing `code`.
    pub fn press(code: KeyCode) -> (r: Event)
        ensures
            r == Event::Key(KeyEvent { code, kind: KeyEventKind::Press }),
    {
        Event::Key(KeyEvent::press(code))
    }
}

/// What reaches the active screen of a polled event: key presses and
/// non-key events pass, every other key phase becomes a tick without input,
/// as does a wait that timed out.
pub open spec fn forwarded(polled: Option<Event>) -> Option<Event> {
    match polled {
        Some(Event::Key(key)) => if key.kind == KeyEventKind::Press {
            polled
        } else {
            None
        },
        Some(Event::Other) => polled,
        None => None,
    }
}

/// The key that a forwarded event carries, if it is a key event.
pub open spec fn key_of(event: Option<Event>) -> Option<KeyCode> {
    match event {
        Some(Event::Key(key)) => Some(key.code),
        _ => None,
    }
}

/// Filters one polled event down to what is dispatched on this tick.
pub fn forward_event(polled: Option<Event>) -> (r: Option<Event>)
    ensures
        r == forwarded(polled),
{
    match polled {
        Some(Event::Key(key)) => match key.kind {
            KeyEventKind::Press => polled,
            _ => None,
        },
        Some(Event::Other) => polled,
        None => None,
    }
}

/// Reads the key out of a dispatched event.
pub fn event_key(event: Option<Event>) -> (r: Option<KeyCode>)
    ensures
        r == key_of(event),
{
    match event {
        Some(Event::Key(key)) => Some(key.code),
        _ => None,
    }
}

} // verus!
