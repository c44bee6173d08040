use vstd::prelude::*;

verus! {

/// An instruction for the render loop, made from one key press.
#[derive(Clone, Copy, Debug, PartialEq, Eq, Structural)]
pub enum Event {
    /// A typed character, to be appended to the text.
    Key(char),
    ScrollDown,
    ScrollUp,
    LineBreak,
    Exit,
}

/// A decoded key code, as far as the poller reads it.
#[derive(Clone, Copy, Debug, PartialEq, Eq, Structural)]
pub enum KeyInput {
    Char(char),
    Up,
    Down,
    Enter,
    /// Any key that the poller does not translate.
    Other,
}

/// The event that a key press stands for, if any.
pub open spec fn key_event(code: KeyInput) -> Option<Event> {
    match code {
        KeyInput::Char(c) => if c == 'q' {
            Some(Event::Exit)
        } else {
            Some(Event::Key(c))
        },
        KeyInput::Up => Some(Event::ScrollUp),
        KeyInput::Down => Some(Event::ScrollDown),
        KeyInput::Enter => Some(Event::LineBreak),
        KeyInput::Other => None,
    }
}

/// Translates a decoded key into an event. Only presses count: a release or
/// a repeat (`pressed == false`) yields nothing.
pub fn map_key(code: KeyInput, pressed: bool) -> (r: Option<Event>)
    ensures
        r == (if pressed { key_event(code) } else { None }),
{
    if !pressed {
        return None;
    }
    match code {
        KeyInput::Char(c) => if c == 'q' {
            Some(Event::Exit)
        } else {
            Some(Event::Key(c))
        },
        KeyInput::Up => Some(Event::ScrollUp),
        KeyInput::Down => Some(Event::ScrollDown),
        KeyInput::Enter => Some(Event::LineBreak),
        KeyInput::Other => None,
    }
}

} // verus!
