use vstd::prelude::*;
use crate::event::{key_event, Event, KeyInput};

verus! {

/// What the key poller saw on one turn.
#[derive(Clone, Copy, Debug, PartialEq, Eq, Structural)]
pub enum PollInput {
    /// A key event: its code, and whether it was a press.
    Key(KeyInput, bool),
    /// An input event that is not a key (a resize, the mouse, focus).
    NotKey,
    /// The source of input events has ended.
    SourceEnded,
    /// The shutdown signal was observed.
    Shutdown,
}

/// What the key poller does after one turn.
#[derive(Clone, Copy, Debug, PartialEq, Eq, Structural)]
pub enum PollAction {
    /// Push the event onto the queue, waiting while it is full.
    Forward(Event),
    /// Nothing to pass on; wait for the next input.
    Skip,
    /// Stop.
    Stop,
    /// Raise the shutdown signal so that the render loop stops too, then stop.
    SignalAndStop,
}

pub open spec fn poll_action(input: PollInput) -> PollAction {
    match input {
        PollInput::Key(code, pressed) => if pressed && key_event(code) is Some {
            PollAction::Forward(key_event(code)->0)
        } else {
            PollAction::Skip
        },
        PollInput::NotKey => PollAction::Skip,
        PollInput::SourceEnded => PollAction::SignalAndStop,
        PollInput::Shutdown => PollAction::Stop,
    }
}

/// One turn of the key poller.
pub fn poll_step(input: PollInput) -> (r: PollAction)
    ensures
        r == poll_action(input),
{
    match input {
        PollInput::Key(code, pressed) => match crate::event::map_key(code, pressed) {
            Some(e) => PollAction::Forward(e),
            None => PollAction::Skip,
        },
        PollInput::NotKey => PollAction::Skip,
        PollInput::SourceEnded => PollAction::SignalAndStop,
        PollInput::Shutdown => PollAction::Stop,
    }
}

} // verus!
