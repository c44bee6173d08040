//! A scrollable text view driven by two cooperating units of work: a key
//! poller that turns key presses into events, and a render loop that owns the
//! view's state, applies events to it and asks for a frame on every turn.
//!
//! The decisions of both units are pure step functions here; the code that
//! waits on the terminal, the queue, the timer and the shutdown signal drives
//! them from outside.
mod event;
mod laws;
mod poller;
mod render_loop;
mod scrollbar;
mod state;
mod text;

pub use event::{key_event, map_key, Event, KeyInput};
pub use laws::{
    exit_stops_both, inputs_applied_once_in_order, run_keeps_scroll_in_bounds,
    scroll_stays_in_bounds, typed_chars, typing_appends_in_order, typing_or_idle,
};
pub use poller::{poll_action, poll_step, PollAction, PollInput};
pub use render_loop::{
    draws_before_stop, drive, line_breaks, loop_action, loop_next, run_model, step, LoopAction, LoopInput,
};
pub use scrollbar::ScrollbarPosition;
pub use state::{
    apply_event, can_apply, greeting, scroll_in_bounds, visible_lines, AppState, FrameContent,
    StateModel,
};
pub use text::{lines_of, line_parts, strip_cr};
