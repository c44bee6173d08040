use vstd::prelude::*;
use crate::event::Event;
use crate::state::{apply_event, can_apply, AppState, StateModel};

verus! {

/// What woke the render loop on one turn.
#[derive(Clone, Copy, Debug, PartialEq, Eq, Structural)]
pub enum LoopInput {
    /// An event came off the queue.
    Received(Event),
    /// The queue is closed and empty.
    QueueClosed,
    /// The redraw timer fired.
    Tick,
    /// The shutdown signal was observed.
    Shutdown,
}

/// What the render loop does after one turn.
#[derive(Clone, Copy, Debug, PartialEq, Eq, Structural)]
pub enum LoopAction {
    /// Go on: draw one frame, then wait again.
    Draw,
    /// Stop at once, without drawing.
    Stop,
    /// Raise the shutdown signal so that the poller stops too, then stop.
    SignalAndStop,
}

pub open spec fn loop_action(input: LoopInput) -> LoopAction {
    match input {
        LoopInput::Shutdown => LoopAction::Stop,
        LoopInput::Received(Event::Exit) => LoopAction::SignalAndStop,
        _ => LoopAction::Draw,
    }
}

pub open spec fn loop_next(m: StateModel, input: LoopInput) -> StateModel {
    match input {
        LoopInput::Received(e) => apply_event(m, e),
        _ => m,
    }
}

/// The number of frames drawn while the loop takes `inputs` in order: one per
/// turn, up to the first turn that stops it.
pub open spec fn draws_before_stop(inputs: Seq<LoopInput>) -> nat
    decreases inputs.len(),
{
    if inputs.len() == 0 {
        0
    } else if loop_action(inputs[0]) == LoopAction::Draw {
        1 + draws_before_stop(inputs.drop_first())
    } else {
        0
    }
}

/// The state after the loop takes `inputs` in order, up to the first turn
/// that stops it.
pub open spec fn run_model(m: StateModel, inputs: Seq<LoopInput>) -> StateModel
    decreases inputs.len(),
{
    if inputs.len() == 0 {
        m
    } else if loop_action(inputs[0]) == LoopAction::Draw {
        run_model(loop_next(m, inputs[0]), inputs.drop_first())
    } else {
        m
    }
}

/// The number of line breaks among `inputs`.
pub open spec fn line_breaks(inputs: Seq<LoopInput>) -> nat
    decreases inputs.len(),
{
    if inputs.len() == 0 {
        0
    } else if inputs[0] == LoopInput::Received(Event::LineBreak) {
        1 + line_breaks(inputs.drop_first())
    } else {
        line_breaks(inputs.drop_first())
    }
}

/// One turn of the render loop: applies what came in and says whether to
/// draw or to stop.
pub fn step(state: &mut AppState, input: LoopInput) -> (r: LoopAction)
    requires
        input matches LoopInput::Received(e) ==> can_apply(old(state).view(), e),
    ensures
        r == loop_action(input),
        final(state).view() == loop_next(old(state).view(), input),
        old(state).wf() ==> final(state).wf(),
{
    match input {
        LoopInput::Shutdown => LoopAction::Stop,
        LoopInput::Received(Event::Exit) => LoopAction::SignalAndStop,
        LoopInput::Received(e) => {
            state.apply(e);
            LoopAction::Draw
        },
        LoopInput::QueueClosed | LoopInput::Tick => LoopAction::Draw,
    }
}

/// Takes `inputs` in order as the loop would, stopping at the first turn that
/// stops it, and returns the number of frames that would be drawn.
pub fn drive(state: &mut AppState, inputs: &Vec<LoopInput>) -> (draws: usize)
    requires
        old(state).line_count + line_breaks(inputs@) <= usize::MAX,
    ensures
        draws == draws_before_stop(inputs@),
        final(state).view() == run_model(old(state).view(), inputs@),
        old(state).wf() ==> final(state).wf(),
{
    let mut draws: usize = 0;
    let mut i: usize = 0;
    assert(inputs@.skip(0) =~= inputs@);
    while i < inputs.len()
        invariant
            i <= inputs@.len(),
            draws <= i,
            state.line_count + line_breaks(inputs@.skip(i as int)) <= usize::MAX,
            run_model(old(state).view(), inputs@) == run_model(state.view(), inputs@.skip(i as int)),
            draws_before_stop(inputs@) == draws + draws_before_stop(inputs@.skip(i as int)),
            old(state).wf() ==> state.wf(),
        decreases inputs.len() - i,
    {
        proof {
            let rest = inputs@.skip(i as int);
            assert(rest.drop_first() =~= inputs@.skip(i + 1));
            assert(rest[0] == inputs@[i as int]);
        }
        let action = step(state, inputs[i]);
        if action != LoopAction::Draw {
            return draws;
        }
        draws = draws + 1;
        i = i + 1;
    }
    draws
}

} // verus!
