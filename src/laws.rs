use vstd::prelude::*;
use crate::event::Event;
use crate::poller::{poll_action, PollAction, PollInput};
use crate::render_loop::{
    draws_before_stop, line_breaks, loop_action, loop_next, run_model, LoopAction, LoopInput,
};
use crate::state::{apply_event, scroll_in_bounds, StateModel};

verus! {

/// The characters typed among `inputs`, in the order they came.
pub open spec fn typed_chars(inputs: Seq<LoopInput>) -> Seq<char>
    decreases inputs.len(),
{
    if inputs.len() == 0 {
        Seq::empty()
    } else {
        match inputs[0] {
            LoopInput::Received(Event::Key(c)) => seq![c] + typed_chars(inputs.drop_first()),
            _ => typed_chars(inputs.drop_first()),
        }
    }
}

/// A turn that brings a typed character, or only redraws.
pub open spec fn typing_or_idle(input: LoopInput) -> bool {
    input is Tick || input is QueueClosed || input matches LoopInput::Received(Event::Key(_))
}

/// Typing characters, with timer ticks or idle turns between them, appends
/// exactly those characters to the text in the order they came, leaves the
/// line count and scroll position alone, and draws one frame per turn.
pub proof fn typing_appends_in_order(m: StateModel, inputs: Seq<LoopInput>)
    requires
        forall|k: int| 0 <= k < inputs.len() ==> typing_or_idle(#[trigger] inputs[k]),
    ensures
        run_model(m, inputs).text == m.text + typed_chars(inputs),
        run_model(m, inputs).line_count == m.line_count,
        run_model(m, inputs).scroll_position == m.scroll_position,
        draws_before_stop(inputs) == inputs.len(),
    decreases inputs.len(),
{
    if inputs.len() == 0 {
        assert(m.text + typed_chars(inputs) =~= m.text);
    } else {
        let next = loop_next(m, inputs[0]);
        assert(typing_or_idle(inputs[0]));
        assert forall|k: int| 0 <= k < inputs.drop_first().len() implies typing_or_idle(
            #[trigger] inputs.drop_first()[k],
        ) by {
            assert(inputs.drop_first()[k] == inputs[k + 1]);
        }
        typing_appends_in_order(next, inputs.drop_first());
        match inputs[0] {
            LoopInput::Received(Event::Key(c)) => {
                assert(next.text + typed_chars(inputs.drop_first()) =~= m.text + typed_chars(inputs));
            },
            _ => {},
        }
    }
}

/// The scroll position stays within `[0, line_count]` whatever event comes:
/// scrolling up at the top stays at the top, and scrolling down at the line
/// count stays there.
pub proof fn scroll_stays_in_bounds(m: StateModel, e: Event)
    requires
        scroll_in_bounds(m),
    ensures
        scroll_in_bounds(apply_event(m, e)),
        e == Event::ScrollUp && m.scroll_position == 0 ==> apply_event(m, e).scroll_position == 0,
        e == Event::ScrollDown && m.scroll_position == m.line_count ==> apply_event(m, e).scroll_position
            == m.scroll_position,
{
}

/// Over any run of the loop the scroll position stays within
/// `[0, line_count]`; and while nothing stops the loop, the line count grows by
/// one for each line break received.
pub proof fn run_keeps_scroll_in_bounds(m: StateModel, inputs: Seq<LoopInput>)
    requires
        scroll_in_bounds(m),
    ensures
        scroll_in_bounds(run_model(m, inputs)),
        (forall|k: int| 0 <= k < inputs.len() ==> loop_action(#[trigger] inputs[k]) == LoopAction::Draw)
            ==> run_model(m, inputs).line_count == m.line_count + line_breaks(inputs),
    decreases inputs.len(),
{
    if inputs.len() > 0 && loop_action(inputs[0]) == LoopAction::Draw {
        let next = loop_next(m, inputs[0]);
        match inputs[0] {
            LoopInput::Received(e) => scroll_stays_in_bounds(m, e),
            _ => {},
        }
        run_keeps_scroll_in_bounds(next, inputs.drop_first());
        if forall|k: int| 0 <= k < inputs.len() ==> loop_action(#[trigger] inputs[k]) == LoopAction::Draw {
            assert forall|k: int| 0 <= k < inputs.drop_first().len() implies loop_action(
                #[trigger] inputs.drop_first()[k],
            ) == LoopAction::Draw by {
                assert(inputs.drop_first()[k] == inputs[k + 1]);
            }
        }
    }
}

/// While nothing stops the loop, each input received is applied exactly once,
/// in the order received: one more input changes the state by that input
/// alone, and every input draws one frame.
pub proof fn inputs_applied_once_in_order(m: StateModel, inputs: Seq<LoopInput>, x: LoopInput)
    requires
        forall|k: int| 0 <= k < inputs.len() ==> loop_action(#[trigger] inputs[k]) == LoopAction::Draw,
        loop_action(x) == LoopAction::Draw,
    ensures
        run_model(m, inputs.push(x)) == loop_next(run_model(m, inputs), x),
        draws_before_stop(inputs.push(x)) == inputs.len() + 1,
    decreases inputs.len(),
{
    if inputs.len() == 0 {
        assert(inputs.push(x).drop_first() =~= Seq::<LoopInput>::empty());
        assert(inputs.push(x)[0] == x);
        assert(run_model(loop_next(m, x), Seq::<LoopInput>::empty()) == loop_next(m, x));
        assert(draws_before_stop(Seq::<LoopInput>::empty()) == 0);
    } else {
        assert(inputs.push(x).drop_first() =~= inputs.drop_first().push(x));
        assert(inputs.push(x)[0] == inputs[0]);
        assert(loop_action(inputs[0]) == LoopAction::Draw);
        assert forall|k: int| 0 <= k < inputs.drop_first().len() implies loop_action(
            #[trigger] inputs.drop_first()[k],
        ) == LoopAction::Draw by {
            assert(inputs.drop_first()[k] == inputs[k + 1]);
        }
        inputs_applied_once_in_order(loop_next(m, inputs[0]), inputs.drop_first(), x);
    }
}

/// An `Exit` stops both units: the render loop raises the signal and stops on
/// that turn, no frame is drawn from then on, nothing after it changes the
/// state, and the poller stops on seeing the signal.
pub proof fn exit_stops_both(m: StateModel, inputs: Seq<LoopInput>, i: int)
    requires
        0 <= i < inputs.len(),
        inputs[i] == LoopInput::Received(Event::Exit),
    ensures
        loop_action(inputs[i]) == LoopAction::SignalAndStop,
        poll_action(PollInput::Shutdown) == PollAction::Stop,
        draws_before_stop(inputs) <= i,
        run_model(m, inputs) == run_model(m, inputs.take(i)),
    decreases i,
{
    if i > 0 && loop_action(inputs[0]) == LoopAction::Draw {
        let next = crate::render_loop::loop_next(m, inputs[0]);
        exit_stops_both(next, inputs.drop_first(), i - 1);
        assert(inputs.take(i).drop_first() =~= inputs.drop_first().take(i - 1));
        assert(inputs.take(i)[0] == inputs[0]);
    }
}

} // verus!
