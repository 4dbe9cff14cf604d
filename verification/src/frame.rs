//! The per-iteration protocol of the frame-synchronous loop.
//!
//! The loop itself blocks on the windowing collaborator for the next
//! event; everything the iteration decides is computed here. Within one
//! iteration the fixed order is: window-event handling (a redraw request
//! is answered with a present and another redraw request), then the input
//! state update, then the termination check, then exactly one script
//! update call. A close request terminates at once: the input state is
//! left alone and no script call is made for that iteration or any later
//! one.
use vstd::prelude::*;

use crate::input::{
    apply_events, pressed_in, released_in, Input, InputEvent, KEY_ESCAPE,
};
use crate::input::lemma_just_pressed_exact;

verus! {

/// One event delivered by the windowing collaborator to the loop.
#[derive(Clone, Copy, PartialEq, Eq, Structural, Debug)]
pub enum FrameEvent {
    /// The window was asked to close.
    CloseRequested,
    /// The window wants a frame presented.
    RedrawRequested,
    /// A keyboard transition.
    Key(InputEvent),
    /// Any other event; it still drives one iteration.
    Other,
}

/// What the host must do for the iteration that was just decided.
#[derive(Clone, Copy, PartialEq, Eq, Structural, Debug)]
pub struct FrameActions {
    /// Present one cleared frame and request the next redraw.
    pub render: bool,
    /// Invoke the script's per-frame entry point once.
    pub run_script: bool,
    /// Signal the event source to exit; no further iterations occur.
    pub exit: bool,
}

/// The key transitions that one frame event carries.
pub open spec fn key_events_of(e: FrameEvent) -> Seq<InputEvent> {
    match e {
        FrameEvent::Key(ev) => seq![ev],
        _ => Seq::empty(),
    }
}

/// Whether processing `e` from a live loop triggers termination: a close
/// request, or the Escape key transitioning to just-pressed.
pub open spec fn spec_exits(e: FrameEvent) -> bool {
    e is CloseRequested || pressed_in(key_events_of(e)).contains(KEY_ESCAPE)
}

/// The exit flag of the loop after one more event.
pub open spec fn spec_exited_after(exited: bool, e: FrameEvent) -> bool {
    exited || spec_exits(e)
}

/// Whether the iteration for `e` makes a script call: every iteration of
/// a live loop does, except the one that handles a close request.
pub open spec fn spec_runs_script(exited: bool, e: FrameEvent) -> bool {
    !exited && !(e is CloseRequested)
}

/// The exit flag of the loop after a whole sequence of events.
pub open spec fn exited_after_events(exited: bool, evs: Seq<FrameEvent>) -> bool
    decreases evs.len(),
{
    if evs.len() == 0 {
        exited
    } else {
        spec_exited_after(exited_after_events(exited, evs.drop_last()), evs.last())
    }
}

/// The loop's own state: whether termination has been signalled.
pub struct FrameLoop {
    exited: bool,
}

impl FrameLoop {
    /// Whether the loop has signalled the event source to exit.
    pub closed spec fn exited(&self) -> bool {
        self.exited
    }

    pub fn new() -> (r: FrameLoop)
        ensures
            !r.exited(),
    {
        FrameLoop { exited: false }
    }

    /// Whether termination has been signalled.
    pub fn has_exited(&self) -> (r: bool)
        ensures
            r == self.exited(),
    {
        self.exited
    }

    /// Decide one iteration: handle the window event, update the input
    /// state, check the termination predicate, and say whether the script
    /// entry point runs. Once the loop has exited, nothing further
    /// happens.
    pub fn frame_step(&mut self, input: &mut Input, event: &FrameEvent) -> (acts: FrameActions)
        ensures
            final(self).exited() == spec_exited_after(old(self).exited(), *event),
            acts.run_script == spec_runs_script(old(self).exited(), *event),
            acts.exit == (!old(self).exited() && spec_exits(*event)),
            old(self).exited() || *event is CloseRequested ==> *final(input) == *old(input),
            !old(self).exited() && !(*event is CloseRequested) ==> {
                &&& final(input).held() == apply_events(old(input).held(), key_events_of(*event))
                &&& final(input).just_pressed() == pressed_in(key_events_of(*event))
                &&& final(input).just_released() == released_in(key_events_of(*event))
            },
            acts.render == (!old(self).exited() && *event is RedrawRequested),
    {
        if self.exited {
            return FrameActions { render: false, run_script: false, exit: false };
        }
        if let FrameEvent::CloseRequested = event {
            self.exited = true;
            return FrameActions { render: false, run_script: false, exit: true };
        }
        let render = matches!(event, FrameEvent::RedrawRequested);
        let mut cycle: Vec<InputEvent> = Vec::new();
        if let FrameEvent::Key(ev) = event {
            cycle.push(*ev);
        }
        proof {
            assert(cycle@ =~= key_events_of(*event));
        }
        input.update(&cycle);
        let exit = input.is_key_just_pressed(KEY_ESCAPE);
        if exit {
            self.exited = true;
        }
        FrameActions { render, run_script: true, exit }
    }
}

/// Once the loop has exited, no later event un-exits it.
pub proof fn lemma_exited_is_absorbing(evs: Seq<FrameEvent>)
    ensures
        exited_after_events(true, evs),
    decreases evs.len(),
{
    if evs.len() > 0 {
        lemma_exited_is_absorbing(evs.drop_last());
    }
}

/// A close request delivered at any point of a run means that the loop is
/// exited from that event on, and that no iteration from that event on
/// makes a script call.
pub proof fn lemma_close_stops_script_calls(exited: bool, evs: Seq<FrameEvent>, i: int, j: int)
    requires
        0 <= i <= j < evs.len(),
        evs[i] is CloseRequested,
    ensures
        !spec_runs_script(exited_after_events(exited, evs.take(j)), evs[j]),
        exited_after_events(exited, evs.take(j + 1)),
    decreases j - i,
{
    if j == i {
        assert(evs.take(j + 1).drop_last() =~= evs.take(j));
        assert(evs.take(j + 1).last() == evs[j]);
    } else {
        lemma_close_stops_script_calls(exited, evs, i, j - 1);
        assert(evs.take(j + 1).drop_last() =~= evs.take(j));
        assert(evs.take(j).drop_last() =~= evs.take(j - 1));
        assert(evs.take(j + 1).last() == evs[j]);
        assert(evs.take(j).last() == evs[j - 1]);
    }
}

/// The run-level reading of the close rule: from the close request on,
/// no iteration of the run makes a script call.
pub proof fn lemma_close_stops_all_later_calls(exited: bool, evs: Seq<FrameEvent>, i: int)
    requires
        0 <= i < evs.len(),
        evs[i] is CloseRequested,
    ensures
        forall|j: int|
            i <= j < evs.len() ==> !spec_runs_script(
                exited_after_events(exited, evs.take(j)),
                evs[j],
            ),
{
    assert forall|j: int| i <= j < evs.len() implies !spec_runs_script(
        exited_after_events(exited, evs.take(j)),
        evs[j],
    ) by {
        lemma_close_stops_script_calls(exited, evs, i, j);
    }
}

/// Delivering Escape as a press event triggers termination on that same
/// iteration, with Escape just-pressed for exactly that cycle: any next
/// cycle that carries no Escape press leaves it no longer just-pressed.
pub proof fn lemma_escape_press_terminates(next: FrameEvent)
    requires
        next != FrameEvent::Key(InputEvent::Press(KEY_ESCAPE)),
    ensures
        spec_exits(FrameEvent::Key(InputEvent::Press(KEY_ESCAPE))),
        pressed_in(key_events_of(FrameEvent::Key(InputEvent::Press(KEY_ESCAPE))))
            .contains(KEY_ESCAPE),
        !pressed_in(key_events_of(next)).contains(KEY_ESCAPE),
{
    let esc = seq![InputEvent::Press(KEY_ESCAPE)];
    lemma_just_pressed_exact(esc, KEY_ESCAPE);
    assert(esc[0] == InputEvent::Press(KEY_ESCAPE));
    lemma_just_pressed_exact(key_events_of(next), KEY_ESCAPE);
}

} // verus!
