//! Mathematical model of the event loop: one transition per delivered
//! event, and the run of the dispatch loop over a whole event sequence.

use vstd::prelude::*;
use crate::app::{GlowApp, GpuState, DEFAULT_EXTENT};

verus! {

/// The windowing-system events the application reacts to. Output and seat
/// lifecycle notifications are delivered but deliberately ignored.
#[derive(Clone, Copy, Debug, PartialEq, Eq)]
pub enum Event {
    /// The compositor proposes a new size; `None` components leave the
    /// choice to the client. A proposed component is never zero.
    Configure { new_width: Option<u32>, new_height: Option<u32> },
    /// The user asked to close the window.
    CloseRequested,
    /// An output appeared, changed or disappeared.
    OutputChange,
    /// A seat or one of its capabilities appeared or disappeared.
    SeatChange,
}

/// What the surrounding program must do after an event was handled.
#[derive(Clone, Copy, Debug, PartialEq, Eq)]
pub enum Action {
    /// Create the GPU context and drawable at the given size, then draw
    /// one frame.
    InitAndDraw { width: u32, height: u32 },
    /// Resize the drawable and the viewport to the given size, then draw
    /// one frame.
    ResizeAndDraw { width: u32, height: u32 },
    /// Nothing to do; in particular, no frame is drawn.
    Idle,
}

/// A proposed size component, with the default filled in where the
/// compositor left the choice to the client.
pub open spec fn spec_resolve_extent(proposed: Option<u32>) -> u32 {
    match proposed {
        Some(v) => v,
        None => DEFAULT_EXTENT,
    }
}

/// A configure event is well formed when each proposed component is
/// nonzero, as the windowing protocol guarantees.
pub open spec fn event_well_formed(e: Event) -> bool {
    match e {
        Event::Configure { new_width, new_height } => {
            &&& (new_width matches Some(w) ==> w > 0)
            &&& (new_height matches Some(h) ==> h > 0)
        },
        _ => true,
    }
}

/// Transition of the configure handler: the first configure event creates
/// the GPU context at the resolved size; a later one resizes it only when
/// the size actually changed; a same-size configure is a no-op.
pub open spec fn spec_configure(s: GlowApp, new_width: Option<u32>, new_height: Option<u32>)
    -> (GlowApp, Action)
{
    let w = spec_resolve_extent(new_width);
    let h = spec_resolve_extent(new_height);
    match s.gpu {
        GpuState::Uninitialized => (
            GlowApp { exit: s.exit, gpu: GpuState::Ready { width: w, height: h } },
            Action::InitAndDraw { width: w, height: h },
        ),
        GpuState::Ready { width, height } => if width != w || height != h {
            (
                GlowApp { exit: s.exit, gpu: GpuState::Ready { width: w, height: h } },
                Action::ResizeAndDraw { width: w, height: h },
            )
        } else {
            (s, Action::Idle)
        },
    }
}

/// Transition on one delivered event: a configure event drives the GPU
/// lifecycle, a close request sets the exit flag, everything else is
/// ignored.
pub open spec fn spec_step(s: GlowApp, e: Event) -> (GlowApp, Action) {
    match e {
        Event::Configure { new_width, new_height } => spec_configure(s, new_width, new_height),
        Event::CloseRequested => (GlowApp { exit: true, gpu: s.gpu }, Action::Idle),
        Event::OutputChange => (s, Action::Idle),
        Event::SeatChange => (s, Action::Idle),
    }
}

/// The dispatch loop: deliver one event, record the action it demands,
/// check the exit flag, and go on until it is set or the event source is
/// exhausted.
pub open spec fn spec_run(s: GlowApp, events: Seq<Event>) -> (GlowApp, Seq<Action>)
    decreases events.len(),
{
    if events.len() == 0 {
        (s, Seq::<Action>::empty())
    } else {
        let stepped = spec_step(s, events[0]);
        if stepped.0.exit {
            (stepped.0, seq![stepped.1])
        } else {
            let rest = spec_run(stepped.0, events.subrange(1, events.len() as int));
            (rest.0, seq![stepped.1] + rest.1)
        }
    }
}

/// How many frames an action has the program draw.
pub open spec fn action_draws(a: Action) -> nat {
    match a {
        Action::InitAndDraw { .. } => 1,
        Action::ResizeAndDraw { .. } => 1,
        Action::Idle => 0,
    }
}

/// How many GPU contexts an action has the program create.
pub open spec fn action_inits(a: Action) -> nat {
    match a {
        Action::InitAndDraw { .. } => 1,
        _ => 0,
    }
}

/// Total number of frames drawn over a sequence of actions.
pub open spec fn draw_count(actions: Seq<Action>) -> nat
    decreases actions.len(),
{
    if actions.len() == 0 {
        0
    } else {
        action_draws(actions[0]) + draw_count(actions.subrange(1, actions.len() as int))
    }
}

/// Total number of GPU contexts created over a sequence of actions.
pub open spec fn init_count(actions: Seq<Action>) -> nat
    decreases actions.len(),
{
    if actions.len() == 0 {
        0
    } else {
        action_inits(actions[0]) + init_count(actions.subrange(1, actions.len() as int))
    }
}

} // verus!
