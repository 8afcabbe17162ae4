//! Laws of the event loop, proved over the model in `model`.

use vstd::prelude::*;
use crate::app::{GlowApp, GpuState};
use crate::model::{Action, Event, action_draws, action_inits, draw_count, event_well_formed,
    init_count, spec_configure, spec_resolve_extent, spec_run, spec_step};

verus! {

/// The first action of a run is the one demanded by its first event: the
/// dispatch loop never reorders or drops the action a handler decided on.
pub proof fn lemma_run_first_action(s: GlowApp, events: Seq<Event>)
    requires
        events.len() > 0,
    ensures
        spec_run(s, events).1.len() > 0,
        spec_run(s, events).1[0] == spec_step(s, events[0]).1,
{
}

/// One step keeps the application well formed, as long as the event is
/// well formed (a proposed size component is never zero).
pub proof fn lemma_step_preserves_well_formed(s: GlowApp, e: Event)
    requires
        s.well_formed(),
        event_well_formed(e),
    ensures
        spec_step(s, e).0.well_formed(),
{
}

/// A whole run of the dispatch loop keeps the application well formed: a
/// ready context always has a positive extent.
pub proof fn lemma_run_preserves_well_formed(s: GlowApp, events: Seq<Event>)
    requires
        s.well_formed(),
        forall|i: int| 0 <= i < events.len() ==> event_well_formed(#[trigger] events[i]),
    ensures
        spec_run(s, events).0.well_formed(),
    decreases events.len(),
{
    if events.len() > 0 {
        let stepped = spec_step(s, events[0]);
        let tail = events.subrange(1, events.len() as int);
        lemma_step_preserves_well_formed(s, events[0]);
        if !stepped.0.exit {
            assert(forall|i: int| 0 <= i < tail.len()
                ==> event_well_formed(#[trigger] tail[i]));
            lemma_run_preserves_well_formed(stepped.0, tail);
        }
    }
}

/// One step never discards a GPU context: once ready, the application
/// stays ready, and no step taken from a ready state creates another
/// context.
pub proof fn lemma_step_preserves_ready(s: GlowApp, e: Event)
    requires
        s.gpu is Ready,
    ensures
        spec_step(s, e).0.gpu is Ready,
        action_inits(spec_step(s, e).1) == 0,
{
}

/// A run started with a GPU context never creates another one, and ends
/// with the context still present.
pub proof fn lemma_ready_never_reinitializes(s: GlowApp, events: Seq<Event>)
    requires
        s.gpu is Ready,
    ensures
        spec_run(s, events).0.gpu is Ready,
        init_count(spec_run(s, events).1) == 0,
    decreases events.len(),
{
    if events.len() > 0 {
        let stepped = spec_step(s, events[0]);
        let tail = events.subrange(1, events.len() as int);
        lemma_step_preserves_ready(s, events[0]);
        if stepped.0.exit {
            assert(spec_run(s, events) == (stepped.0, seq![stepped.1]));
            lemma_init_count_singleton(stepped.1);
        } else {
            let rest = spec_run(stepped.0, tail);
            lemma_ready_never_reinitializes(stepped.0, tail);
            lemma_init_count_prepend(stepped.1, rest.1);
            assert(spec_run(s, events) == (rest.0, seq![stepped.1] + rest.1));
        }
    }
}

/// Unfolding of `init_count` on a one-action sequence.
pub proof fn lemma_init_count_singleton(a: Action)
    ensures
        init_count(seq![a]) == action_inits(a),
{
    assert(seq![a].subrange(1, 1) =~= Seq::<Action>::empty());
    assert(init_count(Seq::<Action>::empty()) == 0);
}

/// Unfolding of `init_count` on an action prepended to a sequence.
pub proof fn lemma_init_count_prepend(a: Action, rest: Seq<Action>)
    ensures
        init_count(seq![a] + rest) == action_inits(a) + init_count(rest),
{
    let acts = seq![a] + rest;
    assert(acts[0] == a);
    assert(acts.subrange(1, acts.len() as int) =~= rest);
}

/// The first configure event, received while uninitialized, creates the
/// GPU context, sized to the proposal or to the default where the
/// compositor proposed nothing, and draws one frame.
pub proof fn lemma_first_configure_creates_context(
    s: GlowApp,
    new_width: Option<u32>,
    new_height: Option<u32>,
)
    requires
        s.gpu is Uninitialized,
    ensures
        ({
            let r = spec_configure(s, new_width, new_height);
            let w = spec_resolve_extent(new_width);
            let h = spec_resolve_extent(new_height);
            &&& r.1 == (Action::InitAndDraw { width: w, height: h })
            &&& r.0.gpu == (GpuState::Ready { width: w, height: h })
            &&& action_inits(r.1) == 1
            &&& action_draws(r.1) == 1
        }),
{
}

/// Over any whole run of the dispatch loop, at most one GPU context is
/// ever created; exactly one when the run begins uninitialized and its
/// first event is a configure event.
pub proof fn lemma_context_created_at_most_once(s: GlowApp, events: Seq<Event>)
    requires
        s.gpu is Uninitialized,
    ensures
        init_count(spec_run(s, events).1) <= 1,
        events.len() > 0 && events[0] is Configure ==> init_count(spec_run(s, events).1) == 1,
    decreases events.len(),
{
    if events.len() > 0 {
        let stepped = spec_step(s, events[0]);
        let tail = events.subrange(1, events.len() as int);
        if stepped.0.exit {
            assert(spec_run(s, events) == (stepped.0, seq![stepped.1]));
            lemma_init_count_singleton(stepped.1);
        } else {
            let rest = spec_run(stepped.0, tail);
            if stepped.0.gpu is Ready {
                lemma_ready_never_reinitializes(stepped.0, tail);
            } else {
                lemma_context_created_at_most_once(stepped.0, tail);
            }
            lemma_init_count_prepend(stepped.1, rest.1);
            assert(spec_run(s, events) == (rest.0, seq![stepped.1] + rest.1));
        }
    }
}

/// A configure event received while ready resizes and redraws exactly
/// when the resolved size differs from the current one; a same-size
/// configure changes nothing and draws nothing.
pub proof fn lemma_resize_exactly_on_change(
    s: GlowApp,
    new_width: Option<u32>,
    new_height: Option<u32>,
)
    requires
        s.gpu is Ready,
    ensures
        ({
            let r = spec_configure(s, new_width, new_height);
            let w = spec_resolve_extent(new_width);
            let h = spec_resolve_extent(new_height);
            &&& s.gpu == (GpuState::Ready { width: w, height: h }) ==> {
                &&& r.1 == Action::Idle
                &&& r.0 == s
                &&& action_draws(r.1) == 0
            }
            &&& s.gpu != (GpuState::Ready { width: w, height: h }) ==> {
                &&& r.1 == (Action::ResizeAndDraw { width: w, height: h })
                &&& r.0.gpu == (GpuState::Ready { width: w, height: h })
                &&& action_draws(r.1) == 1
            }
        }),
{
}

/// A close request ends the run: the exit flag is set, the loop stops at
/// its next check, the remaining events are never delivered, and no
/// further frame is drawn.
pub proof fn lemma_close_request_stops_loop(s: GlowApp, events: Seq<Event>)
    requires
        events.len() > 0,
        events[0] is CloseRequested,
    ensures
        spec_run(s, events).0.exit,
        spec_run(s, events).0.gpu == s.gpu,
        spec_run(s, events).1 =~= seq![Action::Idle],
        draw_count(spec_run(s, events).1) == 0,
{
    let stepped = spec_step(s, events[0]);
    assert(spec_run(s, events) == (stepped.0, seq![Action::Idle]));
    assert(seq![Action::Idle].subrange(1, 1) =~= Seq::<Action>::empty());
    assert(draw_count(Seq::<Action>::empty()) == 0);
    assert(draw_count(seq![Action::Idle]) == action_draws(Action::Idle));
}

} // verus!
