//! Application state: exit flag and the lazily created GPU context.

use vstd::prelude::*;
use crate::model::{Action, Event, event_well_formed, spec_configure, spec_resolve_extent,
    spec_run, spec_step};

verus! {

/// Width and height the application falls back to when the compositor
/// proposes no size of its own.
pub const DEFAULT_EXTENT: u32 = 256;

/// The GPU side of the application: absent until the first configure
/// event arrives, then present with the current drawable size.
///
/// The single tagged variant makes the all-or-nothing initialization
/// invariant of the context, drawable surface and loaded function
/// pointers unrepresentable to violate.
#[derive(Clone, Copy, Debug, PartialEq, Eq)]
pub enum GpuState {
    Uninitialized,
    Ready { width: u32, height: u32 },
}

/// Application state driven by the event dispatcher.
#[derive(Clone, Copy, Debug, PartialEq, Eq)]
pub struct GlowApp {
    /// Set by a close request; the dispatch loop stops at its next check.
    pub exit: bool,
    /// The GPU context, created lazily on the first configure event.
    pub gpu: GpuState,
}

impl GlowApp {
    /// Sizes are validated by the compositor protocol: a proposed size is
    /// never zero, so a ready context always has a positive extent.
    pub open spec fn well_formed(self) -> bool {
        match self.gpu {
            GpuState::Uninitialized => true,
            GpuState::Ready { width, height } => width > 0 && height > 0,
        }
    }

    /// Fresh application state: not exiting, no GPU context yet.
    pub fn new() -> (app: GlowApp)
        ensures
            app == (GlowApp { exit: false, gpu: GpuState::Uninitialized }),
            app.well_formed(),
    {
        GlowApp { exit: false, gpu: GpuState::Uninitialized }
    }

    /// Whether the dispatch loop must stop: checked once per loop pass,
    /// right after events were delivered.
    pub fn should_exit(&self) -> (r: bool)
        ensures
            r == self.exit,
    {
        self.exit
    }

    /// Whether the GPU context has been created yet.
    pub fn is_ready(&self) -> (r: bool)
        ensures
            r == (self.gpu is Ready),
    {
        match self.gpu {
            GpuState::Ready { .. } => true,
            GpuState::Uninitialized => false,
        }
    }

    /// Current drawable size, once the GPU context exists.
    pub fn size(&self) -> (r: Option<(u32, u32)>)
        ensures
            match self.gpu {
                GpuState::Uninitialized => r is None,
                GpuState::Ready { width, height } => r == Some((width, height)),
            },
    {
        match self.gpu {
            GpuState::Uninitialized => None,
            GpuState::Ready { width, height } => Some((width, height)),
        }
    }

    /// The user asked to close the window: remember it so the dispatch
    /// loop stops at its next check. The GPU context is left alone; it is
    /// released by the ordered shutdown, not here.
    pub fn request_close(&mut self)
        ensures
            final(self).exit,
            final(self).gpu == old(self).gpu,
            old(self).well_formed() ==> final(self).well_formed(),
    {
        self.exit = true;
    }

    /// Handler for a configure event. On the first one the GPU context is
    /// created, sized to the proposal (or to the default where the
    /// compositor proposed nothing), and one frame is drawn; on a later
    /// one the drawable is resized and redrawn only when the size really
    /// changed. The caller performs the returned action.
    pub fn configure(&mut self, new_width: Option<u32>, new_height: Option<u32>) -> (a: Action)
        requires
            new_width matches Some(w) ==> w > 0,
            new_height matches Some(h) ==> h > 0,
        ensures
            (*final(self), a) == spec_configure(*old(self), new_width, new_height),
            final(self).exit == old(self).exit,
            final(self).gpu is Ready,
            final(self).well_formed(),
            old(self).gpu is Uninitialized ==> a == (Action::InitAndDraw {
                width: spec_resolve_extent(new_width),
                height: spec_resolve_extent(new_height),
            }),
            old(self).gpu matches GpuState::Ready { width, height } ==> {
                let w = spec_resolve_extent(new_width);
                let h = spec_resolve_extent(new_height);
                if w != width || h != height {
                    a == (Action::ResizeAndDraw { width: w, height: h })
                } else {
                    a == Action::Idle && *final(self) == *old(self)
                }
            },
            final(self).gpu == (GpuState::Ready {
                width: spec_resolve_extent(new_width),
                height: spec_resolve_extent(new_height),
            }),
    {
        let width = resolve_extent(new_width);
        let height = resolve_extent(new_height);
        match self.gpu {
            GpuState::Uninitialized => {
                self.gpu = GpuState::Ready { width, height };
                Action::InitAndDraw { width, height }
            },
            GpuState::Ready { width: cur_width, height: cur_height } => {
                if cur_width != width || cur_height != height {
                    self.gpu = GpuState::Ready { width, height };
                    Action::ResizeAndDraw { width, height }
                } else {
                    Action::Idle
                }
            },
        }
    }

    /// Handler for one delivered event; the caller performs the returned
    /// action before dispatching further.
    pub fn handle_event(&mut self, event: Event) -> (a: Action)
        requires
            event_well_formed(event),
        ensures
            (*final(self), a) == spec_step(*old(self), event),
            old(self).well_formed() ==> final(self).well_formed(),
    {
        match event {
            Event::Configure { new_width, new_height } => self.configure(new_width, new_height),
            Event::CloseRequested => {
                self.request_close();
                Action::Idle
            },
            Event::OutputChange => Action::Idle,
            Event::SeatChange => Action::Idle,
        }
    }

    /// The dispatch loop: handle one event per pass, record the action it
    /// demands, and stop as soon as the exit flag is seen set. Events
    /// after a close request are never delivered.
    pub fn process_events(&mut self, events: &Vec<Event>) -> (actions: Vec<Action>)
        requires
            forall|i: int| 0 <= i < events@.len() ==> event_well_formed(#[trigger] events@[i]),
        ensures
            (*final(self), actions@) == spec_run(*old(self), events@),
    {
        let ghost s0 = *self;
        let ghost all = events@;
        let mut actions: Vec<Action> = Vec::new();
        let mut idx: usize = 0;
        proof {
            assert(all.subrange(0, all.len() as int) =~= all);
            assert(actions@ + spec_run(s0, all).1 =~= spec_run(s0, all).1);
        }
        while idx < events.len()
            invariant_except_break
                idx <= all.len(),
                events@ == all,
                forall|i: int| 0 <= i < all.len() ==> event_well_formed(#[trigger] all[i]),
                spec_run(s0, all) == ({
                    let rest = spec_run(*self, all.subrange(idx as int, all.len() as int));
                    (rest.0, actions@ + rest.1)
                }),
            ensures
                (*self, actions@) == spec_run(s0, all),
            decreases all.len() - idx,
        {
            let ghost prev = *self;
            let ghost acts_before = actions@;
            let ghost sub = all.subrange(idx as int, all.len() as int);
            let event = events[idx];
            let a = self.handle_event(event);
            actions.push(a);
            idx += 1;
            proof {
                assert(sub[0] == all[idx - 1]);
                assert((*self, a) == spec_step(prev, sub[0]));
                assert(actions@ =~= acts_before + seq![a]);
                if self.exit {
                    assert(spec_run(prev, sub) == (*self, seq![a]));
                    assert(acts_before + seq![a] =~= actions@);
                } else {
                    let rest = spec_run(*self, sub.subrange(1, sub.len() as int));
                    assert(spec_run(prev, sub) == (rest.0, seq![a] + rest.1));
                    assert(sub.subrange(1, sub.len() as int)
                        =~= all.subrange(idx as int, all.len() as int));
                    assert(acts_before + (seq![a] + rest.1) =~= actions@ + rest.1);
                }
            }
            if self.should_exit() {
                break;
            }
        }
        actions
    }
}

/// A proposed size component, with the default filled in where the
/// compositor left the choice to the client.
pub fn resolve_extent(proposed: Option<u32>) -> (r: u32)
    ensures
        r == spec_resolve_extent(proposed),
{
    match proposed {
        Some(v) => v,
        None => DEFAULT_EXTENT,
    }
}

} // verus!
