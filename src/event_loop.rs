//! The decisions of the event loop. The loop itself, which waits for the
//! windowing system, draws windows and runs timers, calls these at each step
//! of an iteration and does what they return.
use vstd::prelude::*;

use crate::input::Point;
use crate::registry::WindowRegistry;
use crate::window_set::{WindowId, WindowIdSet};

verus! {

/// Events injected into the loop by code other than the windowing system;
/// `F` is the closure type that `UserEvent` carries.
pub enum CustomEvent<F> {
    /// Apply the queued property values of a window to the window.
    UpdateWindowProperties(WindowId),
    /// Run a closure on the loop thread.
    UserEvent(F),
    /// A window was hidden; the loop may have to quit.
    WindowHidden,
    /// Quit the loop.
    Exit,
}

/// When the loop next wakes up.
#[derive(Clone, Copy, Debug, PartialEq, Eq, Structural)]
pub enum ControlFlow {
    /// When the next event comes.
    Wait,
    /// At once.
    Poll,
    /// When the next event comes, or at the given time at the latest.
    WaitUntil(u64),
    /// Never: the loop ends.
    Exit,
}

/// The bookkeeping of the loop between and within iterations.
pub struct EventLoopState {
    pub control_flow: ControlFlow,
    /// Whether hiding the last window ends the loop.
    pub quit_on_last_window_closed: bool,
    /// Windows whose property values are applied at the end of dispatch.
    pub pending_property_updates: WindowIdSet,
    /// Windows that asked for a redraw and were not drawn yet in this
    /// iteration.
    pub pending_redraw_requests: WindowIdSet,
    /// The last seen pointer position.
    pub cursor_pos: Point,
    /// Whether a pointer button or touch is down.
    pub pressed: bool,
}

impl EventLoopState {
    pub open spec fn wf(&self) -> bool {
        self.pending_property_updates.wf() && self.pending_redraw_requests.wf()
    }

    /// The state before the first iteration.
    pub fn new(quit_on_last_window_closed: bool) -> (r: Self)
        ensures
            r.wf(),
            r.control_flow == ControlFlow::Wait,
            r.quit_on_last_window_closed == quit_on_last_window_closed,
            r.pending_property_updates@.len() == 0,
            r.pending_redraw_requests@.len() == 0,
            r.cursor_pos == (Point { x: 0, y: 0 }),
            !r.pressed,
    {
        EventLoopState {
            control_flow: ControlFlow::Wait,
            quit_on_last_window_closed,
            pending_property_updates: WindowIdSet::new(),
            pending_redraw_requests: WindowIdSet::new(),
            cursor_pos: Point::new(0, 0),
            pressed: false,
        }
    }

    /// The loop woke up: wait by default, and note the windows that asked
    /// for a redraw since the last iteration (`redraw_requested`: those whose
    /// flag was set when it was read and cleared).
    pub fn new_events(&mut self, redraw_requested: &Vec<WindowId>)
        requires
            old(self).wf(),
        ensures
            final(self).wf(),
            final(self).control_flow == ControlFlow::Wait,
            final(self).pending_redraw_requests@.to_set() == redraw_requested@.to_set(),
            final(self).pending_property_updates == old(self).pending_property_updates,
            final(self).quit_on_last_window_closed == old(self).quit_on_last_window_closed,
            final(self).cursor_pos == old(self).cursor_pos,
            final(self).pressed == old(self).pressed,
    {
        self.control_flow = ControlFlow::Wait;
        self.pending_redraw_requests.clear();
        let mut i: usize = 0;
        while i < redraw_requested.len()
            invariant
                i <= redraw_requested@.len(),
                self.pending_redraw_requests.wf(),
                old(self).wf(),
                self.control_flow == ControlFlow::Wait,
                self.pending_property_updates == old(self).pending_property_updates,
                self.quit_on_last_window_closed == old(self).quit_on_last_window_closed,
                self.cursor_pos == old(self).cursor_pos,
                self.pressed == old(self).pressed,
                self.pending_redraw_requests@.to_set() == redraw_requested@.take(i as int).to_set(),
            decreases redraw_requested@.len() - i,
        {
            let id = redraw_requested[i];
            self.pending_redraw_requests.insert(id);
            proof {
                assert(redraw_requested@.take(i + 1) =~= redraw_requested@.take(i as int).push(id));
                redraw_requested@.take(i as int).lemma_push_to_set_commute(id);
            }
            i = i + 1;
        }
        proof {
            assert(redraw_requested@.take(i as int) =~= redraw_requested@);
        }
    }

    /// What no step but `new_events` and the pointer handling changes.
    pub open spec fn same_setup(&self, other: &Self) -> bool {
        &&& self.quit_on_last_window_closed == other.quit_on_last_window_closed
        &&& self.cursor_pos == other.cursor_pos
        &&& self.pressed == other.pressed
    }

    /// The windowing system asked for `id` to be redrawn and the window is
    /// about to be drawn: it no longer waits for the redraw at the end of
    /// the iteration.
    pub fn redraw_requested(&mut self, id: WindowId)
        requires
            old(self).wf(),
        ensures
            final(self).wf(),
            final(self).same_setup(old(self)),
            old(self).control_flow == ControlFlow::Exit ==> final(self).control_flow
                == ControlFlow::Exit,
            final(self).control_flow == old(self).control_flow,
            final(self).pending_property_updates == old(self).pending_property_updates,
            final(self).pending_redraw_requests@.to_set() == old(
                self,
            ).pending_redraw_requests@.to_set().remove(id),
    {
        self.pending_redraw_requests.remove(id);
    }

    /// A window was drawn; if the drawing itself asked for another redraw,
    /// the loop comes back at once, unless it is exiting.
    pub fn drawn(&mut self, redraw_requested_during_draw: bool)
        requires
            old(self).wf(),
        ensures
            final(self).wf(),
            final(self).same_setup(old(self)),
            old(self).control_flow == ControlFlow::Exit ==> final(self).control_flow
                == ControlFlow::Exit,
            final(self).pending_property_updates == old(self).pending_property_updates,
            final(self).pending_redraw_requests == old(self).pending_redraw_requests,
            final(self).control_flow == if redraw_requested_during_draw && old(self).control_flow
                != ControlFlow::Exit {
                ControlFlow::Poll
            } else {
                old(self).control_flow
            },
    {
        if redraw_requested_during_draw && self.control_flow != ControlFlow::Exit {
            self.control_flow = ControlFlow::Poll;
        }
    }

    /// An injected event arrived. A property update is noted once per
    /// window; a hidden window ends the loop if that is the policy and no
    /// window is left in `windows`; the closure of a user event is handed
    /// back, to be run at once on the loop thread.
    pub fn custom_event<F, W>(&mut self, event: CustomEvent<F>, windows: &WindowRegistry<W>) -> (r:
        Option<F>)
        requires
            old(self).wf(),
            windows.wf(),
        ensures
            final(self).wf(),
            final(self).same_setup(old(self)),
            old(self).control_flow == ControlFlow::Exit ==> final(self).control_flow
                == ControlFlow::Exit,
            final(self).pending_redraw_requests == old(self).pending_redraw_requests,
            match event {
                CustomEvent::UpdateWindowProperties(id) => {
                    &&& r is None
                    &&& final(self).control_flow == old(self).control_flow
                    &&& final(self).pending_property_updates@.to_set() == old(
                        self,
                    ).pending_property_updates@.to_set().insert(id)
                },
                CustomEvent::UserEvent(f) => {
                    &&& r == Some(f)
                    &&& final(self).control_flow == old(self).control_flow
                    &&& final(self).pending_property_updates == old(self).pending_property_updates
                },
                CustomEvent::WindowHidden => {
                    &&& r is None
                    &&& final(self).control_flow == if old(self).quit_on_last_window_closed
                        && windows@.dom().is_empty() {
                        ControlFlow::Exit
                    } else {
                        old(self).control_flow
                    }
                    &&& final(self).pending_property_updates == old(self).pending_property_updates
                },
                CustomEvent::Exit => {
                    &&& r is None
                    &&& final(self).control_flow == ControlFlow::Exit
                    &&& final(self).pending_property_updates == old(self).pending_property_updates
                },
            },
    {
        match event {
            CustomEvent::UpdateWindowProperties(id) => {
                self.pending_property_updates.insert(id);
                None
            },
            CustomEvent::UserEvent(f) => Some(f),
            CustomEvent::WindowHidden => {
                if self.quit_on_last_window_closed && windows.is_empty() {
                    self.control_flow = ControlFlow::Exit;
                }
                None
            },
            CustomEvent::Exit => {
                self.control_flow = ControlFlow::Exit;
                None
            },
        }
    }

    /// All immediate events were dispatched: the windows whose properties
    /// are to be applied now, each once, in increasing order.
    pub fn main_events_cleared(&mut self) -> (r: Vec<WindowId>)
        requires
            old(self).wf(),
        ensures
            final(self).wf(),
            final(self).same_setup(old(self)),
            old(self).control_flow == ControlFlow::Exit ==> final(self).control_flow
                == ControlFlow::Exit,
            final(self).control_flow == old(self).control_flow,
            final(self).pending_redraw_requests == old(self).pending_redraw_requests,
            r@ == old(self).pending_property_updates@,
            final(self).pending_property_updates@.len() == 0,
    {
        self.pending_property_updates.take_all()
    }

    /// The redraw barrier: the loop comes back at once while it is not
    /// exiting and a window animates; the windows still waiting for a
    /// redraw are handed out to be drawn, each once, in increasing order.
    pub fn redraw_events_cleared(&mut self, any_window_animating: bool) -> (r: Vec<WindowId>)
        requires
            old(self).wf(),
        ensures
            final(self).wf(),
            final(self).same_setup(old(self)),
            old(self).control_flow == ControlFlow::Exit ==> final(self).control_flow
                == ControlFlow::Exit,
            final(self).pending_property_updates == old(self).pending_property_updates,
            final(self).control_flow == if old(self).control_flow != ControlFlow::Exit
                && any_window_animating {
                ControlFlow::Poll
            } else {
                old(self).control_flow
            },
            r@ == old(self).pending_redraw_requests@,
            final(self).pending_redraw_requests@.len() == 0,
    {
        if self.control_flow != ControlFlow::Exit && any_window_animating {
            self.control_flow = ControlFlow::Poll;
        }
        self.pending_redraw_requests.take_all()
    }

    /// The end of an iteration: a loop that would only wait wakes up by
    /// itself when the next timer is due, `next_timer` milliseconds after
    /// `now`.
    pub fn schedule_wake(&mut self, now: u64, next_timer: Option<u64>)
        requires
            old(self).wf(),
            next_timer matches Some(d) ==> now + d <= u64::MAX,
        ensures
            final(self).wf(),
            final(self).same_setup(old(self)),
            old(self).control_flow == ControlFlow::Exit ==> final(self).control_flow
                == ControlFlow::Exit,
            final(self).pending_property_updates == old(self).pending_property_updates,
            final(self).pending_redraw_requests == old(self).pending_redraw_requests,
            final(self).control_flow == match (old(self).control_flow, next_timer) {
                (ControlFlow::Wait, Some(d)) => ControlFlow::WaitUntil((now + d) as u64),
                _ => old(self).control_flow,
            },
    {
        if self.control_flow == ControlFlow::Wait {
            if let Some(d) = next_timer {
                self.control_flow = ControlFlow::WaitUntil(now + d);
            }
        }
    }
}

} // verus!
