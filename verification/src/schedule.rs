//! The transition scheduler: the state that was asked for and not yet applied.

use vstd::prelude::*;

verus! {

/// Names one state of the application. The host picks the numbers.
pub type StateId = u64;

/// The requested next state, kept apart from the state that the host has
/// committed to.
///
/// `state` holds the request while a transition is pending. `changed` is set
/// while `state` holds a request that the dispatcher has not seen yet.
#[derive(Clone, Copy, Debug)]
pub struct ScheduleNextState {
    pub state: Option<StateId>,
    pub changed: bool,
}

impl ScheduleNextState {
    /// The schedule after `state` was requested: a request that is already
    /// pending stays as it is, any other value replaces what was pending and
    /// awaits dispatch.
    pub open spec fn requested(self, state: StateId) -> Self {
        if self.state == Some(state) {
            self
        } else {
            ScheduleNextState { state: Some(state), changed: true }
        }
    }

    /// The schedule with nothing pending.
    pub open spec fn cleared(self) -> Self {
        ScheduleNextState { state: None, changed: false }
    }

    /// The schedule once the dispatcher has seen it.
    pub open spec fn observed(self) -> Self {
        ScheduleNextState { state: self.state, changed: false }
    }

    /// `changed` is only set while a request is pending.
    pub open spec fn wf(self) -> bool {
        self.changed ==> self.state.is_some()
    }

    /// A schedule with nothing pending.
    pub fn new() -> (schedule: Self)
        ensures
            schedule == (ScheduleNextState { state: None, changed: false }),
    {
        ScheduleNextState { state: None, changed: false }
    }

    /// Requests a transition to `state`. The last request wins; asking again
    /// for the state that is already pending changes nothing.
    pub fn set(&mut self, state: StateId)
        ensures
            *final(self) == old(self).requested(state),
    {
        let pending = match self.state {
            Some(current) => current == state,
            None => false,
        };
        if !pending {
            self.state = Some(state);
            self.changed = true;
        }
    }

    /// Drops the pending request, if there is one.
    pub fn clear(&mut self)
        ensures
            *final(self) == old(self).cleared(),
    {
        self.state = None;
        self.changed = false;
    }

    /// The pending request.
    pub fn get(&self) -> (state: Option<StateId>)
        ensures
            state == self.state,
    {
        self.state
    }

    /// Whether a request awaits dispatch.
    pub fn is_changed(&self) -> (changed: bool)
        ensures
            changed == self.changed,
    {
        self.changed
    }

    /// Marks the schedule as seen and says whether a request awaited
    /// dispatch.
    pub fn observe(&mut self) -> (changed: bool)
        ensures
            changed == old(self).changed,
            *final(self) == old(self).observed(),
    {
        let changed = self.changed;
        self.changed = false;
        changed
    }
}

} // verus!
