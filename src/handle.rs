use vstd::prelude::*;
use crate::error::Step;

verus! {

/// Who owes the driver a release of a task handle, and how far it has gone.
/// A release is a stop call, then a clear call.
#[derive(Debug, Clone, Copy, PartialEq, Eq, Structural)]
pub enum HandleState {
    /// No handle is held: none was allocated, or it belongs to someone else.
    Absent,
    /// A handle is held; releasing it starts with a stop call.
    Live,
    /// The stop call of a release has been answered; the clear call is due.
    Clearing,
    /// The driver has cleared the handle.
    Cleared,
}

/// The driver call that releasing a handle in state `h` takes next, if any.
pub open spec fn release_call_spec(h: HandleState) -> Option<Step> {
    match h {
        HandleState::Live => Some(Step::StopTask),
        HandleState::Clearing => Some(Step::ClearTask),
        _ => None,
    }
}

/// The state once the driver answered `status` to the release call that `h`
/// made. A failed stop is no reason to skip the clear; a failed clear leaves
/// the clear due, so that a later release tries it again.
pub open spec fn after_release_spec(h: HandleState, status: i32) -> HandleState {
    match h {
        HandleState::Live => HandleState::Clearing,
        HandleState::Clearing => if status == 0 {
            HandleState::Cleared
        } else {
            HandleState::Clearing
        },
        _ => h,
    }
}

impl HandleState {
    /// The driver call that releasing takes next: a stop, then a clear.
    pub fn release_call(&self) -> (r: Option<Step>)
        ensures
            r == release_call_spec(*self),
    {
        match self {
            HandleState::Live => Some(Step::StopTask),
            HandleState::Clearing => Some(Step::ClearTask),
            _ => None,
        }
    }

    /// The state once the driver answered `status` to the release call that
    /// was due.
    pub fn after_release(self, status: i32) -> (r: HandleState)
        ensures
            r == after_release_spec(self, status),
    {
        match self {
            HandleState::Live => HandleState::Clearing,
            HandleState::Clearing => {
                if status == 0 {
                    HandleState::Cleared
                } else {
                    HandleState::Clearing
                }
            },
            other => other,
        }
    }
}

/// A release of a live handle is a stop call and then a clear call, whatever
/// the stop answers; once the clear has succeeded no further call is due.
pub proof fn lemma_release_order(stop_status: i32)
    ensures
        release_call_spec(HandleState::Live) == Some(Step::StopTask),
        release_call_spec(after_release_spec(HandleState::Live, stop_status)) == Some(
            Step::ClearTask,
        ),
        release_call_spec(after_release_spec(after_release_spec(HandleState::Live, stop_status), 0))
            == None::<Step>,
{
}

/// Releasing is idempotent: where no call is due (no handle was held, or the
/// clear has succeeded), a further release makes no driver call and changes
/// nothing, whatever the driver would answer.
pub proof fn lemma_release_idempotent(h: HandleState, status: i32)
    requires
        release_call_spec(h) is None,
    ensures
        after_release_spec(h, status) == h,
        release_call_spec(after_release_spec(h, status)) is None,
{
}

} // verus!
