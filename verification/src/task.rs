//! The one-shot bridge between a completion callback and a waiting task.
//!
//! A [`Promise`] is the slot that a suspended task waits on. It is handed to
//! a registration, which submits a request to the runtime together with the
//! completion function to call. The runtime calls that function once, either
//! before the submitting call returns or at some later time, and the
//! registration itself reports whether the request was accepted. The promise
//! takes these events in whichever order they come and resolves once.
//!
//! There is no cancellation. A task that has registered a request is
//! committed to its single completion; a promise that is given up while the
//! completion is outstanding leaves the request with the runtime.

use vstd::prelude::*;
use crate::errors::{is_status, status_result, to_result, Errno};

verus! {

/// The state of a one-shot completion slot.
#[derive(Clone, Copy, Debug, PartialEq, Eq)]
pub enum Promise {
    /// Handed to a registration that has not returned yet; no completion
    /// has fired.
    Registering,
    /// The completion fired while the registration was still running.
    Completed(Result<(), Errno>),
    /// The registration was accepted; the completion has not fired yet.
    Pending,
    /// Resolved: the waiting task receives this value.
    Resolved(Result<(), Errno>),
}

impl Promise {
    /// Whether a completion is still awaited.
    pub open spec fn awaits_completion(self) -> bool {
        self is Registering || self is Pending
    }

    /// The state after the completion function has been invoked with
    /// `outcome`. Only the first completion counts, and none counts once the
    /// promise has resolved.
    pub open spec fn after_completion(self, outcome: Result<(), Errno>) -> Promise {
        match self {
            Promise::Registering => Promise::Completed(outcome),
            Promise::Pending => Promise::Resolved(outcome),
            _ => self,
        }
    }

    /// The state after the registration has returned `submission`. A
    /// rejected submission resolves the promise with its error; an accepted
    /// one leaves the outcome to the completion.
    pub open spec fn after_registration(self, submission: Result<(), Errno>) -> Promise {
        match self {
            Promise::Registering => match submission {
                Ok(_) => Promise::Pending,
                Err(e) => Promise::Resolved(Err(e)),
            },
            Promise::Completed(outcome) => match submission {
                Ok(_) => Promise::Resolved(outcome),
                Err(e) => Promise::Resolved(Err(e)),
            },
            _ => self,
        }
    }

    /// The value that the waiting task receives, once there is one.
    pub open spec fn resolution(self) -> Option<Result<(), Errno>> {
        match self {
            Promise::Resolved(value) => Some(value),
            _ => None,
        }
    }

    /// An open promise, to be handed to a registration as its completion
    /// context.
    pub fn new() -> (cx: Promise)
        ensures
            cx == Promise::Registering,
    {
        Promise::Registering
    }

    /// Records that the completion function was invoked with `outcome`.
    ///
    /// Returns whether the completion was awaited. One that was not (a
    /// second completion, or one for a rejected submission) changes nothing.
    pub fn complete(&mut self, outcome: Result<(), Errno>) -> (accepted: bool)
        ensures
            *final(self) == old(self).after_completion(outcome),
            accepted == old(self).awaits_completion(),
    {
        match *self {
            Promise::Registering => {
                *self = Promise::Completed(outcome);
                true
            },
            Promise::Pending => {
                *self = Promise::Resolved(outcome);
                true
            },
            _ => false,
        }
    }

    /// Records that the registration returned `submission`.
    pub fn register(&mut self, submission: Result<(), Errno>)
        ensures
            *final(self) == old(self).after_registration(submission),
    {
        match *self {
            Promise::Registering => match submission {
                Ok(_) => {
                    *self = Promise::Pending;
                },
                Err(e) => {
                    *self = Promise::Resolved(Err(e));
                },
            },
            Promise::Completed(outcome) => match submission {
                Ok(_) => {
                    *self = Promise::Resolved(outcome);
                },
                Err(e) => {
                    *self = Promise::Resolved(Err(e));
                },
            },
            _ => {},
        }
    }

    /// The resolved value, or `None` while the task has to stay suspended.
    pub fn poll(&self) -> (value: Option<Result<(), Errno>>)
        ensures
            value == self.resolution(),
    {
        match *self {
            Promise::Resolved(value) => Some(value),
            _ => None,
        }
    }
}

/// The completion function for operations that report a status.
///
/// Resolves towards `Ok(())` for a zero status and towards the error with
/// the status's magnitude otherwise. Returns whether the completion was
/// awaited.
pub fn complete_with_status(cx: &mut Promise, status: i32) -> (accepted: bool)
    requires
        is_status(status),
    ensures
        *final(cx) == old(cx).after_completion(status_result(status)),
        accepted == old(cx).awaits_completion(),
{
    cx.complete(to_result(status))
}

/// The completion function for operations that report nothing: their
/// completion is a success. Returns whether the completion was awaited.
pub fn complete_with_ok(cx: &mut Promise) -> (accepted: bool)
    ensures
        *final(cx) == old(cx).after_completion(Ok(())),
        accepted == old(cx).awaits_completion(),
{
    cx.complete(Ok(()))
}

/// A resolved promise stays as it is: no later completion and no later
/// registration result changes the value that the task receives.
pub proof fn lemma_resolves_at_most_once(
    cx: Promise,
    outcome: Result<(), Errno>,
    submission: Result<(), Errno>,
)
    requires
        cx.resolution() is Some,
    ensures
        cx.after_completion(outcome) == cx,
        cx.after_registration(submission) == cx,
{
}

/// Of two completions, only the first takes effect.
pub proof fn lemma_second_completion_is_ignored(
    cx: Promise,
    first: Result<(), Errno>,
    second: Result<(), Errno>,
)
    requires
        cx.awaits_completion(),
    ensures
        !cx.after_completion(first).awaits_completion(),
        cx.after_completion(first).after_completion(second) == cx.after_completion(first),
{
}

/// A completion that fires inside an accepted registration and one that
/// fires after it resolve the promise alike: with the completion's outcome.
/// On the deferred path the task stays suspended until the completion.
pub proof fn lemma_inline_and_deferred_completion_agree(outcome: Result<(), Errno>)
    ensures
        Promise::Registering.after_completion(outcome).after_registration(Ok(()))
            == Promise::Registering.after_registration(Ok(())).after_completion(outcome),
        Promise::Registering.after_completion(outcome).after_registration(Ok(())).resolution()
            == Some(outcome),
        Promise::Registering.after_registration(Ok(())).resolution() is None,
        Promise::Registering.after_completion(outcome).resolution() is None,
{
}

/// A rejected submission resolves the promise at once with the submission's
/// error, whether or not a completion had fired.
pub proof fn lemma_rejected_submission_resolves(cx: Promise, e: Errno)
    requires
        cx.resolution() is None,
        cx is Registering || cx is Completed,
    ensures
        cx.after_registration(Err(e)).resolution() == Some(Err::<(), Errno>(e)),
{
}

} // verus!
