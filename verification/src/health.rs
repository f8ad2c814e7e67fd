//! What the outside world may know of a supervised resource.

use crate::error::RelayError;
use crate::text::{decimal, decimal_text};
use std::sync::Arc;
use vstd::prelude::*;
use vstd::string::StringExecFns;

verus! {

/// Hands out another owner of a shared error with `Arc::clone`.
///
/// Trusted: the clone points at the very same error.
#[verifier::external_body]
pub(crate) fn share_error(error: &Arc<RelayError>) -> (shared: Arc<RelayError>)
    ensures
        shared == *error,
{
    Arc::clone(error)
}

/// Why the latest generation attempt failed, and when the next one is due.
#[derive(Debug)]
pub struct ResourceFailure {
    /// Seconds until the next attempt; `None` when there will be none.
    pub retry_wait: Option<u64>,
    /// The cause, shared by everyone who is told of it.
    pub error: Arc<RelayError>,
}

impl Clone for ResourceFailure {
    fn clone(&self) -> (copy: Self)
        ensures
            copy == *self,
    {
        ResourceFailure { retry_wait: self.retry_wait, error: share_error(&self.error) }
    }
}

impl ResourceFailure {
    /// What the failure says about retrying.
    pub open spec fn retry_note(self) -> Seq<char> {
        match self.retry_wait {
            Some(seconds) => "retrying in "@ + decimal(seconds as nat) + "s"@,
            None => "not retrying"@,
        }
    }

    /// Whether `text` is how this failure reads: that the resource failed to
    /// generate, how the cause reads, and what is said about retrying.
    pub open spec fn reads(self, text: Seq<char>) -> bool {
        exists|cause: Seq<char>|
            #[trigger] self.error.reads(cause) && text == "Failed to generate resource "@ + cause
                + "; "@ + self.retry_note()
    }

    /// How this failure reads.
    pub fn message(&self) -> (text: String)
        ensures
            self.reads(text@),
    {
        let cause = self.error.message();
        let mut text = "Failed to generate resource ".to_owned();
        text.append(cause.as_str());
        text.append("; ");
        match self.retry_wait {
            Some(seconds) => {
                let number = decimal_text(seconds);
                text.append("retrying in ");
                text.append(number.as_str());
                text.append("s");
            },
            None => {
                text.append("not retrying");
            },
        }
        proof {
            assert(text@ =~= "Failed to generate resource "@ + cause@ + "; "@
                + self.retry_note());
        }
        text
    }
}

/// The health of a supervised resource.
pub enum ResourceState {
    /// The latest attempt succeeded and its background task is the live one.
    Generated,
    /// An attempt is under way, or about to be.
    Generating,
    /// The latest attempt failed.
    Failed(ResourceFailure),
}

impl Clone for ResourceState {
    fn clone(&self) -> (copy: Self)
        ensures
            copy == *self,
    {
        match self {
            ResourceState::Generated => ResourceState::Generated,
            ResourceState::Generating => ResourceState::Generating,
            ResourceState::Failed(failure) => ResourceState::Failed(failure.clone()),
        }
    }
}

impl ResourceState {
    /// A failure after which nothing is tried again.
    pub open spec fn is_terminal(self) -> bool {
        self matches ResourceState::Failed(failure) && failure.retry_wait is None
    }

    /// Whether health may go from `self` to `next` in one step: it may stay
    /// as it is, and otherwise every change enters or leaves `Generating`.
    pub open spec fn may_become(self, next: ResourceState) -> bool {
        ||| next == self
        ||| self is Generating && next is Generated
        ||| self is Generating && next is Failed
        ||| self is Failed && next is Generating
        ||| self is Generated && next is Generating
    }

    /// Tells whether this is a failure after which nothing is tried again.
    pub fn terminal(&self) -> (r: bool)
        ensures
            r == self.is_terminal(),
    {
        match self {
            ResourceState::Failed(failure) => failure.retry_wait.is_none(),
            _ => false,
        }
    }
}

} // verus!
