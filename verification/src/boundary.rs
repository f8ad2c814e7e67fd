//! The fault boundary around generation.
//!
//! Whatever runs a resource's generation catches an internal fault instead of
//! letting it travel on, and reports here what it caught. An attempt that
//! faulted becomes an ordinary failure, which the supervisor retries like any
//! other.

use crate::error::RelayError;
use vstd::prelude::*;

verus! {

/// What a generation attempt ran into, seen from the fault boundary.
pub enum Attempt<H> {
    /// Generation returned, with a handle to the live background task or with
    /// an error of its own.
    Returned(Result<H, RelayError>),
    /// Generation faulted. The description is there when the fault carried a
    /// plain message.
    Faulted(Option<String>),
}

/// The description recorded for a fault that carried no plain message.
pub open spec fn unknown_fault() -> Seq<char> {
    "failed to str!"@
}

/// The description recorded for a fault.
pub open spec fn fault_description(message: Option<String>) -> Seq<char> {
    match message {
        Some(text) => text@,
        None => unknown_fault(),
    }
}

/// The error that stands for an internal fault with the given message.
pub fn fault_error(message: Option<String>) -> (error: RelayError)
    ensures
        error matches RelayError::ResourcePanic(text) && text@ == fault_description(message),
        !error.is_final(),
{
    match message {
        Some(text) => RelayError::ResourcePanic(text),
        None => RelayError::ResourcePanic("failed to str!".to_owned()),
    }
}

/// Turns what an attempt ran into into its result: what generation returned
/// is passed on untouched, and a fault becomes a `ResourcePanic` error that
/// carries the fault's description.
pub fn contain<H>(attempt: Attempt<H>) -> (result: Result<H, RelayError>)
    ensures
        match attempt {
            Attempt::Returned(returned) => result == returned,
            Attempt::Faulted(message) => {
                &&& result matches Err(RelayError::ResourcePanic(text))
                &&& text@ == fault_description(message)
            },
        },
{
    match attempt {
        Attempt::Returned(returned) => returned,
        Attempt::Faulted(message) => Err(fault_error(message)),
    }
}

} // verus!
