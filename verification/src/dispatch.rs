//! Task selection: one task per invocation, a pure function of the
//! invocation's ordinal.

use vstd::prelude::*;

use crate::errors::DispatchError;

verus! {

/// The tasks a single invocation can perform.
#[derive(Clone, Copy, PartialEq, Eq, Structural, Debug)]
pub enum Task {
    /// Fetch the price document, parse it, submit the price.
    FetchPrice,
    /// Submit the ordinal as a number through the signed strategy.
    SignedNumberSubmit,
    /// Submit the ordinal as a number through the plain unsigned strategy.
    UnsignedNumberSubmit,
    /// Submit the ordinal as a number through the unsigned strategy with a
    /// signed payload.
    UnsignedNumberSubmitSignedPayload,
    /// Fetch and cache the metadata document.
    FetchMetadata,
}

/// The fixed selection table: the task is determined by `ordinal mod 5`
/// alone.
pub open spec fn task_of(ordinal: u64) -> Task {
    if ordinal % 5 == 0 {
        Task::FetchPrice
    } else if ordinal % 5 == 1 {
        Task::SignedNumberSubmit
    } else if ordinal % 5 == 2 {
        Task::UnsignedNumberSubmit
    } else if ordinal % 5 == 3 {
        Task::UnsignedNumberSubmitSignedPayload
    } else {
        Task::FetchMetadata
    }
}

/// Select the invocation's task from its ordinal.
pub fn select(ordinal: u64) -> (t: Task)
    ensures
        t == task_of(ordinal),
{
    let m = ordinal % 5;
    if m == 0 {
        Task::FetchPrice
    } else if m == 1 {
        Task::SignedNumberSubmit
    } else if m == 2 {
        Task::UnsignedNumberSubmit
    } else if m == 3 {
        Task::UnsignedNumberSubmitSignedPayload
    } else {
        Task::FetchMetadata
    }
}

/// Select a task when the host could not necessarily represent the tick's
/// ordinal: an unrepresentable ordinal maps to an explicit error, never a
/// panic.
pub fn dispatch(ordinal: Option<u64>) -> (r: Result<Task, DispatchError>)
    ensures
        match r {
            Ok(t) => ordinal matches Some(o) && t == task_of(o),
            Err(e) => e == DispatchError::UnknownTask && ordinal is None,
        },
{
    match ordinal {
        Some(o) => Ok(select(o)),
        None => Err(DispatchError::UnknownTask),
    }
}

/// Selection is a pure function of `ordinal mod 5`: any two ordinals that
/// agree modulo five select the same task.
pub proof fn lemma_select_pure_in_mod_five(a: u64, b: u64)
    requires
        a % 5 == b % 5,
    ensures
        task_of(a) == task_of(b),
{
}

} // verus!
