//! Why a call was rejected.

use vstd::prelude::*;

verus! {

/// The reasons for which a call is rejected. A rejected call leaves no
/// trace in the state.
#[derive(Clone, Copy, Debug, PartialEq, Eq, Structural)]
pub enum Error {
    /// The input, or an answer of the user registry, could not be read.
    ParseParamsError,
    /// The caller is not entitled to the operation.
    InvalidCaller,
    /// The project is not in a status that allows the operation.
    InvalidStatus,
    /// The project already has a seed-sale NFT where none may exist.
    ShouldNotBeTON,
    /// A contract sent a call that only an end-user account may send.
    OnlyAccount,
    /// The user registry did not record the curation or validation.
    FailedInvokeUserContract,
    /// The user registry could not be asked about a user.
    FailedInvokeUserContractView,
    /// A project with this identifier exists already.
    ProjectHasBeenInitializedAlready,
    /// No project with this identifier exists.
    ProjectNotFound,
}

/// All or nothing. What a guarded change of some state of type `S` is to
/// do is given as `ruling`, which holds the state to reach where every
/// guard lets the change through, and the error where a guard refuses it.
/// The change succeeds and leaves exactly that state, or it returns exactly
/// that error and leaves the state as it was.
pub open spec fn all_or_nothing<S>(
    before: S,
    ruling: Result<S, Error>,
    after: S,
    res: Result<(), Error>,
) -> bool {
    match ruling {
        Ok(next) => res is Ok && after == next,
        Err(e) => res == Err::<(), Error>(e) && after == before,
    }
}

/// What a call that hands something out returns: a value that holds what
/// `expected` holds, or exactly the error that `expected` holds.
pub open spec fn yields<T: View>(res: Result<T, Error>, expected: Result<T::V, Error>) -> bool {
    match expected {
        Ok(value) => res matches Ok(shown) && shown@ == value,
        Err(e) => res matches Err(err) && err == e,
    }
}

} // verus!
