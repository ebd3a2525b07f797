//! A call as a transaction: all of its writes stand, or none does.

use vstd::prelude::*;
use crate::error::Error;
use crate::registry::{acknowledged, spec_acknowledged};
use crate::state::{State, StateView};

verus! {

/// One call in progress. It remembers the state as the call found it, so
/// that whatever the call has written can be discarded when it fails,
/// however late: be it at a guard or when the user registry does not
/// record what it was asked to record.
#[derive(Debug)]
pub struct TransactionContext {
    entry: State,
}

impl View for TransactionContext {
    type V = StateView;

    /// The state as the call found it.
    closed spec fn view(&self) -> StateView {
        self.entry@
    }
}

impl TransactionContext {
    /// Begins a call on `state`.
    pub fn begin(state: &State) -> (tx: TransactionContext)
        ensures
            tx@ == state@,
    {
        TransactionContext { entry: state.clone() }
    }

    /// Ends the call. If it succeeded, what it wrote stands; if it failed,
    /// the state is again as the call found it. The outcome is handed on.
    pub fn end<T>(self, state: &mut State, outcome: Result<T, Error>) -> (res: Result<T, Error>)
        ensures
            res == outcome,
            outcome is Ok ==> final(state)@ == old(state)@,
            outcome is Err ==> final(state)@ == self@,
    {
        if outcome.is_err() {
            *state = self.entry;
        }
        outcome
    }

    /// Ends a call that asked the user registry to record it. If the
    /// registry did, what the call wrote stands; if not, the call fails
    /// with `FailedInvokeUserContract` and the state is again as the call
    /// found it.
    pub fn settle(self, state: &mut State, recorded: bool) -> (res: Result<(), Error>)
        ensures
            res == spec_acknowledged(recorded),
            recorded ==> final(state)@ == old(state)@,
            !recorded ==> final(state)@ == self@,
    {
        let res = acknowledged(recorded);
        if res.is_err() {
            *state = self.entry;
        }
        res
    }
}

} // verus!
