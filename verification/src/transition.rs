use crate::error::{LedgerError, Rejection};
use crate::ledger::State;
use vstd::prelude::*;

verus! {

/// What a step of a transition gave, a refusal of the ledger being a
/// rejection of the transition.
pub open spec fn ledger_step(r: Result<State, LedgerError>) -> Result<State, Rejection> {
    match r {
        Ok(s) => Ok(s),
        Err(e) => Err(Rejection::Ledger(e)),
    }
}

/// Whether a step that was tried on a working copy gave what `expected`
/// says. Nothing is said of the working copy after a step that failed: it is
/// thrown away.
pub open spec fn tried<E>(after: State, r: Result<(), E>, expected: Result<State, E>) -> bool {
    match r {
        Ok(()) => expected == Ok::<State, E>(after),
        Err(e) => expected == Err::<State, E>(e),
    }
}

/// A refusal of the ledger as a rejection of the transition.
pub fn refused(r: Result<(), LedgerError>) -> (out: Result<(), Rejection>)
    ensures
        out == match r {
            Ok(()) => Ok::<(), Rejection>(()),
            Err(e) => Err::<(), Rejection>(Rejection::Ledger(e)),
        },
{
    match r {
        Ok(()) => Ok(()),
        Err(e) => Err(Rejection::Ledger(e)),
    }
}

} // verus!
