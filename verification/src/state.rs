use vstd::prelude::*;

verus! {

/// The capability every state variant must supply: compute the next state of
/// the workflow, and (optionally) compute the compensating previous state.
///
/// Both operations resolve to one of three outcomes:
///   - `Ok(Some(state))` — *advance*: the chain continues with `state`;
///   - `Ok(None)` — *complete*: the chain (or the unwind) is finished;
///   - `Err(error)` — *fail*: forward failure triggers compensation, while a
///     failure during compensation ends the run in
///     [`RevertProgress::Failure`](crate::RevertProgress).
///
/// The engine never inspects a state's content: it only moves values, clones
/// them to retain a snapshot while handing the current value to a transition
/// call, and leaves comparison to callers. Each call is granted an exclusive
/// borrow of the engine's context for its own duration; the cell itself
/// stays with the engine, so a transition can change what the context holds
/// but not whether one is installed.
pub trait State: Sized + Clone + PartialEq {
    /// Global state shared between all transitions of one run, granted to
    /// each call for the duration of that call.
    type Context;

    /// The error shared between all state progressions.
    type Error;

    /// Derives the next state of a run that has not encountered any errors.
    /// There is no limit to how many times a state can be visited, but every
    /// mapping between states is explicit: the engine follows exactly what
    /// this method returns.
    fn next(&self, context: Option<&mut Self::Context>) -> Result<Option<Self>, Self::Error>;

    /// Maps a state to its compensating previous state once a failure (or a
    /// cancellation) has put the run into reverse. By default a state has no
    /// compensation of its own and the unwind completes at this step.
    fn revert(&self, _context: Option<&mut Self::Context>) -> Result<Option<Self>, Self::Error> {
        Ok(None)
    }
}

} // verus!
