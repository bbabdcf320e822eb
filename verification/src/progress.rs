use crate::state::State;
use std::sync::Arc;
use vstd::prelude::*;

verus! {

/// The mathematical snapshot of where a run currently stands. This is the
/// value that contracts and proofs speak about: it is the shape of a
/// [`Progress`] value with the shared-ownership wrapper around the source
/// error stripped away.
pub enum ProgressModel<S, E> {
    /// The run is moving forward and `S` is its current state.
    Forward(S),
    /// `step` is being compensated; `source` is the originating cause, absent
    /// when the unwind was triggered by cancellation rather than an error.
    Reverting { step: S, source: Option<E> },
    /// Compensation finished cleanly; terminal.
    Reverted { source: Option<E> },
    /// A compensation step itself failed with `error`; terminal.
    Failure { source: Option<E>, error: E },
}

impl<S, E> ProgressModel<S, E> {
    /// The run is still moving forward.
    pub open spec fn is_forward(self) -> bool {
        self is Forward
    }

    /// Compensation is in progress or concluded.
    pub open spec fn is_revert(self) -> bool {
        !(self is Forward)
    }

    /// No transition ever occurs after a terminal snapshot.
    pub open spec fn is_terminal(self) -> bool {
        self is Reverted || self is Failure
    }

    /// The originating cause tracked through compensation; meaningful only
    /// for the three compensation snapshots.
    pub open spec fn source(self) -> Option<E> {
        match self {
            ProgressModel::Forward(_) => None,
            ProgressModel::Reverting { source, .. } => source,
            ProgressModel::Reverted { source } => source,
            ProgressModel::Failure { source, .. } => source,
        }
    }
}

/// The shape of an optional shared source error, with the shared-ownership
/// wrapper stripped away.
pub open spec fn source_model<E>(source: Option<Arc<E>>) -> Option<E> {
    match source {
        Some(cause) => Some(*cause),
        None => None,
    }
}

/// Relies on std's `Arc::clone`, which vstd leaves unspecified: the new
/// handle refers to the same value as the old one, nothing is copied.
#[verifier::external_body]
fn share<T>(cause: &Arc<T>) -> (r: Arc<T>)
    ensures
        r == *cause,
{
    Arc::clone(cause)
}

/// A second handle to the same optional source error, so that the snapshot
/// being emitted and the snapshot the engine retains can both refer to the
/// one cause without duplicating it.
pub(crate) fn clone_source<E>(source: &Option<Arc<E>>) -> (r: Option<Arc<E>>)
    ensures
        r == *source,
{
    match source {
        Some(cause) => Some(share(cause)),
        None => None,
    }
}

/// An internal state machine that represents the process of reverting
/// previous progress. The source error, raised once, is wrapped in a shared
/// read-only handle so every compensation step can refer to the same cause
/// without cloning it; it is absent when cancellation, not an error, started
/// the unwind.
#[derive(Debug, PartialEq)]
#[verifier::reject_recursive_types(E)]
#[verifier::reject_recursive_types(C)]
pub enum RevertProgress<S, E, C> where S: State<Context = C, Error = E> {
    /// An in-flight reversion of the state held in `step`.
    Reverting { step: S, source: Option<Arc<E>> },
    /// The final state of a successful reversion.
    Reverted { source: Option<Arc<E>> },
    /// The final state of a failed reversion: `error` is the error raised by
    /// the failing compensation step, kept beside the original cause.
    Failure { source: Option<Arc<E>>, error: E },
}

/// The state emitted by a [`Streamline`](crate::Streamline): a run progresses
/// through `Progress::Forward` snapshots until a failure or a cancellation
/// starts a reversion, after which every snapshot is a `Progress::Revert`.
#[derive(Debug, PartialEq)]
#[verifier::reject_recursive_types(E)]
#[verifier::reject_recursive_types(C)]
pub enum Progress<S, E, C> where S: State<Context = C, Error = E> {
    /// Normal forward progress through a user-provided state.
    Forward(S),
    /// The reversion tracked through a [`RevertProgress`].
    Revert(RevertProgress<S, E, C>),
}

impl<S, E, C> View for RevertProgress<S, E, C> where S: State<Context = C, Error = E> {
    type V = ProgressModel<S, E>;

    open spec fn view(&self) -> ProgressModel<S, E> {
        match self {
            RevertProgress::Reverting { step, source } => ProgressModel::Reverting {
                step: *step,
                source: source_model(*source),
            },
            RevertProgress::Reverted { source } => ProgressModel::Reverted {
                source: source_model(*source),
            },
            RevertProgress::Failure { source, error } => ProgressModel::Failure {
                source: source_model(*source),
                error: *error,
            },
        }
    }
}

impl<S, E, C> View for Progress<S, E, C> where S: State<Context = C, Error = E> {
    type V = ProgressModel<S, E>;

    open spec fn view(&self) -> ProgressModel<S, E> {
        match self {
            Progress::Forward(state) => ProgressModel::Forward(*state),
            Progress::Revert(revert) => revert@,
        }
    }
}

impl<S, E, C> From<S> for Progress<S, E, C> where S: State<Context = C, Error = E> {
    fn from(state: S) -> Self {
        Progress::Forward(state)
    }
}

impl<S, E, C> vstd::std_specs::convert::FromSpecImpl<S> for Progress<S, E, C> where S: State<Context = C, Error = E> {
    open spec fn obeys_from_spec() -> bool {
        true
    }

    open spec fn from_spec(state: S) -> Self {
        Progress::Forward(state)
    }
}

} // verus!
