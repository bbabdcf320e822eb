use crate::progress::ProgressModel;
use crate::streamline::forward_resolved;
use crate::streamline::may_follow;
use crate::streamline::revert_resolved;
use crate::streamline::trace_linked;
use vstd::prelude::*;

verus! {

/// A forward outcome of *advance* or *complete* never starts compensation:
/// only a *fail* outcome (or cancellation, which bypasses `next` entirely)
/// puts a run into reverse.
pub proof fn lemma_advance_never_reverts<S, E>(step: S, advanced: Option<S>)
    ensures
        match forward_resolved::<S, E>(step, Result::Ok(advanced)) {
            Some(cur) => cur is Forward,
            None => true,
        },
{
}

/// A forward outcome of *fail* starts compensation exactly at the failed
/// state, with the raised error preserved as the source of the unwind.
pub proof fn lemma_fail_starts_revert<S, E>(step: S, error: E)
    ensures
        forward_resolved::<S, E>(step, Result::Err(error)) == Some(
            ProgressModel::Reverting { step, source: Some(error) },
        ),
{
}

/// A state with no compensation logic of its own resolves its `revert` call
/// to *complete*, and the unwind concludes immediately in `Reverted`, the
/// source carried through unchanged.
pub proof fn lemma_default_compensation<S, E>(source: Option<E>)
    ensures
        revert_resolved::<S, E>(source, Result::Ok(Option::<S>::None)) == (
        ProgressModel::<S, E>::Reverted { source }),
{
}

/// Once a run's snapshot has entered compensation it never returns to
/// forward progress: every snapshot emitted after a `Revert` snapshot is
/// itself a `Revert` snapshot.
pub proof fn lemma_revert_is_absorbing<S: Clone, E>(
    trace: Seq<ProgressModel<S, E>>,
    i: int,
    j: int,
)
    requires
        trace_linked(trace),
        0 <= i <= j < trace.len(),
        trace[i].is_revert(),
    ensures
        trace[j].is_revert(),
    decreases j - i,
{
    if i < j {
        lemma_revert_is_absorbing(trace, i, j - 1);
        let k = j - 1;
        assert(may_follow(trace[k], trace[k + 1]));
    }
}

/// A terminal snapshot is the last: nothing is emitted after `Reverted` or
/// `Failure`.
pub proof fn lemma_terminal_is_last<S: Clone, E>(trace: Seq<ProgressModel<S, E>>, i: int)
    requires
        trace_linked(trace),
        0 <= i < trace.len(),
        trace[i].is_terminal(),
    ensures
        i == trace.len() - 1,
{
    if i + 1 < trace.len() {
        assert(may_follow(trace[i], trace[i + 1]));
    }
}

/// A run that still stands in forward progress never entered compensation:
/// in a sequence whose last snapshot is forward, every snapshot is forward.
pub proof fn lemma_forward_run<S: Clone, E>(trace: Seq<ProgressModel<S, E>>)
    requires
        trace_linked(trace),
        trace.len() > 0,
        trace.last().is_forward(),
    ensures
        forall|i: int| 0 <= i < trace.len() ==> (#[trigger] trace[i]).is_forward(),
{
    assert forall|i: int| 0 <= i < trace.len() implies (#[trigger] trace[i]).is_forward() by {
        if trace[i].is_revert() {
            lemma_revert_is_absorbing(trace, i, trace.len() - 1);
        }
    }
}

/// The whole unwind mirrors its first compensation snapshot: every snapshot
/// from it on is compensation carrying the same source, each one before the
/// last is an in-flight `Reverting`, and only the final snapshot of the run
/// can conclude in `Reverted` or `Failure`.
pub proof fn lemma_unwind_shape<S: Clone, E>(trace: Seq<ProgressModel<S, E>>, i: int, j: int)
    requires
        trace_linked(trace),
        0 <= i <= j < trace.len(),
        trace[i].is_revert(),
    ensures
        trace[j].is_revert(),
        trace[j].source() == trace[i].source(),
        j + 1 < trace.len() ==> trace[j] is Reverting,
    decreases j - i,
{
    if i < j {
        lemma_unwind_shape(trace, i, j - 1);
        let k = j - 1;
        assert(may_follow(trace[k], trace[k + 1]));
    }
    if j + 1 < trace.len() {
        assert(may_follow(trace[j], trace[j + 1]));
    }
}

/// Compensation always begins in flight: a snapshot that enters compensation
/// directly after forward progress is an in-flight `Reverting`, never already
/// `Reverted` or `Failure`.
pub proof fn lemma_unwind_begins_reverting<S: Clone, E>(trace: Seq<ProgressModel<S, E>>, i: int)
    requires
        trace_linked(trace),
        0 < i < trace.len(),
        trace[i - 1].is_forward(),
        trace[i].is_revert(),
    ensures
        trace[i] is Reverting,
{
    let k = i - 1;
    assert(may_follow(trace[k], trace[k + 1]));
}

/// An unwind entered through cancellation rather than an error — so with an
/// absent source — keeps the source absent to the end: a clean unwind of a
/// cancelled run concludes in `Reverted` with no source.
pub proof fn lemma_cancelled_unwind<S: Clone, E>(trace: Seq<ProgressModel<S, E>>, i: int, j: int)
    requires
        trace_linked(trace),
        0 <= i <= j < trace.len(),
        trace[i].is_revert(),
        trace[i].source() is None,
    ensures
        trace[j].is_revert(),
        trace[j].source() is None,
{
    lemma_unwind_shape(trace, i, j);
}

} // verus!
