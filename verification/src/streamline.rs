use crate::cancel::poll_cancelled;
use crate::cancel::Cancel;
use crate::progress::clone_source;
use crate::progress::source_model;
use crate::progress::Progress;
use crate::progress::ProgressModel;
use crate::progress::RevertProgress;
use crate::state::State;
use futures::channel::oneshot;
use futures::channel::oneshot::Receiver;
use std::sync::Arc;
use vstd::prelude::*;

verus! {

/// What one *forward* transition outcome resolves to: *advance* carries the
/// chain on, *complete* ends the run (no successor snapshot), *fail* starts
/// compensation at `step` — the snapshot of the state whose transition
/// failed — with the raised error preserved as the source.
pub open spec fn forward_resolved<S, E>(step: S, outcome: Result<Option<S>, E>) -> Option<
    ProgressModel<S, E>,
> {
    match outcome {
        Result::Ok(None) => None,
        Result::Ok(Some(next)) => Some(ProgressModel::Forward(next)),
        Result::Err(cause) => Some(ProgressModel::Reverting { step, source: Some(cause) }),
    }
}

/// What one *revert* transition outcome resolves to, `source` being the
/// preserved cause: *advance* continues the unwind at the prior state,
/// *complete* concludes it in `Reverted`, *fail* ends the run in `Failure`
/// with the new error kept beside the cause.
pub open spec fn revert_resolved<S, E>(source: Option<E>, outcome: Result<Option<S>, E>) -> ProgressModel<
    S,
    E,
> {
    match outcome {
        Result::Ok(None) => ProgressModel::Reverted { source },
        Result::Ok(Some(prior)) => ProgressModel::Reverting { step: prior, source },
        Result::Err(error) => ProgressModel::Failure { source, error },
    }
}

/// The snapshots of an `Option` of progress values, in the same shape.
pub open spec fn option_model<S, E, C>(p: Option<Progress<S, E, C>>) -> Option<
    ProgressModel<S, E>,
> where S: State<Context = C, Error = E> {
    match p {
        Some(q) => Some(q@),
        None => None,
    }
}

/// Whether the snapshot `cur` can be emitted directly after the snapshot
/// `prev` in one run: this is the transition relation of the engine's meta
/// state machine. Forward progress continues with any state the caller's
/// `next` produces, or falls into `Reverting` at (a clone of) the state that
/// was current — through a failure, which supplies the source, or through
/// cancellation, which leaves the source absent. A reversion keeps its
/// source unchanged until the end of the run, and never returns to forward
/// progress. Nothing follows a terminal snapshot.
pub open spec fn may_follow<S: Clone, E>(prev: ProgressModel<S, E>, cur: ProgressModel<S, E>) -> bool {
    match prev {
        ProgressModel::Forward(state) => match cur {
            ProgressModel::Forward(_) => true,
            ProgressModel::Reverting { step, source: _ } => cloned(state, step),
            _ => false,
        },
        ProgressModel::Reverting { step: _, source } => match cur {
            ProgressModel::Forward(_) => false,
            ProgressModel::Reverting { step: _, source: src } => src == source,
            ProgressModel::Reverted { source: src } => src == source,
            ProgressModel::Failure { source: src, error: _ } => src == source,
        },
        _ => false,
    }
}

/// Whether `trace` could be the prefix of the emitted sequence of one run:
/// every snapshot may follow the one emitted before it.
pub open spec fn trace_linked<S: Clone, E>(trace: Seq<ProgressModel<S, E>>) -> bool {
    forall|i: int|
        0 <= i && i + 1 < trace.len() ==> #[trigger] may_follow(trace[i], trace[i + 1])
}

/// Folds the outcome of one `next` call into a progress value, exactly as
/// [`forward_resolved`] states; `step` is the snapshot to unwind from if the
/// outcome is a failure.
pub fn resolve_forward<S, E, C>(step: S, outcome: Result<Option<S>, E>) -> (r: Option<
    Progress<S, E, C>,
>) where S: State<Context = C, Error = E>
    ensures
        option_model(r) == forward_resolved(step, outcome),
{
    match outcome {
        Result::Ok(None) => None,
        Result::Ok(Some(next)) => Some(Progress::Forward(next)),
        Result::Err(cause) => Some(
            Progress::Revert(RevertProgress::Reverting { step, source: Some(Arc::new(cause)) }),
        ),
    }
}

/// Folds the outcome of one `revert` call into the next reversion snapshot,
/// exactly as [`revert_resolved`] states; `source` is the preserved cause.
pub fn resolve_revert<S, E, C>(source: Option<Arc<E>>, outcome: Result<Option<S>, E>) -> (r:
    RevertProgress<S, E, C>) where S: State<Context = C, Error = E>
    ensures
        r@ == revert_resolved(source_model(source), outcome),
{
    match outcome {
        Result::Ok(None) => RevertProgress::Reverted { source },
        Result::Ok(Some(prior)) => RevertProgress::Reverting { step: prior, source },
        Result::Err(error) => RevertProgress::Failure { source, error },
    }
}

/// A `Streamline` drives one linear chain of states for a particular
/// context, error type and [`State`]-implementing type, emitting one
/// [`Progress`] snapshot per transition.
#[verifier::reject_recursive_types(E)]
#[verifier::reject_recursive_types(C)]
pub struct Streamline<C, E, S> where S: State<Context = C, Error = E> {
    cancellation_handle: Option<Receiver<()>>,
    context: Option<C>,
    current: Progress<S, E, C>,
}

/// The lazy, single-pass sequence of [`Progress`] snapshots produced by a
/// [`Streamline`]: each pull emits the current snapshot and performs exactly
/// one transition. Its view is the sequence of snapshots emitted so far.
#[verifier::reject_recursive_types(E)]
#[verifier::reject_recursive_types(C)]
pub struct Run<C, E, S> where S: State<Context = C, Error = E> {
    machine: Option<Streamline<C, E, S>>,
    emitted: Ghost<Seq<ProgressModel<S, E>>>,
}

impl<C, E, S> Streamline<C, E, S> where S: State<Context = C, Error = E> {
    /// The snapshot the next pull of the run will emit.
    pub closed spec fn progress(self) -> ProgressModel<S, E> {
        self.current@
    }

    /// The context installed for this run, granted to each transition call.
    pub closed spec fn stored_context(self) -> Option<C> {
        self.context
    }

    /// Whether a context value is installed.
    pub open spec fn has_context(self) -> bool {
        self.stored_context() is Some
    }

    /// Whether a cancellation receiver is installed.
    pub closed spec fn preemptible(self) -> bool {
        self.cancellation_handle is Some
    }

    /// Create a `Streamline` from an initial state.
    pub fn build(state: S) -> (r: Self)
        ensures
            r.progress() == ProgressModel::<S, E>::Forward(state),
            r.stored_context() is None,
            !r.preemptible(),
    {
        Streamline { cancellation_handle: None, context: None, current: Progress::from(state) }
    }

    /// Add an (optional) context to an existing `Streamline`: the given
    /// value is the one every later transition call of this run is granted.
    pub fn context(self, context: C) -> (r: Self)
        ensures
            r.progress() == self.progress(),
            r.stored_context() == Some(context),
            r.preemptible() == self.preemptible(),
    {
        let mut this = self;
        this.context = Some(context);
        this
    }

    /// Generate the run of states, consuming the `Streamline`.
    pub fn run(self) -> (r: Run<C, E, S>)
        ensures
            r.wf(),
            r@ == Seq::<ProgressModel<S, E>>::empty(),
            r.live(),
            r.pending() == self.progress(),
            r.stored_context() == self.stored_context(),
            r.preemptible() == self.preemptible(),
    {
        Run { machine: Some(self), emitted: Ghost(Seq::empty()) }
    }

    /// Return a run of states together with a cancellation handle that can
    /// redirect the run into its revert process between two forward
    /// transitions.
    pub fn run_preemptible(self) -> (r: (Run<C, E, S>, Cancel))
        ensures
            r.0.wf(),
            r.0@ == Seq::<ProgressModel<S, E>>::empty(),
            r.0.live(),
            r.0.pending() == self.progress(),
            r.0.stored_context() == self.stored_context(),
            r.0.preemptible(),
    {
        let (sender, receiver) = oneshot::channel::<()>();
        let mut this = self;
        this.cancellation_handle = Some(receiver);
        (this.run(), Cancel::from(sender))
    }

    /// One pull of the sequence: emit the current snapshot and retain its
    /// successor, if the emitted snapshot has one. A forward snapshot is
    /// followed by whatever one `next` call (or a pending cancellation, which
    /// bypasses `next`) resolves to; a reverting snapshot by whatever one
    /// `revert` call resolves to; a terminal snapshot by nothing — the driver
    /// retires.
    fn reduce(state_machine: Option<Self>) -> (r: Option<(Progress<S, E, C>, Option<Self>)>)
        ensures
            match state_machine {
                None => r is None,
                Some(m) => match r {
                    Some(step) => {
                        &&& step.0@ == m.progress()
                        &&& match step.1 {
                            Some(m2) => {
                                &&& may_follow(m.progress(), m2.progress())
                                &&& m2.has_context() == m.has_context()
                                &&& if m.progress() is Forward && m2.progress() is Reverting
                                    && m2.progress().source() is None {
                                    // A pending cancellation was consumed: the
                                    // transition call is bypassed outright, so
                                    // the context cell is untouched and the
                                    // one-shot receiver is spent.
                                    &&& !m2.preemptible()
                                    &&& m2.stored_context() == m.stored_context()
                                } else {
                                    m2.preemptible() == m.preemptible()
                                }
                            },
                            None => m.progress().is_terminal() || m.progress().is_forward(),
                        }
                        &&& (m.progress().is_terminal() ==> step.1 is None)
                    },
                    None => false,
                },
            },
    {
        match state_machine {
            None => None,
            Some(m) => {
                let Streamline { cancellation_handle, mut context, current } = m;
                match current {
                    Progress::Forward(inner) => {
                        // Before moving to the next state, check whether this
                        // run has been cancelled externally; a fired receiver
                        // is consumed, an idle one is kept for the next pull.
                        let (cancelled, handle) = match cancellation_handle {
                            Some(mut receiver) => {
                                if poll_cancelled(&mut receiver) {
                                    (true, None)
                                } else {
                                    (false, Some(receiver))
                                }
                            },
                            None => (false, None),
                        };
                        if cancelled {
                            let step = inner.clone();
                            let reverting = Progress::Revert(
                                RevertProgress::Reverting { step, source: None },
                            );
                            Some(
                                (
                                    Progress::Forward(inner),
                                    Some(
                                        Streamline {
                                            cancellation_handle: handle,
                                            context,
                                            current: reverting,
                                        },
                                    ),
                                ),
                            )
                        } else {
                            let outcome = inner.next(context.as_mut());
                            let snapshot = inner.clone();
                            match resolve_forward(snapshot, outcome) {
                                Some(next) => Some(
                                    (
                                        Progress::Forward(inner),
                                        Some(
                                            Streamline {
                                                cancellation_handle: handle,
                                                context,
                                                current: next,
                                            },
                                        ),
                                    ),
                                ),
                                None => Some((Progress::Forward(inner), None)),
                            }
                        }
                    },
                    Progress::Revert(RevertProgress::Reverting { step, source }) => {
                        let outcome = step.revert(context.as_mut());
                        let retained = clone_source(&source);
                        let next = Progress::Revert(resolve_revert(retained, outcome));
                        Some(
                            (
                                Progress::Revert(RevertProgress::Reverting { step, source }),
                                Some(
                                    Streamline { cancellation_handle, context, current: next },
                                ),
                            ),
                        )
                    },
                    terminal => Some((terminal, None)),
                }
            },
        }
    }
}

impl<C, E, S> Run<C, E, S> where S: State<Context = C, Error = E> {
    /// The driver is still holding a snapshot to emit; once it retires, no
    /// further pull produces anything.
    pub closed spec fn live(self) -> bool {
        self.machine is Some
    }

    /// The snapshot the next pull will emit, while the driver is live.
    pub closed spec fn pending(self) -> ProgressModel<S, E>
        recommends
            self.live(),
    {
        match self.machine {
            Some(m) => m.progress(),
            None => arbitrary(),
        }
    }

    /// The context the driver still holds and grants to each transition
    /// call, while the driver is live.
    pub closed spec fn stored_context(self) -> Option<C>
        recommends
            self.live(),
    {
        match self.machine {
            Some(m) => m.stored_context(),
            None => arbitrary(),
        }
    }

    /// Whether a context value is installed, while the driver is live.
    pub open spec fn has_context(self) -> bool {
        self.stored_context() is Some
    }

    /// Whether the driver still holds an unfired cancellation receiver,
    /// while the driver is live.
    pub closed spec fn preemptible(self) -> bool
        recommends
            self.live(),
    {
        match self.machine {
            Some(m) => m.preemptible(),
            None => arbitrary(),
        }
    }

    /// What every run maintains: the emitted snapshots form a chain of the
    /// meta state machine's transitions; while the driver is live the
    /// retained snapshot continues that chain; once it has retired at least
    /// one snapshot was emitted, and the last one is either terminal or the
    /// completing forward snapshot.
    pub closed spec fn wf(self) -> bool {
        &&& trace_linked(self@)
        &&& match self.machine {
            Some(m) => self@.len() > 0 ==> may_follow(self@.last(), m.progress()),
            None => self@.len() > 0 && (self@.last().is_terminal() || self@.last().is_forward()),
        }
    }

    /// Pull once: the current snapshot is emitted and the engine computes
    /// its successor with at most one transition call; `None` once the
    /// driver has retired.
    pub fn next(&mut self) -> (r: Option<Progress<S, E, C>>)
        requires
            old(self).wf(),
        ensures
            final(self).wf(),
            match r {
                None => {
                    &&& !old(self).live()
                    &&& !final(self).live()
                    &&& final(self)@ == old(self)@
                },
                Some(item) => {
                    &&& old(self).live()
                    &&& item@ == old(self).pending()
                    &&& final(self)@ == old(self)@.push(item@)
                    &&& (final(self).live() ==> may_follow(item@, final(self).pending()))
                    &&& (item@.is_terminal() ==> !final(self).live())
                    &&& (!final(self).live() ==> item@.is_terminal() || item@.is_forward())
                    &&& (final(self).live() ==> final(self).has_context() == old(
                        self,
                    ).has_context())
                    &&& (final(self).live() ==> (if item@ is Forward && final(self).pending()
                        is Reverting && final(self).pending().source() is None {
                        // The pull consumed a pending cancellation: no
                        // transition call was granted the context, and the
                        // one-shot receiver is spent.
                        &&& !final(self).preemptible()
                        &&& final(self).stored_context() == old(self).stored_context()
                    } else {
                        final(self).preemptible() == old(self).preemptible()
                    }))
                },
            },
    {
        let machine = self.machine.take();
        match Streamline::reduce(machine) {
            Some((item, rest)) => {
                proof {
                    lemma_trace_push(self.emitted@, item@);
                }
                self.machine = rest;
                self.emitted = Ghost(self.emitted@.push(item@));
                Some(item)
            },
            None => None,
        }
    }
}

impl<C, E, S> View for Run<C, E, S> where S: State<Context = C, Error = E> {
    type V = Seq<ProgressModel<S, E>>;

    closed spec fn view(&self) -> Seq<ProgressModel<S, E>> {
        self.emitted@
    }
}

/// Extending a linked trace with a snapshot that may follow its last keeps
/// it linked.
proof fn lemma_trace_push<S: Clone, E>(trace: Seq<ProgressModel<S, E>>, item: ProgressModel<S, E>)
    requires
        trace_linked(trace),
        trace.len() > 0 ==> may_follow(trace.last(), item),
    ensures
        trace_linked(trace.push(item)),
{
    let extended = trace.push(item);
    assert forall|i: int| 0 <= i && i + 1 < extended.len() implies #[trigger] may_follow(
        extended[i],
        extended[i + 1],
    ) by {
        if i + 1 < trace.len() {
            assert(may_follow(trace[i], trace[i + 1]));
        } else {
            assert(extended[i] == trace.last());
        }
    }
}

} // verus!
