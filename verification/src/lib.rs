//! A state machine engine that drives a caller-supplied set of state variants
//! forward step by step and, on failure, backward through each state's
//! compensation logic until the original error is absorbed or compensation
//! itself fails. States are emitted one per pull as [`Progress`] snapshots,
//! and an in-flight forward run can be redirected into compensation through a
//! one-shot [`Cancel`] handle.

mod cancel;
mod laws;
mod progress;
mod state;
mod streamline;

pub use self::cancel::Cancel;
pub use self::laws::lemma_advance_never_reverts;
pub use self::laws::lemma_cancelled_unwind;
pub use self::laws::lemma_default_compensation;
pub use self::laws::lemma_fail_starts_revert;
pub use self::laws::lemma_forward_run;
pub use self::laws::lemma_revert_is_absorbing;
pub use self::laws::lemma_terminal_is_last;
pub use self::laws::lemma_unwind_begins_reverting;
pub use self::laws::lemma_unwind_shape;
pub use self::progress::Progress;
pub use self::progress::ProgressModel;
pub use self::progress::RevertProgress;
pub use self::progress::source_model;
pub use self::state::State;
pub use self::streamline::forward_resolved;
pub use self::streamline::may_follow;
pub use self::streamline::option_model;
pub use self::streamline::resolve_forward;
pub use self::streamline::resolve_revert;
pub use self::streamline::revert_resolved;
pub use self::streamline::trace_linked;
pub use self::streamline::Run;
pub use self::streamline::Streamline;
