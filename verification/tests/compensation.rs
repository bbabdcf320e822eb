use std::sync::Arc;
use streamline::Progress;
use streamline::RevertProgress;
use streamline::State;
use streamline::Streamline;

#[derive(Clone, Debug, PartialEq)]
enum PlainState {
    Start,
}

#[derive(Debug, PartialEq)]
struct PlainError(&'static str);

impl State for PlainState {
    type Context = ();
    type Error = PlainError;

    fn next(&self, _context: Option<&mut ()>) -> Result<Option<Self>, PlainError> {
        Err(PlainError("kaput"))
    }
}

#[derive(Clone, Debug, PartialEq)]
enum GrumpyState {
    Start,
}

#[derive(Debug, PartialEq)]
struct GrumpyError(&'static str);

impl State for GrumpyState {
    type Context = ();
    type Error = GrumpyError;

    fn next(&self, _context: Option<&mut ()>) -> Result<Option<Self>, GrumpyError> {
        Err(GrumpyError("forward failed"))
    }

    fn revert(&self, _context: Option<&mut ()>) -> Result<Option<Self>, GrumpyError> {
        Err(GrumpyError("backward failed"))
    }
}

#[test]
fn default_revert_completes() {
    let mut run = Streamline::build(PlainState::Start).run();

    let mut states: Vec<Progress<PlainState, PlainError, ()>> = Vec::new();
    while let Some(step) = run.next() {
        states.push(step);
    }

    let expected = vec![
        Progress::Forward(PlainState::Start),
        Progress::Revert(RevertProgress::Reverting {
            step: PlainState::Start,
            source: Some(Arc::new(PlainError("kaput"))),
        }),
        Progress::Revert(RevertProgress::Reverted {
            source: Some(Arc::new(PlainError("kaput"))),
        }),
    ];

    assert_eq!(states, expected);
}

#[test]
fn failing_revert_faults() {
    let mut run = Streamline::build(GrumpyState::Start).run();

    let mut states: Vec<Progress<GrumpyState, GrumpyError, ()>> = Vec::new();
    while let Some(step) = run.next() {
        states.push(step);
    }

    let expected = vec![
        Progress::Forward(GrumpyState::Start),
        Progress::Revert(RevertProgress::Reverting {
            step: GrumpyState::Start,
            source: Some(Arc::new(GrumpyError("forward failed"))),
        }),
        Progress::Revert(RevertProgress::Failure {
            source: Some(Arc::new(GrumpyError("forward failed"))),
            error: GrumpyError("backward failed"),
        }),
    ];

    assert_eq!(states, expected);
}
