use std::sync::Arc;
use streamline::Progress;
use streamline::RevertProgress;
use streamline::State;
use streamline::Streamline;

#[derive(Clone, Debug, PartialEq)]
enum UpState {
    Start,
    Middle(String),
    End(String),
}

impl State for UpState {
    type Context = ();
    type Error = ();

    fn next(&self, _context: Option<&mut ()>) -> Result<Option<Self>, ()> {
        let next_state = match self {
            UpState::Start => Some(Self::Middle("x".into())),
            UpState::Middle(content) => Some(Self::End(content.into())),
            UpState::End(_) => None,
        };

        Ok(next_state)
    }
}

#[derive(Clone, Debug, PartialEq)]
enum DownState {
    Start,
    Middle(String),
    End(String),
}

#[derive(Debug, PartialEq)]
struct DownError(&'static str);

impl State for DownState {
    type Context = ();
    type Error = DownError;

    fn next(&self, _context: Option<&mut ()>) -> Result<Option<Self>, DownError> {
        let next_state = match self {
            DownState::Start => Some(Self::Middle("x".into())),
            DownState::Middle(_) => return Err(DownError("boom")),
            DownState::End(_) => None,
        };

        Ok(next_state)
    }

    fn revert(&self, _context: Option<&mut ()>) -> Result<Option<Self>, DownError> {
        let next_state = match self {
            DownState::End(content) => Some(Self::Middle(content.to_string())),
            DownState::Middle(_) => Some(Self::Start),
            DownState::Start => None,
        };

        Ok(next_state)
    }
}

#[test]
fn exact_forward_sequence() {
    let mut run = Streamline::build(UpState::Start).run();

    let mut states: Vec<Progress<UpState, (), ()>> = Vec::new();
    while let Some(step) = run.next() {
        states.push(step);
    }

    let expected = vec![
        Progress::Forward(UpState::Start),
        Progress::Forward(UpState::Middle("x".to_string())),
        Progress::Forward(UpState::End("x".to_string())),
    ];

    assert_eq!(states, expected);
}

#[test]
fn exact_revert_sequence() {
    let mut run = Streamline::build(DownState::Start).run();

    let mut states: Vec<Progress<DownState, DownError, ()>> = Vec::new();
    while let Some(step) = run.next() {
        states.push(step);
    }

    let expected = vec![
        Progress::Forward(DownState::Start),
        Progress::Forward(DownState::Middle("x".to_string())),
        Progress::Revert(RevertProgress::Reverting {
            step: DownState::Middle("x".to_string()),
            source: Some(Arc::new(DownError("boom"))),
        }),
        Progress::Revert(RevertProgress::Reverting {
            step: DownState::Start,
            source: Some(Arc::new(DownError("boom"))),
        }),
        Progress::Revert(RevertProgress::Reverted {
            source: Some(Arc::new(DownError("boom"))),
        }),
    ];

    assert_eq!(states, expected);
}

#[test]
fn retired_run_stays_empty() {
    let mut run = Streamline::build(UpState::Start).run();

    while let Some(_step) = run.next() {}

    assert_eq!(run.next(), None);
    assert_eq!(run.next(), None);
}
