use streamline::Progress;
use streamline::RevertProgress;
use streamline::State;
use streamline::Streamline;

#[derive(Debug)]
struct Context;

#[derive(Clone, Debug, PartialEq)]
enum MyState {
    Start,
    Middle(String),
    End(String),
}

#[derive(Debug, PartialEq)]
struct MyError(&'static str);

impl State for MyState {
    type Context = Context;
    type Error = MyError;

    fn next(&self, _context: Option<&mut Context>) -> Result<Option<Self>, MyError> {
        let next_state = match self {
            MyState::Start => Some(Self::Middle("hooray!".into())),
            MyState::Middle(content) => Some(Self::End(content.into())),
            _ => None,
        };

        Ok(next_state)
    }

    fn revert(&self, _context: Option<&mut Context>) -> Result<Option<Self>, MyError> {
        let next_state = match self {
            MyState::End(content) => Some(Self::Middle(content.to_string())),
            MyState::Middle(_) => Some(Self::Start),
            _ => None,
        };

        Ok(next_state)
    }
}

#[test]
fn cancels() {
    let (mut run, cancellation_handle) =
        Streamline::build(MyState::Start).context(Context).run_preemptible();

    let next_step = run.next();

    match next_step {
        Some(Progress::Forward(state)) => assert_eq!(&state, &MyState::Start),
        _ => panic!("incorrect start state found"),
    };

    cancellation_handle.cancel().expect("could not send value through channel");

    let mut last_step = Progress::Forward(MyState::Start);

    while let Some(step) = run.next() {
        last_step = step;
    }

    match last_step {
        Progress::Revert(RevertProgress::Reverted { source }) => {
            assert_eq!(source, None)
        }
        _ => panic!("incorrect terminal state found"),
    }
}
