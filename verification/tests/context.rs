use std::sync::Arc;
use std::sync::Mutex;
use streamline::State;
use streamline::Streamline;

#[derive(Clone)]
struct Context {
    items: Vec<u8>,
}

#[derive(Clone, Debug, PartialEq)]
enum MyState {
    Start,
    End,
}

impl State for MyState {
    type Context = Arc<Mutex<Context>>;
    type Error = ();

    fn next(&self, context: Option<&mut Arc<Mutex<Context>>>) -> Result<Option<Self>, ()> {
        let mut context = context.ok_or(())?.lock().expect("could not get lock on context");

        context.items.push(0);

        let next_state = match self {
            MyState::Start => Some(Self::End),
            _ => None,
        };

        Ok(next_state)
    }
}

#[test]
fn handles_context() {
    let shared = Arc::new(Mutex::new(Context { items: vec![] }));

    let mut run = Streamline::build(MyState::Start).context(shared.clone()).run();

    while let Some(_step) = run.next() {}

    let final_context = shared.lock().expect("could not get final context value");

    assert_eq!(final_context.items, [0, 0]);
}
