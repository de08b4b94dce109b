use yalp_wasm::interpreter::{Misuse, Reply, Request};
use yalp_wasm::pipeline::{exec, exec_command, pending_value, Exec, Turn};

type State = Exec<String, u32, u32, u32>;

#[test]
fn parse_failure_returns_marked_diagnostic() {
    let (state, turn) = exec_command::<u32, u32, u32>("(add 2");
    assert!(matches!(turn, Turn::Ask(Request::Parse(ref text)) if text == "(add 2"));
    let (state, turn) = exec(state, Reply::Parsed(Err(String::from("UnexpectedEof")))).unwrap();
    assert!(matches!(turn, Turn::Return(ref text) if text == "Parse error: UnexpectedEof"));
    assert!(matches!(state, Exec::Done));
    assert!(matches!(exec(state, Reply::Bound), Err(Misuse::Finished)));
}

#[test]
fn evaluation_failure_returns_marked_diagnostic() {
    let (state, _) = exec_command::<u32, u32, u32>("(f)");
    let (state, turn) = exec(state, Reply::Parsed(Ok(11))).unwrap();
    assert!(matches!(turn, Turn::Ask(Request::Intern(ref name)) if name == ":last"));
    assert!(matches!(state, Exec::AwaitIntern { expr: 11 }));
    let (state, turn) = exec(state, Reply::Interned(7)).unwrap();
    assert!(matches!(turn, Turn::Ask(Request::Evaluate(11))));
    let (state, turn) = exec(state, Reply::Evaluated(Err(String::from("Unbound")))).unwrap();
    assert!(matches!(turn, Turn::Return(ref text) if text == "Evaluation error: Unbound"));
    assert!(matches!(state, Exec::Done));
}

#[test]
fn success_prints_at_depth_zero_and_rebinds_last() {
    let (state, _) = exec_command::<u32, u32, u32>("(f)");
    let (state, _) = exec(state, Reply::Parsed(Ok(11))).unwrap();
    let (state, _) = exec(state, Reply::Interned(7)).unwrap();
    assert!(pending_value(&state).is_none());
    let (state, turn) = exec(state, Reply::Evaluated(Ok(23))).unwrap();
    assert!(matches!(turn, Turn::Ask(Request::Print { depth: 0 })));
    assert_eq!(pending_value(&state), Some(&23));
    let (state, turn) = exec(state, Reply::Printed(String::from("twenty-three"))).unwrap();
    assert!(matches!(
        turn,
        Turn::Ask(Request::Bind { symbol: 7, value: 23, allow_redefine: true })
    ));
    assert!(pending_value(&state).is_none());
    let (state, turn) = exec(state, Reply::Bound).unwrap();
    assert!(matches!(turn, Turn::Return(ref text) if text == "twenty-three"));
    assert!(matches!(state, Exec::Done));
}

#[test]
fn empty_diagnostic_leaves_the_bare_marker() {
    let state: State = Exec::AwaitParse;
    let (_, turn) = exec(state, Reply::Parsed(Err(String::new()))).unwrap();
    assert!(matches!(turn, Turn::Return(ref text) if text == "Parse error: "));
    let state: State = Exec::AwaitEvaluate { last: 0 };
    let (_, turn) = exec(state, Reply::Evaluated(Err(String::new()))).unwrap();
    assert!(matches!(turn, Turn::Return(ref text) if text == "Evaluation error: "));
}

#[test]
fn reply_to_another_request_is_refused() {
    let fresh = || exec_command::<u32, u32, u32>("x").0;
    assert!(matches!(exec(fresh(), Reply::Interned(1)), Err(Misuse::Unexpected)));
    assert!(matches!(exec(fresh(), Reply::Evaluated(Ok(1))), Err(Misuse::Unexpected)));
    assert!(matches!(exec(fresh(), Reply::Printed(String::new())), Err(Misuse::Unexpected)));
    assert!(matches!(exec(fresh(), Reply::Bound), Err(Misuse::Unexpected)));
    let waiting: State = Exec::AwaitIntern { expr: 1 };
    assert!(matches!(exec(waiting, Reply::Parsed(Err(String::new()))), Err(Misuse::Unexpected)));
    let waiting: State = Exec::AwaitPrint { last: 1, value: 2 };
    assert!(matches!(exec(waiting, Reply::Bound), Err(Misuse::Unexpected)));
    let waiting: State = Exec::AwaitBind { text: String::from("2") };
    assert!(matches!(exec(waiting, Reply::Printed(String::from("2"))), Err(Misuse::Unexpected)));
}

#[test]
fn finished_command_takes_no_reply() {
    let done = || -> State { Exec::Done };
    assert!(matches!(exec(done(), Reply::Parsed(Ok(1))), Err(Misuse::Finished)));
    assert!(matches!(exec(done(), Reply::Interned(1)), Err(Misuse::Finished)));
    assert!(matches!(exec(done(), Reply::Bound), Err(Misuse::Finished)));
}
