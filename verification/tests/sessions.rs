use yalp_wasm::bootstrap::Boot;
use yalp_wasm::interpreter::{Reply, Request};
use yalp_wasm::bootstrap::bootstrap;
use yalp_wasm::sessions::{create_state, free_state, Sessions};
use yalp_wasm::violation::Violation;

fn ready(session: u32) -> Boot<u32> {
    let (boot, _): (Boot<u32>, Option<Request<String, u8, u8, u8>>) = Boot::begin(session, Vec::new());
    boot
}

#[test]
fn handles_are_given_out_in_sequence() {
    let mut sessions = Sessions::new();
    assert_eq!(create_state(&mut sessions, ready(10)), Some(1));
    assert_eq!(create_state(&mut sessions, ready(11)), Some(2));
    assert_eq!(create_state(&mut sessions, ready(12)), Some(3));
    assert_eq!(sessions.session(1), Some(&10));
    assert_eq!(sessions.session(2), Some(&11));
    assert_eq!(sessions.session(3), Some(&12));
    assert_eq!(sessions.session(4), None);
}

#[test]
fn failed_bootstrap_gets_no_handle() {
    let mut sessions: Sessions<u32> = Sessions::new();
    let (boot, _): (Boot<u32>, Option<Request<String, u8, u8, u8>>) =
        Boot::begin(1, vec![String::from("(")]);
    let (boot, _) =
        bootstrap(boot, Reply::<String, u8, u8, u8>::Parsed(Err(String::from("end")))).unwrap();
    assert_eq!(create_state(&mut sessions, boot), None);
    assert!(!sessions.is_live(1));
    assert_eq!(create_state(&mut sessions, ready(2)), Some(1));
}

#[test]
fn unfinished_bootstrap_gets_no_handle() {
    let mut sessions: Sessions<u32> = Sessions::new();
    let (boot, _): (Boot<u32>, Option<Request<String, u8, u8, u8>>) =
        Boot::begin(1, vec![String::from("1")]);
    assert_eq!(create_state(&mut sessions, boot), None);
    assert!(!sessions.is_live(1));
}

#[test]
fn work_on_a_session_stays_under_its_handle() {
    let mut sessions = Sessions::new();
    let first = create_state(&mut sessions, ready(10)).unwrap();
    let second = create_state(&mut sessions, ready(20)).unwrap();
    *sessions.session_mut(first).unwrap() += 5;
    assert_eq!(sessions.session(first), Some(&15));
    assert_eq!(sessions.session(second), Some(&20));
}

#[test]
fn free_ends_exactly_one_session() {
    let mut sessions = Sessions::new();
    let first = create_state(&mut sessions, ready(10)).unwrap();
    let second = create_state(&mut sessions, ready(20)).unwrap();
    assert!(sessions.is_live(first));
    assert_eq!(free_state(&mut sessions, first), Ok(()));
    assert!(!sessions.is_live(first));
    assert!(sessions.is_live(second));
    assert_eq!(sessions.session(second), Some(&20));
}

#[test]
fn second_free_is_refused() {
    let mut sessions = Sessions::new();
    let handle = create_state(&mut sessions, ready(10)).unwrap();
    assert_eq!(free_state(&mut sessions, handle), Ok(()));
    assert_eq!(free_state(&mut sessions, handle), Err(Violation::InvalidHandle));
    assert!(sessions.session(handle).is_none());
    assert!(sessions.session_mut(handle).is_none());
}

#[test]
fn handle_never_given_out_is_refused() {
    let mut sessions: Sessions<u32> = Sessions::new();
    assert_eq!(free_state(&mut sessions, 1), Err(Violation::InvalidHandle));
    assert_eq!(free_state(&mut sessions, usize::MAX), Err(Violation::InvalidHandle));
    assert!(sessions.session(1).is_none());
    assert!(!sessions.is_live(1));
    let given = create_state(&mut sessions, ready(10)).unwrap();
    assert_eq!(free_state(&mut sessions, given + 1), Err(Violation::InvalidHandle));
    assert!(sessions.is_live(given));
}

#[test]
fn handle_zero_names_no_session() {
    let mut sessions: Sessions<u32> = Sessions::new();
    assert!(!sessions.is_live(0));
    assert!(sessions.session(0).is_none());
    assert!(sessions.session_mut(0).is_none());
    assert_eq!(free_state(&mut sessions, 0), Err(Violation::InvalidHandle));
    for session in 0..5 {
        let handle = create_state(&mut sessions, ready(session)).unwrap();
        assert_ne!(handle, 0);
        assert!(!sessions.is_live(0));
    }
    assert!(sessions.session(0).is_none());
    assert_eq!(free_state(&mut sessions, 0), Err(Violation::InvalidHandle));
}

#[test]
fn freed_handle_is_not_given_out_again() {
    let mut sessions = Sessions::new();
    let first = create_state(&mut sessions, ready(10)).unwrap();
    assert_eq!(free_state(&mut sessions, first), Ok(()));
    let second = create_state(&mut sessions, ready(20)).unwrap();
    assert_ne!(second, first);
    assert!(!sessions.is_live(first));
    assert_eq!(sessions.session(second), Some(&20));
}
