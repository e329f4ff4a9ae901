use example_sse::bearer::Rejection;
use example_sse::event::CounterEvent;
use example_sse::session::{Action, Phase, Session, TICK_SECS};

fn connect(header: &str) -> Session {
    Session::connect(Some(header.as_bytes())).expect("a bearer header is accepted")
}

/// Steps until the next event and returns its payload with the seconds of
/// waiting that were asked for on the way.
fn next_event(session: &mut Session) -> (String, u64) {
    let mut waited: u64 = 0;
    loop {
        match session.step() {
            Action::Wait { secs } => waited += secs,
            Action::Emit(event) => return (event.payload().to_string(), waited),
        }
    }
}

#[test]
fn accepted_session_keeps_its_token() {
    let session = connect("Bearer abc123");
    assert_eq!(session.token(), "abc123");
}

#[test]
fn fresh_session_starts_at_zero_and_at_rest() {
    let session = connect("Bearer abc123");
    assert_eq!(session.counter(), 0);
    assert_eq!(session.phase(), Phase::Idle);
    assert!(!session.is_exhausted());
}

#[test]
fn request_without_header_gets_no_session() {
    match Session::connect(None) {
        Ok(_) => panic!("a request without a header was accepted"),
        Err(rejection) => assert_eq!(rejection, Rejection::Unauthorized),
    }
}

#[test]
fn request_with_other_scheme_gets_no_session() {
    let missing = Session::connect(None).unwrap_err();
    let basic = Session::connect(Some(b"Basic QWxhZGRpbjpvcGVuIHNlc2FtZQ==")).unwrap_err();
    assert_eq!(basic, missing);
    assert_eq!(basic.status(), 401);
}

#[test]
fn empty_token_is_accepted() {
    let session = connect("Bearer ");
    assert_eq!(session.token(), "");
}

#[test]
fn first_step_waits_one_tick() {
    let mut session = connect("Bearer abc123");
    match session.step() {
        Action::Wait { secs } => {
            assert_eq!(secs, 1);
            assert_eq!(secs, TICK_SECS);
        },
        Action::Emit(event) => panic!("event {:?} before any wait", event),
    }
    assert_eq!(session.counter(), 1);
    assert_eq!(session.phase(), Phase::Ticking);
}

#[test]
fn second_step_delivers_one() {
    let mut session = connect("Bearer abc123");
    session.step();
    match session.step() {
        Action::Emit(event) => assert_eq!(event.payload(), "1"),
        Action::Wait { .. } => panic!("a second wait before the first event"),
    }
    assert_eq!(session.counter(), 1);
    assert_eq!(session.phase(), Phase::Idle);
}

#[test]
fn scenario_two_events_then_a_fresh_connection() {
    let mut session = connect("Bearer abc123");
    assert_eq!(next_event(&mut session), (String::from("1"), 1));
    assert_eq!(next_event(&mut session), (String::from("2"), 1));
    drop(session);
    let mut again = connect("Bearer another-token");
    assert_eq!(again.token(), "another-token");
    assert_eq!(next_event(&mut again), (String::from("1"), 1));
}

#[test]
fn nth_event_carries_n() {
    let mut session = connect("Bearer abc123");
    for n in 1..=2500u64 {
        let (payload, _) = next_event(&mut session);
        assert_eq!(payload, n.to_string());
    }
    assert_eq!(session.counter(), 2500);
}

#[test]
fn every_event_follows_exactly_one_wait() {
    let mut session = connect("Bearer abc123");
    let mut last_was_wait = false;
    for _ in 0..200 {
        match session.step() {
            Action::Wait { secs } => {
                assert!(!last_was_wait);
                assert_eq!(secs, TICK_SECS);
                last_was_wait = true;
            },
            Action::Emit(_) => {
                assert!(last_was_wait);
                last_was_wait = false;
            },
        }
    }
}

#[test]
fn waiting_never_falls_behind_delivery() {
    let mut session = connect("Bearer abc123");
    let mut waited: u64 = 0;
    let mut delivered: u64 = 0;
    for _ in 0..101 {
        match session.step() {
            Action::Wait { secs } => waited += secs,
            Action::Emit(_) => delivered += 1,
        }
        assert!(delivered * TICK_SECS <= waited);
    }
    assert_eq!(delivered, 50);
    assert_eq!(waited, 51);
}

#[test]
fn sessions_do_not_share_a_counter() {
    let mut first = connect("Bearer one");
    let mut second = connect("Bearer two");
    assert_eq!(next_event(&mut first).0, "1");
    assert_eq!(next_event(&mut first).0, "2");
    assert_eq!(next_event(&mut first).0, "3");
    assert_eq!(next_event(&mut second).0, "1");
    assert_eq!(next_event(&mut first).0, "4");
    assert_eq!(next_event(&mut second).0, "2");
    assert_eq!(first.token(), "one");
    assert_eq!(second.token(), "two");
}

#[test]
fn session_produces_only_when_stepped() {
    let mut session = connect("Bearer abc123");
    next_event(&mut session);
    let counter = session.counter();
    let phase = session.phase();
    assert_eq!(session.token(), "abc123");
    assert_eq!(session.counter(), counter);
    assert_eq!(session.phase(), phase);
}

#[test]
fn numbered_event_carries_the_decimal_text() {
    assert_eq!(CounterEvent::numbered(1).payload(), "1");
    assert_eq!(CounterEvent::numbered(42).payload(), "42");
    assert_eq!(CounterEvent::numbered(u64::MAX).payload(), "18446744073709551615");
}
