use vpscheck::json::to_json;
use vpscheck::metrics::{CollectionError, Metrics};
use vpscheck::session::{on_send_failed, step, Action, CloseReason, Event, Frame, SessionState};

fn sample() -> Metrics {
    Metrics {
        os_name: "Test OS".to_string(),
        uptime_days: 1,
        load_one_centi: 10,
        load_five_centi: 20,
        load_fifteen_centi: 30,
        cpu_centi: 500,
        mem_used: "0.50 GiB".to_string(),
        mem_total: "1.00 GiB".to_string(),
        disk_used_gib_centi: 100,
        disk_total_gib_centi: 200,
        rx_rate: 1,
        tx_rate: 2,
        rx_total_gib_centi: 3,
        tx_total_gib_centi: 4,
        swap_used_mib_centi: 5,
        swap_total_mib_centi: 6,
        tcp: 7,
        udp: 8,
        processes: 9,
        threads: 10,
    }
}

#[test]
fn tick_pushes_the_serialized_record() {
    let (action, state) = step(SessionState::Active, Event::Tick(Ok(sample())));
    assert_eq!(state, SessionState::Active);
    match action {
        Action::Push(text) => assert_eq!(text, to_json(&sample())),
        _ => panic!("a successful tick must push a text message"),
    }
}

#[test]
fn failed_snapshot_closes_with_no_reason() {
    let err = CollectionError { message: "boom".to_string() };
    let (action, state) = step(SessionState::Active, Event::Tick(Err(err)));
    assert_eq!(state, SessionState::Closed);
    match action {
        Action::CloseWith(reason) => assert!(reason.is_none()),
        _ => panic!("a failed tick must close the session"),
    }
}

#[test]
fn ping_gets_a_pong_with_the_identical_payload() {
    let payload = vec![1u8, 2, 3, 250];
    let (action, state) = step(
        SessionState::Active,
        Event::Inbound(Frame::Ping(payload.clone())),
    );
    assert_eq!(state, SessionState::Active);
    match action {
        Action::Pong(p) => assert_eq!(p, payload),
        _ => panic!("a ping must be answered with a pong"),
    }
}

#[test]
fn close_is_echoed_with_the_same_reason_and_ends_the_session() {
    let reason = CloseReason { code: 1000, description: Some("bye".to_string()) };
    let (action, state) = step(
        SessionState::Active,
        Event::Inbound(Frame::Close(Some(reason))),
    );
    assert_eq!(state, SessionState::Closed);
    match action {
        Action::CloseWith(Some(r)) => {
            assert_eq!(r.code, 1000);
            assert_eq!(r.description.as_deref(), Some("bye"));
        }
        _ => panic!("a close must be echoed"),
    }
}

#[test]
fn other_frames_are_ignored() {
    let (action, state) = step(SessionState::Active, Event::Inbound(Frame::Other));
    assert_eq!(state, SessionState::Active);
    assert!(matches!(action, Action::Ignore));
}

#[test]
fn stream_error_ends_the_session() {
    let (action, state) = step(SessionState::Active, Event::Inbound(Frame::Error));
    assert_eq!(state, SessionState::Closed);
    assert!(matches!(action, Action::Ignore));
}

#[test]
fn end_of_stream_ends_the_session() {
    let (action, state) = step(SessionState::Active, Event::Inbound(Frame::EndOfStream));
    assert_eq!(state, SessionState::Closed);
    assert!(matches!(action, Action::Ignore));
}

#[test]
fn a_closed_session_services_nothing() {
    let (action, state) = step(
        SessionState::Closed,
        Event::Inbound(Frame::Ping(vec![9])),
    );
    assert_eq!(state, SessionState::Closed);
    assert!(matches!(action, Action::Ignore));
    let (action, state) = step(SessionState::Closed, Event::Tick(Ok(sample())));
    assert_eq!(state, SessionState::Closed);
    assert!(matches!(action, Action::Ignore));
}

#[test]
fn a_failed_send_closes_the_session() {
    assert_eq!(on_send_failed(SessionState::Active), SessionState::Closed);
    assert_eq!(on_send_failed(SessionState::Closed), SessionState::Closed);
}
