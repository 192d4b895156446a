use session_core::handler::ConnectionHandler;
use session_core::http::Request;
use session_core::state::SharedState;

#[test]
fn handler_lifecycle_records_and_cleans_up() {
    let mut state = SharedState::new(2, 4);
    let mut handler = ConnectionHandler::new(1000);
    handler.register(&mut state.sessions, "10.0.0.9:5555");
    assert!(handler.is_active());

    let ok = handler.record_exchange_checked(&mut state.sessions, 120, 345);
    assert!(ok);
    let ok2 = handler.record_exchange_checked(&mut state.sessions, 30, 5);
    assert!(ok2);

    let mid = state.sessions.snapshot();
    assert_eq!(mid.active_sessions, 1);
    assert_eq!(mid.total_bytes_read, 150);
    assert_eq!(mid.total_bytes_written, 350);
    assert_eq!(mid.occupants[0], "10.0.0.9:5555");

    let log = handler.finalize(2000);
    assert_eq!(log.when_opened, 1000);
    assert_eq!(log.when_closed, 2000);
    assert_eq!(log.no_of_bytes_received, 150);
    assert_eq!(log.no_of_bytes_sent, 350);

    state.history.add_log(log);
    handler.terminate(&mut state.sessions);

    let end = state.status();
    assert_eq!(end.active_sessions, 0);
    let logs = state.history();
    assert_eq!(logs.len(), 1);
    assert_eq!(logs[0].no_of_bytes_sent, 350);
    assert_eq!(logs[0].no_of_bytes_received, 150);
}

#[test]
fn refused_handler_leaves_no_trace() {
    let mut state = SharedState::new(1, 2);
    let mut first = ConnectionHandler::new(10);
    first.register(&mut state.sessions, "held");
    assert!(first.is_active());

    let mut second = ConnectionHandler::new(20);
    second.register(&mut state.sessions, "refused");
    assert!(!second.is_active());

    let report = state.status();
    assert_eq!(report.active_sessions, 1);
    assert_eq!(report.occupants, vec!["held"]);
    assert_eq!(state.history().len(), 0);
}

#[test]
fn slot_freed_by_one_handler_serves_the_next() {
    let mut state = SharedState::new(1, 2);
    let mut first = ConnectionHandler::new(10);
    first.register(&mut state.sessions, "first");
    assert!(first.is_active());
    let log = first.finalize(11);
    state.history.add_log(log);
    first.terminate(&mut state.sessions);

    let mut second = ConnectionHandler::new(20);
    second.register(&mut state.sessions, "second");
    assert!(second.is_active());
    let report = state.sessions.snapshot();
    assert_eq!(report.occupants, vec!["second"]);
}

#[test]
fn record_exchange_checked_refuses_overflow() {
    let mut state = SharedState::new(1, 2);
    let mut handler = ConnectionHandler::new(5);
    handler.register(&mut state.sessions, "x");
    assert!(handler.record_exchange_checked(&mut state.sessions, u64::MAX, 1));
    assert!(!handler.record_exchange_checked(&mut state.sessions, 1, 0));
    let report = state.sessions.snapshot();
    assert_eq!(report.total_bytes_read, u64::MAX as u128);
    assert_eq!(report.total_bytes_written, 1);
}

#[test]
fn request_keeps_the_request_line() {
    let request = Request::new("GET / HTTP/1.1");
    assert_eq!(request.status, "GET / HTTP/1.1");
}
