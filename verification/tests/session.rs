use ip_echo::record::Record;
use ip_echo::session::{Action, Address, ConnectionError, Event, Phase, Session, Stage, Step};

fn peer() -> Address {
    Address {
        endpoint: "203.0.113.7:40312".to_string(),
        ip: "203.0.113.7".to_string(),
    }
}

fn line(text: &str) -> Event {
    Event::Line(text.to_string())
}

/// A session that has read its request line and waits for headers.
fn reading_headers() -> Session {
    let (mut session, _) = Session::start();
    session.step(Event::Done);
    session.step(Event::Peer(peer()));
    session.step(line("GET / HTTP/1.1\r\n"));
    assert_eq!(session.phase(), Phase::Headers);
    session
}

fn io_abort(step: &Step) -> (Stage, String) {
    match &step.action {
        Action::Abort(ConnectionError::Io { stage, cause }) => (*stage, cause.clone()),
        other => panic!("not an I/O abort: {:?}", other),
    }
}

#[test]
fn a_session_starts_by_switching_off_coalescing() {
    let (session, first) = Session::start();
    assert!(first.record.is_none());
    assert!(matches!(first.action, Action::SetNoDelay));
    assert_eq!(session.phase(), Phase::Configuring);
    assert!(session.peer().is_none());
    assert!(session.request_line().is_none());
    assert!(session.headers().is_empty());
}

#[test]
fn request_with_one_header_is_answered_with_the_peer_ip() {
    let (mut session, first) = Session::start();
    assert!(matches!(first.action, Action::SetNoDelay));

    let step = session.step(Event::Done);
    assert!(step.record.is_none());
    assert!(matches!(step.action, Action::ResolvePeer));
    assert_eq!(session.phase(), Phase::Resolving);

    let step = session.step(Event::Peer(peer()));
    match &step.record {
        Some(Record::PeerAddr(addr)) => assert_eq!(addr, "203.0.113.7:40312"),
        other => panic!("unexpected record: {:?}", other),
    }
    assert_eq!(
        step.record.unwrap().to_json(),
        "{\"peer_addr\":\"203.0.113.7:40312\"}"
    );
    assert!(matches!(step.action, Action::ReadLine));
    assert_eq!(session.phase(), Phase::RequestLine);
    assert_eq!(session.peer().unwrap().ip, "203.0.113.7");

    let step = session.step(line("GET / HTTP/1.1\r\n"));
    match &step.record {
        Some(Record::RequestLine(text)) => assert_eq!(text, "GET / HTTP/1.1\r\n"),
        other => panic!("unexpected record: {:?}", other),
    }
    assert!(matches!(step.action, Action::ReadLine));
    assert_eq!(session.phase(), Phase::Headers);
    assert_eq!(session.request_line().unwrap(), "GET / HTTP/1.1\r\n");

    let step = session.step(line("Host: example.com\r\n"));
    assert!(step.record.is_none());
    assert!(matches!(step.action, Action::ReadLine));
    assert_eq!(session.phase(), Phase::Headers);

    let step = session.step(line("\r\n"));
    match &step.record {
        Some(Record::Headers(headers)) => {
            assert_eq!(headers.len(), 1);
            assert_eq!(headers.get("host"), Some(" example.com".to_string()));
        }
        other => panic!("unexpected record: {:?}", other),
    }
    assert_eq!(
        step.record.unwrap().to_json(),
        "{\"host\":\" example.com\"}"
    );
    match &step.action {
        Action::Write(text) => assert_eq!(text, "HTTP/1.1 200 OK\r\n\r\n203.0.113.7\r\n"),
        other => panic!("unexpected action: {:?}", other),
    }
    assert_eq!(session.phase(), Phase::Writing);

    let step = session.step(Event::Done);
    assert!(step.record.is_none());
    assert!(matches!(step.action, Action::Flush));
    assert_eq!(session.phase(), Phase::Flushing);

    let step = session.step(Event::Done);
    assert!(step.record.is_none());
    assert!(matches!(step.action, Action::Finish));
    assert_eq!(session.phase(), Phase::Closed);
}

#[test]
fn header_without_space_after_the_colon_has_the_bare_value() {
    let mut session = reading_headers();
    session.step(line("Host:example.com\r\n"));
    let step = session.step(line("\r\n"));
    assert_eq!(
        step.record.unwrap().to_json(),
        "{\"host\":\"example.com\"}"
    );
}

#[test]
fn bare_terminator_as_request_line_gives_empty_headers_and_a_response() {
    let (mut session, _) = Session::start();
    session.step(Event::Done);
    session.step(Event::Peer(peer()));

    let step = session.step(line("\r\n"));
    match &step.record {
        Some(Record::RequestLine(text)) => assert_eq!(text, "\r\n"),
        other => panic!("unexpected record: {:?}", other),
    }
    assert!(matches!(step.action, Action::ReadLine));
    assert_eq!(session.request_line().unwrap(), "\r\n");

    // The peer sends nothing more: the next read finds the input at its end.
    let step = session.step(line(""));
    match &step.record {
        Some(Record::Headers(headers)) => assert!(headers.is_empty()),
        other => panic!("unexpected record: {:?}", other),
    }
    assert_eq!(step.record.unwrap().to_json(), "{}");
    match &step.action {
        Action::Write(text) => assert_eq!(text, "HTTP/1.1 200 OK\r\n\r\n203.0.113.7\r\n"),
        other => panic!("unexpected action: {:?}", other),
    }
    assert!(matches!(session.step(Event::Done).action, Action::Flush));
    assert!(matches!(session.step(Event::Done).action, Action::Finish));
}

#[test]
fn headers_are_collected_until_the_blank_line() {
    let mut session = reading_headers();
    for raw in ["Host: a\r\n", "Accept: */*\n", "X-Empty\r\n", "host: b\r\n"] {
        let step = session.step(line(raw));
        assert!(step.record.is_none());
        assert!(matches!(step.action, Action::ReadLine));
    }
    assert_eq!(session.headers().len(), 3);
    assert_eq!(session.headers().get("host"), Some(" b".to_string()));
    assert_eq!(session.headers().get("accept"), Some(" */*".to_string()));
    assert_eq!(session.headers().get("x-empty"), Some("".to_string()));

    let step = session.step(line("\n"));
    assert_eq!(
        step.record.unwrap().to_json(),
        "{\"accept\":\" */*\",\"host\":\" b\",\"x-empty\":\"\"}"
    );
    assert!(matches!(step.action, Action::Write(_)));
    assert_eq!(session.headers().len(), 3);
}

#[test]
fn blank_line_is_never_taken_in_as_a_header() {
    let mut session = reading_headers();
    session.step(line("\r\n"));
    assert!(session.headers().is_empty());
    assert!(!session.headers().contains(""));
}

#[test]
fn unterminated_last_header_is_taken_in() {
    let mut session = reading_headers();
    let step = session.step(line("Host: a"));
    assert!(matches!(step.action, Action::ReadLine));
    assert_eq!(session.headers().get("host"), Some(" a".to_string()));
    let step = session.step(line(""));
    assert!(matches!(step.action, Action::Write(_)));
}

#[test]
fn lone_carriage_return_is_a_header_line() {
    let mut session = reading_headers();
    let step = session.step(line("\r"));
    assert!(matches!(step.action, Action::ReadLine));
    assert_eq!(session.headers().get("\r"), Some("".to_string()));
}

#[test]
fn input_that_ends_before_the_request_line_fails() {
    let (mut session, _) = Session::start();
    session.step(Event::Done);
    session.step(Event::Peer(peer()));
    let step = session.step(line(""));
    assert!(step.record.is_none());
    assert!(matches!(
        step.action,
        Action::Abort(ConnectionError::ClosedEarly)
    ));
    assert_eq!(session.phase(), Phase::Closed);
    assert!(session.request_line().is_none());
}

#[test]
fn input_that_ends_within_the_request_line_fails() {
    let (mut session, _) = Session::start();
    session.step(Event::Done);
    session.step(Event::Peer(peer()));
    let step = session.step(line("GET / HT"));
    assert!(step.record.is_none());
    assert!(matches!(
        step.action,
        Action::Abort(ConnectionError::ClosedEarly)
    ));
    assert_eq!(session.phase(), Phase::Closed);
}

#[test]
fn failure_to_switch_off_coalescing_aborts() {
    let (mut session, _) = Session::start();
    let step = session.step(Event::Failed("not a socket".to_string()));
    assert!(step.record.is_none());
    assert_eq!(io_abort(&step), (Stage::NoDelay, "not a socket".to_string()));
    assert_eq!(session.phase(), Phase::Closed);
}

#[test]
fn failure_to_resolve_the_peer_aborts() {
    let (mut session, _) = Session::start();
    session.step(Event::Done);
    let step = session.step(Event::Failed("not connected".to_string()));
    assert_eq!(io_abort(&step), (Stage::PeerAddr, "not connected".to_string()));
    assert_eq!(session.phase(), Phase::Closed);
}

#[test]
fn failure_to_read_the_request_line_aborts() {
    let (mut session, _) = Session::start();
    session.step(Event::Done);
    session.step(Event::Peer(peer()));
    let step = session.step(Event::Failed("reset".to_string()));
    assert_eq!(io_abort(&step), (Stage::Read, "reset".to_string()));
    assert_eq!(session.phase(), Phase::Closed);
}

#[test]
fn failure_to_read_a_header_aborts_without_a_response() {
    let mut session = reading_headers();
    session.step(line("Host: a\r\n"));
    let step = session.step(Event::Failed("invalid utf-8".to_string()));
    assert!(step.record.is_none());
    assert_eq!(io_abort(&step), (Stage::Read, "invalid utf-8".to_string()));
    assert_eq!(session.phase(), Phase::Closed);
}

#[test]
fn failure_to_write_aborts() {
    let mut session = reading_headers();
    session.step(line("\r\n"));
    let step = session.step(Event::Failed("broken pipe".to_string()));
    assert_eq!(io_abort(&step), (Stage::Write, "broken pipe".to_string()));
    assert_eq!(session.phase(), Phase::Closed);
}

#[test]
fn failure_to_flush_aborts() {
    let mut session = reading_headers();
    session.step(line("\r\n"));
    session.step(Event::Done);
    let step = session.step(Event::Failed("broken pipe".to_string()));
    assert_eq!(io_abort(&step), (Stage::Flush, "broken pipe".to_string()));
    assert_eq!(session.phase(), Phase::Closed);
}

#[test]
fn event_out_of_turn_aborts() {
    let (mut session, _) = Session::start();
    let step = session.step(line("GET / HTTP/1.1\r\n"));
    assert!(step.record.is_none());
    assert!(matches!(
        step.action,
        Action::Abort(ConnectionError::OutOfTurn)
    ));
    assert_eq!(session.phase(), Phase::Closed);

    let mut session = reading_headers();
    let step = session.step(Event::Done);
    assert!(matches!(
        step.action,
        Action::Abort(ConnectionError::OutOfTurn)
    ));
    assert_eq!(session.phase(), Phase::Closed);

    let mut session = reading_headers();
    let step = session.step(Event::Peer(peer()));
    assert!(matches!(
        step.action,
        Action::Abort(ConnectionError::OutOfTurn)
    ));
}

#[test]
fn closed_session_stays_closed() {
    let mut session = reading_headers();
    session.step(line("Host: a\r\n"));
    session.step(line("\r\n"));
    session.step(Event::Done);
    session.step(Event::Done);
    assert_eq!(session.phase(), Phase::Closed);
    for event in [
        Event::Done,
        line("Host: b\r\n"),
        Event::Peer(peer()),
        Event::Failed("late".to_string()),
    ] {
        let step = session.step(event);
        assert!(step.record.is_none());
        assert!(matches!(
            step.action,
            Action::Abort(ConnectionError::OutOfTurn)
        ));
        assert_eq!(session.phase(), Phase::Closed);
    }
    assert_eq!(session.headers().get("host"), Some(" a".to_string()));
    assert_eq!(session.request_line().unwrap(), "GET / HTTP/1.1\r\n");
}

#[test]
fn interleaved_sessions_do_not_affect_each_other() {
    let (mut first, _) = Session::start();
    let (mut second, _) = Session::start();
    first.step(Event::Done);
    second.step(Event::Done);
    first.step(Event::Peer(Address {
        endpoint: "10.0.0.1:1111".to_string(),
        ip: "10.0.0.1".to_string(),
    }));
    second.step(Event::Peer(Address {
        endpoint: "10.0.0.2:2222".to_string(),
        ip: "10.0.0.2".to_string(),
    }));
    first.step(line("GET /one HTTP/1.1\r\n"));
    second.step(line("GET /two HTTP/1.1\r\n"));
    first.step(line("Host: one\r\n"));
    let step = second.step(line("\r\n"));
    match &step.action {
        Action::Write(text) => assert_eq!(text, "HTTP/1.1 200 OK\r\n\r\n10.0.0.2\r\n"),
        other => panic!("unexpected action: {:?}", other),
    }
    assert_eq!(step.record.unwrap().to_json(), "{}");
    assert_eq!(first.phase(), Phase::Headers);
    let step = first.step(line("\r\n"));
    match &step.action {
        Action::Write(text) => assert_eq!(text, "HTTP/1.1 200 OK\r\n\r\n10.0.0.1\r\n"),
        other => panic!("unexpected action: {:?}", other),
    }
    assert_eq!(step.record.unwrap().to_json(), "{\"host\":\" one\"}");
}
