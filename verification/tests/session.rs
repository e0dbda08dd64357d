use modbus_server::bank::RegisterBank;
use modbus_server::error::ServerError;
use modbus_server::session::{step, Event, Session, SessionState, Step};

fn after(state: SessionState, event: Event) -> (SessionState, Option<ServerError>) {
    let Step { state, error } = step(state, event);
    (state, error)
}

#[test]
fn peer_that_closes_ends_the_session_without_an_error() {
    assert_eq!(
        after(SessionState::Reading, Event::Received { bytes: 0 }),
        (SessionState::Closed, None)
    );
}

#[test]
fn bytes_are_parsed() {
    assert_eq!(
        after(SessionState::Reading, Event::Received { bytes: 12 }),
        (SessionState::Parsing, None)
    );
    assert_eq!(
        after(SessionState::Reading, Event::Received { bytes: 1 }),
        (SessionState::Parsing, None)
    );
}

#[test]
fn failed_read_is_an_io_error() {
    assert_eq!(
        after(SessionState::Reading, Event::ReceiveFailed),
        (SessionState::Closed, Some(ServerError::Io))
    );
}

#[test]
fn parsed_request_goes_where_its_marks_say() {
    let parsed = |processing_required, response_required| Event::Parsed {
        processing_required,
        response_required,
    };
    assert_eq!(after(SessionState::Parsing, parsed(true, true)), (SessionState::Executing, None));
    assert_eq!(after(SessionState::Parsing, parsed(true, false)), (SessionState::Executing, None));
    assert_eq!(after(SessionState::Parsing, parsed(false, true)), (SessionState::Responding, None));
    assert_eq!(after(SessionState::Parsing, parsed(false, false)), (SessionState::Reading, None));
}

#[test]
fn unsound_frame_closes_with_a_framing_error() {
    assert_eq!(
        after(SessionState::Parsing, Event::ParseFailed),
        (SessionState::Closed, Some(ServerError::Framing))
    );
}

#[test]
fn executed_request_is_answered_if_the_client_waits() {
    assert_eq!(
        after(SessionState::Executing, Event::Executed { response_required: true }),
        (SessionState::Responding, None)
    );
    assert_eq!(
        after(SessionState::Executing, Event::Executed { response_required: false }),
        (SessionState::Reading, None)
    );
}

#[test]
fn response_sent_returns_to_reading() {
    assert_eq!(after(SessionState::Responding, Event::Sent), (SessionState::Reading, None));
}

#[test]
fn failed_write_is_an_io_error() {
    assert_eq!(
        after(SessionState::Responding, Event::SendFailed),
        (SessionState::Closed, Some(ServerError::Io))
    );
}

#[test]
fn closed_session_stays_closed() {
    let events = [
        Event::Received { bytes: 0 },
        Event::Received { bytes: 5 },
        Event::ReceiveFailed,
        Event::Parsed { processing_required: true, response_required: true },
        Event::ParseFailed,
        Event::Executed { response_required: true },
        Event::Sent,
        Event::SendFailed,
    ];
    for event in events {
        assert_eq!(after(SessionState::Closed, event), (SessionState::Closed, None));
    }
}

#[test]
fn event_out_of_place_changes_nothing() {
    assert_eq!(after(SessionState::Reading, Event::Sent), (SessionState::Reading, None));
    assert_eq!(after(SessionState::Reading, Event::ParseFailed), (SessionState::Reading, None));
    assert_eq!(
        after(SessionState::Parsing, Event::Received { bytes: 0 }),
        (SessionState::Parsing, None)
    );
    assert_eq!(after(SessionState::Executing, Event::SendFailed), (SessionState::Executing, None));
    assert_eq!(
        after(SessionState::Responding, Event::ReceiveFailed),
        (SessionState::Responding, None)
    );
}

#[test]
fn one_exchange_walks_the_whole_circle() {
    let mut state = SessionState::Reading;
    let events = [
        Event::Received { bytes: 12 },
        Event::Parsed { processing_required: true, response_required: true },
        Event::Executed { response_required: true },
        Event::Sent,
    ];
    let expected = [
        SessionState::Parsing,
        SessionState::Executing,
        SessionState::Responding,
        SessionState::Reading,
    ];
    for (event, wanted) in events.into_iter().zip(expected) {
        let next = step(state, event);
        assert_eq!(next.error, None);
        assert_eq!(next.state, wanted);
        state = next.state;
    }
}

#[test]
fn new_session_is_reading() {
    let session = Session::new(1);
    assert_eq!(session.state(), SessionState::Reading);
    assert_eq!(session.error(), None);
    assert_eq!(session.fault(), None);
    assert!(session.request().is_none());
    assert!(session.response().is_none());
}

#[test]
fn session_of_a_peer_that_closes_at_once() {
    let session = Session::new(1).received(0);
    assert_eq!(session.state(), SessionState::Closed);
    assert_eq!(session.error(), None);
    assert!(session.request().is_none());
    assert!(session.response().is_none());
}

#[test]
fn session_serves_a_read() {
    let mut bank = RegisterBank::new();
    let adu = [1u8, 2, 0, 0, 0, 6, 1, 0x03, 0, 0, 0, 2];
    let session = Session::new(1).received(adu.len());
    assert_eq!(session.state(), SessionState::Parsing);
    let session = session.parse(&adu);
    assert_eq!(session.state(), SessionState::Executing);
    assert!(session.response().is_none());
    assert_eq!(session.request().map(|q| q.function()), Some(3));
    let session = session.run(&mut bank);
    assert_eq!(session.state(), SessionState::Responding);
    assert_eq!(session.fault(), None);
    assert_eq!(
        session.response(),
        Some(&vec![1u8, 2, 0, 0, 0, 7, 1, 0x03, 4, 0, 0, 0, 0])
    );
    let session = session.sent();
    assert_eq!(session.state(), SessionState::Reading);
    assert!(session.response().is_none());
    assert_eq!(session.error(), None);
}

#[test]
fn session_answers_a_fault_and_stays_open() {
    let mut bank = RegisterBank::new();
    // unknown function: answered without being run
    let adu = [0u8, 3, 0, 0, 0, 6, 1, 0x2B, 0, 0, 0, 0];
    let session = Session::new(1).received(adu.len()).parse(&adu);
    assert_eq!(session.state(), SessionState::Responding);
    assert_eq!(session.fault(), Some(ServerError::UnsupportedFunction));
    assert_eq!(session.error(), None);
    assert_eq!(session.response(), Some(&vec![0u8, 3, 0, 0, 0, 3, 1, 0xAB, 1]));
    let session = session.sent();
    assert_eq!(session.state(), SessionState::Reading);
    // a read past the end: run, answered with an exception
    let adu = [0u8, 4, 0, 0, 0, 6, 1, 0x03, 0xFF, 0xFF, 0, 2];
    let session = session.received(adu.len()).parse(&adu);
    assert_eq!(session.state(), SessionState::Executing);
    let session = session.run(&mut bank);
    assert_eq!(session.state(), SessionState::Responding);
    assert_eq!(session.fault(), Some(ServerError::Range));
    assert_eq!(session.error(), None);
    assert_eq!(session.response(), Some(&vec![0u8, 4, 0, 0, 0, 3, 1, 0x83, 2]));
    // a byte count that contradicts the quantity: answered without being run
    let session = session.sent();
    let adu = [0u8, 8, 0, 0, 0, 10, 1, 0x10, 0, 0, 0, 2, 3, 1, 2, 3];
    let session = session.received(adu.len()).parse(&adu);
    assert_eq!(session.state(), SessionState::Responding);
    assert_eq!(session.fault(), Some(ServerError::MalformedPayload));
    assert_eq!(session.response(), Some(&vec![0u8, 8, 0, 0, 0, 3, 1, 0x90, 3]));
    assert_eq!(session.sent().state(), SessionState::Reading);
}

#[test]
fn session_closes_on_an_unsound_frame() {
    let adu = [0u8, 1, 0, 9, 0, 6, 1, 0x03, 0, 0, 0, 1];
    let session = Session::new(1).received(adu.len()).parse(&adu);
    assert_eq!(session.state(), SessionState::Closed);
    assert_eq!(session.error(), Some(ServerError::Framing));
    assert!(session.response().is_none());
}

#[test]
fn session_closes_on_failed_io() {
    let session = Session::new(1).receive_failed();
    assert_eq!(session.state(), SessionState::Closed);
    assert_eq!(session.error(), Some(ServerError::Io));
    let mut bank = RegisterBank::new();
    let adu = [0u8, 1, 0, 0, 0, 6, 1, 0x01, 0, 0, 0, 1];
    let session = Session::new(1).received(adu.len()).parse(&adu).run(&mut bank);
    assert_eq!(session.state(), SessionState::Responding);
    let session = session.send_failed();
    assert_eq!(session.state(), SessionState::Closed);
    assert_eq!(session.error(), Some(ServerError::Io));
    assert!(session.response().is_none());
}

#[test]
fn session_goes_back_to_reading_where_no_answer_is_due() {
    let mut bank = RegisterBank::new();
    // for another unit
    let adu = [0u8, 1, 0, 0, 0, 6, 9, 0x06, 0, 0, 0, 1];
    let session = Session::new(1).received(adu.len()).parse(&adu);
    assert_eq!(session.state(), SessionState::Reading);
    assert!(session.response().is_none());
    // broadcast write
    let adu = [0u8, 1, 0, 0, 0, 6, 0, 0x06, 0, 0, 0, 1];
    let session = session.received(adu.len()).parse(&adu);
    assert_eq!(session.state(), SessionState::Executing);
    let session = session.run(&mut bank);
    assert_eq!(session.state(), SessionState::Reading);
    assert!(session.response().is_none());
    assert_eq!(bank.get_holdings(0, 1), Ok(vec![1u16]));
}

#[test]
fn closed_session_does_nothing_more() {
    let mut bank = RegisterBank::new();
    bank.set_holding(0, 5);
    let adu = [0u8, 1, 0, 0, 0, 6, 1, 0x06, 0, 0, 0, 9];
    let session = Session::new(1).received(0);
    let session = session.received(12).parse(&adu).run(&mut bank).sent().send_failed();
    let session = session.receive_failed();
    assert_eq!(session.state(), SessionState::Closed);
    assert_eq!(session.error(), None);
    assert!(session.request().is_none());
    assert!(session.response().is_none());
    assert_eq!(bank.get_holdings(0, 1), Ok(vec![5u16]));
}

#[test]
fn session_step_out_of_place_changes_nothing() {
    let mut bank = RegisterBank::new();
    let adu = [0u8, 1, 0, 0, 0, 6, 1, 0x06, 0, 0, 0, 9];
    // a session that is reading neither parses nor runs
    let session = Session::new(1).parse(&adu).run(&mut bank).sent().send_failed();
    assert_eq!(session.state(), SessionState::Reading);
    assert_eq!(bank.get_holdings(0, 1), Ok(vec![0u16]));
    // a session that is executing takes no bytes and does not parse again
    let session = session.received(12).parse(&adu);
    assert_eq!(session.state(), SessionState::Executing);
    let other = [0u8, 1, 0, 0, 0, 6, 1, 0x06, 0, 7, 0, 7];
    let session = session.received(12).receive_failed().parse(&other).sent();
    assert_eq!(session.state(), SessionState::Executing);
    let session = session.run(&mut bank);
    assert_eq!(bank.get_holdings(0, 1), Ok(vec![9u16]));
    assert_eq!(bank.get_holdings(7, 1), Ok(vec![0u16]));
    // a session that is responding runs nothing
    let session = session.run(&mut bank).received(3);
    assert_eq!(session.state(), SessionState::Responding);
    assert_eq!(session.response(), Some(&adu.to_vec()));
}

#[test]
fn two_sessions_share_one_bank() {
    let mut bank = RegisterBank::new();
    let write = [0u8, 1, 0, 0, 0, 6, 1, 0x05, 0, 0x2A, 0xFF, 0];
    let read = [0u8, 2, 0, 0, 0, 6, 1, 0x01, 0, 0x2A, 0, 1];
    let one = Session::new(1).received(12).parse(&write).run(&mut bank);
    let two = Session::new(1).received(12).parse(&read).run(&mut bank);
    assert_eq!(one.response(), Some(&write.to_vec()));
    assert_eq!(two.response(), Some(&vec![0u8, 2, 0, 0, 0, 4, 1, 0x01, 1, 1]));
    // the first session ends; the second goes on and still sees the coil
    let one = one.send_failed();
    assert_eq!(one.state(), SessionState::Closed);
    let two = two.sent().received(12).parse(&read).run(&mut bank);
    assert_eq!(two.response(), Some(&vec![0u8, 2, 0, 0, 0, 4, 1, 0x01, 1, 1]));
}
