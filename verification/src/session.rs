//! The life of one connection, as a state machine.
//!
//! The machine decides; whoever owns the socket reads, writes and reports what
//! happened. A session holds the request at hand and the response to it, and
//! no register data: it reaches the bank only while it runs a request.

use crate::bank::{BankState, RegisterBank};
use crate::error::ServerError;
use crate::executor::{
    decline, declined, error_in, execute, execute_spec, reply_spec, serve_spec,
};
use crate::frame::{lemma_answered, parse_spec, Request, RequestView};
use vstd::prelude::*;

verus! {

/// Where a connection stands.
#[derive(Clone, Copy, Debug, PartialEq, Eq, Structural)]
pub enum SessionState {
    /// Waiting for bytes from the peer.
    Reading,
    /// Bytes have arrived and are to be parsed.
    Parsing,
    /// A request is to be run against the bank.
    Executing,
    /// A response is to be written to the peer.
    Responding,
    /// The connection is over. Nothing follows.
    Closed,
}

/// What happened to a connection.
#[derive(Clone, Copy, Debug, PartialEq, Eq, Structural)]
pub enum Event {
    /// A read returned this many bytes; none means that the peer has closed.
    Received { bytes: usize },
    /// A read failed.
    ReceiveFailed,
    /// The bytes were parsed into a request with these two marks.
    Parsed { processing_required: bool, response_required: bool },
    /// The bytes were no sound frame.
    ParseFailed,
    /// The request was run; the mark is that of the request.
    Executed { response_required: bool },
    /// The response was written.
    Sent,
    /// Writing the response failed.
    SendFailed,
}

/// A state and, where the connection ends in an error, that error.
#[derive(Clone, Copy, Debug, PartialEq, Eq, Structural)]
pub struct Step {
    /// The state after the event.
    pub state: SessionState,
    /// The error to report, if the event was one.
    pub error: Option<ServerError>,
}

/// Where a request goes once it is parsed or run: to be run if it still needs
/// to be, else to be answered if the client waits, else back to reading.
pub open spec fn route(processing_required: bool, response_required: bool) -> SessionState {
    if processing_required {
        SessionState::Executing
    } else if response_required {
        SessionState::Responding
    } else {
        SessionState::Reading
    }
}

/// The state that follows `state` on `event`.
///
/// A peer that closes ends the session without an error. A failed read or
/// write ends it with `ServerError::Io`, bytes that are no frame with
/// `ServerError::Framing`. An event that the state does not wait for changes
/// nothing, and nothing leads out of `Closed`.
pub open spec fn step_spec(state: SessionState, event: Event) -> Step {
    match (state, event) {
        (SessionState::Reading, Event::Received { bytes }) => if bytes == 0 {
            Step { state: SessionState::Closed, error: None }
        } else {
            Step { state: SessionState::Parsing, error: None }
        },
        (SessionState::Reading, Event::ReceiveFailed) => Step {
            state: SessionState::Closed,
            error: Some(ServerError::Io),
        },
        (SessionState::Parsing, Event::Parsed { processing_required, response_required }) => Step {
            state: route(processing_required, response_required),
            error: None,
        },
        (SessionState::Parsing, Event::ParseFailed) => Step {
            state: SessionState::Closed,
            error: Some(ServerError::Framing),
        },
        (SessionState::Executing, Event::Executed { response_required }) => Step {
            state: route(false, response_required),
            error: None,
        },
        (SessionState::Responding, Event::Sent) => Step {
            state: SessionState::Reading,
            error: None,
        },
        (SessionState::Responding, Event::SendFailed) => Step {
            state: SessionState::Closed,
            error: Some(ServerError::Io),
        },
        _ => Step { state, error: None },
    }
}

/// The state that follows `state` on `event`, and the error to report if the
/// connection ends in one.
pub fn step(state: SessionState, event: Event) -> (next: Step)
    ensures
        next == step_spec(state, event),
        state == SessionState::Closed ==> next.state == SessionState::Closed && next.error is None,
        next.error matches Some(e) ==> next.state == SessionState::Closed && e.fatal(),
{
    match state {
        SessionState::Reading => match event {
            Event::Received { bytes } => if bytes == 0 {
                Step { state: SessionState::Closed, error: None }
            } else {
                Step { state: SessionState::Parsing, error: None }
            },
            Event::ReceiveFailed => Step {
                state: SessionState::Closed,
                error: Some(ServerError::Io),
            },
            _ => Step { state, error: None },
        },
        SessionState::Parsing => match event {
            Event::Parsed { processing_required, response_required } => Step {
                state: next_stop(processing_required, response_required),
                error: None,
            },
            Event::ParseFailed => Step {
                state: SessionState::Closed,
                error: Some(ServerError::Framing),
            },
            _ => Step { state, error: None },
        },
        SessionState::Executing => match event {
            Event::Executed { response_required } => Step {
                state: next_stop(false, response_required),
                error: None,
            },
            _ => Step { state, error: None },
        },
        SessionState::Responding => match event {
            Event::Sent => Step { state: SessionState::Reading, error: None },
            Event::SendFailed => Step { state: SessionState::Closed, error: Some(ServerError::Io) },
            _ => Step { state, error: None },
        },
        SessionState::Closed => Step { state, error: None },
    }
}

/// Where a request goes once it is parsed or run.
fn next_stop(processing_required: bool, response_required: bool) -> (state: SessionState)
    ensures
        state == route(processing_required, response_required),
{
    if processing_required {
        SessionState::Executing
    } else if response_required {
        SessionState::Responding
    } else {
        SessionState::Reading
    }
}

/// A session as the contracts see it.
pub struct SessionView {
    /// The unit id of the server.
    pub unit: u8,
    /// Where the session stands.
    pub state: SessionState,
    /// The request at hand, once one is parsed.
    pub request: Option<RequestView>,
    /// The error that the request at hand ran into, if any.
    pub fault: Option<ServerError>,
    /// The frame that answers the request at hand, if one does.
    pub reply: Option<Seq<u8>>,
    /// The error that closed the session, if one did.
    pub error: Option<ServerError>,
}

impl SessionView {
    /// A session that waits for its first bytes.
    pub open spec fn start(unit: u8) -> SessionView {
        SessionView {
            unit,
            state: SessionState::Reading,
            request: None,
            fault: None,
            reply: None,
            error: None,
        }
    }

    /// This session in the state that follows on `event`, with the error if the
    /// event was one, and nothing at hand any more.
    pub open spec fn cleared(self, event: Event) -> SessionView {
        SessionView {
            state: step_spec(self.state, event).state,
            request: None,
            fault: None,
            reply: None,
            error: step_spec(self.state, event).error,
            ..self
        }
    }

    /// The session after a read that returned `bytes` bytes. Only a session
    /// that is reading takes it.
    pub open spec fn received(self, bytes: usize) -> SessionView {
        if self.state == SessionState::Reading {
            self.cleared(Event::Received { bytes })
        } else {
            self
        }
    }

    /// The session after a read that failed.
    pub open spec fn receive_failed(self) -> SessionView {
        if self.state == SessionState::Reading {
            self.cleared(Event::ReceiveFailed)
        } else {
            self
        }
    }

    /// The session after it has parsed the bytes `adu`. A request that is not
    /// to be run has its outcome at once: its fault and the exception response.
    pub open spec fn parsed(self, adu: Seq<u8>) -> SessionView {
        if self.state != SessionState::Parsing {
            self
        } else {
            match parse_spec(self.unit, adu) {
                Err(e) => self.cleared(Event::ParseFailed),
                Ok(q) => SessionView {
                    state: route(q.processing_required, q.response_required),
                    request: Some(q),
                    fault: q.fault,
                    reply: if q.processing_required {
                        None
                    } else {
                        reply_spec(q, declined(q))
                    },
                    ..self
                },
            }
        }
    }

    /// The session and the bank after the session has run its request. Only a
    /// session that is executing touches the bank.
    pub open spec fn ran(self, bank: BankState) -> (SessionView, BankState) {
        if self.state == SessionState::Executing && self.request is Some {
            let q = self.request.unwrap();
            (
                SessionView {
                    state: route(false, q.response_required),
                    fault: error_in(execute_spec(bank, q).1),
                    reply: reply_spec(q, execute_spec(bank, q).1),
                    ..self
                },
                execute_spec(bank, q).0,
            )
        } else {
            (self, bank)
        }
    }

    /// The session after its response was written.
    pub open spec fn sent(self) -> SessionView {
        if self.state == SessionState::Responding {
            SessionView { state: SessionState::Reading, reply: None, ..self }
        } else {
            self
        }
    }

    /// The session after writing its response failed.
    pub open spec fn send_failed(self) -> SessionView {
        if self.state == SessionState::Responding {
            self.cleared(Event::SendFailed)
        } else {
            self
        }
    }
}

/// One connection: where it stands, the request at hand and the response to it.
pub struct Session {
    unit: u8,
    state: SessionState,
    request: Option<Request>,
    fault: Option<ServerError>,
    reply: Option<Vec<u8>>,
    error: Option<ServerError>,
}

impl View for Session {
    type V = SessionView;

    closed spec fn view(&self) -> SessionView {
        SessionView {
            unit: self.unit,
            state: self.state,
            request: match self.request {
                Some(q) => Some(q@),
                None => None,
            },
            fault: self.fault,
            reply: match self.reply {
                Some(bytes) => Some(bytes@),
                None => None,
            },
            error: self.error,
        }
    }
}

impl Session {
    /// A session that is to run a request has one that needs it; a session that
    /// is to respond has a response; and only a closed session has an error.
    #[verifier::type_invariant]
    pub open spec fn sound(self) -> bool {
        &&& self@.state == SessionState::Executing ==> self@.request is Some
            && self@.request.unwrap().processing_required && parse_spec(
            self@.request.unwrap().server_unit,
            self@.request.unwrap().adu,
        ) == Ok::<RequestView, ServerError>(self@.request.unwrap())
        &&& self@.state == SessionState::Responding ==> self@.reply is Some
        &&& self@.error is Some ==> self@.state == SessionState::Closed
    }

    /// A session for a server with unit id `unit`, waiting for its first bytes.
    pub fn new(unit: u8) -> (session: Session)
        ensures
            session@ == SessionView::start(unit),
    {
        Session {
            unit,
            state: SessionState::Reading,
            request: None,
            fault: None,
            reply: None,
            error: None,
        }
    }

    /// Where the session stands.
    pub fn state(&self) -> (state: SessionState)
        ensures
            state == self@.state,
            self.sound(),
    {
        proof {
            use_type_invariant(self);
        }
        self.state
    }

    /// The error that closed the session: none while it is open, and none
    /// after the peer has closed.
    pub fn error(&self) -> (error: Option<ServerError>)
        ensures
            error == self@.error,
    {
        self.error
    }

    /// The error that the request at hand ran into, if any. It is answered
    /// with an exception response and does not close the session.
    pub fn fault(&self) -> (fault: Option<ServerError>)
        ensures
            fault == self@.fault,
    {
        self.fault
    }

    /// The request at hand, once one is parsed.
    pub fn request(&self) -> (request: Option<&Request>)
        ensures
            request is Some <==> self@.request is Some,
            request matches Some(q) ==> self@.request == Some(q@),
    {
        self.request.as_ref()
    }

    /// The frame to write to the peer: there is one whenever the session is
    /// responding.
    pub fn response(&self) -> (bytes: Option<&Vec<u8>>)
        ensures
            bytes is Some <==> self@.reply is Some,
            bytes matches Some(b) ==> self@.reply == Some(b@),
            self@.state == SessionState::Responding ==> bytes is Some,
    {
        proof {
            use_type_invariant(self);
        }
        self.reply.as_ref()
    }

    /// A session in a new state, with nothing at hand.
    fn cleared(self, event: Event) -> (next: Session)
        requires
            step_spec(self@.state, event).state != SessionState::Executing,
            step_spec(self@.state, event).state != SessionState::Responding,
        ensures
            next@ == self@.cleared(event),
    {
        let after = step(self.state, event);
        Session {
            unit: self.unit,
            state: after.state,
            request: None,
            fault: None,
            reply: None,
            error: after.error,
        }
    }

    /// A read returned `bytes` bytes: the session goes on to parse them, or,
    /// if there are none, closes without an error.
    pub fn received(self, bytes: usize) -> (next: Session)
        ensures
            next@ == self@.received(bytes),
    {
        if self.state == SessionState::Reading {
            self.cleared(Event::Received { bytes })
        } else {
            self
        }
    }

    /// A read failed: the session closes with `ServerError::Io`.
    pub fn receive_failed(self) -> (next: Session)
        ensures
            next@ == self@.receive_failed(),
    {
        if self.state == SessionState::Reading {
            self.cleared(Event::ReceiveFailed)
        } else {
            self
        }
    }

    /// Parses the bytes that were read. Bytes that are no sound frame close
    /// the session with `ServerError::Framing`; a request goes on to be run, to
    /// be answered, or back to reading.
    pub fn parse(self, adu: &[u8]) -> (next: Session)
        ensures
            next@ == self@.parsed(adu@),
    {
        proof {
            use_type_invariant(&self);
        }
        if self.state != SessionState::Parsing {
            return self;
        }
        match Request::parse(self.unit, adu) {
            Err(_) => self.cleared(Event::ParseFailed),
            Ok(request) => {
                let after = step(
                    self.state,
                    Event::Parsed {
                        processing_required: request.processing_required(),
                        response_required: request.response_required(),
                    },
                );
                proof {
                    assert(request@.server_unit == self.unit && request@.adu == adu@);
                    lemma_answered(request@);
                }
                if request.processing_required() {
                    Session {
                        unit: self.unit,
                        state: after.state,
                        fault: request.fault(),
                        request: Some(request),
                        reply: None,
                        error: self.error,
                    }
                } else {
                    let outcome = decline(&request);
                    Session {
                        unit: self.unit,
                        state: after.state,
                        request: Some(request),
                        fault: outcome.fault,
                        reply: outcome.reply,
                        error: self.error,
                    }
                }
            },
        }
    }

    /// Runs the request at hand against the bank. A session that is not
    /// executing leaves the bank alone.
    pub fn run(self, bank: &mut RegisterBank) -> (next: Session)
        ensures
            (next@, final(bank)@) == self@.ran(old(bank)@),
            self@.state != SessionState::Executing ==> final(bank)@ == old(bank)@ && next@
                == self@,
    {
        proof {
            use_type_invariant(&self);
        }
        if self.state != SessionState::Executing {
            return self;
        }
        match self.request {
            None => Session {
                unit: self.unit,
                state: SessionState::Closed,
                request: None,
                fault: None,
                reply: None,
                error: None,
            },
            Some(request) => {
                let outcome = execute(bank, &request);
                let after = step(
                    self.state,
                    Event::Executed { response_required: request.response_required() },
                );
                proof {
                    lemma_answered(request@);
                }
                Session {
                    unit: self.unit,
                    state: after.state,
                    request: Some(request),
                    fault: outcome.fault,
                    reply: outcome.reply,
                    error: self.error,
                }
            },
        }
    }

    /// The response was written: the session reads on.
    pub fn sent(self) -> (next: Session)
        ensures
            next@ == self@.sent(),
    {
        proof {
            use_type_invariant(&self);
        }
        if self.state == SessionState::Responding {
            let after = step(self.state, Event::Sent);
            Session {
                unit: self.unit,
                state: after.state,
                request: self.request,
                fault: self.fault,
                reply: None,
                error: self.error,
            }
        } else {
            self
        }
    }

    /// Writing the response failed: the session closes with `ServerError::Io`.
    pub fn send_failed(self) -> (next: Session)
        ensures
            next@ == self@.send_failed(),
    {
        if self.state == SessionState::Responding {
            self.cleared(Event::SendFailed)
        } else {
            self
        }
    }
}

/// A peer that closes its side, so that a read returns no bytes, ends the
/// session at once and without an error. Nothing of it is left, and no bank
/// is touched: closing is a matter of the session alone.
pub proof fn law_orderly_close(s: SessionView)
    requires
        s.state == SessionState::Reading,
    ensures
        step_spec(SessionState::Reading, Event::Received { bytes: 0 }) == (Step {
            state: SessionState::Closed,
            error: None,
        }),
        s.received(0).state == SessionState::Closed,
        s.received(0).error is None,
        s.received(0).request is None,
        s.received(0).reply is None,
{
}

/// A closed session stays closed whatever happens: it takes no bytes, runs
/// nothing, leaves every bank as it is and reports nothing more.
pub proof fn law_closed_is_final(s: SessionView, event: Event, adu: Seq<u8>, bank: BankState)
    requires
        s.state == SessionState::Closed,
    ensures
        step_spec(SessionState::Closed, event) == (Step {
            state: SessionState::Closed,
            error: None,
        }),
        forall|bytes: usize| s.received(bytes) == s,
        s.receive_failed() == s,
        s.parsed(adu) == s,
        s.ran(bank) == (s, bank),
        s.sent() == s,
        s.send_failed() == s,
{
}

/// A session ends only when the peer closes, a read or write fails, or bytes
/// are no sound frame: no request, whatever its fault, closes the connection.
pub proof fn law_requests_keep_open(state: SessionState, event: Event)
    requires
        state != SessionState::Closed,
        step_spec(state, event).state == SessionState::Closed,
    ensures
        event == (Event::Received { bytes: 0 }) || event == Event::ReceiveFailed || event
            == Event::ParseFailed || event == Event::SendFailed,
{
}

/// Parsing closes a session exactly on a framing error, and running a request
/// never closes it.
pub proof fn law_faults_keep_open(s: SessionView, adu: Seq<u8>, bank: BankState)
    requires
        s.state != SessionState::Closed,
    ensures
        s.parsed(adu).state == SessionState::Closed <==> s.state == SessionState::Parsing
            && parse_spec(s.unit, adu) is Err,
        s.parsed(adu).state == SessionState::Closed ==> s.parsed(adu).error == Some(
            ServerError::Framing,
        ),
        s.ran(bank).0.state != SessionState::Closed,
{
}

/// Only a session that is executing changes the bank.
pub proof fn law_bank_untouched(s: SessionView, bank: BankState)
    requires
        s.state != SessionState::Executing,
    ensures
        s.ran(bank) == (s, bank),
{
}

/// A session that reads the bytes of a frame, parses them and runs the request
/// does to the bank what `serve_spec` says, and ends up with the response that
/// `serve_spec` gives, to be written if there is one.
pub proof fn law_session_serves(s: SessionView, bytes: usize, adu: Seq<u8>, bank: BankState)
    requires
        s.state == SessionState::Reading,
        bytes > 0,
    ensures
        ({
            let parsed = s.received(bytes).parsed(adu);
            let (after, changed) = parsed.ran(bank);
            let expected = serve_spec(bank, s.unit, adu);
            &&& changed == expected.0
            &&& expected.1 matches Err(e) ==> after.state == SessionState::Closed && after.error
                == Some(e)
            &&& expected.1 matches Ok(reply) ==> {
                &&& after.error is None
                &&& after.reply == reply
                &&& after.state == if reply is Some {
                    SessionState::Responding
                } else {
                    SessionState::Reading
                }
            }
        }),
{
    let parsed = s.received(bytes).parsed(adu);
    match parse_spec(s.unit, adu) {
        Err(e) => {},
        Ok(q) => {
            lemma_answered(q);
        },
    }
}

} // verus!
