//! One connection, as a state machine.
//!
//! A [`Session`] never touches a socket. It is told what happened (an
//! [`Event`]) and answers with what to do next (a [`Step`]): the caller
//! carries out the action, and comes back with the event that followed.

use crate::header_set::{with_line, HeaderSet};
use crate::json::Fields;
use crate::record::{Record, RecordView};
use crate::wire::{
    compose_response, ends_line, is_terminated, line_content, response, strip_terminator,
};
use vstd::prelude::*;
use vstd::string::*;

verus! {

/// A transport endpoint, in the two renderings the logic reads.
#[derive(Debug, PartialEq, Eq)]
pub struct Address {
    /// The whole endpoint, address and port.
    pub endpoint: String,
    /// The IP address alone.
    pub ip: String,
}

/// The mathematical content of an [`Address`].
pub struct AddressView {
    pub endpoint: Seq<char>,
    pub ip: Seq<char>,
}

impl View for Address {
    type V = AddressView;

    open spec fn view(&self) -> AddressView {
        AddressView { endpoint: self.endpoint@, ip: self.ip@ }
    }
}

/// What a session is waiting for.
#[derive(Debug, Clone, Copy, PartialEq, Eq, Structural)]
pub enum Phase {
    /// The outcome of switching off send coalescing.
    Configuring,
    /// The peer's address.
    Resolving,
    /// The request line.
    RequestLine,
    /// A header line, or the blank line that ends the headers.
    Headers,
    /// The outcome of writing the response.
    Writing,
    /// The outcome of flushing the stream.
    Flushing,
    /// Nothing: the session is over, in success or in failure.
    Closed,
}

/// The operation on the stream that failed.
#[derive(Debug, Clone, Copy, PartialEq, Eq, Structural)]
pub enum Stage {
    NoDelay,
    PeerAddr,
    Read,
    Write,
    Flush,
}

/// Why a connection was given up.
#[derive(Debug, PartialEq, Eq)]
pub enum ConnectionError {
    /// An operation on the stream failed; `cause` is the failure as the
    /// I/O layer describes it.
    Io { stage: Stage, cause: String },
    /// The input ended before a whole request line had arrived.
    ClosedEarly,
    /// An event arrived that does not answer the action last asked for.
    OutOfTurn,
}

/// The mathematical content of a [`ConnectionError`].
pub enum ConnectionErrorView {
    Io { stage: Stage, cause: Seq<char> },
    ClosedEarly,
    OutOfTurn,
}

impl View for ConnectionError {
    type V = ConnectionErrorView;

    open spec fn view(&self) -> ConnectionErrorView {
        match self {
            ConnectionError::Io { stage, cause } => ConnectionErrorView::Io {
                stage: *stage,
                cause: cause@,
            },
            ConnectionError::ClosedEarly => ConnectionErrorView::ClosedEarly,
            ConnectionError::OutOfTurn => ConnectionErrorView::OutOfTurn,
        }
    }
}

/// What happened on the stream since the last step.
#[derive(Debug, PartialEq, Eq)]
pub enum Event {
    /// The action asked for was carried out, and has nothing to report.
    Done,
    /// The peer's address was resolved.
    Peer(Address),
    /// A line was read. It is given as read, terminator included; a read
    /// at the end of the input gives what was left, without a terminator,
    /// and nothing at all once nothing is left.
    Line(String),
    /// The action asked for failed.
    Failed(String),
}

/// The mathematical content of an [`Event`].
pub enum EventView {
    Done,
    Peer(AddressView),
    Line(Seq<char>),
    Failed(Seq<char>),
}

impl View for Event {
    type V = EventView;

    open spec fn view(&self) -> EventView {
        match self {
            Event::Done => EventView::Done,
            Event::Peer(addr) => EventView::Peer(addr@),
            Event::Line(raw) => EventView::Line(raw@),
            Event::Failed(cause) => EventView::Failed(cause@),
        }
    }
}

/// What the caller is to do next.
#[derive(Debug, PartialEq, Eq)]
pub enum Action {
    /// Switch off send coalescing on the stream.
    SetNoDelay,
    /// Resolve the peer's address.
    ResolvePeer,
    /// Read one line.
    ReadLine,
    /// Write this text to the stream, all of it.
    Write(String),
    /// Flush the stream.
    Flush,
    /// Close the connection: it was served.
    Finish,
    /// Close the connection: it failed.
    Abort(ConnectionError),
}

/// The mathematical content of an [`Action`].
pub enum ActionView {
    SetNoDelay,
    ResolvePeer,
    ReadLine,
    Write(Seq<char>),
    Flush,
    Finish,
    Abort(ConnectionErrorView),
}

impl View for Action {
    type V = ActionView;

    open spec fn view(&self) -> ActionView {
        match self {
            Action::SetNoDelay => ActionView::SetNoDelay,
            Action::ResolvePeer => ActionView::ResolvePeer,
            Action::ReadLine => ActionView::ReadLine,
            Action::Write(text) => ActionView::Write(text@),
            Action::Flush => ActionView::Flush,
            Action::Finish => ActionView::Finish,
            Action::Abort(error) => ActionView::Abort(error@),
        }
    }
}

/// The outcome of one step: a record to log, if the step produced one,
/// and the action to take.
#[derive(Debug, PartialEq, Eq)]
pub struct Step {
    pub record: Option<Record>,
    pub action: Action,
}

/// The mathematical content of a [`Step`].
pub struct StepView {
    pub record: Option<RecordView>,
    pub action: ActionView,
}

impl View for Step {
    type V = StepView;

    open spec fn view(&self) -> StepView {
        StepView {
            record: match self.record {
                Some(record) => Some(record@),
                None => None,
            },
            action: self.action@,
        }
    }
}

/// The state of one connection.
#[derive(Debug, PartialEq, Eq)]
pub struct Session {
    phase: Phase,
    peer: Option<Address>,
    request_line: Option<String>,
    headers: HeaderSet,
}

/// The mathematical content of a [`Session`].
pub struct SessionView {
    pub phase: Phase,
    pub peer: Option<AddressView>,
    pub request_line: Option<Seq<char>>,
    pub headers: Fields,
}

impl View for Session {
    type V = SessionView;

    closed spec fn view(&self) -> SessionView {
        SessionView {
            phase: self.phase,
            peer: match self.peer {
                Some(addr) => Some(addr@),
                None => None,
            },
            request_line: match self.request_line {
                Some(line) => Some(line@),
                None => None,
            },
            headers: self.headers@,
        }
    }
}

impl SessionView {
    /// The session of a connection that was just accepted.
    pub open spec fn fresh() -> SessionView {
        SessionView {
            phase: Phase::Configuring,
            peer: None,
            request_line: None,
            headers: Fields::empty(),
        }
    }

    /// The peer's IP address; empty as long as the peer is not known.
    pub open spec fn peer_ip(self) -> Seq<char> {
        match self.peer {
            Some(addr) => addr.ip,
            None => Seq::empty(),
        }
    }

    /// This session, over.
    pub open spec fn closed(self) -> SessionView {
        SessionView { phase: Phase::Closed, ..self }
    }

    /// This session in another phase.
    pub open spec fn at(self, phase: Phase) -> SessionView {
        SessionView { phase, ..self }
    }

    /// What a session that got here from a fresh one looks like: it knows
    /// its peer once it has resolved it, it holds a whole request line
    /// once it has read one, and it holds no header before that.
    pub open spec fn consistent(self) -> bool {
        match self.phase {
            Phase::Configuring | Phase::Resolving => {
                &&& self.peer is None
                &&& self.request_line is None
                &&& self.headers == Fields::empty()
            },
            Phase::RequestLine => {
                &&& self.peer is Some
                &&& self.request_line is None
                &&& self.headers == Fields::empty()
            },
            Phase::Headers | Phase::Writing | Phase::Flushing => {
                &&& self.peer is Some
                &&& self.request_line matches Some(line) && is_terminated(line)
            },
            Phase::Closed => true,
        }
    }
}

/// The operation a session in `phase` is waiting on.
pub open spec fn stage_of(phase: Phase) -> Stage {
    match phase {
        Phase::Configuring => Stage::NoDelay,
        Phase::Resolving => Stage::PeerAddr,
        Phase::RequestLine | Phase::Headers => Stage::Read,
        Phase::Writing => Stage::Write,
        Phase::Flushing | Phase::Closed => Stage::Flush,
    }
}

/// The operation a session in `phase` is waiting on.
fn awaited(phase: Phase) -> (stage: Stage)
    ensures
        stage == stage_of(phase),
{
    match phase {
        Phase::Configuring => Stage::NoDelay,
        Phase::Resolving => Stage::PeerAddr,
        Phase::RequestLine | Phase::Headers => Stage::Read,
        Phase::Writing => Stage::Write,
        Phase::Flushing | Phase::Closed => Stage::Flush,
    }
}

/// A step that logs nothing.
pub open spec fn quiet(action: ActionView) -> StepView {
    StepView { record: None, action }
}

/// A step that gives the connection up.
pub open spec fn abort(error: ConnectionErrorView) -> StepView {
    StepView { record: None, action: ActionView::Abort(error) }
}

/// The rules of a connection: where a session goes on an event, and what
/// it asks for.
///
/// In order: switch off send coalescing; resolve the peer and log it;
/// read the request line and log it as read; read header lines into the
/// header set until a blank line, or the end of the input, ends them; log
/// the header set; write the response; flush. A failure at any point ends
/// the session with that failure, and so does an input that ends before
/// the request line does. A closed session stays closed.
pub open spec fn transition(s: SessionView, e: EventView) -> (SessionView, StepView) {
    match (s.phase, e) {
        (Phase::Closed, _) => (s, abort(ConnectionErrorView::OutOfTurn)),
        (_, EventView::Failed(cause)) => (
            s.closed(),
            abort(ConnectionErrorView::Io { stage: stage_of(s.phase), cause }),
        ),
        (Phase::Configuring, EventView::Done) => (
            s.at(Phase::Resolving),
            quiet(ActionView::ResolvePeer),
        ),
        (Phase::Resolving, EventView::Peer(addr)) => (
            SessionView { phase: Phase::RequestLine, peer: Some(addr), ..s },
            StepView {
                record: Some(RecordView::PeerAddr(addr.endpoint)),
                action: ActionView::ReadLine,
            },
        ),
        (Phase::RequestLine, EventView::Line(raw)) => if is_terminated(raw) {
            (
                SessionView { phase: Phase::Headers, request_line: Some(raw), ..s },
                StepView {
                    record: Some(RecordView::RequestLine(raw)),
                    action: ActionView::ReadLine,
                },
            )
        } else {
            (s.closed(), abort(ConnectionErrorView::ClosedEarly))
        },
        (Phase::Headers, EventView::Line(raw)) => if line_content(raw).len() == 0 {
            (
                s.at(Phase::Writing),
                StepView {
                    record: Some(RecordView::Headers(s.headers)),
                    action: ActionView::Write(response(s.peer_ip())),
                },
            )
        } else {
            (
                SessionView { headers: with_line(s.headers, line_content(raw)), ..s },
                quiet(ActionView::ReadLine),
            )
        },
        (Phase::Writing, EventView::Done) => (s.at(Phase::Flushing), quiet(ActionView::Flush)),
        (Phase::Flushing, EventView::Done) => (s.closed(), quiet(ActionView::Finish)),
        _ => (s.closed(), abort(ConnectionErrorView::OutOfTurn)),
    }
}

impl Session {
    /// Opens the session of a connection that was just accepted, and says
    /// what to do first.
    pub fn start() -> (opened: (Session, Step))
        ensures
            opened.0@ == SessionView::fresh(),
            opened.1@ == quiet(ActionView::SetNoDelay),
    {
        let session = Session {
            phase: Phase::Configuring,
            peer: None,
            request_line: None,
            headers: HeaderSet::new(),
        };
        (session, Step { record: None, action: Action::SetNoDelay })
    }

    /// What the session is waiting for.
    pub fn phase(&self) -> (phase: Phase)
        ensures
            phase == self@.phase,
    {
        self.phase
    }

    /// The peer's address, once resolved.
    pub fn peer(&self) -> (peer: Option<&Address>)
        ensures
            peer is Some <==> self@.peer is Some,
            peer is Some ==> peer->0@ == self@.peer->0,
    {
        self.peer.as_ref()
    }

    /// The request line as read, once read.
    pub fn request_line(&self) -> (line: Option<&String>)
        ensures
            line is Some <==> self@.request_line is Some,
            line is Some ==> line->0@ == self@.request_line->0,
    {
        self.request_line.as_ref()
    }

    /// The headers read so far.
    pub fn headers(&self) -> (headers: &HeaderSet)
        ensures
            headers@ == self@.headers,
    {
        &self.headers
    }

    /// Gives up on an event that does not answer what was asked for.
    fn out_of_turn(&mut self) -> (out: Step)
        ensures
            final(self)@ == old(self)@.closed(),
            out@ == abort(ConnectionErrorView::OutOfTurn),
    {
        self.phase = Phase::Closed;
        Step { record: None, action: Action::Abort(ConnectionError::OutOfTurn) }
    }

    /// Moves on to `phase` and asks for `action`.
    fn advance(&mut self, phase: Phase, action: Action) -> (out: Step)
        ensures
            final(self)@ == old(self)@.at(phase),
            out@ == quiet(action@),
    {
        self.phase = phase;
        Step { record: None, action }
    }

    /// Takes in the request line.
    fn on_request_line(&mut self, raw: String) -> (out: Step)
        requires
            old(self)@.phase == Phase::RequestLine,
        ensures
            final(self)@ == transition(old(self)@, EventView::Line(raw@)).0,
            out@ == transition(old(self)@, EventView::Line(raw@)).1,
    {
        if ends_line(raw.as_str()) {
            let logged = raw.clone();
            self.request_line = Some(raw);
            self.phase = Phase::Headers;
            Step { record: Some(Record::RequestLine(logged)), action: Action::ReadLine }
        } else {
            self.phase = Phase::Closed;
            Step { record: None, action: Action::Abort(ConnectionError::ClosedEarly) }
        }
    }

    /// Takes in a header line, or the line that ends the headers.
    fn on_header_line(&mut self, raw: String) -> (out: Step)
        requires
            old(self)@.phase == Phase::Headers,
        ensures
            final(self)@ == transition(old(self)@, EventView::Line(raw@)).0,
            out@ == transition(old(self)@, EventView::Line(raw@)).1,
    {
        let line = strip_terminator(raw.as_str());
        if line.is_empty() {
            let text = match &self.peer {
                Some(addr) => compose_response(addr.ip.as_str()),
                None => {
                    proof {
                        reveal_strlit("");
                    }
                    assert(""@ =~= Seq::<char>::empty());
                    compose_response("")
                },
            };
            self.phase = Phase::Writing;
            Step {
                record: Some(Record::Headers(self.headers.clone())),
                action: Action::Write(text),
            }
        } else {
            self.headers.add_line(String::from_str(line));
            Step { record: None, action: Action::ReadLine }
        }
    }

    /// Advances the session by one event, and says what to do next.
    pub fn step(&mut self, event: Event) -> (out: Step)
        ensures
            final(self)@ == transition(old(self)@, event@).0,
            out@ == transition(old(self)@, event@).1,
    {
        match self.phase {
            Phase::Closed => Step {
                record: None,
                action: Action::Abort(ConnectionError::OutOfTurn),
            },
            phase => match event {
                Event::Failed(cause) => {
                    let stage = awaited(phase);
                    self.phase = Phase::Closed;
                    let error = ConnectionError::Io { stage, cause };
                    Step { record: None, action: Action::Abort(error) }
                },
                Event::Done => match phase {
                    Phase::Configuring => self.advance(Phase::Resolving, Action::ResolvePeer),
                    Phase::Writing => self.advance(Phase::Flushing, Action::Flush),
                    Phase::Flushing => self.advance(Phase::Closed, Action::Finish),
                    _ => self.out_of_turn(),
                },
                Event::Peer(addr) => match phase {
                    Phase::Resolving => {
                        let endpoint = addr.endpoint.clone();
                        self.peer = Some(addr);
                        self.phase = Phase::RequestLine;
                        Step { record: Some(Record::PeerAddr(endpoint)), action: Action::ReadLine }
                    },
                    _ => self.out_of_turn(),
                },
                Event::Line(raw) => match phase {
                    Phase::RequestLine => self.on_request_line(raw),
                    Phase::Headers => self.on_header_line(raw),
                    _ => self.out_of_turn(),
                },
            },
        }
    }
}

} // verus!
