//! The listener, as a state machine.
//!
//! Like a connection's session, a [`Listener`] decides and leaves the
//! doing to its caller: it is told what happened on the listening socket
//! and answers with what to do next.

use crate::record::{Record, RecordView};
use vstd::prelude::*;

verus! {

/// What a listener is waiting for.
#[derive(Debug, Clone, Copy, PartialEq, Eq, Structural)]
pub enum ListenPhase {
    /// The outcome of binding the listening socket.
    Binding,
    /// The next connection.
    Accepting,
    /// Nothing: the listener has stopped.
    Stopped,
}

/// Why a listener stopped.
#[derive(Debug, PartialEq, Eq)]
pub enum ListenError {
    /// The socket could not be bound: the address does not parse, is in
    /// use, or is not allowed.
    Bind(String),
    /// A connection could not be accepted.
    Accept(String),
    /// An event arrived that does not answer the action last asked for.
    OutOfTurn,
}

/// The mathematical content of a [`ListenError`].
pub enum ListenErrorView {
    Bind(Seq<char>),
    Accept(Seq<char>),
    OutOfTurn,
}

impl View for ListenError {
    type V = ListenErrorView;

    open spec fn view(&self) -> ListenErrorView {
        match self {
            ListenError::Bind(cause) => ListenErrorView::Bind(cause@),
            ListenError::Accept(cause) => ListenErrorView::Accept(cause@),
            ListenError::OutOfTurn => ListenErrorView::OutOfTurn,
        }
    }
}

/// What happened on the listening socket since the last step.
#[derive(Debug, PartialEq, Eq)]
pub enum ListenEvent {
    /// The socket is bound, to this local address.
    Bound(String),
    /// A connection was accepted.
    Accepted,
    /// The action asked for failed.
    Failed(String),
}

/// The mathematical content of a [`ListenEvent`].
pub enum ListenEventView {
    Bound(Seq<char>),
    Accepted,
    Failed(Seq<char>),
}

impl View for ListenEvent {
    type V = ListenEventView;

    open spec fn view(&self) -> ListenEventView {
        match self {
            ListenEvent::Bound(local) => ListenEventView::Bound(local@),
            ListenEvent::Accepted => ListenEventView::Accepted,
            ListenEvent::Failed(cause) => ListenEventView::Failed(cause@),
        }
    }
}

/// What the caller is to do next.
#[derive(Debug, PartialEq, Eq)]
pub enum ListenAction {
    /// Bind the listening socket to this `host:port` address.
    Bind(String),
    /// Wait for the next connection.
    Accept,
    /// Hand the connection just accepted to a handler of its own, which
    /// runs beside all others, and wait for the next connection without
    /// waiting for that handler.
    Dispatch,
    /// Stop serving.
    Stop(ListenError),
}

/// The mathematical content of a [`ListenAction`].
pub enum ListenActionView {
    Bind(Seq<char>),
    Accept,
    Dispatch,
    Stop(ListenErrorView),
}

impl View for ListenAction {
    type V = ListenActionView;

    open spec fn view(&self) -> ListenActionView {
        match self {
            ListenAction::Bind(addr) => ListenActionView::Bind(addr@),
            ListenAction::Accept => ListenActionView::Accept,
            ListenAction::Dispatch => ListenActionView::Dispatch,
            ListenAction::Stop(error) => ListenActionView::Stop(error@),
        }
    }
}

/// The outcome of one step of the listener: a record to log, if the step
/// produced one, and the action to take.
#[derive(Debug, PartialEq, Eq)]
pub struct ListenStep {
    pub record: Option<Record>,
    pub action: ListenAction,
}

/// The mathematical content of a [`ListenStep`].
pub struct ListenStepView {
    pub record: Option<RecordView>,
    pub action: ListenActionView,
}

impl View for ListenStep {
    type V = ListenStepView;

    open spec fn view(&self) -> ListenStepView {
        ListenStepView {
            record: match self.record {
                Some(record) => Some(record@),
                None => None,
            },
            action: self.action@,
        }
    }
}

/// A step of the listener that logs nothing.
pub open spec fn silent(action: ListenActionView) -> ListenStepView {
    ListenStepView { record: None, action }
}

/// The rules of the listener: where it goes on an event, and what it asks
/// for.
///
/// Once bound it logs its local address and accepts. Every connection it
/// accepts is dispatched, and it accepts again. A failure to bind, or to
/// accept, stops it for good.
pub open spec fn listen_transition(phase: ListenPhase, e: ListenEventView) -> (
    ListenPhase,
    ListenStepView,
) {
    match (phase, e) {
        (ListenPhase::Binding, ListenEventView::Bound(local)) => (
            ListenPhase::Accepting,
            ListenStepView {
                record: Some(RecordView::LocalAddr(local)),
                action: ListenActionView::Accept,
            },
        ),
        (ListenPhase::Binding, ListenEventView::Failed(cause)) => (
            ListenPhase::Stopped,
            silent(ListenActionView::Stop(ListenErrorView::Bind(cause))),
        ),
        (ListenPhase::Accepting, ListenEventView::Accepted) => (
            ListenPhase::Accepting,
            silent(ListenActionView::Dispatch),
        ),
        (ListenPhase::Accepting, ListenEventView::Failed(cause)) => (
            ListenPhase::Stopped,
            silent(ListenActionView::Stop(ListenErrorView::Accept(cause))),
        ),
        _ => (ListenPhase::Stopped, silent(ListenActionView::Stop(ListenErrorView::OutOfTurn))),
    }
}

/// The state of the listener.
#[derive(Debug, PartialEq, Eq)]
pub struct Listener {
    phase: ListenPhase,
}

impl View for Listener {
    type V = ListenPhase;

    closed spec fn view(&self) -> ListenPhase {
        self.phase
    }
}

impl Listener {
    /// Sets out to serve on `bind_address`, and says what to do first.
    pub fn start(bind_address: String) -> (opened: (Listener, ListenStep))
        ensures
            opened.0@ == ListenPhase::Binding,
            opened.1@ == silent(ListenActionView::Bind(bind_address@)),
    {
        (
            Listener { phase: ListenPhase::Binding },
            ListenStep { record: None, action: ListenAction::Bind(bind_address) },
        )
    }

    /// What the listener is waiting for.
    pub fn phase(&self) -> (phase: ListenPhase)
        ensures
            phase == self@,
    {
        self.phase
    }

    /// Stops the listener.
    fn stop(&mut self, error: ListenError) -> (out: ListenStep)
        ensures
            final(self)@ == ListenPhase::Stopped,
            out@ == silent(ListenActionView::Stop(error@)),
    {
        self.phase = ListenPhase::Stopped;
        ListenStep { record: None, action: ListenAction::Stop(error) }
    }

    /// Advances the listener by one event, and says what to do next.
    pub fn step(&mut self, event: ListenEvent) -> (out: ListenStep)
        ensures
            final(self)@ == listen_transition(old(self)@, event@).0,
            out@ == listen_transition(old(self)@, event@).1,
    {
        match self.phase {
            ListenPhase::Binding => match event {
                ListenEvent::Bound(local) => {
                    self.phase = ListenPhase::Accepting;
                    ListenStep {
                        record: Some(Record::LocalAddr(local)),
                        action: ListenAction::Accept,
                    }
                },
                ListenEvent::Failed(cause) => self.stop(ListenError::Bind(cause)),
                ListenEvent::Accepted => self.stop(ListenError::OutOfTurn),
            },
            ListenPhase::Accepting => match event {
                ListenEvent::Accepted => ListenStep {
                    record: None,
                    action: ListenAction::Dispatch,
                },
                ListenEvent::Failed(cause) => self.stop(ListenError::Accept(cause)),
                ListenEvent::Bound(_) => self.stop(ListenError::OutOfTurn),
            },
            ListenPhase::Stopped => self.stop(ListenError::OutOfTurn),
        }
    }
}

/// The listener's phase after a run of events.
pub open spec fn listen_run(phase: ListenPhase, events: Seq<ListenEventView>) -> ListenPhase
    decreases events.len(),
{
    if events.len() == 0 {
        phase
    } else {
        listen_transition(listen_run(phase, events.drop_last()), events.last()).0
    }
}

/// Accepting never ends by itself: however many connections arrive, the
/// listener dispatches each and goes on accepting.
pub proof fn lemma_accepting_goes_on(events: Seq<ListenEventView>)
    requires
        forall|i: int| 0 <= i < events.len() ==> events[i] is Accepted,
    ensures
        listen_run(ListenPhase::Accepting, events) == ListenPhase::Accepting,
        forall|e: ListenEventView|
            e is Accepted ==> #[trigger] listen_transition(
                listen_run(ListenPhase::Accepting, events),
                e,
            ).1 == silent(ListenActionView::Dispatch),
    decreases events.len(),
{
    if events.len() > 0 {
        lemma_accepting_goes_on(events.drop_last());
    }
}

/// A listener stops only on a failure or on an event out of turn, and
/// then says why; once stopped it stays stopped.
pub proof fn lemma_stops_on_failure(phase: ListenPhase, e: ListenEventView)
    ensures
        listen_transition(phase, e).0 == ListenPhase::Stopped <==> listen_transition(
            phase,
            e,
        ).1.action is Stop,
        phase == ListenPhase::Stopped ==> listen_transition(phase, e).0 == ListenPhase::Stopped,
        phase == ListenPhase::Binding && e is Failed ==> listen_transition(phase, e).1.action
            == ListenActionView::Stop(ListenErrorView::Bind(e->Failed_0)),
        phase == ListenPhase::Accepting && e is Failed ==> listen_transition(phase, e).1.action
            == ListenActionView::Stop(ListenErrorView::Accept(e->Failed_0)),
{
}

} // verus!
