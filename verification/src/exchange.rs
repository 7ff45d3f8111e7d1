//! What holds of a connection's session over a whole exchange.

use crate::header_set::with_line;
use crate::json::Fields;
use crate::record::RecordView;
use crate::session::{
    quiet, transition, ActionView, AddressView, EventView, Phase, SessionView, StepView,
};
use crate::wire::{is_terminated, line_content, response};
use vstd::prelude::*;

verus! {

/// The session after a run of events.
pub open spec fn run(s: SessionView, events: Seq<EventView>) -> SessionView
    decreases events.len(),
{
    if events.len() == 0 {
        s
    } else {
        transition(run(s, events.drop_last()), events.last()).0
    }
}

/// The header set after the raw lines are taken in, one after the other,
/// on top of `base`.
pub open spec fn collected(base: Fields, lines: Seq<Seq<char>>) -> Fields
    decreases lines.len(),
{
    if lines.len() == 0 {
        base
    } else {
        with_line(collected(base, lines.drop_last()), line_content(lines.last()))
    }
}

/// The events of reading the raw lines, one after the other.
pub open spec fn reads(lines: Seq<Seq<char>>) -> Seq<EventView> {
    Seq::new(lines.len(), |i: int| EventView::Line(lines[i]))
}

/// The events up to the request line, on a connection where nothing
/// fails: coalescing is off, the peer is resolved, the request line is
/// read.
pub open spec fn opening_events(peer: AddressView, request_line: Seq<char>) -> Seq<EventView> {
    seq![EventView::Done, EventView::Peer(peer), EventView::Line(request_line)]
}

/// None of the raw lines is blank.
pub open spec fn no_blank(lines: Seq<Seq<char>>) -> bool {
    forall|i: int| 0 <= i < lines.len() ==> line_content(#[trigger] lines[i]).len() > 0
}

/// Whatever happens, a session stays consistent.
pub proof fn lemma_consistency_kept(s: SessionView, e: EventView)
    requires
        s.consistent(),
    ensures
        transition(s, e).0.consistent(),
{
}

/// A fresh session is consistent.
pub proof fn lemma_fresh_is_consistent()
    ensures
        SessionView::fresh().consistent(),
{
}

/// No response is sent before the headers are through: a session asks
/// for a write only on the blank line that ends the headers, and then
/// for the write of the response to its peer, with the header set to log.
pub proof fn lemma_write_only_after_headers(s: SessionView, e: EventView)
    requires
        transition(s, e).1.action is Write,
    ensures
        s.phase == Phase::Headers,
        e is Line,
        line_content(e->Line_0).len() == 0,
        transition(s, e).1 == (StepView {
            record: Some(RecordView::Headers(s.headers)),
            action: ActionView::Write(response(s.peer_ip())),
        }),
        transition(s, e).0 == s.at(Phase::Writing),
{
}

/// The header set changes in one way only: by a header line that is not
/// blank, read while headers are read. A blank line is never taken in.
pub proof fn lemma_headers_change_by_lines(s: SessionView, e: EventView)
    ensures
        transition(s, e).0.headers == (if s.phase == Phase::Headers && e is Line && line_content(
            e->Line_0,
        ).len() > 0 {
            with_line(s.headers, line_content(e->Line_0))
        } else {
            s.headers
        }),
{
}

/// A closed session stays closed, whatever arrives.
pub proof fn lemma_closed_stays_closed(s: SessionView, events: Seq<EventView>)
    requires
        s.phase == Phase::Closed,
    ensures
        run(s, events) == s,
    decreases events.len(),
{
    if events.len() > 0 {
        lemma_closed_stays_closed(s, events.drop_last());
    }
}

/// A failure ends the session at once, whatever it was waiting for.
pub proof fn lemma_failure_closes(s: SessionView, cause: Seq<char>)
    ensures
        transition(s, EventView::Failed(cause)).0.phase == Phase::Closed,
        transition(s, EventView::Failed(cause)).1.action is Abort,
        transition(s, EventView::Failed(cause)).1.record is None,
{
}

/// Running one more event is one more transition.
pub proof fn lemma_run_push(s: SessionView, events: Seq<EventView>, e: EventView)
    ensures
        run(s, events.push(e)) == transition(run(s, events), e).0,
{
    assert(events.push(e).drop_last() =~= events);
}

/// Running two runs of events in a row is running the second from where
/// the first ended.
pub proof fn lemma_run_concat(s: SessionView, first: Seq<EventView>, second: Seq<EventView>)
    ensures
        run(s, first + second) == run(run(s, first), second),
    decreases second.len(),
{
    if second.len() == 0 {
        assert(first + second =~= first);
    } else {
        lemma_run_concat(s, first, second.drop_last());
        assert((first + second).drop_last() =~= first + second.drop_last());
    }
}

/// While headers are read, lines that are not blank are collected into
/// the header set, and nothing else changes.
pub proof fn lemma_headers_collected(s: SessionView, lines: Seq<Seq<char>>)
    requires
        s.phase == Phase::Headers,
        no_blank(lines),
    ensures
        run(s, reads(lines)) == (SessionView { headers: collected(s.headers, lines), ..s }),
    decreases lines.len(),
{
    if lines.len() > 0 {
        let front = lines.drop_last();
        assert(no_blank(front)) by {
            assert forall|i: int| 0 <= i < front.len() implies line_content(
                #[trigger] front[i],
            ).len() > 0 by {
                assert(front[i] == lines[i]);
            }
        }
        lemma_headers_collected(s, front);
        assert(reads(lines).drop_last() =~= reads(front));
        assert(reads(lines).last() == EventView::Line(lines.last()));
        assert(line_content(lines[lines.len() - 1]).len() > 0);
    }
}

/// A whole exchange, from accept to close.
///
/// Take a connection on which nothing fails. Its peer is `peer`; it sends
/// a terminated request line, then header lines of which none is blank,
/// then a blank line (or no more). Then the session reads every line,
/// holds the headers collected in order, answers the blank line by
/// logging those headers and writing the response for the peer's IP
/// address, then flushes, and finishes.
pub proof fn lemma_exchange(
    peer: AddressView,
    request_line: Seq<char>,
    lines: Seq<Seq<char>>,
    end: Seq<char>,
)
    requires
        is_terminated(request_line),
        no_blank(lines),
        line_content(end).len() == 0,
    ensures
        ({
            let opening = opening_events(peer, request_line);
            let reading = run(SessionView::fresh(), opening + reads(lines));
            let headers = collected(Fields::empty(), lines);
            let writing = transition(reading, EventView::Line(end));
            let flushing = transition(writing.0, EventView::Done);
            let closing = transition(flushing.0, EventView::Done);
            &&& reading == SessionView {
                phase: Phase::Headers,
                peer: Some(peer),
                request_line: Some(request_line),
                headers,
            }
            &&& writing.1 == StepView {
                record: Some(RecordView::Headers(headers)),
                action: ActionView::Write(response(peer.ip)),
            }
            &&& flushing.1 == quiet(ActionView::Flush)
            &&& closing.1 == quiet(ActionView::Finish)
            &&& closing.0.phase == Phase::Closed
        }),
{
    let fresh = SessionView::fresh();
    let opening = opening_events(peer, request_line);
    let e0 = Seq::<EventView>::empty();
    lemma_run_push(fresh, e0, EventView::Done);
    lemma_run_push(fresh, e0.push(EventView::Done), EventView::Peer(peer));
    lemma_run_push(
        fresh,
        e0.push(EventView::Done).push(EventView::Peer(peer)),
        EventView::Line(request_line),
    );
    assert(opening =~= e0.push(EventView::Done).push(EventView::Peer(peer)).push(
        EventView::Line(request_line),
    ));
    let opened = run(fresh, opening);
    assert(opened == SessionView {
        phase: Phase::Headers,
        peer: Some(peer),
        request_line: Some(request_line),
        headers: Fields::empty(),
    });
    lemma_run_concat(fresh, opening, reads(lines));
    lemma_headers_collected(opened, lines);
}

} // verus!
