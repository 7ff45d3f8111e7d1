//! Diagnostic records: what the listener and its connections report.

use crate::header_set::HeaderSet;
use crate::json::{json_text, Fields};
use crate::object::TextObject;
use vstd::prelude::*;
use vstd::string::*;

verus! {

/// One diagnostic record. Each is logged as one flat JSON object.
#[derive(Debug, PartialEq, Eq)]
pub enum Record {
    /// The address the listener is bound to.
    LocalAddr(String),
    /// The address of a connection's peer.
    PeerAddr(String),
    /// The request line as read, terminator included.
    RequestLine(String),
    /// The headers of a request, once all were read.
    Headers(HeaderSet),
}

/// The mathematical content of a [`Record`].
pub enum RecordView {
    LocalAddr(Seq<char>),
    PeerAddr(Seq<char>),
    RequestLine(Seq<char>),
    Headers(Fields),
}

impl View for Record {
    type V = RecordView;

    open spec fn view(&self) -> RecordView {
        match self {
            Record::LocalAddr(addr) => RecordView::LocalAddr(addr@),
            Record::PeerAddr(addr) => RecordView::PeerAddr(addr@),
            Record::RequestLine(line) => RecordView::RequestLine(line@),
            Record::Headers(headers) => RecordView::Headers(headers@),
        }
    }
}

impl RecordView {
    /// The record as a flat object: a single member under the record's
    /// key, or, for headers, one member for each header.
    pub open spec fn fields(self) -> Fields {
        match self {
            RecordView::LocalAddr(addr) => Fields::empty().insert("local_addr"@, addr),
            RecordView::PeerAddr(addr) => Fields::empty().insert("peer_addr"@, addr),
            RecordView::RequestLine(line) => Fields::empty().insert("request_line"@, line),
            RecordView::Headers(headers) => headers,
        }
    }
}

/// The JSON text of an object with the single member `key`.
fn single(key: &str, text: &String) -> (json: String)
    ensures
        json@ == json_text(Fields::empty().insert(key@, text@)),
{
    let mut object = TextObject::new();
    object.insert(String::from_str(key), text.clone());
    object.to_json()
}

impl Record {
    /// The record as one line of compact JSON.
    pub fn to_json(&self) -> (json: String)
        ensures
            json@ == json_text(self@.fields()),
    {
        match self {
            Record::LocalAddr(addr) => single("local_addr", addr),
            Record::PeerAddr(addr) => single("peer_addr", addr),
            Record::RequestLine(line) => single("request_line", line),
            Record::Headers(headers) => headers.to_json(),
        }
    }
}

} // verus!
