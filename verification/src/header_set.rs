//! The header set of one request: header values by lowercase name.

use crate::header::{header_name, header_value, parse_header};
use crate::json::{json_text, Fields};
use crate::object::TextObject;
use vstd::prelude::*;

verus! {

/// The header set after one more header line: the line's value stands
/// under the line's name, whatever stood there before.
pub open spec fn with_line(headers: Fields, line: Seq<char>) -> Fields {
    headers.insert(header_name(line), header_value(line))
}

/// Where two lines give the same name, the later one wins: the set is
/// as if the earlier line had never been taken in.
pub proof fn lemma_last_occurrence_wins(headers: Fields, earlier: Seq<char>, later: Seq<char>)
    requires
        header_name(earlier) == header_name(later),
    ensures
        with_line(with_line(headers, earlier), later) == with_line(headers, later),
{
    assert(with_line(with_line(headers, earlier), later) =~= with_line(headers, later));
}

/// A line that was taken in is found under its name, with its value, and
/// leaves the headers of every other name as they were.
pub proof fn lemma_line_is_held(headers: Fields, line: Seq<char>)
    ensures
        with_line(headers, line).contains_key(header_name(line)),
        with_line(headers, line)[header_name(line)] == header_value(line),
        forall|name: Seq<char>|
            name != header_name(line) ==> (with_line(headers, line).contains_key(name)
                <==> headers.contains_key(name)),
        forall|name: Seq<char>|
            name != header_name(line) && headers.contains_key(name) ==> with_line(
                headers,
                line,
            )[name] == headers[name],
{
}

/// Header values keyed by lowercase name. Where a name occurs on several
/// lines, the last one wins.
#[derive(Debug, PartialEq, Eq)]
pub struct HeaderSet {
    fields: TextObject,
}

impl View for HeaderSet {
    type V = Fields;

    closed spec fn view(&self) -> Fields {
        self.fields@
    }
}

impl HeaderSet {
    /// The empty header set.
    pub fn new() -> (set: Self)
        ensures
            set@ == Fields::empty(),
    {
        HeaderSet { fields: TextObject::new() }
    }

    /// Takes in one header line: parses it and stores its value under its
    /// name.
    pub fn add_line(&mut self, line: String)
        ensures
            final(self)@ == with_line(old(self)@, line@),
    {
        let (name, value) = parse_header(line);
        self.fields.insert(name, value);
    }

    /// A copy of the value held under `name`, if any. Names are held in
    /// lowercase.
    pub fn get(&self, name: &str) -> (value: Option<String>)
        ensures
            value is Some <==> self@.contains_key(name@),
            value is Some ==> value->0@ == self@[name@],
    {
        self.fields.get(name)
    }

    /// Whether a value is held under `name`.
    pub fn contains(&self, name: &str) -> (present: bool)
        ensures
            present == self@.contains_key(name@),
    {
        self.fields.get(name).is_some()
    }

    /// The number of distinct names.
    pub fn len(&self) -> (n: usize)
        ensures
            n == self@.len(),
            self@.dom().finite(),
    {
        self.fields.len()
    }

    /// Whether no header is held.
    pub fn is_empty(&self) -> (empty: bool)
        ensures
            empty <==> self@ == Fields::empty(),
    {
        self.fields.is_empty()
    }

    /// The set as compact JSON text: a bare object of name and value
    /// pairs.
    pub fn to_json(&self) -> (text: String)
        ensures
            text@ == json_text(self@),
    {
        self.fields.to_json()
    }
}

impl Clone for HeaderSet {
    fn clone(&self) -> (copy: Self)
        ensures
            copy@ == self@,
    {
        HeaderSet { fields: self.fields.clone() }
    }
}

} // verus!
