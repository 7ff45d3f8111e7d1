//! The wire format: lines as they are read, and the response that is sent.

use vstd::prelude::*;
use vstd::string::*;

verus! {

/// Whether a raw line ends with a line feed. A read that ran into the end
/// of the input gives a line that does not.
pub open spec fn is_terminated(raw: Seq<char>) -> bool {
    raw.len() > 0 && raw.last() == '\n'
}

/// A raw line without its terminator: a trailing line feed is dropped,
/// and then a carriage return before it, if there is one. A line that is
/// not terminated is left as it is.
pub open spec fn line_content(raw: Seq<char>) -> Seq<char> {
    if is_terminated(raw) {
        let body = raw.drop_last();
        if body.len() > 0 && body.last() == '\r' {
            body.drop_last()
        } else {
            body
        }
    } else {
        raw
    }
}

/// The response for a peer at `ip`: the status line, an empty header
/// block, and the address on a line of its own.
pub open spec fn response(ip: Seq<char>) -> Seq<char> {
    "HTTP/1.1 200 OK\r\n\r\n"@ + ip + "\r\n"@
}

/// The last two characters of `text`, the earlier first, as far as the
/// text has them.
fn tail(text: &str) -> (ends: (Option<char>, Option<char>))
    ensures
        ends.1 == (if text@.len() >= 1 {
            Some(text@[text@.len() - 1])
        } else {
            None
        }),
        ends.0 == (if text@.len() >= 2 {
            Some(text@[text@.len() - 2])
        } else {
            None
        }),
{
    let mut before: Option<char> = None;
    let mut last: Option<char> = None;
    for c in it: text.chars()
        invariant
            it.seq() == text@,
            last == (if it.index() >= 1 {
                Some(text@[it.index() - 1])
            } else {
                None
            }),
            before == (if it.index() >= 2 {
                Some(text@[it.index() - 2])
            } else {
                None
            }),
    {
        before = last;
        last = Some(c);
    }
    (before, last)
}

/// Whether a raw line ends with a line feed.
pub fn ends_line(raw: &str) -> (terminated: bool)
    ensures
        terminated == is_terminated(raw@),
{
    let (_, last) = tail(raw);
    match last {
        Some(c) => c == '\n',
        None => false,
    }
}

/// Strips the line terminator from a raw line.
pub fn strip_terminator(raw: &str) -> (line: &str)
    ensures
        line@ == line_content(raw@),
{
    let n = raw.unicode_len();
    let (before, last) = tail(raw);
    match last {
        Some('\n') => {
            match before {
                Some('\r') => {
                    assert(raw@.drop_last().last() == '\r');
                    assert(raw@.subrange(0, n - 2) =~= raw@.drop_last().drop_last());
                    raw.substring_char(0, n - 2)
                },
                _ => {
                    assert(raw@.subrange(0, n - 1) =~= raw@.drop_last());
                    raw.substring_char(0, n - 1)
                },
            }
        },
        _ => raw,
    }
}

/// Composes the response for a peer at `ip`.
pub fn compose_response(ip: &str) -> (text: String)
    ensures
        text@ == response(ip@),
{
    let mut text = String::from_str("HTTP/1.1 200 OK\r\n\r\n");
    text.append(ip);
    text.append("\r\n");
    text
}

/// Stripping removes at most two characters, from the end only.
pub proof fn lemma_content_is_prefix(raw: Seq<char>)
    ensures
        line_content(raw).len() <= raw.len() <= line_content(raw).len() + 2,
        line_content(raw) == raw.subrange(0, line_content(raw).len() as int),
{
}

/// A terminated line has empty content exactly when it is a bare
/// terminator.
pub proof fn lemma_blank_lines(raw: Seq<char>)
    ensures
        line_content(raw).len() == 0 <==> raw.len() == 0 || raw == seq!['\n'] || raw == seq![
            '\r',
            '\n',
        ],
{
    if raw.len() == 1 && raw[0] == '\n' {
        assert(raw =~= seq!['\n']);
    }
    if raw.len() == 2 && raw[0] == '\r' && raw[1] == '\n' {
        assert(raw =~= seq!['\r', '\n']);
    }
}

} // verus!
