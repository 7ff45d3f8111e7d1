//! Parsing of one header line into a name and a value.

use vstd::prelude::*;
use vstd::string::*;

verus! {

/// The lowercase form of a text, as `str::to_lowercase` gives it: by the
/// Unicode rules for lowercase, whatever the locale.
pub uninterp spec fn lowercase(s: Seq<char>) -> Seq<char>;

/// `str::to_lowercase`: the lowercase equivalent of `s`, as a new string.
#[verifier::external_body]
fn to_lowercase(s: &str) -> (lower: String)
    ensures
        lower@ == lowercase(s@),
{
    s.to_lowercase()
}

/// `i` is the position of the first colon in `s`.
pub open spec fn is_first_colon(s: Seq<char>, i: int) -> bool {
    &&& 0 <= i < s.len()
    &&& s[i] == ':'
    &&& forall|j: int| 0 <= j < i ==> s[j] != ':'
}

/// The position of the first colon in `s`, where `s` has one.
pub open spec fn first_colon(s: Seq<char>) -> int {
    choose|i: int| is_first_colon(s, i)
}

/// The part of a header line that names the header, case untouched:
/// everything before the first colon, or the whole line if it has none.
pub open spec fn raw_name(s: Seq<char>) -> Seq<char> {
    if s.contains(':') {
        s.subrange(0, first_colon(s))
    } else {
        s
    }
}

/// The value of a header line: everything after the first colon, or
/// nothing if the line has none.
pub open spec fn header_value(s: Seq<char>) -> Seq<char> {
    if s.contains(':') {
        s.subrange(first_colon(s) + 1, s.len() as int)
    } else {
        Seq::empty()
    }
}

/// The name of a header line: its raw name in lowercase.
pub open spec fn header_name(s: Seq<char>) -> Seq<char> {
    lowercase(raw_name(s))
}

/// A line with a colon has exactly one first colon.
pub proof fn lemma_first_colon(s: Seq<char>)
    requires
        s.contains(':'),
    ensures
        is_first_colon(s, first_colon(s)),
{
    let k = choose|k: int| 0 <= k < s.len() && s[k] == ':';
    lemma_first_colon_before(s, k);
}

/// If there is a colon at `k`, a first colon exists at or before `k`.
proof fn lemma_first_colon_before(s: Seq<char>, k: int)
    requires
        0 <= k < s.len(),
        s[k] == ':',
    ensures
        exists|i: int| is_first_colon(s, i),
    decreases k,
{
    if forall|j: int| 0 <= j < k ==> s[j] != ':' {
        assert(is_first_colon(s, k));
    } else {
        let j = choose|j: int| 0 <= j < k && s[j] == ':';
        lemma_first_colon_before(s, j);
    }
}

/// The first colon is the only position that qualifies.
pub proof fn lemma_first_colon_unique(s: Seq<char>, i: int)
    requires
        is_first_colon(s, i),
    ensures
        s.contains(':'),
        first_colon(s) == i,
{
    let c = first_colon(s);
    assert(is_first_colon(s, c));
    if c < i {
        assert(s[c] != ':');
    } else if i < c {
        assert(s[i] != ':');
    }
}

/// Splits a header line at its first colon, and only there.
///
/// The name is returned as written; the value is what follows the colon,
/// untrimmed, later colons included. A line without a colon is all name.
pub fn split_header(line: &str) -> (parts: (String, String))
    ensures
        parts.0@ == raw_name(line@),
        parts.1@ == header_value(line@),
{
    let n = line.unicode_len();
    let mut at: usize = n;
    let mut i: usize = 0;
    for c in it: line.chars()
        invariant
            n == line@.len(),
            it.seq() == line@,
            i == it.index(),
            at == n ==> forall|j: int| 0 <= j < i ==> line@[j] != ':',
            at != n ==> is_first_colon(line@, at as int),
    {
        if at == n && c == ':' {
            at = i;
        }
        i += 1;
    }
    if at == n {
        assert(!line@.contains(':'));
        (String::from_str(line), String::new())
    } else {
        proof {
            lemma_first_colon_unique(line@, at as int);
        }
        let name = line.substring_char(0, at);
        let value = line.substring_char(at + 1, n);
        (String::from_str(name), String::from_str(value))
    }
}

/// Parses one header line into its name and value.
///
/// The line is split at the first colon only. The name is lowercased;
/// the value is kept verbatim. A line without a colon, the empty line
/// included, yields the whole line as name and an empty value.
pub fn parse_header(header: String) -> (parsed: (String, String))
    ensures
        parsed.0@ == header_name(header@),
        parsed.1@ == header_value(header@),
{
    let (name, value) = split_header(header.as_str());
    (to_lowercase(name.as_str()), value)
}

/// A line without a colon parses to its own lowercase form and an empty
/// value.
pub proof fn lemma_parse_without_colon(s: Seq<char>)
    requires
        !s.contains(':'),
    ensures
        header_name(s) == lowercase(s),
        header_value(s) == Seq::<char>::empty(),
{
}

/// A line with a colon parses at its first colon: the name is the
/// lowercase of what precedes it, and the value is all that follows it,
/// unchanged.
pub proof fn lemma_parse_at_first_colon(s: Seq<char>, i: int)
    requires
        is_first_colon(s, i),
    ensures
        header_name(s) == lowercase(s.subrange(0, i)),
        header_value(s) == s.subrange(i + 1, s.len() as int),
{
    lemma_first_colon_unique(s, i);
}

/// Splitting loses nothing: the raw name, a colon and the value make up
/// the line again, and the raw name holds no colon.
pub proof fn lemma_split_rejoins(s: Seq<char>)
    requires
        s.contains(':'),
    ensures
        raw_name(s) + seq![':'] + header_value(s) == s,
        !raw_name(s).contains(':'),
{
    lemma_first_colon(s);
    let i = first_colon(s);
    assert(raw_name(s) + seq![':'] + header_value(s) =~= s);
    if raw_name(s).contains(':') {
        let j = choose|j: int| 0 <= j < raw_name(s).len() && raw_name(s)[j] == ':';
        assert(s[j] == ':');
    }
}

} // verus!
