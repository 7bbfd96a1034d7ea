//! Routing of click events, read one line at a time, to the producer that
//! the event names by position.

use vstd::prelude::*;
use crate::snapshot::{I3Event, opt_view};

verus! {

/// What to do with one line of the event input.
#[derive(Debug, Clone, PartialEq, Eq)]
pub enum LineKind {
    /// A handshake token or an empty line, skipped without a word.
    Skip,
    /// The text to parse as an event.
    Payload(String),
}

/// The event text of a line: `None` for the opening `[` of the stream and for
/// an empty line; otherwise the line without one leading comma.
pub open spec fn line_payload(line: Seq<char>) -> Option<Seq<char>> {
    if line.len() == 0 || line == seq!['['] {
        None
    } else if line[0] == ',' {
        Some(line.drop_first())
    } else {
        Some(line)
    }
}

/// Splits the handshake and separators of the event stream from the event text.
pub fn classify_line(line: &str) -> (r: LineKind)
    ensures
        match r {
            LineKind::Skip => line_payload(line@) is None,
            LineKind::Payload(p) => line_payload(line@) == Some(p@),
        },
{
    let n = line.unicode_len();
    if n == 0 {
        return LineKind::Skip;
    }
    let c = line.get_char(0);
    if n == 1 && c == '[' {
        assert(line@ =~= seq!['[']);
        return LineKind::Skip;
    }
    assert(line@ != seq!['['] ) by {
        if line@ == seq!['['] {
            assert(line@[0] == '[');
        }
    }
    if c == ',' {
        let rest = line.substring_char(1, n);
        assert(rest@ =~= line@.drop_first());
        LineKind::Payload(String::from_str(rest))
    } else {
        LineKind::Payload(String::from_str(line))
    }
}

/// Whether a character is an ASCII decimal digit.
pub open spec fn is_digit(c: char) -> bool {
    '0' <= c && c <= '9'
}

/// The value of a decimal digit.
pub open spec fn digit_value(c: char) -> nat {
    (c as int - '0' as int) as nat
}

/// The value of a sequence of decimal digits.
pub open spec fn digits_value(s: Seq<char>) -> nat
    decreases s.len(),
{
    if s.len() == 0 {
        0
    } else {
        digits_value(s.drop_last()) * 10 + digit_value(s.last())
    }
}

/// The number a non-empty run of decimal digits denotes, if it is one.
pub open spec fn digits_number(s: Seq<char>) -> Option<nat> {
    if s.len() > 0 && forall|i: int| 0 <= i < s.len() ==> is_digit(#[trigger] s[i]) {
        Some(digits_value(s))
    } else {
        None
    }
}

/// The index that a name denotes: decimal digits, after at most one `+`,
/// whose value fits in `usize`.
pub open spec fn index_of_name(s: Seq<char>) -> Option<nat> {
    let n = if s.len() > 0 && s[0] == '+' {
        digits_number(s.drop_first())
    } else {
        digits_number(s)
    };
    match n {
        Some(v) => if v <= usize::MAX {
            Some(v)
        } else {
            None
        },
        None => None,
    }
}

proof fn lemma_digits_value_grows(s: Seq<char>, k: int)
    requires
        0 <= k <= s.len(),
    ensures
        digits_value(s.subrange(0, k)) <= digits_value(s),
    decreases s.len() - k,
{
    if k < s.len() {
        lemma_digits_value_grows(s, k + 1);
        let t = s.subrange(0, k + 1);
        assert(t.drop_last() =~= s.subrange(0, k));
    } else {
        assert(s.subrange(0, k) =~= s);
    }
}

/// Reads a run of decimal digits as a `usize`; `None` when the run is empty,
/// holds another character, or its value does not fit.
fn parse_digits(s: &str, from: usize) -> (r: Option<usize>)
    requires
        from <= s@.len(),
    ensures
        match digits_number(s@.subrange(from as int, s@.len() as int)) {
            Some(v) => if v <= usize::MAX {
                r == Some(v as usize)
            } else {
                r is None
            },
            None => r is None,
        },
{
    let ghost t = s@.subrange(from as int, s@.len() as int);
    let n = s.unicode_len();
    if from == n {
        return None;
    }
    let mut acc: usize = 0;
    let mut i: usize = from;
    while i < n
        invariant
            from <= i <= n,
            n == s@.len(),
            t == s@.subrange(from as int, n as int),
            forall|j: int| 0 <= j < i - from ==> is_digit(#[trigger] t[j]),
            acc as nat == digits_value(t.subrange(0, i - from)),
        decreases n - i,
    {
        let c = s.get_char(i);
        let ghost p = t.subrange(0, i - from + 1);
        proof {
            assert(p.drop_last() =~= t.subrange(0, i - from));
            assert(p.last() == c);
        }
        if c < '0' || c > '9' {
            assert(!is_digit(t[i - from]));
            return None;
        }
        let d = (c as u32 - '0' as u32) as usize;
        if acc > (usize::MAX - d) / 10 {
            proof {
                assert(digits_value(p) == acc * 10 + d);
                assert(acc * 10 + d > usize::MAX) by (nonlinear_arith)
                    requires
                        acc > (usize::MAX - d) / 10,
                        d <= 9,
                ;
                lemma_digits_value_grows(t, i - from + 1);
                if forall|j: int| 0 <= j < t.len() ==> is_digit(#[trigger] t[j]) {
                    assert(digits_number(t) == Some(digits_value(t)));
                }
            }
            return None;
        }
        acc = acc * 10 + d;
        i = i + 1;
    }
    assert(t.subrange(0, n - from) =~= t);
    Some(acc)
}

/// Reads a producer index from an event name, as `usize::from_str` does.
pub fn parse_index(s: &str) -> (r: Option<usize>)
    ensures
        match index_of_name(s@) {
            Some(v) => r == Some(v as usize),
            None => r is None,
        },
{
    let n = s.unicode_len();
    if n > 0 && s.get_char(0) == '+' {
        let r = parse_digits(s, 1);
        assert(s@.subrange(1, s@.len() as int) =~= s@.drop_first());
        r
    } else {
        let r = parse_digits(s, 0);
        assert(s@.subrange(0, s@.len() as int) =~= s@);
        r
    }
}

/// Where an event line goes.
#[derive(Debug, Clone, Copy, PartialEq, Eq)]
pub enum Route {
    /// Hand the event to the producer at this index.
    Dispatch(usize),
    /// The line was not an event.
    Malformed,
    /// The event names no producer.
    NoName,
    /// The name is not an index.
    BadName,
    /// The index is past the last producer.
    UnknownBlock(usize),
}

/// The route of a parsed line among `n` producers.
pub open spec fn route_of(parsed: Option<I3Event>, n: nat) -> Route {
    match parsed {
        None => Route::Malformed,
        Some(e) => match opt_view(e.name) {
            None => Route::NoName,
            Some(name) => match index_of_name(name) {
                None => Route::BadName,
                Some(i) => if i < n {
                    Route::Dispatch(i as usize)
                } else {
                    Route::UnknownBlock(i as usize)
                },
            },
        },
    }
}

/// The route of a line that was parsed (or failed to parse, `None`) as an
/// event, among `n_blocks` producers.
pub fn route_event(parsed: &Option<I3Event>, n_blocks: usize) -> (r: Route)
    ensures
        r == route_of(*parsed, n_blocks as nat),
{
    match parsed {
        None => Route::Malformed,
        Some(e) => match &e.name {
            None => Route::NoName,
            Some(name) => match parse_index(name.as_str()) {
                None => Route::BadName,
                Some(i) => if i < n_blocks {
                    Route::Dispatch(i)
                } else {
                    Route::UnknownBlock(i)
                },
            },
        },
    }
}

impl Route {
    /// The diagnostic for a line that is not dispatched; empty for a dispatch.
    pub fn message(&self) -> (r: &'static str)
        ensures
            (*self is Dispatch) == (r@.len() == 0),
    {
        proof {
            reveal_strlit("");
            reveal_strlit("Received invalid JSON");
            reveal_strlit("Received event without name");
            reveal_strlit("Received invalid block name");
            reveal_strlit("Got event for invalid block");
        }
        match self {
            Route::Dispatch(_) => "",
            Route::Malformed => "Received invalid JSON",
            Route::NoName => "Received event without name",
            Route::BadName => "Received invalid block name",
            Route::UnknownBlock(_) => "Got event for invalid block",
        }
    }
}

/// The routes of a stream of parsed lines, each taken on its own.
pub open spec fn routes(parsed: Seq<Option<I3Event>>, n: nat) -> Seq<Route> {
    parsed.map_values(|p: Option<I3Event>| route_of(p, n))
}

/// A line that is not an event is reported as malformed and changes nothing
/// for the lines around it: each of them is routed as it would be without it.
pub proof fn lemma_malformed_line_isolated(
    before: Seq<Option<I3Event>>,
    after: Seq<Option<I3Event>>,
    n: nat,
)
    ensures
        routes(before + seq![None] + after, n) == routes(before, n) + seq![Route::Malformed]
            + routes(after, n),
{
    assert(routes(before + seq![None] + after, n) =~= routes(before, n) + seq![Route::Malformed]
        + routes(after, n));
}

} // verus!
