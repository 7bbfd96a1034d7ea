//! The JSON text of snapshots, frames and events, one line each.

use vstd::prelude::*;
use crate::snapshot::{I3Block, I3Event, markup_name, opt_view};
use crate::text::{decimal, push_decimal};

verus! {

/// The JSON string literal of a text: quoted, with the characters that JSON
/// requires escaped.
pub uninterp spec fn json_string(s: Seq<char>) -> Seq<char>;

/// Relies on serde_json::to_string on a `str`: the text is written as one
/// JSON string literal. Writing into memory cannot fail for a `str`.
#[verifier::external_body]
fn quote_json(s: &str) -> (r: String)
    ensures
        r@ == json_string(s@),
{
    match serde_json::to_string(s) {
        Ok(t) => t,
        Err(_) => String::new(),
    }
}

/// An object member that is written only when the value is present.
pub open spec fn opt_member(key: Seq<char>, v: Option<Seq<char>>) -> Seq<char> {
    match v {
        Some(t) => key + json_string(t),
        None => Seq::empty(),
    }
}

/// An object member whose value is a string or `null`.
pub open spec fn nullable_member(key: Seq<char>, v: Option<Seq<char>>) -> Seq<char> {
    match v {
        Some(t) => key + json_string(t),
        None => key + "null"@,
    }
}

/// The markup member of a snapshot, written only when a markup is set.
pub open spec fn markup_member(b: I3Block) -> Seq<char> {
    match b.markup {
        Some(m) => ",\"markup\":\""@ + markup_name(m) + "\""@,
        None => Seq::empty(),
    }
}

/// The JSON object of a snapshot: members in declaration order, absent
/// optional members left out.
pub open spec fn snapshot_text(b: I3Block) -> Seq<char> {
    "{\"full_text\":"@ + json_string(b.full_text@) + opt_member(",\"short_text\":"@, opt_view(b.short_text))
        + opt_member(",\"color\":"@, opt_view(b.color)) + ",\"name\":"@ + json_string(b.name@)
        + markup_member(b) + opt_member(",\"tooltip\":"@, opt_view(b.tooltip)) + "}"@
}

/// The snapshot objects of a frame, separated by commas.
pub open spec fn items_text(s: Seq<I3Block>) -> Seq<char>
    decreases s.len(),
{
    if s.len() == 0 {
        Seq::empty()
    } else if s.len() == 1 {
        snapshot_text(s[0])
    } else {
        items_text(s.drop_last()) + ","@ + snapshot_text(s.last())
    }
}

/// The JSON array of a frame.
pub open spec fn frame_text(s: Seq<I3Block>) -> Seq<char> {
    "["@ + items_text(s) + "]"@
}

/// The JSON object of an event; a missing name is written as `null`.
pub open spec fn event_text(e: I3Event) -> Seq<char> {
    "{"@ + nullable_member("\"name\":"@, opt_view(e.name)) + ",\"button\":"@ + decimal(e.button as nat)
        + "}"@
}

/// Appends a JSON string literal.
pub fn push_json_string(s: &mut String, t: &str)
    ensures
        final(s)@ == old(s)@ + json_string(t@),
{
    let q = quote_json(t);
    s.append(q.as_str());
}

fn push_opt_member(s: &mut String, key: &str, v: &Option<String>)
    ensures
        final(s)@ == old(s)@ + opt_member(key@, opt_view(*v)),
{
    match v {
        Some(t) => {
            s.append(key);
            push_json_string(s, t.as_str());
            assert(final(s)@ =~= old(s)@ + opt_member(key@, opt_view(*v)));
        },
        None => {
            assert(final(s)@ =~= old(s)@ + opt_member(key@, opt_view(*v)));
        },
    }
}

/// Appends a member whose value is a string or `null`.
pub fn push_nullable_member(s: &mut String, key: &str, v: &Option<String>)
    ensures
        final(s)@ == old(s)@ + nullable_member(key@, opt_view(*v)),
{
    s.append(key);
    match v {
        Some(t) => push_json_string(s, t.as_str()),
        None => s.append("null"),
    }
    assert(final(s)@ =~= old(s)@ + nullable_member(key@, opt_view(*v)));
}

/// Appends the JSON object of a snapshot.
pub fn push_snapshot(s: &mut String, b: &I3Block)
    ensures
        final(s)@ == old(s)@ + snapshot_text(*b),
{
    let ghost s0 = s@;
    s.append("{\"full_text\":");
    push_json_string(s, b.full_text.as_str());
    push_opt_member(s, ",\"short_text\":", &b.short_text);
    push_opt_member(s, ",\"color\":", &b.color);
    s.append(",\"name\":");
    push_json_string(s, b.name.as_str());
    match b.markup {
        Some(m) => {
            s.append(",\"markup\":\"");
            s.append(m.as_str());
            s.append("\"");
        },
        None => {},
    }
    push_opt_member(s, ",\"tooltip\":", &b.tooltip);
    s.append("}");
    assert(s@ =~= s0 + snapshot_text(*b));
}

/// The JSON object of a snapshot.
pub fn snapshot_json(b: &I3Block) -> (r: String)
    ensures
        r@ == snapshot_text(*b),
{
    let mut s = String::new();
    push_snapshot(&mut s, b);
    assert(s@ =~= snapshot_text(*b));
    s
}

/// The JSON array of a frame.
pub fn frame_json(frame: &Vec<I3Block>) -> (r: String)
    ensures
        r@ == frame_text(frame@),
{
    let mut s = String::new();
    s.append("[");
    let mut i: usize = 0;
    while i < frame.len()
        invariant
            i <= frame@.len(),
            s@ == "["@ + items_text(frame@.subrange(0, i as int)),
        decreases frame@.len() - i,
    {
        let ghost before = s@;
        if i > 0 {
            s.append(",");
        }
        push_snapshot(&mut s, &frame[i]);
        proof {
            let p = frame@.subrange(0, i + 1);
            assert(p.drop_last() =~= frame@.subrange(0, i as int));
            assert(p.last() == frame@[i as int]);
            if i == 0 {
                assert(items_text(frame@.subrange(0, 0)) =~= Seq::<char>::empty());
                assert(s@ =~= "["@ + items_text(p));
            } else {
                assert(s@ =~= "["@ + items_text(p));
            }
        }
        i = i + 1;
    }
    assert(frame@.subrange(0, frame@.len() as int) =~= frame@);
    s.append("]");
    s
}

/// The JSON object of an event.
pub fn event_json(e: &I3Event) -> (r: String)
    ensures
        r@ == event_text(*e),
{
    let mut s = String::new();
    s.append("{");
    push_nullable_member(&mut s, "\"name\":", &e.name);
    s.append(",\"button\":");
    push_decimal(&mut s, e.button as u64);
    s.append("}");
    assert(s@ =~= event_text(*e));
    s
}

} // verus!
