//! Frontends: the bar-stream protocol, which writes every frame, and the
//! single-content protocol of the alternate bar, which writes a line only
//! when it differs from the last one.

use vstd::prelude::*;
use crate::snapshot::{I3Block, I3Event, opt_view};
use crate::json::{frame_json, frame_text, json_string, nullable_member, push_json_string, push_nullable_member};
use crate::text::{decimal, push_decimal};

verus! {

/// The header object that opens the bar stream.
pub open spec fn header_text(stop_signal: nat, cont_signal: nat) -> Seq<char> {
    "{\"version\":1,\"stop_signal\":"@ + decimal(stop_signal) + ",\"cont_signal\":"@ + decimal(cont_signal)
        + ",\"click_events\":true}"@
}

/// The header line of the bar stream, announcing click events and the
/// signals that stop and continue the producer.
pub fn header_line(stop_signal: u32, cont_signal: u32) -> (r: String)
    ensures
        r@ == header_text(stop_signal as nat, cont_signal as nat),
{
    let mut s = String::new();
    s.append("{\"version\":1,\"stop_signal\":");
    push_decimal(&mut s, stop_signal as u64);
    s.append(",\"cont_signal\":");
    push_decimal(&mut s, cont_signal as u64);
    s.append(",\"click_events\":true}");
    assert(s@ =~= header_text(stop_signal as nat, cont_signal as nat));
    s
}

/// The line that follows the header: the opening of the endless array.
pub fn stream_open() -> (r: &'static str)
    ensures
        r@ == seq!['['],
{
    proof {
        reveal_strlit("[");
    }
    "["
}

/// The line of one frame in the bar stream: the frame's array and a comma.
/// It is written on every tick, whether or not the frame changed.
pub fn bar_line(frame: &Vec<I3Block>) -> (r: String)
    ensures
        r@ == frame_text(frame@) + ","@,
{
    let s = frame_json(frame);
    s.concat(",")
}

/// The text the alternate bar shows for a snapshot: its text, wrapped in a
/// colored span when the snapshot has a color.
pub open spec fn colored_text(b: I3Block) -> Seq<char> {
    match b.color {
        Some(c) => "<span color='"@ + c@ + "'>"@ + b.full_text@ + "</span>"@,
        None => b.full_text@,
    }
}

/// The alternate bar's line for a rendered output.
pub open spec fn alt_text(output: Option<I3Block>) -> Seq<char> {
    match output {
        Some(b) => "{\"text\":"@ + json_string(colored_text(b)) + nullable_member(
            ",\"tooltip\":"@,
            opt_view(b.tooltip),
        ) + "}"@,
        None => "{\"text\":\"\"}"@,
    }
}

/// The alternate bar's line for a rendered output.
pub fn alt_line(output: &Option<I3Block>) -> (r: String)
    ensures
        r@ == alt_text(*output),
{
    let mut s = String::new();
    match output {
        Some(b) => {
            let mut t = String::new();
            match &b.color {
                Some(c) => {
                    t.append("<span color='");
                    t.append(c.as_str());
                    t.append("'>");
                    t.append(b.full_text.as_str());
                    t.append("</span>");
                },
                None => {
                    t.append(b.full_text.as_str());
                },
            }
            assert(t@ =~= colored_text(*b));
            s.append("{\"text\":");
            push_json_string(&mut s, t.as_str());
            push_nullable_member(&mut s, ",\"tooltip\":", &b.tooltip);
            s.append("}");
            assert(s@ =~= alt_text(*output));
        },
        None => {
            s.append("{\"text\":\"\"}");
            assert(s@ =~= alt_text(*output));
        },
    }
    s
}

/// The last line written, so that an unchanged line is not written again.
pub struct LineDedup {
    last: String,
}

impl View for LineDedup {
    type V = Seq<char>;

    closed spec fn view(&self) -> Seq<char> {
        self.last@
    }
}

impl LineDedup {
    /// Nothing written yet.
    pub fn new() -> (r: LineDedup)
        ensures
            r@ == Seq::<char>::empty(),
    {
        LineDedup { last: String::new() }
    }

    /// The line to write for `line`: `None` when it equals the last line
    /// written, otherwise the line itself, which becomes the last one.
    pub fn offer(&mut self, line: String) -> (r: Option<String>)
        ensures
            line@ == old(self)@ ==> r is None && final(self)@ == old(self)@,
            line@ != old(self)@ ==> r == Some(line) && final(self)@ == line@,
    {
        if line == self.last {
            None
        } else {
            self.last = line.clone();
            Some(line)
        }
    }
}

/// The click that a real-time signal stands for: the bar signals left,
/// middle and right clicks as signals 35, 36 and 37.
pub open spec fn signal_button(signal: int) -> Option<u8> {
    if signal == 35 {
        Some(1u8)
    } else if signal == 36 {
        Some(2u8)
    } else if signal == 37 {
        Some(3u8)
    } else {
        None
    }
}

/// The unnamed event that a signal stands for, if any.
pub fn signal_event(signal: i32) -> (r: Option<I3Event>)
    ensures
        match signal_button(signal as int) {
            Some(b) => r matches Some(e) && e.name is None && e.button == b,
            None => r is None,
        },
{
    let button: u8 = if signal == 35 {
        1
    } else if signal == 36 {
        2
    } else if signal == 37 {
        3
    } else {
        return None;
    };
    Some(I3Event { name: None, button })
}

} // verus!
