//! The date producer: calendar week, day, month and time of day.

use vstd::prelude::*;
use chrono::{Datelike, Timelike};
use crate::snapshot::{Block, I3Block, I3Event};
use crate::text::{push_two_digits, two_digits};

verus! {

/// A local date and time of day, as the entry shows it.
#[derive(Debug, Clone, Copy, PartialEq, Eq)]
pub struct LocalTime {
    /// ISO calendar week.
    pub iso_week: u8,
    /// Month, 1 to 12.
    pub month: u8,
    /// Day of the month, from 1.
    pub day: u8,
    pub hour: u8,
    pub minute: u8,
}

impl LocalTime {
    /// The fields are in their calendar ranges.
    pub open spec fn wf(&self) -> bool {
        &&& 1 <= self.iso_week <= 53
        &&& 1 <= self.month <= 12
        &&& 1 <= self.day <= 31
        &&& self.hour < 24
        &&& self.minute < 60
    }
}

/// Relies on chrono::Local::now and the calendar accessors of its result:
/// the local date and time now, month 1 to 12, day 1 to 31, hour 0 to 23,
/// minute 0 to 59, ISO week 1 to 53.
#[verifier::external_body]
fn local_now() -> (r: LocalTime)
    ensures
        r.wf(),
{
    let now = chrono::Local::now();
    LocalTime {
        iso_week: now.iso_week().week() as u8,
        month: now.month() as u8,
        day: now.day() as u8,
        hour: now.hour() as u8,
        minute: now.minute() as u8,
    }
}

/// The English abbreviation of a month.
pub open spec fn month_abbrev(m: u8) -> Seq<char> {
    if m == 1 {
        "Jan"@
    } else if m == 2 {
        "Feb"@
    } else if m == 3 {
        "Mar"@
    } else if m == 4 {
        "Apr"@
    } else if m == 5 {
        "May"@
    } else if m == 6 {
        "Jun"@
    } else if m == 7 {
        "Jul"@
    } else if m == 8 {
        "Aug"@
    } else if m == 9 {
        "Sep"@
    } else if m == 10 {
        "Oct"@
    } else if m == 11 {
        "Nov"@
    } else {
        "Dec"@
    }
}

fn month_name(m: u8) -> (r: &'static str)
    ensures
        r@ == month_abbrev(m),
{
    if m == 1 {
        "Jan"
    } else if m == 2 {
        "Feb"
    } else if m == 3 {
        "Mar"
    } else if m == 4 {
        "Apr"
    } else if m == 5 {
        "May"
    } else if m == 6 {
        "Jun"
    } else if m == 7 {
        "Jul"
    } else if m == 8 {
        "Aug"
    } else if m == 9 {
        "Sep"
    } else if m == 10 {
        "Oct"
    } else if m == 11 {
        "Nov"
    } else {
        "Dec"
    }
}

/// The time of day, `HH:MM`.
pub open spec fn clock_text(t: LocalTime) -> Seq<char> {
    two_digits(t.hour as nat) + ":"@ + two_digits(t.minute as nat)
}

/// The full text of the entry, `(KWww) dd.mm. (Mon) HH:MM`.
pub open spec fn date_text(t: LocalTime) -> Seq<char> {
    "(KW"@ + two_digits(t.iso_week as nat) + ") "@ + two_digits(t.day as nat) + "."@ + two_digits(
        t.month as nat,
    ) + ". ("@ + month_abbrev(t.month) + ") "@ + clock_text(t)
}

/// The date entry; it has no state and ignores clicks.
#[derive(Debug, Default)]
pub struct DateBlock {}

impl DateBlock {
    /// The entry at the local time `t`: the date in full, the time of day
    /// as the short text.
    pub fn snapshot_at(&self, t: &LocalTime) -> (r: I3Block)
        requires
            t.wf(),
        ensures
            r.full_text@ == date_text(*t),
            r.short_text matches Some(s) && s@ == clock_text(*t),
            r.color is None && r.markup is None && r.tooltip is None,
    {
        let mut clock = String::new();
        push_two_digits(&mut clock, t.hour as u64);
        clock.append(":");
        push_two_digits(&mut clock, t.minute as u64);
        let mut full = String::from_str("(KW");
        push_two_digits(&mut full, t.iso_week as u64);
        full.append(") ");
        push_two_digits(&mut full, t.day as u64);
        full.append(".");
        push_two_digits(&mut full, t.month as u64);
        full.append(". (");
        full.append(month_name(t.month));
        full.append(") ");
        full.append(clock.as_str());
        assert(clock@ =~= clock_text(*t));
        assert(full@ =~= date_text(*t));
        let mut b = I3Block::text(full);
        b.short_text = Some(clock);
        b
    }
}

impl Block for DateBlock {
    fn render(&self) -> Option<I3Block> {
        let now = local_now();
        Some(self.snapshot_at(&now))
    }

    fn click(&self, _event: &I3Event) {
    }
}

} // verus!
