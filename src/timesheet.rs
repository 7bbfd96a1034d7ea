//! The timesheet producer: the time worked today, the running timesheet, the
//! daily-hours notification, and what its clicks ask of the time tracker.

use vstd::prelude::*;
use crate::snapshot::{I3Block, Markup};
use crate::producers::is_warning;
use crate::text::{decimal, push_decimal, push_two_digits, two_digits};

verus! {

/// A duration in seconds as hours and minutes, `H:MM`, minutes rounded up.
/// A negative duration keeps the sign of Rust's truncating division on each
/// part.
pub open spec fn timestamp_text(s: int) -> Seq<char> {
    if s >= 0 {
        let m = s as nat;
        let minutes = (m / 60) % 60 + if m % 60 > 0 { 1nat } else { 0nat };
        if minutes == 60 {
            decimal(m / 3600 + 1) + ":00"@
        } else {
            decimal(m / 3600) + ":"@ + two_digits(minutes)
        }
    } else {
        let m = (-s) as nat;
        let h = m / 3600;
        let mi = (m / 60) % 60;
        (if h == 0 { "0"@ } else { "-"@ + decimal(h) }) + ":"@ + (if mi == 0 { "00"@ } else { "-"@
            + decimal(mi) })
    }
}

/// Formats a duration in seconds as `H:MM`.
pub fn seconds_to_timestamp(seconds: i64) -> (r: String)
    ensures
        r@ == timestamp_text(seconds as int),
{
    let mut s = String::new();
    if seconds >= 0 {
        let m = seconds as u64;
        let mut hours = m / 3600;
        let mut minutes = (m / 60) % 60;
        if m % 60 > 0 {
            minutes = minutes + 1;
        }
        if minutes == 60 {
            hours = hours + 1;
            minutes = 0;
        }
        push_decimal(&mut s, hours);
        s.append(":");
        push_two_digits(&mut s, minutes);
        proof {
            reveal_strlit(":");
            reveal_strlit(":00");
            reveal_strlit("0");
        }
        assert(s@ =~= timestamp_text(seconds as int));
    } else {
        let m = (-(seconds as i128)) as u64;
        let hours = m / 3600;
        let minutes = (m / 60) % 60;
        if hours == 0 {
            s.append("0");
        } else {
            s.append("-");
            push_decimal(&mut s, hours);
        }
        s.append(":");
        if minutes == 0 {
            s.append("00");
        } else {
            s.append("-");
            push_decimal(&mut s, minutes);
        }
        assert(s@ =~= timestamp_text(seconds as int));
    }
    s
}

/// What the time tracker last told us.
#[derive(Debug, Clone, Copy, PartialEq, Eq)]
pub enum TimesheetState {
    /// No answer yet.
    NoData,
    /// The last request failed.
    Error,
    /// Seconds of finished timesheets today, and how long the running
    /// timesheet has run by now (0 when none runs).
    Available { today: i64, running: i64 },
}

/// The text of the entry while data is available: the total of today, with
/// the running timesheet in front, in green, while one runs.
pub open spec fn worked_text(today: int, running: int) -> Seq<char> {
    let total = timestamp_text(today + running);
    if running > 0 {
        "<span foreground='#02ff02'>"@ + timestamp_text(running) + " ("@ + total + ")</span>"@
    } else {
        total
    }
}

/// Whether the sum of the two parts of an available state fits.
pub open spec fn state_fits(state: TimesheetState) -> bool {
    match state {
        TimesheetState::Available { today, running } => i64::MIN <= today + running <= i64::MAX,
        _ => true,
    }
}

/// The timesheet entry: nothing before the first answer, a warning after a
/// failure, else the time worked today.
pub fn timesheet_snapshot(state: TimesheetState) -> (r: Option<I3Block>)
    requires
        state_fits(state),
    ensures
        state is NoData ==> r is None,
        state is Error ==> (r matches Some(b) && is_warning(b, "ERROR"@)),
        state matches TimesheetState::Available { today, running } ==> (r matches Some(b) && {
            &&& b.full_text@ == worked_text(today as int, running as int)
            &&& (b.short_text matches Some(t) && t@ == timestamp_text(today + running))
            &&& b.markup == Some(Markup::Pango)
            &&& b.color is None && b.tooltip is None
        }),
{
    match state {
        TimesheetState::NoData => None,
        TimesheetState::Error => {
            let mut b = I3Block::text(String::from_str("ERROR"));
            b.color = Some(String::from_str("#ff0202"));
            Some(b)
        },
        TimesheetState::Available { today, running } => {
            let total = seconds_to_timestamp(today + running);
            let mut full = String::new();
            if running > 0 {
                full.append("<span foreground='#02ff02'>");
                full.append(seconds_to_timestamp(running).as_str());
                full.append(" (");
                full.append(total.as_str());
                full.append(")</span>");
            } else {
                full.append(total.as_str());
            }
            assert(full@ =~= worked_text(today as int, running as int));
            let mut b = I3Block::text(full);
            b.short_text = Some(total);
            b.markup = Some(Markup::Pango);
            Some(b)
        },
    }
}

/// Whole hours in a number of seconds, truncated toward zero.
pub open spec fn whole_hours(seconds: int) -> int {
    if seconds >= 0 {
        seconds / 3600
    } else {
        -((-seconds) / 3600)
    }
}

/// After a refresh: whether the daily-hours notification counts as sent, and
/// whether to send it now. Below the threshold the flag is cleared; at or
/// above it, with a timesheet running and the flag clear, it is sent once.
pub open spec fn notify_step_of(threshold: Option<u8>, worked: int, notified: bool, running: int) -> (bool, bool) {
    match threshold {
        None => (notified, false),
        Some(n) => if whole_hours(worked) < n {
            (false, false)
        } else if !notified && running > 0 {
            (true, true)
        } else {
            (notified, false)
        },
    }
}

/// One step of the daily-hours notification; `worked` is the total of today
/// in seconds, running timesheet included.
pub fn notify_step(threshold: Option<u8>, worked: i64, notified: bool, running: i64) -> (r: (bool, bool))
    ensures
        r == notify_step_of(threshold, worked as int, notified, running as int),
{
    match threshold {
        None => (notified, false),
        Some(n) => {
            let hours: i64 = if worked >= 0 {
                worked / 3600
            } else {
                -((-(worked as i128)) / 3600) as i64
            };
            if hours < n as i64 {
                (false, false)
            } else if !notified && running > 0 {
                (true, true)
            } else {
                (notified, false)
            }
        },
    }
}

/// The body of the daily-hours notification.
pub fn notification_text(hours: u8) -> (r: String)
    ensures
        r@ == "You have reached your daily "@ + decimal(hours as nat) + "h"@,
{
    let mut s = String::from_str("You have reached your daily ");
    push_decimal(&mut s, hours as u64);
    s.append("h");
    s
}

/// What a click on the timesheet entry asks of the time tracker.
#[derive(Debug, Clone, Copy, PartialEq, Eq)]
pub enum TimesheetAction {
    /// Ask again now (left click).
    Refresh,
    /// Stop the running timesheet, then ask again (middle click).
    Stop,
    /// Stop the running timesheet, start one on the default project and
    /// activity, then ask again (right click).
    Restart,
}

/// The timesheet action of a mouse button.
pub open spec fn timesheet_action_of(button: u8) -> Option<TimesheetAction> {
    if button == 1 {
        Some(TimesheetAction::Refresh)
    } else if button == 2 {
        Some(TimesheetAction::Stop)
    } else if button == 3 {
        Some(TimesheetAction::Restart)
    } else {
        None
    }
}

/// The timesheet action of a mouse button, if any.
pub fn timesheet_action(button: u8) -> (r: Option<TimesheetAction>)
    ensures
        r == timesheet_action_of(button),
{
    match button {
        1 => Some(TimesheetAction::Refresh),
        2 => Some(TimesheetAction::Stop),
        3 => Some(TimesheetAction::Restart),
        _ => None,
    }
}

/// The seconds of the finished timesheets (those with a nonzero duration).
pub open spec fn finished_total(durations: Seq<i64>) -> int
    decreases durations.len(),
{
    if durations.len() == 0 {
        0
    } else {
        finished_total(durations.drop_last()) + durations.last()
    }
}

/// The seconds that the running timesheets have run, each counted by its
/// absolute value; a timesheet whose start could not be read (`None`) counts
/// nothing.
pub open spec fn running_total(elapsed: Seq<Option<i64>>) -> int
    decreases elapsed.len(),
{
    if elapsed.len() == 0 {
        0
    } else {
        running_total(elapsed.drop_last()) + match elapsed.last() {
            Some(e) => if e >= 0 { e as int } else { -(e as int) },
            None => 0,
        }
    }
}

/// The totals of today's timesheets: the sum of the finished durations and
/// the sum of how long the running ones have run. `None` when a sum does not
/// fit in `i64`.
pub fn day_totals(finished: &Vec<i64>, running: &Vec<Option<i64>>) -> (r: Option<(i64, i64)>)
    requires
        finished@.len() <= u64::MAX,
        running@.len() <= u64::MAX,
    ensures
        ({
            let f = finished_total(finished@);
            let a = running_total(running@);
            if i64::MIN <= f <= i64::MAX && i64::MIN <= a <= i64::MAX {
                r == Some((f as i64, a as i64))
            } else {
                r is None
            }
        }),
{
    let mut f: i128 = 0;
    let mut i: usize = 0;
    while i < finished.len()
        invariant
            i <= finished@.len(),
            finished@.len() <= u64::MAX,
            f == finished_total(finished@.subrange(0, i as int)),
            -(i as int) * 0x8000_0000_0000_0000 <= f <= (i as int) * 0x8000_0000_0000_0000,
        decreases finished@.len() - i,
    {
        proof {
            assert(finished@.subrange(0, i + 1).drop_last() =~= finished@.subrange(0, i as int));
            assert((i as int + 1) * 0x8000_0000_0000_0000 <= 0x7fff_ffff_ffff_ffff_8000_0000_0000_0000) by (nonlinear_arith)
                requires
                    i < u64::MAX,
            ;
        }
        f = f + finished[i] as i128;
        i = i + 1;
    }
    let mut a: i128 = 0;
    let mut j: usize = 0;
    while j < running.len()
        invariant
            j <= running@.len(),
            running@.len() <= u64::MAX,
            a == running_total(running@.subrange(0, j as int)),
            0 <= a <= (j as int) * 0x8000_0000_0000_0000,
        decreases running@.len() - j,
    {
        proof {
            assert(running@.subrange(0, j + 1).drop_last() =~= running@.subrange(0, j as int));
            assert((j as int + 1) * 0x8000_0000_0000_0000 <= 0x7fff_ffff_ffff_ffff_8000_0000_0000_0000) by (nonlinear_arith)
                requires
                    j < u64::MAX,
            ;
        }
        match running[j] {
            Some(e) => {
                let m: i128 = if e >= 0 {
                    e as i128
                } else {
                    -(e as i128)
                };
                a = a + m;
            },
            None => {},
        }
        j = j + 1;
    }
    assert(finished@.subrange(0, finished@.len() as int) =~= finished@);
    assert(running@.subrange(0, running@.len() as int) =~= running@);
    if f < i64::MIN as i128 || f > i64::MAX as i128 || a > i64::MAX as i128 {
        None
    } else {
        Some((f as i64, a as i64))
    }
}

} // verus!
