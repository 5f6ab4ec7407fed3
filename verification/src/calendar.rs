//! Local calendar rendering of epoch timestamps.
//!
//! Only the conversion from epoch seconds to local calendar components
//! is outside work; the rendering of the components is verified.

use chrono::{Datelike, Timelike};
use vstd::prelude::*;
use crate::matches::MatchDetailView;
use crate::text::{push_dec_u64, push_one, spec_dec_nat, string_of_chars};

verus! {

/// A calendar timestamp in the viewer's local time zone, held as
/// plain component values.
#[derive(Clone, Copy, Debug, PartialEq, Eq, Structural)]
pub struct CalendarTime {
    pub year: i32,
    pub month: u32,
    pub day: u32,
    pub hour: u32,
    pub minute: u32,
    pub second: u32,
}

/// Each component lies in its calendar range.
pub open spec fn spec_calendar_in_range(t: CalendarTime) -> bool {
    &&& 1 <= t.month <= 12
    &&& 1 <= t.day <= 31
    &&& t.hour < 24
    &&& t.minute < 60
    &&& t.second < 60
}

/// The epoch seconds chrono's calendar can represent: from the first
/// day of its lowest year to the last day of its highest.  Within
/// this range the conversion from epoch seconds succeeds; outside it,
/// it yields nothing.
pub open spec fn spec_epoch_in_range(secs: int) -> bool {
    -8334601228800 <= secs <= 8210266876799
}

/// Relies on chrono's `DateTime::from_timestamp`, the `From`
/// conversion to the local time zone, and the `Datelike`/`Timelike`
/// accessors.  `from_timestamp` succeeds exactly on the epoch seconds
/// whose day falls inside the calendar's year range, a function of
/// the seconds alone; the bounds in [`spec_epoch_in_range`] are that
/// range, anchored on the epoch day number the conversion uses.  On
/// success the components lie in the documented calendar ranges
/// (month 1-12, day 1-31, hour below 24, minute and second below 60).
/// Which calendar values come back depends on the machine's time
/// zone, so nothing more is promised of them.
#[verifier::external_body]
pub fn local_calendar(epoch_seconds: i64) -> (r: Option<CalendarTime>)
    ensures
        r is Some <==> spec_epoch_in_range(epoch_seconds as int),
        r matches Some(t) ==> spec_calendar_in_range(t),
{
    chrono::DateTime::from_timestamp(epoch_seconds, 0).map(
        |utc| {
            let local = chrono::DateTime::<chrono::Local>::from(utc);
            CalendarTime {
                year: local.year(),
                month: local.month(),
                day: local.day(),
                hour: local.hour(),
                minute: local.minute(),
                second: local.second(),
            }
        },
    )
}

/// A number zero-padded to at least two digits.
pub open spec fn spec_pad2(n: nat) -> Seq<char> {
    if n < 10 {
        seq!['0'] + spec_dec_nat(n)
    } else {
        spec_dec_nat(n)
    }
}

/// A number zero-padded to at least four digits.
pub open spec fn spec_pad4(n: nat) -> Seq<char> {
    if n < 10 {
        seq!['0', '0', '0'] + spec_dec_nat(n)
    } else if n < 100 {
        seq!['0', '0'] + spec_dec_nat(n)
    } else if n < 1000 {
        seq!['0'] + spec_dec_nat(n)
    } else {
        spec_dec_nat(n)
    }
}

/// The year component: zero-padded magnitude, a minus sign before a
/// year preceding the common era.
pub open spec fn spec_year4(y: int) -> Seq<char> {
    if y >= 0 {
        spec_pad4(y as nat)
    } else {
        seq!['-'] + spec_pad4((-y) as nat)
    }
}

/// The fixed textual pattern of a rendered local timestamp:
/// year/month/day, a space, hour:minute:second, each component
/// zero-padded.
pub open spec fn spec_calendar_col(t: CalendarTime) -> Seq<char> {
    spec_year4(t.year as int) + seq!['/'] + spec_pad2(t.month as nat) + seq!['/'] + spec_pad2(
        t.day as nat,
    ) + seq![' '] + spec_pad2(t.hour as nat) + seq![':'] + spec_pad2(t.minute as nat) + seq![':']
        + spec_pad2(t.second as nat)
}

fn push_pad2(out: &mut Vec<char>, n: u32)
    ensures
        final(out)@ == old(out)@ + spec_pad2(n as nat),
{
    if n < 10 {
        push_one(out, '0');
    }
    push_dec_u64(out, n as u64);
    assert(out@ =~= old(out)@ + spec_pad2(n as nat));
}

fn push_pad4(out: &mut Vec<char>, n: u64)
    ensures
        final(out)@ == old(out)@ + spec_pad4(n as nat),
{
    if n < 10 {
        push_one(out, '0');
        push_one(out, '0');
        push_one(out, '0');
    } else if n < 100 {
        push_one(out, '0');
        push_one(out, '0');
    } else if n < 1000 {
        push_one(out, '0');
    }
    push_dec_u64(out, n);
    assert(out@ =~= old(out)@ + spec_pad4(n as nat));
}

/// Renders calendar components in the fixed timestamp pattern.
pub fn format_calendar(t: CalendarTime) -> (r: String)
    ensures
        r@ == spec_calendar_col(t),
{
    let mut out: Vec<char> = Vec::new();
    if t.year >= 0 {
        push_pad4(&mut out, t.year as u64);
    } else {
        push_one(&mut out, '-');
        let mag: u64 = ((-(t.year as i64)) as u64);
        push_pad4(&mut out, mag);
    }
    assert(out@ =~= spec_year4(t.year as int));
    push_one(&mut out, '/');
    push_pad2(&mut out, t.month);
    push_one(&mut out, '/');
    push_pad2(&mut out, t.day);
    push_one(&mut out, ' ');
    push_pad2(&mut out, t.hour);
    push_one(&mut out, ':');
    push_pad2(&mut out, t.minute);
    push_one(&mut out, ':');
    push_pad2(&mut out, t.second);
    assert(out@ =~= spec_calendar_col(t));
    string_of_chars(&out)
}

impl MatchDetailView {
    /// The match's start time rendered in the viewer's local calendar
    /// with the fixed timestamp pattern; the fallback text exactly
    /// when the timestamp is outside the calendar's range.
    pub fn start_time_col(&self) -> (r: String)
        ensures
            spec_epoch_in_range(self.start_time as int) ==> (exists|t: CalendarTime|
                spec_calendar_in_range(t) && r@ == #[trigger] spec_calendar_col(t)),
            !spec_epoch_in_range(self.start_time as int) ==> r@ == "Unknown"@,
    {
        match local_calendar(self.start_time) {
            Some(t) => {
                let r = format_calendar(t);
                assert(spec_calendar_in_range(t) && r@ == spec_calendar_col(t));
                r
            },
            None => "Unknown".to_owned(),
        }
    }
}

} // verus!
