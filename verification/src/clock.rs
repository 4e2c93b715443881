//! Local wall-clock time as plain calendar fields, and its written form.

use crate::text::{decimal_padded, push_decimal};
use chrono::{Datelike, Timelike};
use vstd::prelude::*;

verus! {

/// The calendar fields of a wall-clock instant.
pub struct ClockView {
    pub year: int,
    pub month: int,
    pub day: int,
    pub hour: int,
    pub minute: int,
    pub second: int,
}

/// The ranges in which a calendar writes its fields.
pub open spec fn valid_clock(t: ClockView) -> bool {
    &&& i32::MIN <= t.year <= i32::MAX
    &&& 1 <= t.month <= 12
    &&& 1 <= t.day <= 31
    &&& 0 <= t.hour <= 23
    &&& 0 <= t.minute <= 59
    &&& 0 <= t.second <= 59
}

/// A wall-clock instant, to the second. Every value has its fields in the
/// ranges of `valid_clock`.
#[derive(Debug, Clone, Copy, PartialEq, Eq)]
pub struct ClockTime {
    year: i32,
    month: u32,
    day: u32,
    hour: u32,
    minute: u32,
    second: u32,
}

impl View for ClockTime {
    type V = ClockView;

    closed spec fn view(&self) -> ClockView {
        ClockView {
            year: self.year as int,
            month: self.month as int,
            day: self.day as int,
            hour: self.hour as int,
            minute: self.minute as int,
            second: self.second as int,
        }
    }
}

impl ClockTime {
    #[verifier::type_invariant]
    closed spec fn in_range(self) -> bool {
        valid_clock(self@)
    }

    /// The instant with the given fields, where a calendar can write them.
    pub fn new(year: i32, month: u32, day: u32, hour: u32, minute: u32, second: u32) -> (r: Option<
        ClockTime,
    >)
        ensures
            r.is_some() <==> valid_clock(
                (ClockView {
                    year: year as int,
                    month: month as int,
                    day: day as int,
                    hour: hour as int,
                    minute: minute as int,
                    second: second as int,
                }),
            ),
            r.is_some() ==> r.unwrap()@ == (ClockView {
                year: year as int,
                month: month as int,
                day: day as int,
                hour: hour as int,
                minute: minute as int,
                second: second as int,
            }),
    {
        if 1 <= month && month <= 12 && 1 <= day && day <= 31 && hour <= 23 && minute <= 59
            && second <= 59 {
            Some(ClockTime { year, month, day, hour, minute, second })
        } else {
            None
        }
    }

    pub fn year(&self) -> (r: i32)
        ensures
            r == self@.year,
    {
        self.year
    }

    pub fn month(&self) -> (r: u32)
        ensures
            r == self@.month,
            1 <= r <= 12,
    {
        proof {
            use_type_invariant(self);
        }
        self.month
    }

    pub fn day(&self) -> (r: u32)
        ensures
            r == self@.day,
            1 <= r <= 31,
    {
        proof {
            use_type_invariant(self);
        }
        self.day
    }

    pub fn hour(&self) -> (r: u32)
        ensures
            r == self@.hour,
            r <= 23,
    {
        proof {
            use_type_invariant(self);
        }
        self.hour
    }

    pub fn minute(&self) -> (r: u32)
        ensures
            r == self@.minute,
            r <= 59,
    {
        proof {
            use_type_invariant(self);
        }
        self.minute
    }

    pub fn second(&self) -> (r: u32)
        ensures
            r == self@.second,
            r <= 59,
    {
        proof {
            use_type_invariant(self);
        }
        self.second
    }
}

/// The year as a timestamp writes it: four digits from year 0 to year 9999, and
/// outside of them a sign before at least four digits.
pub open spec fn year_text(year: int) -> Seq<char> {
    if 0 <= year <= 9999 {
        decimal_padded(year as nat, 4)
    } else if year < 0 {
        seq!['-'] + decimal_padded((-year) as nat, 4)
    } else {
        seq!['+'] + decimal_padded(year as nat, 4)
    }
}

/// An instant written as `YYYY-MM-DD HH:MM:SS`.
pub open spec fn timestamp_text(t: ClockView) -> Seq<char> {
    year_text(t.year) + seq!['-'] + decimal_padded(t.month as nat, 2) + seq!['-'] + decimal_padded(
        t.day as nat,
        2,
    ) + seq![' '] + decimal_padded(t.hour as nat, 2) + seq![':'] + decimal_padded(
        t.minute as nat,
        2,
    ) + seq![':'] + decimal_padded(t.second as nat, 2)
}

/// Writes an instant as `YYYY-MM-DD HH:MM:SS`.
pub fn format_timestamp(now: &ClockTime) -> (r: String)
    ensures
        r@ == timestamp_text(now@),
{
    proof {
        reveal_strlit("-");
        reveal_strlit("+");
        reveal_strlit(" ");
        reveal_strlit(":");
    }
    let mut out = String::new();
    let year = now.year();
    if 0 <= year && year <= 9999 {
        push_decimal(&mut out, year as u32, 4);
    } else if year < 0 {
        out.append("-");
        let wide: i64 = year as i64;
        push_decimal(&mut out, (-wide) as u32, 4);
    } else {
        out.append("+");
        push_decimal(&mut out, year as u32, 4);
    }
    assert(out@ =~= year_text(now@.year));
    out.append("-");
    push_decimal(&mut out, now.month(), 2);
    out.append("-");
    push_decimal(&mut out, now.day(), 2);
    out.append(" ");
    push_decimal(&mut out, now.hour(), 2);
    out.append(":");
    push_decimal(&mut out, now.minute(), 2);
    out.append(":");
    push_decimal(&mut out, now.second(), 2);
    assert("-"@ =~= seq!['-'] && " "@ =~= seq![' '] && ":"@ =~= seq![':']);
    assert(out@ =~= timestamp_text(now@));
    out
}

/// Reads the local time with `chrono::Local::now` and copies its calendar
/// fields. Nothing is said of which instant comes back, only that the fields
/// lie in the ranges that `chrono` documents for `Datelike` and `Timelike`.
#[verifier::external_body]
fn local_now() -> (t: ClockTime)
    ensures
        valid_clock(t@),
{
    let now = chrono::Local::now();
    ClockTime {
        year: now.year(),
        month: now.month(),
        day: now.day(),
        hour: now.hour(),
        minute: now.minute(),
        second: now.second(),
    }
}

/// The local time at the moment of the call.
pub fn now() -> (t: ClockTime)
    ensures
        valid_clock(t@),
{
    local_now()
}

/// The local time at the moment of the call, written as `YYYY-MM-DD HH:MM:SS`.
pub fn get_current_time() -> (r: String)
    ensures
        exists|t: ClockView| valid_clock(t) && r@ == #[trigger] timestamp_text(t),
{
    let t = local_now();
    format_timestamp(&t)
}

} // verus!
