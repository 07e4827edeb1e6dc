//! A calendar timestamp held as plain fields (no timezone), validated on
//! construction and rendered as `DD/MM/YYYY HH:MM:SS`.

use vstd::prelude::*;
use crate::text::{digit_char, digit_to_char};

verus! {

/// A date and time of day. Values built through [`Timestamp::new`] satisfy
/// [`Timestamp::valid`].
#[derive(Clone, Copy, Debug, PartialEq, Eq, Structural)]
pub struct Timestamp {
    pub day: u8,
    pub month: u8,
    pub year: u16,
    pub hour: u8,
    pub minute: u8,
    pub second: u8,
}

pub open spec fn is_leap_year(y: int) -> bool {
    y % 4 == 0 && (y % 100 != 0 || y % 400 == 0)
}

/// Number of days in the given month of the given year.
pub open spec fn days_in_month(y: int, m: int) -> int {
    if m == 2 {
        if is_leap_year(y) {
            29
        } else {
            28
        }
    } else if m == 4 || m == 6 || m == 9 || m == 11 {
        30
    } else {
        31
    }
}

/// A two-character, zero-padded decimal field.
pub open spec fn two_dig(n: nat) -> Seq<char>
    recommends
        n < 100,
{
    seq![digit_char(n as int / 10), digit_char(n as int % 10)]
}

/// A four-character, zero-padded decimal field.
pub open spec fn four_dig(n: nat) -> Seq<char>
    recommends
        n < 10000,
{
    two_dig(n / 100) + two_dig(n % 100)
}

/// The text `DD/MM/YYYY HH:MM:SS` for a timestamp.
pub open spec fn timestamp_text(t: Timestamp) -> Seq<char> {
    two_dig(t.day as nat) + seq!['/'] + two_dig(t.month as nat) + seq!['/'] + four_dig(t.year as nat)
        + seq![' '] + two_dig(t.hour as nat) + seq![':'] + two_dig(t.minute as nat) + seq![':']
        + two_dig(t.second as nat)
}

/// The timestamp text holds only digits and separators, never a newline.
pub proof fn lemma_timestamp_text_no_newline(t: Timestamp)
    ensures
        crate::text::no_newline(timestamp_text(t)),
{
}

/// Builds a two-character, zero-padded decimal field.
pub fn two_digits(n: u8) -> (s: String)
    requires
        n < 100,
    ensures
        s@ == two_dig(n as nat),
{
    let mut s = String::new();
    s.push(digit_to_char(n / 10));
    s.push(digit_to_char(n % 10));
    proof {
        assert(s@ =~= two_dig(n as nat));
    }
    s
}

impl Timestamp {
    /// Field ranges of a real calendar date and a time of day within a
    /// four-digit year.
    pub open spec fn valid(self) -> bool {
        &&& 1 <= self.year <= 9999
        &&& 1 <= self.month <= 12
        &&& 1 <= self.day <= days_in_month(self.year as int, self.month as int)
        &&& self.hour < 24
        &&& self.minute < 60
        &&& self.second < 60
    }

    /// Builds a timestamp from its fields; returns `None` exactly when the
    /// fields do not form a valid date and time of day.
    pub fn new(day: u8, month: u8, year: u16, hour: u8, minute: u8, second: u8) -> (r: Option<
        Timestamp,
    >)
        ensures
            ({
                let t = Timestamp { day, month, year, hour, minute, second };
                if t.valid() {
                    r == Some(t)
                } else {
                    r is None
                }
            }),
    {
        let t = Timestamp { day, month, year, hour, minute, second };
        let leap = year % 4 == 0 && (year % 100 != 0 || year % 400 == 0);
        let month_days: u8 = if month == 2 {
            if leap {
                29
            } else {
                28
            }
        } else if month == 4 || month == 6 || month == 9 || month == 11 {
            30
        } else {
            31
        };
        if 1 <= year && year <= 9999 && 1 <= month && month <= 12 && 1 <= day && day <= month_days
            && hour < 24 && minute < 60 && second < 60 {
            Some(t)
        } else {
            None
        }
    }

    /// Renders the timestamp as `DD/MM/YYYY HH:MM:SS` (24-hour clock,
    /// zero-padded fields).
    pub fn render(&self) -> (s: String)
        requires
            self.valid(),
        ensures
            s@ == timestamp_text(*self),
    {
        let mut s = two_digits(self.day);
        s.push('/');
        let m = two_digits(self.month);
        s.append(m.as_str());
        s.push('/');
        let hi = two_digits((self.year / 100) as u8);
        s.append(hi.as_str());
        let lo = two_digits((self.year % 100) as u8);
        s.append(lo.as_str());
        s.push(' ');
        let h = two_digits(self.hour);
        s.append(h.as_str());
        s.push(':');
        let mi = two_digits(self.minute);
        s.append(mi.as_str());
        s.push(':');
        let se = two_digits(self.second);
        s.append(se.as_str());
        proof {
            assert(s@ =~= timestamp_text(*self));
        }
        s
    }
}

} // verus!
