//! Local wall-clock time of day, and its textual forms.

use vstd::prelude::*;
use chrono::Timelike;

verus! {

/// A time of day: hours, minutes and seconds since local midnight.
#[derive(Debug, Clone, Copy, PartialEq, Eq, Structural)]
pub struct TimeOfDay {
    pub hour: u8,
    pub minute: u8,
    pub second: u8,
}

/// The character for a decimal digit.
pub open spec fn digit_char(d: int) -> char {
    seq!['0', '1', '2', '3', '4', '5', '6', '7', '8', '9'][d]
}

/// A number below one hundred as two decimal digits.
pub open spec fn two_digits_of(n: int) -> Seq<char> {
    seq![digit_char(n / 10), digit_char(n % 10)]
}

/// Writes a number below one hundred as two decimal digits.
pub fn two_digits(n: u8) -> (r: String)
    requires
        n < 100,
    ensures
        r@ == two_digits_of(n as int),
{
    let digits: &str = "0123456789";
    proof {
        reveal_strlit("0123456789");
    }
    let tens: usize = (n / 10) as usize;
    let ones: usize = (n % 10) as usize;
    let mut r: String = String::from_str(digits.substring_char(tens, tens + 1));
    r.append(digits.substring_char(ones, ones + 1));
    assert(r@ =~= two_digits_of(n as int));
    r
}

impl TimeOfDay {
    /// Hours below 24, minutes and seconds below 60.
    pub open spec fn wf(self) -> bool {
        self.hour < 24 && self.minute < 60 && self.second < 60
    }

    /// The text `HH:MM`.
    pub open spec fn hm_text(self) -> Seq<char> {
        two_digits_of(self.hour as int) + seq![':'] + two_digits_of(self.minute as int)
    }

    /// The text `HH:MM:SS`.
    pub open spec fn hms_text(self) -> Seq<char> {
        self.hm_text() + seq![':'] + two_digits_of(self.second as int)
    }

    /// Tells whether this is a time of day.
    pub fn is_valid(&self) -> (r: bool)
        ensures
            r == self.wf(),
    {
        self.hour < 24 && self.minute < 60 && self.second < 60
    }

    /// Reads the local time of day from the system clock.
    pub fn now() -> (r: TimeOfDay)
        ensures
            r.wf(),
    {
        local_time_now()
    }

    /// Formats the time as `HH:MM`.
    pub fn format_hm(&self) -> (r: String)
        requires
            self.wf(),
        ensures
            r@ == self.hm_text(),
    {
        proof {
            reveal_strlit(":");
        }
        let mut r: String = two_digits(self.hour);
        r.append(":");
        r.append(two_digits(self.minute).as_str());
        assert(r@ =~= self.hm_text());
        r
    }

    /// Formats the time as `HH:MM:SS`.
    pub fn format_hms(&self) -> (r: String)
        requires
            self.wf(),
        ensures
            r@ == self.hms_text(),
    {
        proof {
            reveal_strlit(":");
        }
        let mut r: String = self.format_hm();
        r.append(":");
        r.append(two_digits(self.second).as_str());
        assert(r@ =~= self.hms_text());
        r
    }
}

/// Calls `chrono::Local::now` and reads its hour, minute and second with
/// `chrono::Timelike`. Nothing is claimed of which time comes back, only that
/// the hour is below 24 and minute and second are below 60, as `Timelike`
/// documents for these three readings.
#[verifier::external_body]
fn local_time_now() -> (r: TimeOfDay)
    ensures
        r.wf(),
{
    let now = chrono::Local::now();
    TimeOfDay { hour: now.hour() as u8, minute: now.minute() as u8, second: now.second() as u8 }
}

} // verus!
