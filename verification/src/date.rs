//! Calendar dates as plain numbers, and their `YYYY-MM-DD` rendering used to
//! prefix project folder names.

use vstd::prelude::*;
use chrono::Datelike;
use crate::text::{spec_year, spec_two_digits, year_bytes, two_digit_bytes, append_bytes};

verus! {

/// A calendar date as plain year, month and day numbers.
#[derive(Clone, Copy, Debug, PartialEq, Eq)]
pub struct Date {
    pub year: i32,
    pub month: u32,
    pub day: u32,
}

impl Date {
    /// A well-formed date: the month is in `1..=12` and the day in `1..=31`.
    pub open spec fn wf(self) -> bool {
        1 <= self.month <= 12 && 1 <= self.day <= 31
    }
}

/// `d` rendered as `YYYY-MM-DD`: the year zero-padded to four digits (signed
/// when negative), month and day zero-padded to two.
pub open spec fn spec_date(d: Date) -> Seq<u8> {
    spec_year(d.year as int) + seq![45u8] + spec_two_digits(d.month as nat) + seq![45u8]
        + spec_two_digits(d.day as nat)
}

/// Renders `d` as `YYYY-MM-DD`.
pub fn date_bytes(d: &Date) -> (r: Vec<u8>)
    requires
        d.wf(),
    ensures
        r@ == spec_date(*d),
{
    let mut v = year_bytes(d.year);
    v.push(45);
    let m = two_digit_bytes(d.month);
    append_bytes(&mut v, &m);
    v.push(45);
    let day = two_digit_bytes(d.day);
    append_bytes(&mut v, &day);
    proof {
        assert(v@ =~= spec_date(*d));
    }
    v
}

/// The current local date.
///
/// Relies on `chrono::Local::now` and the `chrono::Datelike` accessors
/// `year`, `month` and `day`: `month` always ranges over `1..=12` and `day`
/// over `1..=31`.
#[verifier::external_body]
pub fn today() -> (d: Date)
    ensures
        d.wf(),
{
    let now = chrono::Local::now();
    Date { year: now.year(), month: now.month(), day: now.day() }
}

} // verus!
