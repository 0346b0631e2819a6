use vstd::prelude::*;
use vstd::string::StringExecFns;

use crate::text::{two_digit, two_digit_string, year_str, year_string};

verus! {

/// A calendar date, as the store records it beside each row.
#[derive(Clone, Copy, PartialEq, Eq, Structural)]
pub struct DateStamp {
    pub year: i32,
    pub month: u8,
    pub day: u8,
}

impl DateStamp {
    /// The month and day lie in their calendar ranges.
    pub open spec fn wf(&self) -> bool {
        &&& 1 <= self.month <= 12
        &&& 1 <= self.day <= 31
    }
}

/// Relies on chrono's `Utc::now` and the `Datelike` accessors: `month` is
/// always in 1..=12 and `day` in 1..=31 for a valid date. `Utc::now` panics
/// on a system clock set before the epoch, which no input can cause.
#[verifier::external_body]
pub fn today_utc() -> (d: DateStamp)
    ensures
        d.wf(),
{
    let now = chrono::Utc::now().date_naive();
    DateStamp { year: chrono::Datelike::year(&now), month: chrono::Datelike::month(&now) as u8,
        day: chrono::Datelike::day(&now) as u8 }
}

/// The rendering of a date as zero-padded month, day, and year.
pub open spec fn mdy_str(d: DateStamp) -> Seq<char> {
    two_digit(d.month as nat) + "/"@ + two_digit(d.day as nat) + "/"@ + year_str(d.year as int)
}

/// Renders a date as month/day/year.
pub fn format_mdy(d: &DateStamp) -> (r: String)
    requires
        d.wf(),
    ensures
        r@ == mdy_str(*d),
{
    let mut s = two_digit_string(d.month);
    s.append("/");
    let dd = two_digit_string(d.day);
    s.append(dd.as_str());
    s.append("/");
    let yy = year_string(d.year);
    s.append(yy.as_str());
    proof {
        assert(s@ =~= mdy_str(*d));
    }
    s
}

} // verus!
