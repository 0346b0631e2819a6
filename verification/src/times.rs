use vstd::prelude::*;
use vstd::string::StringExecFns;

use crate::text::{two_digit, two_digit_string};

verus! {

/// The time zones the clock commands display, one per command.
#[derive(Clone, Copy, PartialEq, Eq, Structural, Debug)]
pub enum ZoneChoice {
    /// US Eastern, displayed as EST.
    Eastern,
    /// US Central, displayed as CST.
    Central,
    /// Europe/Paris, displayed as CET.
    Paris,
    /// Australia/Perth, displayed as AWST.
    Perth,
}

/// The abbreviation each clock command prints.
pub open spec fn zone_abbrev(zone: ZoneChoice) -> Seq<char> {
    match zone {
        ZoneChoice::Eastern => "EST"@,
        ZoneChoice::Central => "CST"@,
        ZoneChoice::Paris => "CET"@,
        ZoneChoice::Perth => "AWST"@,
    }
}

/// Relies on chrono's `Utc::now`, chrono-tz's zone conversion, and the
/// `Timelike` accessors: the hour of a valid time is below 24 and the minute
/// and second below 60. `Utc::now` panics on a system clock set before the
/// epoch, which no input can cause.
#[verifier::external_body]
fn now_hms(zone: &ZoneChoice) -> (r: (u8, u8, u8))
    ensures
        r.0 < 24,
        r.1 < 60,
        r.2 < 60,
{
    let tz = match zone {
        ZoneChoice::Eastern => chrono_tz::US::Eastern,
        ZoneChoice::Central => chrono_tz::US::Central,
        ZoneChoice::Paris => chrono_tz::Europe::Paris,
        ZoneChoice::Perth => chrono_tz::Australia::Perth,
    };
    let now = chrono::Utc::now().with_timezone(&tz);
    (chrono::Timelike::hour(&now) as u8, chrono::Timelike::minute(&now) as u8,
        chrono::Timelike::second(&now) as u8)
}

/// The reply of a clock command for a given time of day.
pub open spec fn time_reply_str(zone: ZoneChoice, h: nat, m: nat, s: nat) -> Seq<char> {
    "It is currently "@ + two_digit(h) + ":"@ + two_digit(m) + ":"@ + two_digit(s) + " "@
        + zone_abbrev(zone)
}

/// Renders the reply of a clock command for a known time of day.
pub fn format_time_reply(zone: &ZoneChoice, h: u8, m: u8, s: u8) -> (r: String)
    requires
        h < 24,
        m < 60,
        s < 60,
    ensures
        r@ == time_reply_str(*zone, h as nat, m as nat, s as nat),
{
    let mut out = String::new();
    out.append("It is currently ");
    let hh = two_digit_string(h);
    out.append(hh.as_str());
    out.append(":");
    let mm = two_digit_string(m);
    out.append(mm.as_str());
    out.append(":");
    let ss = two_digit_string(s);
    out.append(ss.as_str());
    out.append(" ");
    match zone {
        ZoneChoice::Eastern => out.append("EST"),
        ZoneChoice::Central => out.append("CST"),
        ZoneChoice::Paris => out.append("CET"),
        ZoneChoice::Perth => out.append("AWST"),
    }
    proof {
        assert(out@ =~= time_reply_str(*zone, h as nat, m as nat, s as nat));
    }
    out
}

/// The reply of a clock command: the current time of day in the chosen zone,
/// with that zone's abbreviation.
pub fn time_reply(zone: &ZoneChoice) -> (r: String)
    ensures
        exists|h: nat, m: nat, s: nat|
            h < 24 && m < 60 && s < 60 && r@ == time_reply_str(*zone, h, m, s),
{
    let (h, m, s) = now_hms(zone);
    let out = format_time_reply(zone, h, m, s);
    proof {
        assert((h as nat) < 24 && (m as nat) < 60 && (s as nat) < 60 && out@
            == time_reply_str(*zone, h as nat, m as nat, s as nat));
    }
    out
}

} // verus!
