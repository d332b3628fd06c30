//! The current UTC time, reduced to the four plain values the generated
//! resource names embed.

use chrono::Datelike;
use chrono::Timelike;
use vstd::prelude::*;

verus! {

/// The UTC date and hour a generated resource name embeds.
#[derive(Clone, Copy, Debug)]
pub struct UtcParts {
    /// Calendar year.
    pub year: i32,
    /// Month of the year, starting from one.
    pub month: u32,
    /// Day of the month, starting from one.
    pub day: u32,
    /// Hour of the day, from zero to twenty-three.
    pub hour: u32,
}

/// Whether the month, day and hour lie in the ranges the calendar admits.
pub open spec fn wf_utc_parts(p: UtcParts) -> bool {
    &&& 1 <= p.month <= 12
    &&& 1 <= p.day <= 31
    &&& p.hour <= 23
}

/// Relies on `chrono::Utc::now` and on chrono's `Datelike::year`,
/// `Datelike::month`, `Datelike::day` and `Timelike::hour`: chrono documents
/// that the month and the day start from one (at most 12 and 31) and that
/// the hour is below twenty-four. Nothing is promised of the year: the
/// result depends on the clock.
#[verifier::external_body]
pub fn utc_now_parts() -> (r: UtcParts)
    ensures
        wf_utc_parts(r),
{
    let now = chrono::Utc::now();
    UtcParts { year: now.year(), month: now.month(), day: now.day(), hour: now.hour() }
}

} // verus!
