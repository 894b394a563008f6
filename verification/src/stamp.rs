//! Points in time as plain numbers, and the calendar text that names a
//! chunk directory.

use vstd::prelude::*;

verus! {

/// A point in time on the UTC scale: whole seconds since 1970-01-01 00:00:00
/// and the nanoseconds past that second.
#[derive(Debug, Clone, Copy, PartialEq, Eq, Structural)]
pub struct Timestamp {
    pub secs: i64,
    pub nanos: u32,
}

/// The pattern of the time part of a chunk directory's name: year, month
/// and day set apart by semicolons, a hyphen, then hour, minute and second
/// set apart by semicolons (`%Y;%m;%d-%H;%M;%S`).
pub open spec fn folder_pattern() -> Seq<char> {
    seq!['%', 'Y', ';', '%', 'm', ';', '%', 'd', '-', '%', 'H', ';', '%', 'M', ';', '%', 'S']
}

/// What chrono prints under `pattern` for the UTC instant `secs` seconds
/// and `nanos` nanoseconds after the Unix epoch; `None` where chrono has
/// no such instant or does not accept the pattern.
pub uninterp spec fn stamp_text(secs: i64, nanos: u32, pattern: Seq<char>) -> Option<Seq<char>>;

/// Calls `chrono::DateTime::from_timestamp` and, on the instant it gives,
/// `DateTime::format` with `pattern`, written out by
/// `DelayedFormat::write_to`.
///
/// Trusted: the result is taken to be a function of the three arguments
/// alone (the instant is in UTC, so no time zone or locale enters), named
/// `stamp_text`. `None` comes back where `from_timestamp` refuses the pair
/// or `write_to` reports an error. Of the text itself one thing is
/// claimed: under the directory pattern, an instant from 1970 through
/// 9999 with less than a second of nanoseconds always has one, of 19
/// characters (four digits of year, two each of the other five numbers,
/// five separators).
#[verifier::external_body]
pub(crate) fn format_stamp(secs: i64, nanos: u32, pattern: &str) -> (r: Option<String>)
    ensures
        r.is_some() == stamp_text(secs, nanos, pattern@).is_some(),
        r matches Some(s) ==> Some(s@) == stamp_text(secs, nanos, pattern@),
        r.is_some() || !(pattern@ == folder_pattern() && 0 <= secs < 253_402_300_800 && nanos
            < 1_000_000_000),
        r matches Some(s) ==> (pattern@ == folder_pattern() && 0 <= secs < 253_402_300_800
            && nanos < 1_000_000_000 ==> s@.len() == 19),
{
    match chrono::DateTime::from_timestamp(secs, nanos) {
        Some(t) => {
            let mut out = String::new();
            match t.format(pattern).write_to(&mut out) {
                Ok(()) => Some(out),
                Err(_) => None,
            }
        },
        None => None,
    }
}

impl Timestamp {
    /// Whether the instant lies from 1970 through 9999 and is no leap
    /// second: the times a clock gives.
    pub open spec fn is_clock_time(self) -> bool {
        0 <= self.secs < 253_402_300_800 && self.nanos < 1_000_000_000
    }

    /// The calendar text of this instant as used in directory names,
    /// where the calendar has such an instant. A clock time always has
    /// one.
    pub fn folder_stamp(&self) -> (r: Option<String>)
        ensures
            r.is_some() == stamp_text(self.secs, self.nanos, folder_pattern()).is_some(),
            r matches Some(s) ==> Some(s@) == stamp_text(self.secs, self.nanos, folder_pattern()),
            self.is_clock_time() ==> (r matches Some(s) && s@.len() == 19),
    {
        proof {
            reveal_strlit("%Y;%m;%d-%H;%M;%S");
        }
        let pattern: &'static str = "%Y;%m;%d-%H;%M;%S";
        assert(pattern@ =~= folder_pattern());
        format_stamp(self.secs, self.nanos, pattern)
    }
}

} // verus!
