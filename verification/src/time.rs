//! Creation times: whole seconds since 1970-01-01 00:00:00 UTC, and how they are shown.

use vstd::prelude::*;

verus! {

/// The calendar text of the instant `secs` seconds after 1970-01-01 00:00:00 UTC,
/// as `chrono` writes it for the pattern `%Y-%m-%d %H:%M:%S`; `None` where
/// `chrono` has no date for that instant.
pub uninterp spec fn stamp_text(secs: int) -> Option<Seq<char>>;

/// The instants that have a calendar date.
pub open spec fn representable(secs: int) -> bool {
    stamp_text(secs) is Some
}

/// Calls `chrono::DateTime::from_timestamp` with no nanoseconds and, where that
/// gives a date, formats it with `%Y-%m-%d %H:%M:%S`. Both depend on `secs`
/// alone; the contract only gives the outcome its name, `stamp_text`.
#[verifier::external_body]
pub(crate) fn format_stamp(secs: i64) -> (r: Option<String>)
    ensures
        r is Some <==> stamp_text(secs as int) is Some,
        r matches Some(s) ==> stamp_text(secs as int) == Some(s@),
{
    match chrono::DateTime::from_timestamp(secs, 0) {
        Some(t) => Some(t.format("%Y-%m-%d %H:%M:%S").to_string()),
        None => None,
    }
}

/// A creation time that has a calendar date, in whole seconds since
/// 1970-01-01 00:00:00 UTC. The library reads no clock: whoever makes a
/// stamp says which time it is.
#[derive(Clone, Copy, Debug)]
pub struct Stamp {
    secs: i64,
}

impl View for Stamp {
    type V = int;

    closed spec fn view(&self) -> int {
        self.secs as int
    }
}

impl Stamp {
    /// Every stamp has a calendar date.
    #[verifier::type_invariant]
    pub open spec fn has_date(self) -> bool {
        representable(self@)
    }

    /// The stamp of the instant `secs` seconds after the epoch, where that
    /// instant has a calendar date.
    pub fn new(secs: i64) -> (r: Option<Stamp>)
        ensures
            r is Some <==> representable(secs as int),
            r matches Some(stamp) ==> stamp@ == secs,
    {
        if format_stamp(secs).is_some() {
            Some(Stamp { secs })
        } else {
            None
        }
    }

    /// The stamp's instant, in seconds since the epoch.
    pub fn seconds(&self) -> (secs: i64)
        ensures
            secs == self@,
            representable(self@),
    {
        proof {
            use_type_invariant(self);
        }
        self.secs
    }
}

} // verus!
