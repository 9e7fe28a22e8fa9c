//! Points in time and ages.
//!
//! A [`Timestamp`] holds what the logic reads of a UTC date-time: whole seconds
//! since the Unix epoch and the nanoseconds within the second.

use vstd::prelude::*;

verus! {

/// Whether a date-time with these parts exists: its year lies between -262143
/// and 262142, and only the last second of a minute may run into a leap second.
pub open spec fn is_instant(secs: int, nanos: int) -> bool {
    &&& -8334601228800 <= secs <= 8210266876799
    &&& 0 <= nanos < 2_000_000_000
    &&& nanos >= 1_000_000_000 ==> secs % 60 == 59
}

/// The quotient of `n` and `d`, rounded toward zero.
pub open spec fn quotient(n: int, d: int) -> int {
    if n >= 0 {
        n / d
    } else {
        -((-n) / d)
    }
}

/// What `chrono::DateTime::to_rfc3339` writes for the UTC date-time with these
/// parts.
pub uninterp spec fn rfc3339_text(secs: i64, nanos: u32) -> Seq<char>;

/// The whole seconds of the `chrono::TimeDelta` between two UTC date-times.
pub uninterp spec fn delta_seconds(
    later_secs: i64,
    later_nanos: u32,
    earlier_secs: i64,
    earlier_nanos: u32,
) -> i64;

/// The RFC 3339 notation, by `chrono::DateTime::from_timestamp` and
/// `chrono::DateTime::to_rfc3339`. Claimed: it depends on the parts alone.
#[verifier::external_body]
fn write_rfc3339(secs: i64, nanos: u32) -> (r: String)
    requires
        is_instant(secs as int, nanos as int),
    ensures
        r@ == rfc3339_text(secs, nanos),
{
    chrono::DateTime::<chrono::Utc>::from_timestamp(secs, nanos).unwrap().to_rfc3339()
}

/// The seconds between two date-times, by subtracting `chrono::DateTime` values
/// and `chrono::TimeDelta::num_seconds`. Claimed: the result depends on the
/// parts alone, and outside leap seconds it is the difference rounded toward
/// zero.
#[verifier::external_body]
fn seconds_between(later_secs: i64, later_nanos: u32, earlier_secs: i64, earlier_nanos: u32) -> (r:
    i64)
    requires
        is_instant(later_secs as int, later_nanos as int),
        is_instant(earlier_secs as int, earlier_nanos as int),
    ensures
        r == delta_seconds(later_secs, later_nanos, earlier_secs, earlier_nanos),
        later_nanos < 1_000_000_000 && earlier_nanos < 1_000_000_000 ==> r == quotient(
            (later_secs - earlier_secs) * 1_000_000_000 + later_nanos - earlier_nanos,
            1_000_000_000,
        ),
{
    let later = chrono::DateTime::<chrono::Utc>::from_timestamp(later_secs, later_nanos).unwrap();
    let earlier = chrono::DateTime::<chrono::Utc>::from_timestamp(earlier_secs, earlier_nanos)
        .unwrap();
    (later - earlier).num_seconds()
}

/// A UTC date-time.
#[derive(Debug, Clone, Copy, PartialEq, Eq, PartialOrd, Ord, Structural)]
pub struct Timestamp {
    secs: i64,
    nanos: u32,
}

impl Timestamp {
    #[verifier::type_invariant]
    spec fn well_formed(self) -> bool {
        is_instant(self.secs as int, self.nanos as int)
    }

    /// Seconds since the Unix epoch.
    pub closed spec fn epoch_seconds(self) -> i64 {
        self.secs
    }

    /// Nanoseconds within the second.
    pub closed spec fn subsec_nanos(self) -> u32 {
        self.nanos
    }

    /// The RFC 3339 notation.
    pub open spec fn shown(self) -> Seq<char> {
        rfc3339_text(self.epoch_seconds(), self.subsec_nanos())
    }

    /// The date-time with these parts, where it exists.
    pub fn new(secs: i64, nanos: u32) -> (r: Option<Timestamp>)
        ensures
            r is Some <==> is_instant(secs as int, nanos as int),
            r matches Some(t) ==> t.epoch_seconds() == secs && t.subsec_nanos() == nanos,
    {
        if secs < -8334601228800 || secs > 8210266876799 || nanos >= 2_000_000_000 {
            return None;
        }
        // The epoch starts a minute; shifting by whole minutes keeps the remainder.
        let within: i64 = (secs + 8334601228800) % 60;
        assert(within == secs as int % 60);
        if nanos >= 1_000_000_000 && within != 59 {
            return None;
        }
        Some(Timestamp { secs, nanos })
    }

    /// Seconds since the Unix epoch.
    pub fn seconds(&self) -> (r: i64)
        ensures
            r == self.epoch_seconds(),
    {
        self.secs
    }

    /// Nanoseconds within the second.
    pub fn nanos(&self) -> (r: u32)
        ensures
            r == self.subsec_nanos(),
    {
        self.nanos
    }

    /// The RFC 3339 notation.
    pub fn to_rfc3339(&self) -> (r: String)
        ensures
            r@ == self.shown(),
    {
        proof {
            use_type_invariant(self);
        }
        write_rfc3339(self.secs, self.nanos)
    }

    /// The time from `earlier` to this point.
    pub open spec fn span_from(self, earlier: Timestamp) -> i64 {
        delta_seconds(
            self.epoch_seconds(),
            self.subsec_nanos(),
            earlier.epoch_seconds(),
            earlier.subsec_nanos(),
        )
    }

    /// The time from `earlier` to this point.
    pub fn since(&self, earlier: &Timestamp) -> (r: Age)
        ensures
            r.seconds == self.span_from(*earlier),
            self.subsec_nanos() < 1_000_000_000 && earlier.subsec_nanos() < 1_000_000_000
                ==> r.seconds == quotient(
                (self.epoch_seconds() - earlier.epoch_seconds()) * 1_000_000_000
                    + self.subsec_nanos() - earlier.subsec_nanos(),
                1_000_000_000,
            ),
    {
        proof {
            use_type_invariant(self);
            use_type_invariant(earlier);
        }
        Age { seconds: seconds_between(self.secs, self.nanos, earlier.secs, earlier.nanos) }
    }
}

/// A signed length of time, in whole seconds.
#[derive(Debug, Clone, Copy, PartialEq, Eq, PartialOrd, Ord, Structural)]
pub struct Age {
    /// Whole seconds; negative where the clock ran backwards.
    pub seconds: i64,
}

impl Age {
    /// The whole seconds that are shown: never less than none.
    pub open spec fn shown_seconds(self) -> nat {
        if self.seconds < 0 {
            0
        } else {
            self.seconds as nat
        }
    }

    /// The whole seconds that are shown: never less than none.
    pub fn clamped(&self) -> (r: u64)
        ensures
            r == self.shown_seconds(),
    {
        if self.seconds < 0 {
            0
        } else {
            self.seconds as u64
        }
    }
}

} // verus!
