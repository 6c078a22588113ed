//! Unit resolution: maps a one-character prefix to a granularity and
//! scales a raw integer at that granularity to a UTC instant.

use vstd::prelude::*;

use vstd::string::StrSliceExecFns;

verus! {

/// The prefix character did not name a granularity.
#[derive(Debug, PartialEq, Eq, Structural)]
pub struct UnitParseError;

/// The granularity in which a raw integer timestamp is expressed.
#[derive(Clone, Copy, Debug, PartialEq, Eq, Structural)]
pub enum Unit {
    Secs,
    Millis,
    Micros,
    Nanos,
}

/// An absolute point in time: a signed 64-bit count of nanoseconds
/// since the Unix epoch. Immutable once constructed.
#[derive(Clone, Copy, Debug, PartialEq, Eq, Structural)]
pub struct UtcInstant {
    pub nanos: i64,
}

/// The granularity named by a prefix string: empty or `s` is seconds,
/// `m` milliseconds, `u` microseconds, `n` nanoseconds; anything else
/// names none.
pub open spec fn unit_of_str(s: Seq<char>) -> Option<Unit> {
    if s.len() == 0 {
        Some(Unit::Secs)
    } else if s.len() == 1 {
        if s[0] == 's' {
            Some(Unit::Secs)
        } else if s[0] == 'm' {
            Some(Unit::Millis)
        } else if s[0] == 'u' {
            Some(Unit::Micros)
        } else if s[0] == 'n' {
            Some(Unit::Nanos)
        } else {
            None
        }
    } else {
        None
    }
}

/// How many nanoseconds one step of the granularity spans.
pub open spec fn scale_of(u: Unit) -> int {
    match u {
        Unit::Secs => 1_000_000_000,
        Unit::Millis => 1_000_000,
        Unit::Micros => 1_000,
        Unit::Nanos => 1,
    }
}

/// The instant reached by `v` steps of granularity `u`, or `None` where
/// the scaled value leaves the signed 64-bit nanosecond range.
pub open spec fn instant_of(u: Unit, v: i64) -> Option<UtcInstant> {
    if i64::MIN <= (v as int) * scale_of(u) <= i64::MAX {
        Some(UtcInstant { nanos: ((v as int) * scale_of(u)) as i64 })
    } else {
        None
    }
}

/// At nanosecond granularity every signed 64-bit value is
/// representable: the granularity's scale matches the instant's own
/// precision, so conversion never fails.
pub proof fn lemma_nanos_total(v: i64)
    ensures
        instant_of(Unit::Nanos, v) == Some(UtcInstant { nanos: v }),
{
}

impl Unit {
    /// Resolves a prefix string to its granularity.
    pub fn from_str(s: &str) -> (r: Result<Unit, UnitParseError>)
        ensures
            match unit_of_str(s@) {
                Some(u) => r == Ok::<Unit, UnitParseError>(u),
                None => r == Err::<Unit, UnitParseError>(UnitParseError),
            },
    {
        let n = s.unicode_len();
        if n == 0 {
            Ok(Unit::Secs)
        } else if n == 1 {
            let c = s.get_char(0);
            if c == 's' {
                Ok(Unit::Secs)
            } else if c == 'm' {
                Ok(Unit::Millis)
            } else if c == 'u' {
                Ok(Unit::Micros)
            } else if c == 'n' {
                Ok(Unit::Nanos)
            } else {
                Err(UnitParseError)
            }
        } else {
            Err(UnitParseError)
        }
    }

    /// Scales a raw integer at this granularity to a UTC instant.
    /// Fails exactly where the scaled value would leave the instant's
    /// range; at nanosecond granularity it never fails.
    pub fn to_instant(&self, v: i64) -> (r: Option<UtcInstant>)
        ensures
            r == instant_of(*self, v),
    {
        let scaled: Option<i64> = match self {
            Unit::Secs => v.checked_mul(1_000_000_000),
            Unit::Millis => v.checked_mul(1_000_000),
            Unit::Micros => v.checked_mul(1_000),
            Unit::Nanos => Some(v),
        };
        match scaled {
            Some(n) => Some(UtcInstant { nanos: n }),
            None => None,
        }
    }
}

} // verus!
