//! The boundary to chrono and chrono-tz: pattern validation, timezone
//! lookup, and the rendering of an instant, each behind a trusted
//! contract. Everything else in this crate is verified against the
//! names stated here.

use vstd::prelude::*;

use std::fmt::Write;

verus! {

/// Whether chrono accepts `s` as a strftime-style format pattern.
/// Validity depends on the pattern text alone.
pub uninterp spec fn pattern_ok(s: Seq<char>) -> bool;

/// Whether the IANA timezone database compiled into chrono-tz knows
/// the identifier `s`.
pub uninterp spec fn tz_known(s: Seq<char>) -> bool;

/// The text chrono renders for the instant `nanos` (nanoseconds since
/// the Unix epoch) under the pattern `pattern` in the zone named
/// `zone`.
pub uninterp spec fn rendered(nanos: int, pattern: Seq<char>, zone: Seq<char>) -> Seq<char>;

/// Relies on chrono's `StrftimeItems::parse`, which returns `Ok`
/// exactly when every format specifier of the pattern is recognised;
/// the outcome depends on the pattern text alone.
#[verifier::external_body]
pub(crate) fn pattern_is_valid(pattern: &str) -> (r: bool)
    ensures
        r == pattern_ok(pattern@),
{
    chrono::format::StrftimeItems::new(pattern).parse().is_ok()
}

/// Relies on chrono-tz's `Tz::from_str`: a lookup of the identifier in
/// the timezone table compiled into the crate, depending on the
/// identifier text alone.
#[verifier::external_body]
pub(crate) fn tz_is_known(zone: &str) -> (r: bool)
    ensures
        r == tz_known(zone@),
{
    zone.parse::<chrono_tz::Tz>().is_ok()
}

/// Relies on chrono's `DateTime::from_timestamp_nanos` (total over
/// i64), `DateTime::with_timezone` and `DelayedFormat`, and on
/// chrono-tz's `Tz::from_str`: with the zone database fixed at build
/// time, the text produced depends on the three arguments alone. An
/// unknown zone renders as UTC and a rejected pattern renders as empty
/// text; callers are expected to have validated both beforehand.
#[verifier::external_body]
pub(crate) fn render_instant(nanos: i64, pattern: &str, zone: &str) -> (r: String)
    ensures
        r@ == rendered(nanos as int, pattern@, zone@),
{
    let tz: chrono_tz::Tz = zone.parse().unwrap_or(chrono_tz::Tz::UTC);
    let dt = chrono::DateTime::from_timestamp_nanos(nanos).with_timezone(&tz);
    let mut out = String::new();
    match write!(out, "{}", dt.format(pattern)) {
        Ok(()) => out,
        Err(_) => String::new(),
    }
}

} // verus!
