//! Timestamp interpretation: token to UTC instant, or a typed failure.

use vstd::prelude::*;

use crate::number::{is_digit, parse_i64, parsed_i64};
use crate::parse::{split_spec, ParseResult};
use crate::unit::{instant_of, scale_of, unit_of_str, Unit, UtcInstant};

verus! {

/// Why a token could not be interpreted. A failure is confined to its
/// token and never aborts the processing of other tokens.
#[derive(Clone, Copy, Debug, PartialEq, Eq, Structural)]
pub enum ValueError {
    /// The numeric text does not parse as a signed 64-bit integer.
    NotAnInt,
    /// The integer parsed, but scaled to nanoseconds it leaves the
    /// instant's range.
    NotATS,
    /// The leading character neither starts a number nor names a
    /// granularity.
    Nothing,
}

/// The user-facing message of each failure.
pub open spec fn message_of(e: ValueError) -> Seq<char> {
    match e {
        ValueError::NotAnInt => "the value is not an integer"@,
        ValueError::NotATS => "the value is not a timestamp"@,
        ValueError::Nothing => "can't interpret the value"@,
    }
}

impl ValueError {
    /// The error's display text.
    pub fn message(&self) -> (r: String)
        ensures
            r@ == message_of(*self),
    {
        match self {
            ValueError::NotAnInt => "the value is not an integer".to_owned(),
            ValueError::NotATS => "the value is not a timestamp".to_owned(),
            ValueError::Nothing => "can't interpret the value".to_owned(),
        }
    }
}

/// What interpreting a non-empty token yields: split the token, parse
/// the numeric text, scale at the granularity — or the first failure
/// along the way.
pub open spec fn interpret_spec(s: Seq<char>) -> Result<UtcInstant, ValueError>
    recommends
        s.len() > 0,
{
    match split_spec(s) {
        None => Err(ValueError::Nothing),
        Some(p) => match parsed_i64(p.1) {
            None => Err(ValueError::NotAnInt),
            Some(v) => match instant_of(p.0, v) {
                None => Err(ValueError::NotATS),
                Some(t) => Ok(t),
            },
        },
    }
}

/// Interprets one non-empty token as a UTC instant.
pub fn ts_from_str(ts_str: String) -> (r: Result<UtcInstant, ValueError>)
    requires
        ts_str@.len() > 0,
    ensures
        r == interpret_spec(ts_str@),
{
    match ParseResult::from_str(ts_str.as_str()) {
        Ok(input) => {
            match parse_i64(input.ts.as_str()) {
                Some(ts) => {
                    match input.unit.to_instant(ts) {
                        Some(dt) => Ok(dt),
                        None => Err(ValueError::NotATS),
                    }
                },
                None => Err(ValueError::NotAnInt),
            }
        },
        Err(_) => Err(ValueError::Nothing),
    }
}

/// For every valid unit prefix and every integer value written after
/// it, interpretation succeeds exactly where the value scaled at the
/// prefix's granularity stays within the instant's signed 64-bit
/// nanosecond range — and then yields that scaled instant.
pub proof fn lemma_interpret_prefixed(token: Seq<char>, u: Unit, v: i64)
    requires
        token.len() >= 1,
        unit_of_str(seq![token[0]]) == Some(u),
        parsed_i64(token.skip(1)) == Some(v),
    ensures
        interpret_spec(token) is Ok <==> i64::MIN <= (v as int) * scale_of(u) <= i64::MAX,
        interpret_spec(token) is Ok ==> interpret_spec(token)->Ok_0.nanos == (v as int) * scale_of(u),
{
    assert(!is_digit(token[0]));
    assert(split_spec(token) == Some((u, token.skip(1))));
}

} // verus!
