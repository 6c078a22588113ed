//! Input splitting: separates an optional unit-prefix character from
//! the numeric remainder of a raw token.

use vstd::prelude::*;

use vstd::string::StrSliceExecFns;

use crate::number::is_digit;
use crate::unit::{unit_of_str, Unit};

verus! {

/// The token's leading character neither starts a number nor names a
/// granularity.
#[derive(Debug, PartialEq, Eq, Structural)]
pub struct InputParseError;

/// A raw token split into its granularity and its numeric text.
/// The numeric text is the original token with at most one leading
/// prefix character stripped; neither field changes afterwards.
#[derive(Debug, PartialEq, Eq)]
pub struct ParseResult {
    pub unit: Unit,
    pub ts: String,
}

/// How a non-empty raw token splits. A token that starts with an ASCII
/// digit is wholly numeric text at seconds granularity; otherwise its
/// first character must name a granularity and the rest is the numeric
/// text.
pub open spec fn split_spec(s: Seq<char>) -> Option<(Unit, Seq<char>)>
    recommends
        s.len() > 0,
{
    if is_digit(s[0]) {
        Some((Unit::Secs, s))
    } else {
        match unit_of_str(seq![s[0]]) {
            Some(u) => Some((u, s.skip(1))),
            None => None,
        }
    }
}

/// Every token that starts with an ASCII digit splits to seconds
/// granularity with the full token as its numeric text.
pub proof fn lemma_digit_token_is_seconds(token: Seq<char>)
    requires
        token.len() > 0,
        is_digit(token[0]),
    ensures
        split_spec(token) == Some((Unit::Secs, token)),
{
}

impl ParseResult {
    /// Splits a raw token. A token that starts with an ASCII digit
    /// keeps all its text as numeric text and defaults to seconds;
    /// any other token loses its first character to the prefix.
    pub fn from_str(s: &str) -> (r: Result<ParseResult, InputParseError>)
        requires
            s@.len() > 0,
        ensures
            match split_spec(s@) {
                Some(p) => r matches Ok(pr) && pr.unit == p.0 && pr.ts@ == p.1,
                None => r matches Err(_),
            },
    {
        let n = s.unicode_len();
        let c = s.get_char(0);
        let u = c as u32;
        if 48 <= u && u <= 57 {
            Ok(ParseResult { unit: Unit::Secs, ts: s.to_owned() })
        } else {
            let prefix = s.substring_char(0, 1);
            proof {
                assert(prefix@ =~= seq![s@[0]]);
            }
            match Unit::from_str(prefix) {
                Ok(unit) => {
                    let rest = s.substring_char(1, n);
                    proof {
                        assert(rest@ =~= s@.skip(1));
                    }
                    Ok(ParseResult { unit, ts: rest.to_owned() })
                },
                Err(_) => Err(InputParseError),
            }
        }
    }
}

} // verus!
