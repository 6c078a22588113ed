//! Output-mode selection. The library only decides which form the
//! caller should emit; the emitting itself is the caller's concern.

use vstd::prelude::*;

verus! {

/// The form in which outcomes are to be delivered.
#[derive(Clone, Copy, Debug, PartialEq, Eq, Structural)]
pub enum DumpMode {
    /// One padded line per outcome.
    Text,
    /// A pretty-printed structured array of the outcomes.
    Json,
}

/// Picks the output mode: structured output where `json` is asked for,
/// line output otherwise.
pub fn get_fn(json: bool) -> (r: DumpMode)
    ensures
        r == (if json {
            DumpMode::Json
        } else {
            DumpMode::Text
        }),
{
    if json {
        DumpMode::Json
    } else {
        DumpMode::Text
    }
}

} // verus!
