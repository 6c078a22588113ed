//! Detection of a help request among the raw arguments.

use vstd::prelude::*;

use crate::text::vec_contains_str;

verus! {

/// Whether any argument asks for help (`-h` or `--help`).
pub fn is_help(args: Vec<String>) -> (r: bool)
    ensures
        r == (exists|i: int|
            0 <= i < args@.len() && (args.deep_view()[i] == "-h"@ || args.deep_view()[i]
                == "--help"@)),
{
    if vec_contains_str(&args, "-h") {
        return true;
    }
    if vec_contains_str(&args, "--help") {
        return true;
    }
    false
}

} // verus!
