//! The pairing of one input token with its rendered result or error
//! text.

use vstd::prelude::*;

use vstd::string::StrSliceExecFns;
use vstd::string::StringExecFns;

verus! {

/// One processed token: the input text and what it rendered to —
/// either a formatted date or a human-readable error message.
#[derive(Clone, Debug, PartialEq, Eq)]
pub struct Outcome {
    value_in: String,
    value_out: String,
}

/// `n` space characters.
pub open spec fn spaces(n: nat) -> Seq<char>
    decreases n,
{
    if n == 0 {
        Seq::empty()
    } else {
        spaces((n - 1) as nat).push(' ')
    }
}

/// The line form of an outcome: the input padded with spaces to at
/// least 20 characters, a ` :: ` separator, then the rendered text.
pub open spec fn line_of(input: Seq<char>, out: Seq<char>) -> Seq<char> {
    let pad: nat = if input.len() < 20 {
        (20 - input.len()) as nat
    } else {
        0
    };
    input + spaces(pad) + " :: "@ + out
}

impl Outcome {
    /// The input token this outcome was created for.
    pub closed spec fn input(self) -> Seq<char> {
        self.value_in@
    }

    /// The rendered result, or the error message; empty until set.
    pub closed spec fn rendered(self) -> Seq<char> {
        self.value_out@
    }

    /// Starts an outcome for one input token, with nothing rendered
    /// yet.
    pub fn new(ts_str: String) -> (r: Outcome)
        ensures
            r.input() == ts_str@,
            r.rendered() == Seq::<char>::empty(),
    {
        Outcome { value_in: ts_str, value_out: String::new() }
    }

    /// Sets the rendered text and hands back a copy of the completed
    /// outcome.
    pub fn set(&mut self, out: String) -> (r: Outcome)
        ensures
            final(self).input() == old(self).input(),
            final(self).rendered() == out@,
            r.input() == old(self).input(),
            r.rendered() == out@,
    {
        self.value_out = out;
        Outcome { value_in: self.value_in.clone(), value_out: self.value_out.clone() }
    }

    /// The input text, for callers outside the library.
    pub fn input_value(&self) -> (r: &String)
        ensures
            r@ == self.input(),
    {
        &self.value_in
    }

    /// The rendered text, for callers outside the library.
    pub fn rendered_value(&self) -> (r: &String)
        ensures
            r@ == self.rendered(),
    {
        &self.value_out
    }

    /// Renders the outcome as one line of text.
    pub fn to_line(&self) -> (r: String)
        ensures
            r@ == line_of(self.input(), self.rendered()),
    {
        let mut r = self.value_in.clone();
        let n = self.value_in.as_str().unicode_len();
        let mut k = n;
        proof {
            reveal_strlit(" ");
        }
        while k < 20
            invariant
                n == self.value_in@.len(),
                n <= k,
                k == n || k <= 20,
                r@ == self.value_in@ + spaces((k - n) as nat),
            decreases 20 - k,
        {
            r.append(" ");
            proof {
                reveal_strlit(" ");
                assert(" "@ =~= seq![' ']);
                assert(self.value_in@ + spaces((k + 1 - n) as nat) =~= (self.value_in@ + spaces(
                    (k - n) as nat,
                )) + " "@);
            }
            k += 1;
        }
        r.append(" :: ");
        r.append(self.value_out.as_str());
        proof {
            assert(r@ =~= line_of(self.input(), self.rendered()));
        }
        r
    }
}

} // verus!
