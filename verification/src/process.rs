//! The outcome aggregator: runs the interpretation pipeline over the
//! argument list and pairs each token with its rendered result or
//! error message, in input order.

use vstd::prelude::*;

use crate::args::{get_ts_strings, not_enough_msg, ArgsError};
use crate::number::{is_digit, parsed_i64};
use crate::outcome::Outcome;
use crate::parse::split_spec;
use crate::render::{render_instant, rendered};
use crate::unit::{instant_of, unit_of_str, Unit, UtcInstant};
use crate::value::{interpret_spec, message_of, ts_from_str, ValueError};

verus! {

/// A date ready to render: an instant together with the pattern and
/// the timezone identifier to render it under.
#[derive(Debug)]
pub struct FmtDate {
    dt: UtcInstant,
    fmt: String,
    tz: String,
}

impl FmtDate {
    /// The instant to render.
    pub closed spec fn instant(self) -> UtcInstant {
        self.dt
    }

    /// The pattern to render under.
    pub closed spec fn pattern(self) -> Seq<char> {
        self.fmt@
    }

    /// The timezone identifier to render in.
    pub closed spec fn zone(self) -> Seq<char> {
        self.tz@
    }

    /// Bundles an instant with a pattern and a timezone identifier.
    pub fn new(dt: UtcInstant, fmt: String, tz: String) -> (r: FmtDate)
        ensures
            r.instant() == dt,
            r.pattern() == fmt@,
            r.zone() == tz@,
    {
        FmtDate { dt, fmt, tz }
    }

    /// Renders the date: chrono's text for this instant under this
    /// pattern in this zone.
    pub fn render(&self) -> (r: String)
        ensures
            r@ == rendered(self.instant().nanos as int, self.pattern(), self.zone()),
    {
        render_instant(self.dt.nanos, self.fmt.as_str(), self.tz.as_str())
    }
}

/// What one token renders to: the formatted date where the token
/// interprets as an instant, the failure's message where it does not.
pub open spec fn processed(token: Seq<char>, fmt: Seq<char>, tz: Seq<char>) -> Seq<char> {
    match interpret_spec(token) {
        Ok(t) => rendered(t.nanos as int, fmt, tz),
        Err(e) => message_of(e),
    }
}

/// Runs the pipeline over an argument list: every argument after the
/// leading program name is interpreted and rendered (or explained),
/// one outcome per token, in input order. A token's failure never
/// touches the outcome of any other token.
pub fn go(cli_args: Vec<String>, fmt: String, tz: String) -> (r: Result<Vec<Outcome>, ArgsError>)
    requires
        cli_args@.len() >= 1,
        forall|i: int| 1 <= i < cli_args@.len() ==> cli_args.deep_view()[i].len() > 0,
    ensures
        cli_args@.len() == 1 ==> (r matches Err(e) && e->NotEnough_0@ == not_enough_msg()),
        cli_args@.len() > 1 ==> (r matches Ok(outs) && outs@.len() == cli_args@.len() - 1
            && forall|i: int|
            0 <= i < outs@.len() ==> (#[trigger] outs@[i]).input() == cli_args.deep_view()[i + 1]
                && outs@[i].rendered() == processed(cli_args.deep_view()[i + 1], fmt@, tz@)),
{
    let ghost dv = cli_args.deep_view();
    match get_ts_strings(cli_args) {
        Err(e) => Err(e),
        Ok(ts_strs) => {
            let ghost tokens = ts_strs.deep_view();
            proof {
                assert(tokens =~= dv.skip(1));
            }
            let n = ts_strs.len();
            let mut outcomes: Vec<Outcome> = Vec::new();
            let mut i: usize = 0;
            while i < n
                invariant
                    n == ts_strs@.len(),
                    i <= n,
                    tokens == ts_strs.deep_view(),
                    forall|j: int| 0 <= j < n ==> tokens[j].len() > 0,
                    outcomes@.len() == i,
                    forall|j: int|
                        0 <= j < i ==> (#[trigger] outcomes@[j]).input() == tokens[j]
                            && outcomes@[j].rendered() == processed(tokens[j], fmt@, tz@),
                decreases n - i,
            {
                let ts_str = &ts_strs[i];
                proof {
                    assert(ts_str@ == tokens[i as int]);
                }
                let mut outcome = Outcome::new(ts_str.clone());
                match ts_from_str(ts_str.clone()) {
                    Ok(dt) => {
                        let fmt_ts = FmtDate::new(dt, fmt.clone(), tz.clone());
                        outcome.set(fmt_ts.render());
                    },
                    Err(err) => {
                        outcome.set(err.message());
                    },
                }
                outcomes.push(outcome);
                i += 1;
            }
            Ok(outcomes)
        },
    }
}

/// Round trip: a token written as `n` followed by a nanosecond count
/// interprets to exactly that instant, so rendering what the token
/// interprets to equals rendering the count's date-time directly.
pub proof fn lemma_render_round_trip(token: Seq<char>, v: i64, fmt: Seq<char>, tz: Seq<char>)
    requires
        token.len() >= 1,
        token[0] == 'n',
        parsed_i64(token.skip(1)) == Some(v),
    ensures
        interpret_spec(token) == Ok::<UtcInstant, ValueError>(UtcInstant { nanos: v }),
        processed(token, fmt, tz) == rendered(v as int, fmt, tz),
{
    assert(!is_digit(token[0]));
    assert(unit_of_str(seq![token[0]]) == Some(Unit::Nanos));
    assert(split_spec(token) == Some((Unit::Nanos, token.skip(1))));
    assert(instant_of(Unit::Nanos, v) == Some(UtcInstant { nanos: v }));
}

} // verus!
