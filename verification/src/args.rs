//! Extraction of the pipeline's configuration from a raw argument
//! list: the timestamp tokens, the output mode, the format pattern and
//! the timezone, each with its fallback.

use vstd::prelude::*;

use crate::dump::{get_fn, DumpMode};
use crate::render::{pattern_is_valid, pattern_ok, tz_is_known, tz_known};
use crate::text::str_eq;

verus! {

/// Errors of the argument layer.
#[derive(Debug, PartialEq, Eq)]
pub enum ArgsError {
    /// The argument list holds no value to process.
    NotEnough(String),
}

impl ArgsError {
    /// The error's display text.
    pub fn message(&self) -> (r: String)
        ensures
            r@ == self->NotEnough_0@,
    {
        match self {
            ArgsError::NotEnough(m) => m.clone(),
        }
    }
}

/// The message used when no value follows the program name.
pub open spec fn not_enough_msg() -> Seq<char> {
    "tsp expects at least one value to process"@
}

/// Splits the timestamp tokens off the argument list: everything after
/// the leading program name. With nothing after it, the call fails.
pub fn get_ts_strings(mut args: Vec<String>) -> (r: Result<Vec<String>, ArgsError>)
    requires
        args@.len() >= 1,
    ensures
        args@.len() == 1 ==> (r matches Err(e) && e->NotEnough_0@ == not_enough_msg()),
        args@.len() > 1 ==> (r matches Ok(ts) && ts@ == args@.skip(1)),
{
    let ghost args0 = args@;
    if args.len() == 1 {
        Err(ArgsError::NotEnough("tsp expects at least one value to process".to_owned()))
    } else {
        let rest = args.split_off(1);
        proof {
            assert(rest@ =~= args0.skip(1));
        }
        Ok(rest)
    }
}

/// `t` is one of the flags that ask for JSON output.
pub open spec fn is_json_flag(t: Seq<char>) -> bool {
    t == "-j"@ || t == "--json"@
}

/// `t` begins with a dash.
pub open spec fn is_dashed(t: Seq<char>) -> bool {
    t.len() > 0 && t[0] == '-'
}

/// Picks the output mode and strips the flags that asked for it: any
/// `-j` or `--json` argument selects JSON output and is removed.
pub fn get_dump_fn(cli_args: &mut Vec<String>) -> (r: DumpMode)
    ensures
        final(cli_args).deep_view() == old(cli_args).deep_view().filter(
            |t: Seq<char>| !is_json_flag(t),
        ),
        r == (if exists|j: int|
            0 <= j < old(cli_args)@.len() && is_json_flag(old(cli_args).deep_view()[j]) {
            DumpMode::Json
        } else {
            DumpMode::Text
        }),
{
    let ghost dv = cli_args.deep_view();
    let n = cli_args.len();
    let mut out: Vec<String> = Vec::new();
    let mut found = false;
    let mut i: usize = 0;
    while i < n
        invariant
            *cli_args == *old(cli_args),
            dv == cli_args.deep_view(),
            n == cli_args@.len(),
            i <= n,
            out.deep_view() == dv.take(i as int).filter(|t: Seq<char>| !is_json_flag(t)),
            found == (exists|j: int| 0 <= j < i && is_json_flag(dv[j])),
        decreases n - i,
    {
        let ghost out_before = out.deep_view();
        proof {
            reveal(Seq::filter);
            assert(dv.take(i + 1).drop_last() =~= dv.take(i as int));
            assert(dv.take(i + 1).last() == dv[i as int]);
        }
        let is_flag = str_eq(cli_args[i].as_str(), "-j") || str_eq(cli_args[i].as_str(), "--json");
        if is_flag {
            found = true;
        } else {
            out.push(cli_args[i].clone());
            proof {
                assert(out.deep_view() =~= out_before.push(dv[i as int]));
            }
        }
        i += 1;
    }
    proof {
        assert(dv.take(n as int) =~= dv);
    }
    *cli_args = out;
    get_fn(found)
}

/// Strips every argument that begins with a dash, and reports whether
/// anything was stripped.
pub fn cleanup(cli_args: &mut Vec<String>) -> (r: bool)
    ensures
        final(cli_args).deep_view() == old(cli_args).deep_view().filter(
            |t: Seq<char>| !is_dashed(t),
        ),
        r == (exists|j: int|
            0 <= j < old(cli_args)@.len() && is_dashed(old(cli_args).deep_view()[j])),
{
    let ghost dv = cli_args.deep_view();
    let n = cli_args.len();
    let mut out: Vec<String> = Vec::new();
    let mut found = false;
    let mut i: usize = 0;
    while i < n
        invariant
            *cli_args == *old(cli_args),
            dv == cli_args.deep_view(),
            n == cli_args@.len(),
            i <= n,
            out.deep_view() == dv.take(i as int).filter(|t: Seq<char>| !is_dashed(t)),
            found == (exists|j: int| 0 <= j < i && is_dashed(dv[j])),
        decreases n - i,
    {
        let ghost out_before = out.deep_view();
        proof {
            reveal(Seq::filter);
            assert(dv.take(i + 1).drop_last() =~= dv.take(i as int));
            assert(dv.take(i + 1).last() == dv[i as int]);
        }
        let a = &cli_args[i];
        let dashed = a.as_str().unicode_len() > 0 && a.as_str().get_char(0) == '-';
        if dashed {
            found = true;
        } else {
            out.push(cli_args[i].clone());
            proof {
                assert(out.deep_view() =~= out_before.push(dv[i as int]));
            }
        }
        i += 1;
    }
    proof {
        assert(dv.take(n as int) =~= dv);
    }
    *cli_args = out;
    found
}

/// The index of the first element of `v` equal to `t`, or -1 where
/// none is.
pub open spec fn first_index(v: Seq<Seq<char>>, t: Seq<char>) -> int
    decreases v.len(),
{
    if v.len() == 0 {
        -1
    } else if v[0] == t {
        0
    } else {
        let r = first_index(v.skip(1), t);
        if r == -1 {
            -1
        } else {
            r + 1
        }
    }
}

proof fn lemma_first_index_absent(v: Seq<Seq<char>>, t: Seq<char>)
    requires
        forall|j: int| 0 <= j < v.len() ==> v[j] != t,
    ensures
        first_index(v, t) == -1,
    decreases v.len(),
{
    if v.len() > 0 {
        assert forall|j: int| 0 <= j < v.skip(1).len() implies v.skip(1)[j] != t by {
            assert(v.skip(1)[j] == v[j + 1]);
        }
        lemma_first_index_absent(v.skip(1), t);
    }
}

proof fn lemma_first_index_found(v: Seq<Seq<char>>, t: Seq<char>, i: int)
    requires
        0 <= i < v.len(),
        v[i] == t,
        forall|j: int| 0 <= j < i ==> v[j] != t,
    ensures
        first_index(v, t) == i,
    decreases i,
{
    if i > 0 {
        assert forall|j: int| 0 <= j < i - 1 implies v.skip(1)[j] != t by {
            assert(v.skip(1)[j] == v[j + 1]);
        }
        assert(v.skip(1)[i - 1] == v[i]);
        lemma_first_index_found(v.skip(1), t, i - 1);
    }
}

/// Finds the first element of `v` equal to `t`.
fn find_first(v: &Vec<String>, t: &str) -> (r: Option<usize>)
    ensures
        (match r {
            Some(i) => i < v@.len() && first_index(v.deep_view(), t@) == i as int,
            None => first_index(v.deep_view(), t@) == -1,
        }),
{
    let n = v.len();
    let mut i: usize = 0;
    while i < n
        invariant
            n == v@.len(),
            i <= n,
            forall|j: int| 0 <= j < i ==> v.deep_view()[j] != t@,
        decreases n - i,
    {
        if str_eq(v[i].as_str(), t) {
            proof {
                lemma_first_index_found(v.deep_view(), t@, i as int);
            }
            return Some(i);
        }
        i += 1;
    }
    proof {
        lemma_first_index_absent(v.deep_view(), t@);
    }
    None
}

/// What the argument list becomes once the first occurrence of `flag`
/// and the value following it are taken out. Without the flag the list
/// is unchanged; with the flag in last position only the flag goes.
pub open spec fn args_after_extract(v: Seq<Seq<char>>, flag: Seq<char>) -> Seq<Seq<char>> {
    let i = first_index(v, flag);
    if i == -1 {
        v
    } else if i + 1 < v.len() {
        v.remove(i).remove(i)
    } else {
        v.remove(i)
    }
}

/// The value following the first occurrence of `flag`, where both
/// exist.
pub open spec fn extracted_opt(v: Seq<Seq<char>>, flag: Seq<char>) -> Option<Seq<char>> {
    let i = first_index(v, flag);
    if i == -1 || i + 1 >= v.len() {
        None
    } else {
        Some(v[i + 1])
    }
}

/// Takes the first occurrence of `flag` out of the list together with
/// the value following it, and hands that value back.
fn extract_flag_value(cli_args: &mut Vec<String>, flag: &str) -> (r: Option<String>)
    ensures
        final(cli_args).deep_view() == args_after_extract(old(cli_args).deep_view(), flag@),
        (match r {
            Some(s) => extracted_opt(old(cli_args).deep_view(), flag@) == Some(s@),
            None => extracted_opt(old(cli_args).deep_view(), flag@) is None,
        }),
{
    let ghost dv = cli_args.deep_view();
    match find_first(cli_args, flag) {
        None => None,
        Some(i) => {
            let _flag_arg = cli_args.remove(i);
            proof {
                assert(cli_args.deep_view() =~= dv.remove(i as int));
            }
            if i < cli_args.len() {
                let ghost dv1 = cli_args.deep_view();
                let val = cli_args.remove(i);
                proof {
                    assert(cli_args.deep_view() =~= dv1.remove(i as int));
                    assert(val@ == dv[i + 1]);
                }
                Some(val)
            } else {
                None
            }
        },
    }
}

/// The default date format pattern.
pub open spec fn default_pattern() -> Seq<char> {
    "%a, %d %b %Y %H:%M:%S %z"@
}

/// The default date format pattern, as a value.
pub fn default_fmt() -> (r: String)
    ensures
        r@ == default_pattern(),
{
    "%a, %d %b %Y %H:%M:%S %z".to_owned()
}

/// The pattern actually used for `fmt`: `fmt` itself where chrono
/// accepts it, the default pattern where it does not.
pub open spec fn validated_pattern(fmt: Seq<char>) -> Seq<char> {
    if pattern_ok(fmt) {
        fmt
    } else {
        default_pattern()
    }
}

/// Checks a format pattern up front, silently falling back to the
/// default pattern on one that chrono rejects.
pub fn validate_fmt(fmt: String) -> (r: String)
    ensures
        r@ == validated_pattern(fmt@),
{
    if pattern_is_valid(fmt.as_str()) {
        fmt
    } else {
        default_fmt()
    }
}

/// Validating a pattern twice yields exactly what validating it once
/// does.
pub proof fn lemma_validate_fmt_idempotent(fmt: Seq<char>)
    ensures
        validated_pattern(validated_pattern(fmt)) == validated_pattern(fmt),
{
}

/// The raw pattern named by the arguments: the value after the first
/// `-F`, or the default pattern.
pub open spec fn named_pattern(v: Seq<Seq<char>>) -> Seq<char> {
    match extracted_opt(v, "-F"@) {
        Some(s) => s,
        None => default_pattern(),
    }
}

/// Takes a `-F <pattern>` pair out of the argument list and hands the
/// raw pattern back, or the default where none is named.
fn extract_fmt(cli_args: &mut Vec<String>) -> (r: String)
    ensures
        final(cli_args).deep_view() == args_after_extract(old(cli_args).deep_view(), "-F"@),
        r@ == named_pattern(old(cli_args).deep_view()),
{
    match extract_flag_value(cli_args, "-F") {
        Some(s) => s,
        None => default_fmt(),
    }
}

/// Extracts the format pattern from the arguments and validates it:
/// the value after the first `-F` where chrono accepts it, else the
/// default pattern.
pub fn get_fmt_str(cli_args: &mut Vec<String>) -> (r: String)
    ensures
        final(cli_args).deep_view() == args_after_extract(old(cli_args).deep_view(), "-F"@),
        r@ == validated_pattern(named_pattern(old(cli_args).deep_view())),
{
    let fmt = extract_fmt(cli_args);
    validate_fmt(fmt)
}

/// The default timezone identifier.
pub open spec fn default_zone() -> Seq<char> {
    "UTC"@
}

/// The default timezone identifier, as a value.
pub fn default_tz() -> (r: String)
    ensures
        r@ == default_zone(),
{
    "UTC".to_owned()
}

/// The timezone identifier actually used for `tz`: `tz` itself where
/// the timezone database knows it, the default (UTC) where it does
/// not.
pub open spec fn validated_zone(tz: Seq<char>) -> Seq<char> {
    if tz_known(tz) {
        tz
    } else {
        default_zone()
    }
}

/// Checks a timezone identifier, silently falling back to UTC on one
/// the timezone database does not know.
pub fn validate_tz(tz_str: String) -> (r: String)
    ensures
        r@ == validated_zone(tz_str@),
{
    if tz_is_known(tz_str.as_str()) {
        tz_str
    } else {
        default_tz()
    }
}

/// The raw timezone identifier named by the arguments: the value after
/// the first `-T`, or the default.
pub open spec fn named_zone(v: Seq<Seq<char>>) -> Seq<char> {
    match extracted_opt(v, "-T"@) {
        Some(s) => s,
        None => default_zone(),
    }
}

/// Takes a `-T <timezone>` pair out of the argument list and hands the
/// raw identifier back, or the default where none is named.
fn extract_tz(cli_args: &mut Vec<String>) -> (r: String)
    ensures
        final(cli_args).deep_view() == args_after_extract(old(cli_args).deep_view(), "-T"@),
        r@ == named_zone(old(cli_args).deep_view()),
{
    match extract_flag_value(cli_args, "-T") {
        Some(s) => s,
        None => default_tz(),
    }
}

/// Extracts the timezone from the arguments and validates it: the
/// value after the first `-T` where the database knows it, else UTC.
pub fn get_tz(cli_args: &mut Vec<String>) -> (r: String)
    ensures
        final(cli_args).deep_view() == args_after_extract(old(cli_args).deep_view(), "-T"@),
        r@ == validated_zone(named_zone(old(cli_args).deep_view())),
{
    let tz = extract_tz(cli_args);
    validate_tz(tz)
}

} // verus!
