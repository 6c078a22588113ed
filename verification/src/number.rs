//! Signed decimal numerals: the grammar of a base-10 signed 64-bit
//! integer literal (an optional `+` or `-` sign followed by one or more
//! ASCII digits) and a verified parser for it.

use vstd::prelude::*;

use vstd::string::StrSliceExecFns;

verus! {

/// `c` is an ASCII digit `0`-`9`.
pub open spec fn is_digit(c: char) -> bool {
    48 <= c as int <= 57
}

/// The numeric value of an ASCII digit.
pub open spec fn digit_val(c: char) -> int {
    c as int - 48
}

/// Every character of `s` is an ASCII digit.
pub open spec fn all_digits(s: Seq<char>) -> bool {
    forall|i: int| 0 <= i < s.len() ==> is_digit(s[i])
}

/// The value of a digit string read in base 10.
pub open spec fn digits_val(s: Seq<char>) -> int
    decreases s.len(),
{
    if s.len() == 0 {
        0
    } else {
        10 * digits_val(s.drop_last()) + digit_val(s.last())
    }
}

/// `s` with one leading sign character stripped, if it carries one.
pub open spec fn literal_body(s: Seq<char>) -> Seq<char> {
    if s.len() > 0 && (s[0] == '+' || s[0] == '-') {
        s.skip(1)
    } else {
        s
    }
}

/// `s` is a well-formed signed decimal literal: after an optional
/// leading `+` or `-` there is at least one digit and nothing else.
pub open spec fn is_int_literal(s: Seq<char>) -> bool {
    literal_body(s).len() > 0 && all_digits(literal_body(s))
}

/// The mathematical value of a well-formed signed decimal literal.
pub open spec fn int_literal_val(s: Seq<char>) -> int {
    if s.len() > 0 && s[0] == '-' {
        -digits_val(s.skip(1))
    } else {
        digits_val(literal_body(s))
    }
}

/// What parsing `s` as a signed 64-bit integer yields: its value where
/// `s` is a well-formed literal whose value fits, and `None` otherwise.
pub open spec fn parsed_i64(s: Seq<char>) -> Option<i64> {
    if is_int_literal(s) && i64::MIN <= int_literal_val(s) <= i64::MAX {
        Some(int_literal_val(s) as i64)
    } else {
        None
    }
}

/// A digit string never has a negative value.
pub proof fn lemma_digits_val_nonneg(s: Seq<char>)
    requires
        all_digits(s),
    ensures
        digits_val(s) >= 0,
    decreases s.len(),
{
    if s.len() > 0 {
        assert forall|i: int| 0 <= i < s.drop_last().len() implies is_digit(s.drop_last()[i]) by {
            assert(s.drop_last()[i] == s[i]);
        }
        lemma_digits_val_nonneg(s.drop_last());
    }
}

/// Extending a digit string never shrinks its value: the value of a
/// prefix bounds the value of the whole from below.
pub proof fn lemma_digits_val_prefix(s: Seq<char>, i: int)
    requires
        all_digits(s),
        0 <= i <= s.len(),
    ensures
        digits_val(s.take(i)) <= digits_val(s),
    decreases s.len() - i,
{
    if i == s.len() {
        assert(s.take(i) =~= s);
    } else {
        let shorter = s.take(i);
        let longer = s.take(i + 1);
        assert(longer.drop_last() =~= shorter);
        assert(longer.last() == s[i]);
        assert forall|j: int| 0 <= j < shorter.len() implies is_digit(shorter[j]) by {
            assert(shorter[j] == s[j]);
        }
        lemma_digits_val_nonneg(shorter);
        assert(digits_val(longer) == 10 * digits_val(shorter) + digit_val(s[i]));
        lemma_digits_val_prefix(s, i + 1);
    }
}

/// Parses `s` as a signed base-10 64-bit integer: an optional leading
/// `+` or `-`, then one or more ASCII digits. Returns `None` on an
/// empty string, a stray character, a sign without digits, or a value
/// outside the 64-bit range.
pub fn parse_i64(s: &str) -> (r: Option<i64>)
    ensures
        r == parsed_i64(s@),
{
    let n = s.unicode_len();
    if n == 0 {
        return None;
    }
    let first = s.get_char(0);
    let neg = first == '-';
    let has_sign = neg || first == '+';
    let start: usize = if has_sign {
        1
    } else {
        0
    };
    if start == n {
        return None;
    }
    proof {
        assert(s@.skip(0) =~= s@);
    }
    // The value is accumulated as a non-positive number so that both
    // i64::MIN and i64::MAX stay reachable without widening.
    let limit: i64 = if neg {
        i64::MIN
    } else {
        -i64::MAX
    };
    let mut acc: i64 = 0;
    let mut i: usize = start;
    while i < n
        invariant
            n == s@.len(),
            0 < n,
            start <= i <= n,
            start < n,
            neg == (s@[0] == '-'),
            has_sign == (s@[0] == '+' || s@[0] == '-'),
            start == (if has_sign { 1int } else { 0int }),
            literal_body(s@) == s@.skip(start as int),
            limit as int == (if neg { i64::MIN as int } else { -(i64::MAX as int) }),
            all_digits(s@.subrange(start as int, i as int)),
            acc as int == -digits_val(s@.subrange(start as int, i as int)),
            limit <= acc <= 0,
        decreases n - i,
    {
        let ghost prefix = s@.subrange(start as int, i as int);
        let ghost extended = s@.subrange(start as int, i as int + 1);
        proof {
            assert(extended.drop_last() =~= prefix);
            assert(extended.last() == s@[i as int]);
        }
        let c = s.get_char(i);
        let u = c as u32;
        if u < 48 || u > 57 {
            proof {
                assert(literal_body(s@)[i - start] == s@[i as int]);
                assert(!is_int_literal(s@));
            }
            return None;
        }
        let d: i64 = (u - 48) as i64;
        proof {
            assert(d as int == digit_val(s@[i as int]));
            assert forall|j: int| 0 <= j < extended.len() implies is_digit(extended[j]) by {
                if j < extended.len() - 1 {
                    assert(extended[j] == prefix[j]);
                }
            }
            assert(digits_val(extended) == 10 * digits_val(prefix) + digit_val(s@[i as int]));
        }
        let mut overflow = false;
        let mut next: i64 = 0;
        match acc.checked_mul(10) {
            Some(t) => {
                match t.checked_sub(d) {
                    Some(t2) => {
                        if t2 < limit {
                            overflow = true;
                        } else {
                            next = t2;
                        }
                    },
                    None => {
                        overflow = true;
                    },
                }
            },
            None => {
                overflow = true;
            },
        }
        if overflow {
            proof {
                assert(digits_val(extended) > -(limit as int));
                if is_int_literal(s@) {
                    let body = literal_body(s@);
                    assert(body.take(i + 1 - start) =~= extended);
                    lemma_digits_val_prefix(body, i + 1 - start);
                    assert(digits_val(body) > -(limit as int));
                }
            }
            return None;
        }
        acc = next;
        i += 1;
        proof {
            assert(s@.subrange(start as int, i as int) =~= extended);
        }
    }
    let ghost body = literal_body(s@);
    proof {
        assert(s@.subrange(start as int, n as int) =~= body);
        assert(is_int_literal(s@));
        if neg {
            assert(int_literal_val(s@) == acc as int);
        } else {
            lemma_digits_val_nonneg(body);
            assert(int_literal_val(s@) == -(acc as int));
        }
    }
    if neg {
        Some(acc)
    } else {
        Some(-acc)
    }
}

} // verus!
