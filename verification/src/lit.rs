//! Parsing of literal text: decimal integer literals and binary bit-pattern
//! literals. The lowering engine only accepts literals in positions where
//! the source semantics structurally require one (widths, array indices,
//! slice bounds, rotate amounts), so these are the only two readers.

use vstd::prelude::*;
use vstd::string::StrSliceExecFns;

verus! {

/// Whether `c` is a decimal digit `'0'..='9'`.
pub open spec fn is_dec_digit(c: char) -> bool {
    '0' as u32 <= c as u32 && c as u32 <= '9' as u32
}

/// Whether `c` is a binary digit `'0'` or `'1'`.
pub open spec fn is_bin_digit(c: char) -> bool {
    c as u32 == '0' as u32 || c as u32 == '1' as u32
}

/// The numeric value of the digit `c`.
pub open spec fn digit_val(c: char) -> nat {
    (c as u32 - '0' as u32) as nat
}

/// The value of `s` read as a decimal numeral.
pub open spec fn dec_value(s: Seq<char>) -> nat
    decreases s.len(),
{
    if s.len() == 0 {
        0
    } else {
        dec_value(s.drop_last()) * 10 + digit_val(s.last())
    }
}

/// The value of `s` read as a binary numeral.
pub open spec fn bin_value(s: Seq<char>) -> nat
    decreases s.len(),
{
    if s.len() == 0 {
        0
    } else {
        bin_value(s.drop_last()) * 2 + digit_val(s.last())
    }
}

/// Well-formed decimal literal text: nonempty and all decimal digits.
pub open spec fn valid_dec(s: Seq<char>) -> bool {
    s.len() > 0 && (forall|i: int| 0 <= i < s.len() ==> is_dec_digit(#[trigger] s[i]))
}

/// Well-formed binary literal text: nonempty and all binary digits.
pub open spec fn valid_bin(s: Seq<char>) -> bool {
    s.len() > 0 && (forall|i: int| 0 <= i < s.len() ==> is_bin_digit(#[trigger] s[i]))
}

/// Extending digit text on the right never decreases its decimal value.
proof fn lemma_dec_value_grows(s: Seq<char>, k: int)
    requires
        0 <= k <= s.len(),
    ensures
        dec_value(s.take(k)) <= dec_value(s),
    decreases s.len() - k,
{
    if k < s.len() {
        lemma_dec_value_grows(s, k + 1);
        assert(s.take(k + 1).drop_last() =~= s.take(k));
        assert(dec_value(s.take(k)) <= dec_value(s.take(k + 1)));
    } else {
        assert(s.take(k) =~= s);
    }
}

/// Extending digit text on the right never decreases its binary value.
proof fn lemma_bin_value_grows(s: Seq<char>, k: int)
    requires
        0 <= k <= s.len(),
    ensures
        bin_value(s.take(k)) <= bin_value(s),
    decreases s.len() - k,
{
    if k < s.len() {
        lemma_bin_value_grows(s, k + 1);
        assert(s.take(k + 1).drop_last() =~= s.take(k));
        assert(bin_value(s.take(k)) <= bin_value(s.take(k + 1)));
    } else {
        assert(s.take(k) =~= s);
    }
}

/// Parse decimal literal text to a `usize`. Succeeds exactly on well-formed
/// decimal text whose value fits, and then returns that value.
pub fn parse_dec_usize(s: &str) -> (r: Option<usize>)
    ensures
        match r {
            Some(v) => valid_dec(s@) && v == dec_value(s@),
            None => !valid_dec(s@) || dec_value(s@) > usize::MAX,
        },
{
    let n = s.unicode_len();
    if n == 0 {
        return None;
    }
    let mut acc: usize = 0;
    let mut i: usize = 0;
    while i < n
        invariant
            0 <= i <= n,
            n == s@.len(),
            forall|j: int| 0 <= j < i ==> is_dec_digit(#[trigger] s@[j]),
            acc == dec_value(s@.take(i as int)),
        decreases n - i,
    {
        let c = s.get_char(i);
        let u = c as u32;
        if u < '0' as u32 || u > '9' as u32 {
            return None;
        }
        let d: usize = (u - '0' as u32) as usize;
        proof {
            assert(s@.take(i + 1).drop_last() =~= s@.take(i as int));
        }
        let acc10 = match acc.checked_mul(10) {
            Some(a) => a,
            None => {
                proof {
                    dec_overflow_witness(s@, i as int);
                }
                return None;
            },
        };
        acc = match acc10.checked_add(d) {
            Some(a) => a,
            None => {
                proof {
                    dec_overflow_witness(s@, i as int);
                }
                return None;
            },
        };
        i = i + 1;
    }
    proof {
        assert(s@.take(n as int) =~= s@);
    }
    Some(acc)
}

/// At a position where the running decimal value has exceeded `usize::MAX`,
/// either the remaining text is not all digits, or the whole literal's
/// value exceeds `usize::MAX` as well.
proof fn dec_overflow_witness(s: Seq<char>, i: int)
    requires
        0 <= i < s.len(),
        dec_value(s.take(i + 1)) > usize::MAX,
    ensures
        !valid_dec(s) || dec_value(s) > usize::MAX,
{
    if valid_dec(s) {
        lemma_dec_value_grows(s, i + 1);
    }
}

/// Parse binary bit-pattern text to a `u128`. Succeeds exactly on
/// well-formed binary text whose value fits, and then returns that value.
pub fn parse_bin_u128(s: &str) -> (r: Option<u128>)
    ensures
        match r {
            Some(v) => valid_bin(s@) && v == bin_value(s@),
            None => !valid_bin(s@) || bin_value(s@) > u128::MAX,
        },
{
    let n = s.unicode_len();
    if n == 0 {
        return None;
    }
    let mut acc: u128 = 0;
    let mut i: usize = 0;
    while i < n
        invariant
            0 <= i <= n,
            n == s@.len(),
            forall|j: int| 0 <= j < i ==> is_bin_digit(#[trigger] s@[j]),
            acc == bin_value(s@.take(i as int)),
        decreases n - i,
    {
        let c = s.get_char(i);
        let u = c as u32;
        if u != '0' as u32 && u != '1' as u32 {
            return None;
        }
        let d: u128 = (u - '0' as u32) as u128;
        proof {
            assert(s@.take(i + 1).drop_last() =~= s@.take(i as int));
        }
        let acc2 = match acc.checked_mul(2) {
            Some(a) => a,
            None => {
                proof {
                    bin_overflow_witness(s@, i as int);
                }
                return None;
            },
        };
        acc = match acc2.checked_add(d) {
            Some(a) => a,
            None => {
                proof {
                    bin_overflow_witness(s@, i as int);
                }
                return None;
            },
        };
        i = i + 1;
    }
    proof {
        assert(s@.take(n as int) =~= s@);
    }
    Some(acc)
}

/// At a position where the running binary value has exceeded `u128::MAX`,
/// either the remaining text is not all digits, or the whole literal's
/// value exceeds `u128::MAX` as well.
proof fn bin_overflow_witness(s: Seq<char>, i: int)
    requires
        0 <= i < s.len(),
        bin_value(s.take(i + 1)) > u128::MAX,
    ensures
        !valid_bin(s) || bin_value(s) > u128::MAX,
{
    if valid_bin(s) {
        lemma_bin_value_grows(s, i + 1);
    }
}

} // verus!
