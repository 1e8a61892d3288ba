//! Decimal numerals over bytes: rendering an unsigned integer as ASCII digits
//! and reading it back, with a proof that the two are inverse.

use vstd::prelude::*;

verus! {

/// True of an ASCII decimal digit byte.
pub open spec fn is_digit(b: u8) -> bool {
    48 <= b <= 57
}

/// True when every byte of `s` is an ASCII digit.
pub open spec fn all_digits(s: Seq<u8>) -> bool {
    forall|i: int| 0 <= i < s.len() ==> is_digit(#[trigger] s[i])
}

/// The decimal numeral of `n`, most significant digit first.
pub open spec fn spec_dec_digits(n: nat) -> Seq<u8>
    decreases n,
{
    if n < 10 {
        seq![(48 + n) as u8]
    } else {
        spec_dec_digits(n / 10).push((48 + n % 10) as u8)
    }
}

/// The value of a digit string, read most significant digit first.
pub open spec fn spec_dec_val(s: Seq<u8>) -> int
    decreases s.len(),
{
    if s.len() == 0 {
        0
    } else {
        spec_dec_val(s.drop_last()) * 10 + (s.last() - 48)
    }
}

/// What reading a digit string as a `u64` yields: `None` on an empty string,
/// a non-digit byte, or a value above `u64::MAX`.
pub open spec fn spec_parse_u64(s: Seq<u8>) -> Option<u64> {
    if s.len() == 0 || !all_digits(s) || spec_dec_val(s) > u64::MAX {
        None
    } else {
        Some(spec_dec_val(s) as u64)
    }
}

/// The numeral of `n` is non-empty, consists of digits, and reads back as `n`.
pub proof fn lemma_dec_digits_val(n: nat)
    ensures
        spec_dec_digits(n).len() >= 1,
        all_digits(spec_dec_digits(n)),
        spec_dec_val(spec_dec_digits(n)) == n,
    decreases n,
{
    if n < 10 {
        let s = spec_dec_digits(n);
        assert(s.drop_last() =~= Seq::<u8>::empty());
        assert(spec_dec_val(Seq::<u8>::empty()) == 0);
        assert(s[0] == (48 + n) as u8);
    } else {
        lemma_dec_digits_val(n / 10);
        let d = spec_dec_digits(n / 10);
        let b = (48 + n % 10) as u8;
        let s = spec_dec_digits(n);
        assert(s == d.push(b));
        lemma_dec_val_push(d, b);
        assert((n / 10) * 10 + n % 10 == n) by (nonlinear_arith);
        assert forall|i: int| 0 <= i < s.len() implies is_digit(s[i]) by {
            if i < d.len() {
                assert(s[i] == d[i]);
            } else {
                assert(s[i] == b);
            }
        }
    }
}

/// A digit string's value is never negative.
pub proof fn lemma_dec_val_nonneg(s: Seq<u8>)
    requires
        all_digits(s),
    ensures
        spec_dec_val(s) >= 0,
    decreases s.len(),
{
    if s.len() > 0 {
        assert(is_digit(s[s.len() - 1]));
        assert(all_digits(s.drop_last())) by {
            assert(forall|j: int| 0 <= j < s.len() - 1 ==> s.drop_last()[j] == s[j]);
        }
        lemma_dec_val_nonneg(s.drop_last());
        let x = spec_dec_val(s.drop_last());
        assert(x * 10 + (s.last() - 48) >= 0) by (nonlinear_arith)
            requires
                x >= 0,
                s.last() >= 48,
        ;
    }
}

/// Appending a digit multiplies the value by ten and adds the digit.
pub proof fn lemma_dec_val_push(s: Seq<u8>, b: u8)
    ensures
        spec_dec_val(s.push(b)) == spec_dec_val(s) * 10 + (b - 48),
{
    assert(s.push(b).drop_last() =~= s);
}

/// The value of a digit string never shrinks as digits are appended.
pub proof fn lemma_dec_val_prefix_le(s: Seq<u8>, i: int)
    requires
        0 <= i <= s.len(),
        all_digits(s),
    ensures
        spec_dec_val(s.take(i)) <= spec_dec_val(s),
        spec_dec_val(s.take(i)) >= 0,
    decreases s.len() - i,
{
    assert(all_digits(s.take(i))) by {
        assert(forall|j: int| 0 <= j < i ==> s.take(i)[j] == s[j]);
    }
    lemma_dec_val_nonneg(s.take(i));
    if i < s.len() {
        lemma_dec_val_prefix_le(s, i + 1);
        lemma_dec_val_push(s.take(i), s[i]);
        assert(s.take(i + 1) =~= s.take(i).push(s[i]));
        let x = spec_dec_val(s.take(i));
        assert(x <= x * 10 + (s[i] - 48)) by (nonlinear_arith)
            requires
                x >= 0,
                s[i] >= 48,
        ;
    } else {
        assert(s.take(i) =~= s);
    }
}

/// Renders `n` as its decimal numeral.
pub fn u64_to_dec(n: u64) -> (r: Vec<u8>)
    ensures
        r@ == spec_dec_digits(n as nat),
    decreases n,
{
    if n < 10 {
        let mut v: Vec<u8> = Vec::new();
        v.push(48 + n as u8);
        proof {
            assert(v@ =~= spec_dec_digits(n as nat));
        }
        v
    } else {
        let mut v: Vec<u8> = u64_to_dec(n / 10);
        v.push(48 + (n % 10) as u8);
        proof {
            assert(v@ =~= spec_dec_digits(n as nat));
        }
        v
    }
}

/// Reads a decimal numeral back as a `u64`; `None` exactly where
/// `spec_parse_u64` says so.
pub fn dec_to_u64(s: &[u8]) -> (r: Option<u64>)
    ensures
        r == spec_parse_u64(s@),
{
    if s.len() == 0 {
        return None;
    }
    let mut acc: u64 = 0;
    let mut i: usize = 0;
    while i < s.len()
        invariant
            0 <= i <= s@.len(),
            all_digits(s@.take(i as int)),
            acc == spec_dec_val(s@.take(i as int)),
        decreases s@.len() - i,
    {
        let b = s[i];
        if !(48 <= b && b <= 57) {
            assert(!all_digits(s@));
            return None;
        }
        let d: u64 = (b - 48) as u64;
        let acc10 = match acc.checked_mul(10) {
            Some(x) => x,
            None => {
                proof {
                    lemma_overflow_means_big(s@, i as int, acc, d);
                }
                return None;
            },
        };
        let acc2 = match acc10.checked_add(d) {
            Some(x) => x,
            None => {
                proof {
                    lemma_overflow_means_big(s@, i as int, acc, d);
                }
                return None;
            },
        };
        proof {
            lemma_dec_val_push(s@.take(i as int), s@[i as int]);
            assert(s@.take(i + 1) =~= s@.take(i as int).push(s@[i as int]));
        }
        acc = acc2;
        i = i + 1;
    }
    proof {
        assert(s@.take(i as int) =~= s@);
    }
    Some(acc)
}

/// When the running value times ten plus the next digit exceeds `u64::MAX`,
/// the whole string's value does too (if all its bytes are digits).
proof fn lemma_overflow_means_big(s: Seq<u8>, i: int, acc: u64, d: u64)
    requires
        0 <= i < s.len(),
        acc == spec_dec_val(s.take(i)),
        is_digit(s[i]),
        d == s[i] - 48,
        acc * 10 + d > u64::MAX,
    ensures
        spec_parse_u64(s) is None,
{
    if all_digits(s) {
        lemma_dec_val_push(s.take(i), s[i]);
        assert(s.take(i + 1) =~= s.take(i).push(s[i]));
        lemma_dec_val_prefix_le(s, i + 1);
    }
}

} // verus!
