//! Human-readable size and duration values.
//!
//! A size wraps a byte count and reads/writes as a magnitude with a `KB`,
//! `MB` or `GB` suffix (or a bare byte count when no suffix divides evenly).
//! A duration wraps a millisecond count and reads/writes as a magnitude with
//! an `h`, `m`, `s` or `ms` suffix. Both directions are proved inverse.

use vstd::prelude::*;

use crate::num::{spec_dec_digits, spec_parse_u64, lemma_dec_digits_val, u64_to_dec, dec_to_u64};
use vstd::slice::slice_subrange;
use crate::ascii::{D0, UB, UG, UK, UM, LH, LM, LS};

verus! {

pub const KB: u64 = 1024;

pub const MB: u64 = 1024 * 1024;

pub const GB: u64 = 1024 * 1024 * 1024;

pub const MS_PER_SEC: u64 = 1000;

pub const MS_PER_MINUTE: u64 = 60 * 1000;

pub const MS_PER_HOUR: u64 = 60 * 60 * 1000;

/// A byte count with a human-readable textual form.
#[derive(Debug, Clone, Copy, PartialEq, Eq, Structural)]
pub struct ReadableSize(pub u64);

/// A duration in milliseconds with a human-readable textual form.
#[derive(Debug, Clone, Copy, PartialEq, Eq, Structural)]
pub struct ReadableDuration(pub u64);

impl ReadableSize {
    pub open spec fn spec_kb(n: u64) -> ReadableSize {
        ReadableSize((n * KB) as u64)
    }

    pub open spec fn spec_mb(n: u64) -> ReadableSize {
        ReadableSize((n * MB) as u64)
    }

    pub open spec fn spec_gb(n: u64) -> ReadableSize {
        ReadableSize((n * GB) as u64)
    }

    #[verifier::when_used_as_spec(spec_kb)]
    pub fn kb(n: u64) -> (r: ReadableSize)
        requires
            n * KB <= u64::MAX,
        ensures
            r == Self::spec_kb(n),
    {
        ReadableSize(n * KB)
    }

    #[verifier::when_used_as_spec(spec_mb)]
    pub fn mb(n: u64) -> (r: ReadableSize)
        requires
            n * MB <= u64::MAX,
        ensures
            r == Self::spec_mb(n),
    {
        ReadableSize(n * MB)
    }

    #[verifier::when_used_as_spec(spec_gb)]
    pub fn gb(n: u64) -> (r: ReadableSize)
        requires
            n * GB <= u64::MAX,
        ensures
            r == Self::spec_gb(n),
    {
        ReadableSize(n * GB)
    }

    pub open spec fn spec_as_mb(self) -> u64 {
        self.0 / MB
    }

    /// The whole number of megabytes this size holds.
    #[verifier::when_used_as_spec(spec_as_mb)]
    pub fn as_mb(self) -> (r: u64)
        ensures
            r == self.spec_as_mb(),
    {
        self.0 / MB
    }
}

impl ReadableDuration {
    pub open spec fn spec_millis(n: u64) -> ReadableDuration {
        ReadableDuration(n)
    }

    pub open spec fn spec_secs(n: u64) -> ReadableDuration {
        ReadableDuration((n * MS_PER_SEC) as u64)
    }

    pub open spec fn spec_minutes(n: u64) -> ReadableDuration {
        ReadableDuration((n * MS_PER_MINUTE) as u64)
    }

    pub open spec fn spec_hours(n: u64) -> ReadableDuration {
        ReadableDuration((n * MS_PER_HOUR) as u64)
    }

    #[verifier::when_used_as_spec(spec_millis)]
    pub fn millis(n: u64) -> (r: ReadableDuration)
        ensures
            r == Self::spec_millis(n),
    {
        ReadableDuration(n)
    }

    #[verifier::when_used_as_spec(spec_secs)]
    pub fn secs(n: u64) -> (r: ReadableDuration)
        requires
            n * MS_PER_SEC <= u64::MAX,
        ensures
            r == Self::spec_secs(n),
    {
        ReadableDuration(n * MS_PER_SEC)
    }

    #[verifier::when_used_as_spec(spec_minutes)]
    pub fn minutes(n: u64) -> (r: ReadableDuration)
        requires
            n * MS_PER_MINUTE <= u64::MAX,
        ensures
            r == Self::spec_minutes(n),
    {
        ReadableDuration(n * MS_PER_MINUTE)
    }

    #[verifier::when_used_as_spec(spec_hours)]
    pub fn hours(n: u64) -> (r: ReadableDuration)
        requires
            n * MS_PER_HOUR <= u64::MAX,
        ensures
            r == Self::spec_hours(n),
    {
        ReadableDuration(n * MS_PER_HOUR)
    }

    pub open spec fn spec_as_secs(self) -> u64 {
        self.0 / MS_PER_SEC
    }

    /// The whole number of seconds this duration holds.
    #[verifier::when_used_as_spec(spec_as_secs)]
    pub fn as_secs(self) -> (r: u64)
        ensures
            r == self.spec_as_secs(),
    {
        self.0 / MS_PER_SEC
    }
}

/// The textual form of a byte count: the magnitude in the largest unit that
/// divides it evenly, or a bare byte count when none does; zero reads `0KB`.
pub open spec fn spec_fmt_size(v: u64) -> Seq<u8> {
    if v == 0 {
        seq![D0, UK, UB]
    } else if v % GB == 0 {
        spec_dec_digits((v / GB) as nat) + seq![UG, UB]
    } else if v % MB == 0 {
        spec_dec_digits((v / MB) as nat) + seq![UM, UB]
    } else if v % KB == 0 {
        spec_dec_digits((v / KB) as nat) + seq![UK, UB]
    } else {
        spec_dec_digits(v as nat)
    }
}

/// What reading a size back yields: a magnitude with a `KB`/`MB`/`GB` suffix,
/// or a bare byte count; `None` on anything else or on overflow.
pub open spec fn spec_parse_size(s: Seq<u8>) -> Option<u64> {
    if s.len() >= 2 && s[s.len() - 1] == UB && (s[s.len() - 2] == UK || s[s.len() - 2]
        == UM || s[s.len() - 2] == UG) {
        let unit: u64 = if s[s.len() - 2] == UK {
            KB
        } else if s[s.len() - 2] == UM {
            MB
        } else {
            GB
        };
        match spec_parse_u64(s.take(s.len() - 2)) {
            None => None,
            Some(n) => if n * unit <= u64::MAX {
                Some((n * unit) as u64)
            } else {
                None
            },
        }
    } else {
        spec_parse_u64(s)
    }
}

/// The textual form of a duration: the magnitude in the largest unit that
/// divides it evenly, down to milliseconds; zero reads `0s`.
pub open spec fn spec_fmt_dur(v: u64) -> Seq<u8> {
    if v == 0 {
        seq![D0, LS]
    } else if v % MS_PER_HOUR == 0 {
        spec_dec_digits((v / MS_PER_HOUR) as nat) + seq![LH]
    } else if v % MS_PER_MINUTE == 0 {
        spec_dec_digits((v / MS_PER_MINUTE) as nat) + seq![LM]
    } else if v % MS_PER_SEC == 0 {
        spec_dec_digits((v / MS_PER_SEC) as nat) + seq![LS]
    } else {
        spec_dec_digits(v as nat) + seq![LM, LS]
    }
}

/// What reading a duration back yields: a magnitude with an `h`, `m`, `s` or
/// `ms` suffix; `None` on anything else or on overflow.
pub open spec fn spec_parse_dur(s: Seq<u8>) -> Option<u64> {
    if s.len() >= 2 && s[s.len() - 1] == LS && s[s.len() - 2] == LM {
        match spec_parse_u64(s.take(s.len() - 2)) {
            None => None,
            Some(n) => Some(n),
        }
    } else if s.len() >= 1 && (s[s.len() - 1] == LH || s[s.len() - 1] == LM || s[s.len() - 1]
        == LS) {
        let unit: u64 = if s[s.len() - 1] == LH {
            MS_PER_HOUR
        } else if s[s.len() - 1] == LM {
            MS_PER_MINUTE
        } else {
            MS_PER_SEC
        };
        match spec_parse_u64(s.take(s.len() - 1)) {
            None => None,
            Some(n) => if n * unit <= u64::MAX {
                Some((n * unit) as u64)
            } else {
                None
            },
        }
    } else {
        None
    }
}

/// Helper: a numeral followed by a suffix reads back as magnitude times unit.
proof fn lemma_suffixed_numeral(q: u64, suffix: Seq<u8>)
    requires
        suffix.len() >= 1,
        forall|i: int| 0 <= i < suffix.len() ==> !crate::num::is_digit(#[trigger] suffix[i]),
    ensures
        (spec_dec_digits(q as nat) + suffix).take(
            spec_dec_digits(q as nat).len() as int,
        ) == spec_dec_digits(q as nat),
        spec_parse_u64(spec_dec_digits(q as nat)) == Some(q),
{
    let d = spec_dec_digits(q as nat);
    lemma_dec_digits_val(q as nat);
    assert((d + suffix).take(d.len() as int) =~= d);
}

/// Reading back the textual form of a size yields the same byte count.
pub proof fn lemma_size_round_trip(v: u64)
    ensures
        spec_parse_size(spec_fmt_size(v)) == Some(v),
{
    if v == 0 {
        let s = spec_fmt_size(v);
        assert(s.take(1) =~= seq![D0]);
        assert(spec_dec_digits(0) =~= seq![D0]);
        lemma_dec_digits_val(0);
    } else if v % GB == 0 {
        lemma_size_suffix_case(v, GB, UG);
    } else if v % MB == 0 {
        lemma_size_suffix_case(v, MB, UM);
    } else if v % KB == 0 {
        lemma_size_suffix_case(v, KB, UK);
    } else {
        lemma_dec_digits_val(v as nat);
        let d = spec_dec_digits(v as nat);
        assert(crate::num::is_digit(d[d.len() - 1]));
    }
}

/// Helper for the suffixed cases of `lemma_size_round_trip`.
proof fn lemma_size_suffix_case(v: u64, unit: u64, letter: u8)
    requires
        v > 0,
        unit == KB || unit == MB || unit == GB,
        letter == if unit == KB {
            UK
        } else if unit == MB {
            UM
        } else {
            UG
        },
        v % unit == 0,
    ensures
        spec_parse_size(spec_dec_digits((v / unit) as nat) + seq![letter, UB]) == Some(v),
{
    let q = (v / unit) as u64;
    let suffix = seq![letter, UB];
    lemma_suffixed_numeral(q, suffix);
    let s = spec_dec_digits(q as nat) + suffix;
    assert(s[s.len() - 1] == UB);
    assert(s[s.len() - 2] == letter);
    assert(v / unit * unit == v) by {
        vstd::arithmetic::div_mod::lemma_fundamental_div_mod(v as int, unit as int);
    }
}

/// Reading back the textual form of a duration yields the same milliseconds.
#[verifier::rlimit(30)]
pub proof fn lemma_dur_round_trip(v: u64)
    ensures
        spec_parse_dur(spec_fmt_dur(v)) == Some(v),
{
    if v == 0 {
        let s = spec_fmt_dur(v);
        assert(s.take(1) =~= seq![D0]);
        assert(spec_dec_digits(0) =~= seq![D0]);
        lemma_dec_digits_val(0);
        assert(spec_parse_dur(spec_fmt_dur(v)) == Some(v));
    } else if v % MS_PER_HOUR == 0 {
        lemma_dur_suffix_case(v, MS_PER_HOUR, LH);
        assert(spec_parse_dur(spec_fmt_dur(v)) == Some(v));
    } else if v % MS_PER_MINUTE == 0 {
        lemma_dur_suffix_case(v, MS_PER_MINUTE, LM);
        assert(spec_parse_dur(spec_fmt_dur(v)) == Some(v));
    } else if v % MS_PER_SEC == 0 {
        lemma_dur_suffix_case(v, MS_PER_SEC, LS);
        assert(spec_parse_dur(spec_fmt_dur(v)) == Some(v));
    } else {
        let d = spec_dec_digits(v as nat);
        let suffix = seq![LM, LS];
        lemma_suffixed_numeral(v, suffix);
        let s = d + suffix;
        assert(s[s.len() - 1] == LS);
        assert(s[s.len() - 2] == LM);
        assert(spec_parse_dur(spec_fmt_dur(v)) == Some(v));
    }
}

/// Helper for the single-letter cases of `lemma_dur_round_trip`.
proof fn lemma_dur_suffix_case(v: u64, unit: u64, letter: u8)
    requires
        v > 0,
        unit == MS_PER_SEC || unit == MS_PER_MINUTE || unit == MS_PER_HOUR,
        letter == if unit == MS_PER_HOUR {
            LH
        } else if unit == MS_PER_MINUTE {
            LM
        } else {
            LS
        },
        v % unit == 0,
    ensures
        spec_parse_dur(spec_dec_digits((v / unit) as nat) + seq![letter]) == Some(v),
{
    let q = (v / unit) as u64;
    let suffix = seq![letter];
    lemma_suffixed_numeral(q, suffix);
    let s = spec_dec_digits(q as nat) + suffix;
    assert(s[s.len() - 1] == letter);
    if s.len() >= 2 {
        assert(crate::num::is_digit(s[s.len() - 2]));
    }
    assert(s.take(s.len() - 1) =~= spec_dec_digits(q as nat));
    assert(v / unit * unit == v) by {
        vstd::arithmetic::div_mod::lemma_fundamental_div_mod(v as int, unit as int);
    }
}

/// Renders a byte count in its textual form.
pub fn fmt_size(v: u64) -> (r: Vec<u8>)
    ensures
        r@ == spec_fmt_size(v),
{
    if v == 0 {
        let mut r: Vec<u8> = Vec::new();
        r.push(D0);
        r.push(UK);
        r.push(UB);
        proof {
            assert(r@ =~= spec_fmt_size(v));
        }
        r
    } else if v % GB == 0 {
        let mut r: Vec<u8> = u64_to_dec(v / GB);
        r.push(UG);
        r.push(UB);
        proof {
            assert(r@ =~= spec_fmt_size(v));
        }
        r
    } else if v % MB == 0 {
        let mut r: Vec<u8> = u64_to_dec(v / MB);
        r.push(UM);
        r.push(UB);
        proof {
            assert(r@ =~= spec_fmt_size(v));
        }
        r
    } else if v % KB == 0 {
        let mut r: Vec<u8> = u64_to_dec(v / KB);
        r.push(UK);
        r.push(UB);
        proof {
            assert(r@ =~= spec_fmt_size(v));
        }
        r
    } else {
        u64_to_dec(v)
    }
}

/// Reads a byte count back from its textual form.
pub fn parse_size(s: &[u8]) -> (r: Option<u64>)
    ensures
        r == spec_parse_size(s@),
{
    let n = s.len();
    if n >= 2 && s[n - 1] == UB && (s[n - 2] == UK || s[n - 2] == UM || s[n - 2] == UG) {
        let unit: u64 = if s[n - 2] == UK {
            KB
        } else if s[n - 2] == UM {
            MB
        } else {
            GB
        };
        let digits = slice_subrange(s, 0, n - 2);
        proof {
            assert(digits@ =~= s@.take(s@.len() - 2));
        }
        match dec_to_u64(digits) {
            None => None,
            Some(x) => x.checked_mul(unit),
        }
    } else {
        dec_to_u64(s)
    }
}

/// Renders a millisecond count in its textual form.
pub fn fmt_dur(v: u64) -> (r: Vec<u8>)
    ensures
        r@ == spec_fmt_dur(v),
{
    if v == 0 {
        let mut r: Vec<u8> = Vec::new();
        r.push(D0);
        r.push(LS);
        proof {
            assert(r@ =~= spec_fmt_dur(v));
        }
        r
    } else if v % MS_PER_HOUR == 0 {
        let mut r: Vec<u8> = u64_to_dec(v / MS_PER_HOUR);
        r.push(LH);
        proof {
            assert(r@ =~= spec_fmt_dur(v));
        }
        r
    } else if v % MS_PER_MINUTE == 0 {
        let mut r: Vec<u8> = u64_to_dec(v / MS_PER_MINUTE);
        r.push(LM);
        proof {
            assert(r@ =~= spec_fmt_dur(v));
        }
        r
    } else if v % MS_PER_SEC == 0 {
        let mut r: Vec<u8> = u64_to_dec(v / MS_PER_SEC);
        r.push(LS);
        proof {
            assert(r@ =~= spec_fmt_dur(v));
        }
        r
    } else {
        let mut r: Vec<u8> = u64_to_dec(v);
        r.push(LM);
        r.push(LS);
        proof {
            assert(r@ =~= spec_fmt_dur(v));
        }
        r
    }
}

/// Reads a millisecond count back from its textual form.
pub fn parse_dur(s: &[u8]) -> (r: Option<u64>)
    ensures
        r == spec_parse_dur(s@),
{
    let n = s.len();
    if n >= 2 && s[n - 1] == LS && s[n - 2] == LM {
        let digits = slice_subrange(s, 0, n - 2);
        proof {
            assert(digits@ =~= s@.take(s@.len() - 2));
        }
        dec_to_u64(digits)
    } else if n >= 1 && (s[n - 1] == LH || s[n - 1] == LM || s[n - 1] == LS) {
        let unit: u64 = if s[n - 1] == LH {
            MS_PER_HOUR
        } else if s[n - 1] == LM {
            MS_PER_MINUTE
        } else {
            MS_PER_SEC
        };
        let digits = slice_subrange(s, 0, n - 1);
        proof {
            assert(digits@ =~= s@.take(s@.len() - 1));
        }
        match dec_to_u64(digits) {
            None => None,
            Some(x) => x.checked_mul(unit),
        }
    } else {
        None
    }
}

} // verus!
