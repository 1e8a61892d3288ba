//! Lexical path handling and network-address syntax.
//!
//! Paths are normalized purely lexically: runs of slashes collapse to one and
//! a trailing slash is dropped. An address is a non-empty host, a colon, and
//! a port in 1..=65535.

use vstd::prelude::*;

use crate::ascii::{COLON, DOT, MINUS, SLASH};
use crate::num::{is_digit, spec_parse_u64, dec_to_u64};
use crate::bytestr::{bytes_of, push_all};
use vstd::slice::slice_subrange;

verus! {

/// `p` with every run of slashes collapsed to a single slash.
#[verifier::opaque]
pub open spec fn spec_collapse_slashes(p: Seq<u8>) -> Seq<u8>
    decreases p.len(),
{
    if p.len() == 0 {
        Seq::empty()
    } else if p[0] == SLASH && p.len() >= 2 && p[1] == SLASH {
        spec_collapse_slashes(p.skip(1))
    } else {
        seq![p[0]] + spec_collapse_slashes(p.skip(1))
    }
}

/// `p` without its trailing slash, kept only when `p` is the root alone.
pub open spec fn spec_strip_trailing_slash(p: Seq<u8>) -> Seq<u8> {
    if p.len() >= 2 && p[p.len() - 1] == SLASH {
        p.drop_last()
    } else {
        p
    }
}

/// The lexically normal form of a path.
pub open spec fn spec_normalize_path(p: Seq<u8>) -> Seq<u8> {
    spec_strip_trailing_slash(spec_collapse_slashes(p))
}

/// The path of `name` under `dir`: `name` alone when `dir` is empty, else
/// the normal form of `dir`, a slash, and `name`.
pub open spec fn spec_join_path(dir: Seq<u8>, name: Seq<u8>) -> Seq<u8> {
    if dir.len() == 0 {
        name
    } else {
        spec_normalize_path(dir) + seq![SLASH] + name
    }
}

/// True of a path that starts at the root.
pub open spec fn spec_is_absolute(p: Seq<u8>) -> bool {
    p.len() >= 1 && p[0] == SLASH
}

/// Collapses runs of slashes.
pub fn collapse_slashes(p: &[u8]) -> (r: Vec<u8>)
    ensures
        r@ == spec_collapse_slashes(p@),
{
    let mut out: Vec<u8> = Vec::new();
    let mut i: usize = 0;
    proof {
        reveal(spec_collapse_slashes);
        assert(p@.skip(0) =~= p@);
        assert(Seq::<u8>::empty() + spec_collapse_slashes(p@) =~= spec_collapse_slashes(p@));
    }
    while i < p.len()
        invariant
            0 <= i <= p@.len(),
            spec_collapse_slashes(p@) == out@ + spec_collapse_slashes(p@.skip(i as int)),
        decreases p@.len() - i,
    {
        proof {
            reveal(spec_collapse_slashes);
            assert(p@.skip(i as int)[0] == p@[i as int]);
            if i + 1 < p@.len() {
                assert(p@.skip(i as int)[1] == p@[i + 1]);
            }
            assert(p@.skip(i as int).skip(1) =~= p@.skip(i + 1));
        }
        if p[i] == SLASH && i + 1 < p.len() && p[i + 1] == SLASH {
            // drop this slash: the next one stands for the run
        } else {
            out.push(p[i]);
            proof {
                assert(out@ + spec_collapse_slashes(p@.skip(i + 1)) =~= out@.drop_last() + (seq![
                    p@[i as int],
                ] + spec_collapse_slashes(p@.skip(i + 1))));
            }
        }
        i = i + 1;
    }
    proof {
        reveal(spec_collapse_slashes);
        assert(p@.skip(i as int) =~= Seq::<u8>::empty());
        assert(out@ + Seq::<u8>::empty() =~= out@);
    }
    out
}

/// Produces the lexically normal form of a path.
pub fn normalize_path(p: &[u8]) -> (r: Vec<u8>)
    ensures
        r@ == spec_normalize_path(p@),
{
    let mut out = collapse_slashes(p);
    if out.len() >= 2 && out[out.len() - 1] == SLASH {
        out.pop();
        proof {
            assert(out@ =~= spec_normalize_path(p@));
        }
    }
    out
}

/// Produces the path of `name` under `dir`.
pub fn join_path(dir: &[u8], name: &[u8]) -> (r: Vec<u8>)
    ensures
        r@ == spec_join_path(dir@, name@),
{
    if dir.len() == 0 {
        bytes_of(name)
    } else {
        let mut v = normalize_path(dir);
        v.push(SLASH);
        push_all(&mut v, name);
        proof {
            assert(v@ =~= spec_join_path(dir@, name@));
        }
        v
    }
}

/// Tests whether a path starts at the root.
pub fn is_absolute(p: &[u8]) -> (r: bool)
    ensures
        r == spec_is_absolute(p@),
{
    p.len() >= 1 && p[0] == SLASH
}

/// The index of the last colon of `s`, if any.
pub open spec fn spec_find_last_colon(s: Seq<u8>) -> Option<int>
    decreases s.len(),
{
    if s.len() == 0 {
        None
    } else if s[s.len() - 1] == COLON {
        Some(s.len() - 1)
    } else {
        spec_find_last_colon(s.drop_last())
    }
}

/// True of a byte that may appear in a host name.
pub open spec fn spec_is_host_byte(b: u8) -> bool {
    (97 <= b <= 122) || (65 <= b <= 90) || is_digit(b) || b == DOT || b == MINUS || b == 95
}

/// True of a non-empty host name of letters, digits, dots, hyphens and
/// underscores.
pub open spec fn spec_valid_host(h: Seq<u8>) -> bool {
    h.len() >= 1 && forall|i: int| 0 <= i < h.len() ==> spec_is_host_byte(#[trigger] h[i])
}

/// True of a decimal port in 1..=65535.
pub open spec fn spec_valid_port(p: Seq<u8>) -> bool {
    match spec_parse_u64(p) {
        None => false,
        Some(v) => 1 <= v <= 65535,
    }
}

/// True of `host:port` with a well-formed host and port; the port starts
/// after the last colon.
#[verifier::opaque]
pub open spec fn spec_valid_addr(s: Seq<u8>) -> bool {
    match spec_find_last_colon(s) {
        None => false,
        Some(i) => spec_valid_host(s.take(i)) && spec_valid_port(s.skip(i + 1)),
    }
}

/// Finds the last colon of `s`.
pub fn find_last_colon(s: &[u8]) -> (r: Option<usize>)
    ensures
        match r {
            None => spec_find_last_colon(s@) is None,
            Some(i) => spec_find_last_colon(s@) == Some(i as int) && i < s@.len(),
        },
{
    let mut j: usize = s.len();
    proof {
        assert(s@.take(s@.len() as int) =~= s@);
    }
    while j > 0
        invariant
            0 <= j <= s@.len(),
            spec_find_last_colon(s@) == spec_find_last_colon(s@.take(j as int)),
        decreases j,
    {
        proof {
            assert(s@.take(j as int).last() == s@[j - 1]);
            assert(s@.take(j as int).drop_last() =~= s@.take(j - 1));
        }
        if s[j - 1] == COLON {
            return Some(j - 1);
        }
        j = j - 1;
    }
    proof {
        assert(s@.take(0) =~= Seq::<u8>::empty());
    }
    None
}

/// Tests whether `s` is a well-formed `host:port` network address.
pub fn check_addr(s: &[u8]) -> (r: bool)
    ensures
        r == spec_valid_addr(s@),
{
    proof {
        reveal(spec_valid_addr);
    }
    let i = match find_last_colon(s) {
        None => {
            return false;
        },
        Some(i) => i,
    };
    let host = slice_subrange(s, 0, i);
    proof {
        assert(host@ =~= s@.take(i as int));
    }
    if host.len() == 0 {
        return false;
    }
    let mut k: usize = 0;
    proof {
        reveal(spec_valid_addr);
    }
    while k < host.len()
        invariant
            0 <= k <= host@.len(),
            i < s@.len(),
            host@ == s@.take(i as int),
            spec_find_last_colon(s@) == Some(i as int),
            forall|j: int| 0 <= j < k ==> spec_is_host_byte(#[trigger] host@[j]),
        decreases host@.len() - k,
    {
        let b = host[k];
        let ok = (97 <= b && b <= 122) || (65 <= b && b <= 90) || (48 <= b && b <= 57) || b == DOT
            || b == MINUS || b == 95;
        if !ok {
            proof {
                reveal(spec_valid_addr);
                assert(!spec_is_host_byte(host@[k as int]));
                assert(!spec_valid_host(s@.take(i as int)));
            }
            return false;
        }
        k = k + 1;
    }
    proof {
        reveal(spec_valid_addr);
        vstd::slice::axiom_spec_len(s);
    }
    let port = slice_subrange(s, i + 1, s.len());
    proof {
        assert(port@ =~= s@.skip(i + 1));
    }
    match dec_to_u64(port) {
        None => false,
        Some(v) => 1 <= v && v <= 65535,
    }
}

} // verus!
