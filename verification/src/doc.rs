//! The configuration document's line and value grammar.
//!
//! A document is a sequence of newline-terminated lines: blank lines,
//! `[section]` headers, and `key = value` pairs. A value is a quoted string,
//! a decimal integer, a boolean, or a bracketed list of quoted strings.
//! Rendering and reading a line are proved inverse.

use vstd::prelude::*;

use crate::ascii::{COMMA, EQUALS, LBRACKET, MINUS, NL, QUOTE, RBRACKET, SPACE};
use crate::num::{spec_dec_digits, spec_parse_u64, lemma_dec_digits_val, u64_to_dec, dec_to_u64};
use crate::bytestr::{bytes_of, bytes_eq, push_all};
use vstd::slice::slice_subrange;

verus! {

/// A value carried by a `key = value` line.
#[derive(Debug, Clone, PartialEq)]
pub enum Value {
    Str(Vec<u8>),
    Int(i64),
    Bool(bool),
    List(Vec<Vec<u8>>),
}

/// The mathematical value of a [`Value`].
pub enum ValueV {
    Str(Seq<u8>),
    Int(i64),
    Bool(bool),
    List(Seq<Seq<u8>>),
}

impl View for Value {
    type V = ValueV;

    open spec fn view(&self) -> ValueV {
        match self {
            Value::Str(s) => ValueV::Str(s@),
            Value::Int(n) => ValueV::Int(*n),
            Value::Bool(b) => ValueV::Bool(*b),
            Value::List(items) => ValueV::List(items.deep_view()),
        }
    }
}

/// One logical line of a document.
pub enum LineV {
    Blank,
    Header(Seq<u8>),
    Pair(Seq<u8>, ValueV),
}

/// The index of the first occurrence of `x` in `s`, if any.
pub open spec fn spec_find_byte(s: Seq<u8>, x: u8) -> Option<int>
    decreases s.len(),
{
    if s.len() == 0 {
        None
    } else if s[0] == x {
        Some(0)
    } else {
        match spec_find_byte(s.skip(1), x) {
            None => None,
            Some(j) => Some(j + 1),
        }
    }
}

/// Where `x` first occurs at `n` and nowhere earlier, the search finds `n`.
pub proof fn lemma_find_byte_at(s: Seq<u8>, x: u8, n: int)
    requires
        0 <= n < s.len(),
        s[n] == x,
        forall|i: int| 0 <= i < n ==> s[i] != x,
    ensures
        spec_find_byte(s, x) == Some(n),
    decreases n,
{
    if n > 0 {
        lemma_find_byte_at(s.skip(1), x, n - 1);
    }
}

/// Where `x` occurs nowhere in `s`, the search fails.
pub proof fn lemma_find_byte_none(s: Seq<u8>, x: u8)
    requires
        forall|i: int| 0 <= i < s.len() ==> s[i] != x,
    ensures
        spec_find_byte(s, x) is None,
    decreases s.len(),
{
    if s.len() > 0 {
        lemma_find_byte_none(s.skip(1), x);
    }
}

/// Finds the first occurrence of `x` in `s` at or after `from`.
pub fn find_byte_from(s: &[u8], x: u8, from: usize) -> (r: Option<usize>)
    requires
        from <= s@.len(),
    ensures
        match r {
            None => spec_find_byte(s@.skip(from as int), x) is None,
            Some(i) => from <= i < s@.len() && spec_find_byte(s@.skip(from as int), x) == Some(
                i - from,
            ),
        },
{
    let mut i: usize = from;
    while i < s.len()
        invariant
            from <= i <= s@.len(),
            forall|j: int| from <= j < i ==> s@[j] != x,
        decreases s@.len() - i,
    {
        if s[i] == x {
            proof {
                assert(s@.skip(from as int)[i - from] == x);
                lemma_find_byte_at(s@.skip(from as int), x, i - from);
            }
            return Some(i);
        }
        i = i + 1;
    }
    proof {
        lemma_find_byte_none(s@.skip(from as int), x);
    }
    None
}

/// A string free of quotes and newlines, so it can stand inside one line.
pub open spec fn clean_str(s: Seq<u8>) -> bool {
    forall|i: int| 0 <= i < s.len() ==> #[trigger] s[i] != QUOTE && s[i] != NL
}

/// A key: non-empty, free of spaces and newlines, and not header-shaped.
pub open spec fn wf_key(k: Seq<u8>) -> bool {
    &&& k.len() >= 1
    &&& k[0] != LBRACKET
    &&& forall|i: int| 0 <= i < k.len() ==> #[trigger] k[i] != SPACE && k[i] != NL
}

/// A value whose textual form reads back as itself.
pub open spec fn wf_value(v: ValueV) -> bool {
    match v {
        ValueV::Str(s) => clean_str(s),
        ValueV::Int(_) => true,
        ValueV::Bool(_) => true,
        ValueV::List(items) => forall|i: int|
            0 <= i < items.len() ==> clean_str(#[trigger] items[i]),
    }
}

/// A line whose textual form reads back as itself.
pub open spec fn wf_line(l: LineV) -> bool {
    match l {
        LineV::Blank => true,
        LineV::Header(n) => forall|i: int|
            0 <= i < n.len() ==> #[trigger] n[i] != NL,
        LineV::Pair(k, v) => wf_key(k) && wf_value(v),
    }
}

/// `s` between quotes.
pub open spec fn spec_quoted(s: Seq<u8>) -> Seq<u8> {
    seq![QUOTE] + s + seq![QUOTE]
}

/// The rendered items after the first: each preceded by comma-space.
pub open spec fn spec_render_tail(items: Seq<Seq<u8>>) -> Seq<u8>
    decreases items.len(),
{
    if items.len() == 0 {
        Seq::empty()
    } else {
        seq![COMMA, SPACE] + spec_quoted(items[0]) + spec_render_tail(items.skip(1))
    }
}

/// The rendered items of a list: quoted, separated by comma-space.
pub open spec fn spec_render_items(items: Seq<Seq<u8>>) -> Seq<u8> {
    if items.len() == 0 {
        Seq::empty()
    } else {
        spec_quoted(items[0]) + spec_render_tail(items.skip(1))
    }
}

/// The textual form of an integer: a minus sign for negatives, then the
/// decimal magnitude.
pub open spec fn spec_render_int(n: i64) -> Seq<u8> {
    if n < 0 {
        seq![MINUS] + spec_dec_digits((-(n as int)) as nat)
    } else {
        spec_dec_digits(n as nat)
    }
}

/// The textual form of a value.
pub open spec fn spec_render_value(v: ValueV) -> Seq<u8> {
    match v {
        ValueV::Str(s) => spec_quoted(s),
        ValueV::Int(n) => spec_render_int(n),
        ValueV::Bool(b) => if b {
            seq![116u8, 114, 117, 101]  // "true"
        } else {
            seq![102u8, 97, 108, 115, 101]  // "false"
        },
        ValueV::List(items) => seq![LBRACKET] + spec_render_items(items) + seq![RBRACKET],
    }
}

/// The textual form of a line, without its terminating newline.
pub open spec fn spec_line_body(l: LineV) -> Seq<u8> {
    match l {
        LineV::Blank => Seq::empty(),
        LineV::Header(n) => seq![LBRACKET] + n + seq![RBRACKET],
        LineV::Pair(k, v) => k + seq![SPACE, EQUALS, SPACE] + spec_render_value(v),
    }
}

/// The textual form of a line, newline-terminated.
pub open spec fn spec_render_line(l: LineV) -> Seq<u8> {
    spec_line_body(l) + seq![NL]
}

/// Reads the items of a list body: quoted strings separated by comma-space.
pub open spec fn spec_lex_items(s: Seq<u8>) -> Option<Seq<Seq<u8>>>
    decreases s.len(),
{
    if s.len() == 0 {
        Some(Seq::empty())
    } else if s[0] != QUOTE {
        None
    } else {
        match spec_find_byte(s.skip(1), QUOTE) {
            None => None,
            Some(j) => if !(0 <= j && j + 2 <= s.len()) {
                None
            } else {
                let item = s.subrange(1, 1 + j);
                let after = s.skip(j + 2);
                if after.len() == 0 {
                    Some(seq![item])
                } else if after.len() >= 2 && after[0] == COMMA && after[1] == SPACE {
                    match spec_lex_items(after.skip(2)) {
                        None => None,
                        Some(rest) => Some(seq![item] + rest),
                    }
                } else {
                    None
                }
            },
        }
    }
}

/// Reads a value's textual form.
pub open spec fn spec_lex_value(v: Seq<u8>) -> Option<ValueV> {
    if v.len() >= 1 && v[0] == QUOTE {
        match spec_find_byte(v.skip(1), QUOTE) {
            None => None,
            Some(j) => if 1 + j == v.len() - 1 {
                Some(ValueV::Str(v.subrange(1, v.len() - 1)))
            } else {
                None
            },
        }
    } else if v == seq![116u8, 114, 117, 101] {  // "true"
        Some(ValueV::Bool(true))
    } else if v == seq![102u8, 97, 108, 115, 101] {  // "false"
        Some(ValueV::Bool(false))
    } else if v.len() >= 2 && v[0] == LBRACKET {
        if v[v.len() - 1] == RBRACKET {
            match spec_lex_items(v.subrange(1, v.len() - 1)) {
                None => None,
                Some(items) => Some(ValueV::List(items)),
            }
        } else {
            None
        }
    } else if v.len() >= 2 && v[0] == MINUS {
        match spec_parse_u64(v.skip(1)) {
            None => None,
            Some(m) => if m <= 9223372036854775808 {
                Some(ValueV::Int((-(m as int)) as i64))
            } else {
                None
            },
        }
    } else {
        match spec_parse_u64(v) {
            None => None,
            Some(m) => if m <= i64::MAX {
                Some(ValueV::Int(m as i64))
            } else {
                None
            },
        }
    }
}

/// Reads one line's textual form (without its newline).
#[verifier::opaque]
pub open spec fn spec_lex_line(line: Seq<u8>) -> Option<LineV> {
    if line.len() == 0 {
        Some(LineV::Blank)
    } else if line[0] == LBRACKET {
        if line.len() >= 2 && line[line.len() - 1] == RBRACKET {
            Some(LineV::Header(line.subrange(1, line.len() - 1)))
        } else {
            None
        }
    } else {
        match spec_find_byte(line, SPACE) {
            None => None,
            Some(i) => if i + 3 <= line.len() && line[i + 1] == EQUALS && line[i + 2] == SPACE {
                match spec_lex_value(line.skip(i + 3)) {
                    None => None,
                    Some(v) => Some(LineV::Pair(line.take(i), v)),
                }
            } else {
                None
            },
        }
    }
}

/// The rendered form of clean list items is free of newlines, and of quotes
/// outside the quoting itself; its first quote closes the first item.
proof fn lemma_lex_items_round_trip(items: Seq<Seq<u8>>)
    requires
        forall|i: int| 0 <= i < items.len() ==> clean_str(#[trigger] items[i]),
    ensures
        spec_lex_items(spec_render_items(items)) == Some(items),
    decreases items.len(),
{
    if items.len() == 0 {
        assert(spec_render_items(items) =~= Seq::<u8>::empty());
    } else {
        let i0 = items[0];
        let s = spec_render_items(items);
        let tail = spec_render_tail(items.skip(1));
        assert(s =~= seq![QUOTE] + i0 + seq![QUOTE] + tail);
        assert(s[0] == QUOTE);
        let s1 = s.skip(1);
        assert(s1 =~= i0 + seq![QUOTE] + tail);
        assert(s1[i0.len() as int] == QUOTE);
        assert(forall|i: int| 0 <= i < i0.len() ==> s1[i] == i0[i]);
        lemma_find_byte_at(s1, QUOTE, i0.len() as int);
        assert(s.subrange(1, 1 + i0.len() as int) =~= i0);
        let after = s.skip(i0.len() + 2 as int);
        assert(after =~= tail);
        if items.len() == 1 {
            assert(items.skip(1).len() == 0);
            assert(after.len() == 0);
            assert(seq![i0] =~= items);
        } else {
            assert(items.skip(1).len() >= 1);
            assert(tail =~= seq![COMMA, SPACE] + spec_render_items(items.skip(1)));
            assert(spec_render_items(items.skip(1)).len() >= 2);
            assert(after[0] == COMMA && after[1] == SPACE);
            assert(after.skip(2) =~= spec_render_items(items.skip(1)));
            assert(forall|i: int|
                0 <= i < items.skip(1).len() ==> clean_str(#[trigger] items.skip(1)[i]));
            lemma_lex_items_round_trip(items.skip(1));
            assert(seq![i0] + items.skip(1) =~= items);
        }
    }
}

/// Reading back the textual form of a well-formed value yields that value.
pub proof fn lemma_lex_value_round_trip(v: ValueV)
    requires
        wf_value(v),
    ensures
        spec_lex_value(spec_render_value(v)) == Some(v),
{
    let tru = seq![116u8, 114, 117, 101];
    let fal = seq![102u8, 97, 108, 115, 101];
    match v {
        ValueV::Str(s) => {
            let r = spec_render_value(v);
            assert(r =~= seq![QUOTE] + s + seq![QUOTE]);
            assert(r[0] == QUOTE);
            let r1 = r.skip(1);
            assert(r1 =~= s + seq![QUOTE]);
            assert(r1[s.len() as int] == QUOTE);
            assert(forall|i: int| 0 <= i < s.len() ==> r1[i] == s[i]);
            lemma_find_byte_at(r1, QUOTE, s.len() as int);
            assert(r.subrange(1, r.len() - 1) =~= s);
        },
        ValueV::Int(n) => {
            if n < 0 {
                let mag = (-(n as int)) as nat;
                let r = spec_render_value(v);
                assert(r =~= seq![MINUS] + spec_dec_digits(mag));
                lemma_dec_digits_val(mag);
                assert(r[0] == MINUS);
                assert(r != tru) by {
                    assert(r[0] != tru[0]);
                }
                assert(r != fal) by {
                    assert(r[0] != fal[0]);
                }
                assert(r.skip(1) =~= spec_dec_digits(mag));
                assert(spec_parse_u64(r.skip(1)) == Some(mag as u64));
                assert((-(mag as int)) as i64 == n);
            } else {
                let r = spec_render_value(v);
                assert(r =~= spec_dec_digits(n as nat));
                lemma_dec_digits_val(n as nat);
                assert(crate::num::is_digit(r[0]));
                assert(r != tru) by {
                    assert(r[0] != tru[0]);
                }
                assert(r != fal) by {
                    assert(r[0] != fal[0]);
                }
                assert(spec_parse_u64(r) == Some(n as u64));
            }
        },
        ValueV::Bool(b) => {
            if b {
            } else {
                assert(fal != tru) by {
                    assert(fal.len() != tru.len());
                }
            }
        },
        ValueV::List(items) => {
            let r = spec_render_value(v);
            let body = spec_render_items(items);
            assert(r =~= seq![LBRACKET] + body + seq![RBRACKET]);
            assert(r[0] == LBRACKET);
            assert(r != tru) by {
                assert(r[0] != tru[0]);
            }
            assert(r != fal) by {
                assert(r[0] != fal[0]);
            }
            assert(r[r.len() - 1] == RBRACKET);
            assert(r.subrange(1, r.len() - 1) =~= body);
            lemma_lex_items_round_trip(items);
        },
    }
}

/// The body of a well-formed line holds no newline.
pub proof fn lemma_line_body_clean(l: LineV)
    requires
        wf_line(l),
    ensures
        forall|i: int| 0 <= i < spec_line_body(l).len() ==> #[trigger] spec_line_body(l)[i] != NL,
{
    match l {
        LineV::Blank => {},
        LineV::Header(n) => {
            let b = spec_line_body(l);
            assert forall|i: int| 0 <= i < b.len() implies #[trigger] b[i] != NL by {
                if i == 0 {
                } else if i <= n.len() {
                    assert(b[i] == n[i - 1]);
                } else {
                }
            }
        },
        LineV::Pair(k, v) => {
            lemma_render_value_clean(v);
            let rv = spec_render_value(v);
            let b = spec_line_body(l);
            assert forall|i: int| 0 <= i < b.len() implies #[trigger] b[i] != NL by {
                if i < k.len() {
                    assert(b[i] == k[i]);
                } else if i < k.len() + 3 {
                } else {
                    assert(b[i] == rv[i - k.len() - 3]);
                }
            }
        },
    }
}

/// The rendered form of clean items holds no newline.
proof fn lemma_render_items_clean(items: Seq<Seq<u8>>)
    requires
        forall|i: int| 0 <= i < items.len() ==> clean_str(#[trigger] items[i]),
    ensures
        forall|i: int|
            0 <= i < spec_render_items(items).len() ==> #[trigger] spec_render_items(items)[i]
                != NL,
        forall|i: int|
            0 <= i < spec_render_tail(items).len() ==> #[trigger] spec_render_tail(items)[i] != NL,
    decreases items.len(),
{
    if items.len() == 0 {
    } else {
        assert(forall|i: int|
            0 <= i < items.skip(1).len() ==> clean_str(#[trigger] items.skip(1)[i]));
        lemma_render_items_clean(items.skip(1));
        let i0 = items[0];
        let q = spec_quoted(i0);
        assert(forall|i: int| 0 <= i < q.len() ==> #[trigger] q[i] != NL) by {
            assert(forall|i: int| 0 < i < q.len() - 1 ==> q[i] == i0[i - 1]);
        }
        let s = spec_render_items(items);
        let t0 = spec_render_tail(items.skip(1));
        assert(s =~= q + t0);
        assert(forall|i: int| 0 <= i < s.len() ==> #[trigger] s[i] != NL);
        let t = spec_render_tail(items);
        let ti0 = spec_render_tail(items.skip(1));
        assert(t =~= seq![COMMA, SPACE] + q + ti0);
        assert(forall|i: int| 0 <= i < t.len() ==> #[trigger] t[i] != NL);
    }
}

/// The rendered form of a well-formed value holds no newline.
proof fn lemma_render_value_clean(v: ValueV)
    requires
        wf_value(v),
    ensures
        forall|i: int|
            0 <= i < spec_render_value(v).len() ==> #[trigger] spec_render_value(v)[i] != NL,
{
    match v {
        ValueV::Str(s) => {
            let r = spec_render_value(v);
            assert(r =~= seq![QUOTE] + s + seq![QUOTE]);
            assert(forall|i: int| 0 < i < r.len() - 1 ==> r[i] == s[i - 1]);
        },
        ValueV::Int(n) => {
            let mag: nat = if n < 0 {
                (-(n as int)) as nat
            } else {
                n as nat
            };
            lemma_dec_digits_val(mag);
            let d = spec_dec_digits(mag);
            assert(forall|i: int| 0 <= i < d.len() ==> crate::num::is_digit(#[trigger] d[i]));
            if n < 0 {
                let r = spec_render_value(v);
                assert(r =~= seq![MINUS] + d);
                assert(forall|i: int| 0 < i < r.len() ==> r[i] == d[i - 1]);
            }
        },
        ValueV::Bool(_) => {},
        ValueV::List(items) => {
            lemma_render_items_clean(items);
            let r = spec_render_value(v);
            let body = spec_render_items(items);
            assert(r =~= seq![LBRACKET] + body + seq![RBRACKET]);
            assert(forall|i: int| 0 < i < r.len() - 1 ==> r[i] == body[i - 1]);
        },
    }
}

/// Reading back the body of a well-formed line yields that line.
pub proof fn lemma_lex_line_round_trip(l: LineV)
    requires
        wf_line(l),
    ensures
        spec_lex_line(spec_line_body(l)) == Some(l),
{
    reveal(spec_lex_line);
    match l {
        LineV::Blank => {},
        LineV::Header(n) => {
            let b = spec_line_body(l);
            assert(b[0] == LBRACKET);
            assert(b[b.len() - 1] == RBRACKET);
            assert(b.subrange(1, b.len() - 1) =~= n);
        },
        LineV::Pair(k, v) => {
            let rv = spec_render_value(v);
            let b = spec_line_body(l);
            assert(b =~= k + seq![SPACE, EQUALS, SPACE] + rv);
            assert(b[0] == k[0]);
            assert(b[k.len() as int] == SPACE);
            assert(forall|i: int| 0 <= i < k.len() ==> b[i] == k[i]);
            lemma_find_byte_at(b, SPACE, k.len() as int);
            assert(b[k.len() + 1 as int] == EQUALS);
            assert(b[k.len() + 2 as int] == SPACE);
            assert(b.skip(k.len() + 3 as int) =~= rv);
            lemma_lex_value_round_trip(v);
            assert(b.take(k.len() as int) =~= k);
        },
    }
}

/// One logical line, as read by the lexer.
#[derive(Debug, Clone, PartialEq)]
pub enum Line {
    Blank,
    Header(Vec<u8>),
    Pair(Vec<u8>, Value),
}

impl View for Line {
    type V = LineV;

    open spec fn view(&self) -> LineV {
        match self {
            Line::Blank => LineV::Blank,
            Line::Header(n) => LineV::Header(n@),
            Line::Pair(k, v) => LineV::Pair(k@, v@),
        }
    }
}

/// Appends the textual form of a value.
pub fn render_value(out: &mut Vec<u8>, v: &Value)
    ensures
        final(out)@ == old(out)@ + spec_render_value(v@),
{
    match v {
        Value::Str(s) => {
            out.push(QUOTE);
            push_all(out, s.as_slice());
            out.push(QUOTE);
            proof {
                assert(out@ =~= old(out)@ + spec_render_value(v@));
            }
        },
        Value::Int(n) => {
            if *n < 0 {
                out.push(MINUS);
                let mag: u64 = (-(*n as i128)) as u64;
                let d = u64_to_dec(mag);
                push_all(out, d.as_slice());
                proof {
                    assert(mag as nat == (-(*n as int)) as nat);
                    assert(out@ =~= old(out)@ + spec_render_value(v@));
                }
            } else {
                let d = u64_to_dec(*n as u64);
                push_all(out, d.as_slice());
                proof {
                    assert(out@ =~= old(out)@ + spec_render_value(v@));
                }
            }
        },
        Value::Bool(b) => {
            if *b {
                push_all(out, [116u8, 114, 117, 101].as_slice());  // "true"
            } else {
                push_all(out, [102u8, 97, 108, 115, 101].as_slice());  // "false"
            }
            proof {
                assert(out@ =~= old(out)@ + spec_render_value(v@));
            }
        },
        Value::List(items) => {
            out.push(LBRACKET);
            let ghost items_v = items.deep_view();
            let ghost base = old(out)@ + seq![LBRACKET];
            let mut i: usize = 0;
            while i < items.len()
                invariant
                    0 <= i <= items@.len(),
                    items_v == items.deep_view(),
                    items_v.len() == items@.len(),
                    i == 0 ==> out@ == base,
                    i >= 1 ==> out@ + spec_render_tail(items_v.skip(i as int)) == base
                        + spec_render_items(items_v),
                decreases items@.len() - i,
            {
                proof {
                    assert(items_v[i as int] == items@[i as int]@);
                }
                if i > 0 {
                    out.push(COMMA);
                    out.push(SPACE);
                }
                out.push(QUOTE);
                push_all(out, items[i].as_slice());
                out.push(QUOTE);
                proof {
                    assert(items_v.skip(i as int)[0] == items_v[i as int]);
                    assert(items_v.skip(i as int).skip(1) =~= items_v.skip(i + 1));
                    if i == 0 {
                        assert(out@ =~= base + spec_quoted(items_v[0]));
                        assert(out@ + spec_render_tail(items_v.skip(1)) =~= base
                            + spec_render_items(items_v));
                    } else {
                        assert(spec_render_tail(items_v.skip(i as int)) =~= seq![COMMA, SPACE]
                            + spec_quoted(items_v[i as int]) + spec_render_tail(
                            items_v.skip(i + 1),
                        ));
                        assert(out@ + spec_render_tail(items_v.skip(i + 1)) =~= base
                            + spec_render_items(items_v));
                    }
                }
                i = i + 1;
            }
            proof {
                if items.len() == 0 {
                    assert(out@ =~= base + spec_render_items(items_v));
                } else {
                    assert(items_v.skip(items_v.len() as int) =~= Seq::<Seq<u8>>::empty());
                    assert(out@ =~= base + spec_render_items(items_v));
                }
            }
            out.push(RBRACKET);
            proof {
                assert(out@ =~= old(out)@ + spec_render_value(v@));
            }
        },
    }
}

/// Appends a newline-terminated `[section]` header line.
pub fn render_header(out: &mut Vec<u8>, name: &[u8])
    ensures
        final(out)@ == old(out)@ + spec_render_line(LineV::Header(name@)),
{
    out.push(LBRACKET);
    push_all(out, name);
    out.push(RBRACKET);
    out.push(NL);
    proof {
        assert(out@ =~= old(out)@ + spec_render_line(LineV::Header(name@)));
    }
}

/// Appends a newline-terminated `key = value` line.
pub fn render_pair(out: &mut Vec<u8>, k: &[u8], v: &Value)
    ensures
        final(out)@ == old(out)@ + spec_render_line(LineV::Pair(k@, v@)),
{
    push_all(out, k);
    out.push(SPACE);
    out.push(EQUALS);
    out.push(SPACE);
    render_value(out, v);
    out.push(NL);
    proof {
        assert(out@ =~= old(out)@ + spec_render_line(LineV::Pair(k@, v@)));
    }
}

/// Pushing an element extends a vector's deep view by that element's view.
pub proof fn lemma_deep_view_push(v1: Vec<Vec<u8>>, v2: Vec<Vec<u8>>)
    requires
        v2@.len() == v1@.len() + 1,
        forall|j: int| 0 <= j < v1@.len() ==> v2@[j] == v1@[j],
    ensures
        v2.deep_view() =~= v1.deep_view().push(v2@[v2@.len() - 1]@),
{
    assert forall|j: int| 0 <= j < v2.deep_view().len() implies v2.deep_view()[j]
        == v1.deep_view().push(v2@[v2@.len() - 1]@)[j] by {
        if j < v1@.len() {
            assert(v2@[j] == v1@[j]);
        }
    }
}

/// Reads the items of a list body.
fn lex_items(s: &[u8]) -> (r: Option<Vec<Vec<u8>>>)
    ensures
        match r {
            None => spec_lex_items(s@) is None,
            Some(items) => spec_lex_items(s@) == Some(items.deep_view()),
        },
{
    let mut items: Vec<Vec<u8>> = Vec::new();
    let mut pos: usize = 0;
    proof {
        assert(s@.skip(0) =~= s@);
        assert(items.deep_view() =~= Seq::<Seq<u8>>::empty());
    }
    while pos < s.len()
        invariant
            0 <= pos <= s@.len(),
            spec_lex_items(s@) == match spec_lex_items(s@.skip(pos as int)) {
                None => None::<Seq<Seq<u8>>>,
                Some(rest) => Some(items.deep_view() + rest),
            },
        decreases s@.len() - pos,
    {
        let ghost sp = s@.skip(pos as int);
        let ghost done = items.deep_view();
        if s[pos] != QUOTE {
            proof {
                assert(sp[0] != QUOTE);
            }
            return None;
        }
        let q = match find_byte_from(s, QUOTE, pos + 1) {
            None => {
                proof {
                    assert(sp.skip(1) =~= s@.skip(pos + 1));
                }
                return None;
            },
            Some(q) => q,
        };
        proof {
            assert(sp.skip(1) =~= s@.skip(pos + 1));
            assert(spec_find_byte(sp.skip(1), QUOTE) == Some(q - pos - 1));
        }
        let item = bytes_of(slice_subrange(s, pos + 1, q));
        proof {
            assert(item@ =~= sp.subrange(1, (q - pos) as int));
        }
        if q + 1 == s.len() {
            let ghost pre = items;
            let ghost item_v = item@;
            items.push(item);
            proof {
                assert(sp.skip((q + 1 - pos) as int) =~= s@.skip(q + 1));
                assert(s@.skip(q + 1).len() == 0);
                lemma_deep_view_push(pre, items);
                assert(items.deep_view() =~= done.push(item_v));
                assert(items.deep_view() =~= done.push(item@));
                assert(done + seq![item@] =~= done.push(item@));
                assert(spec_lex_items(s@) == Some(items.deep_view()));
            }
            return Some(items);
        }
        if s[q + 1] != COMMA || q + 2 >= s.len() || s[q + 2] != SPACE {
            proof {
                let after = sp.skip((q + 1 - pos) as int);
                assert(after =~= s@.skip(q + 1));
                assert(after.len() > 0);
                if q + 2 < s@.len() {
                    assert(after[0] == s@[q + 1] && after[1] == s@[q + 2]);
                } else {
                    assert(after[0] == s@[q + 1]);
                }
            }
            return None;
        }
        let ghost pre = items;
        let ghost item_v = item@;
        items.push(item);
        proof {
            let after = sp.skip((q + 1 - pos) as int);
            assert(after =~= s@.skip(q + 1));
            assert(after[0] == COMMA && after[1] == SPACE);
            assert(after.len() >= 2);
            assert(after.skip(2) =~= s@.skip(q + 3));
            lemma_deep_view_push(pre, items);
            assert(items.deep_view() =~= done.push(item_v));
            assert forall|rest: Seq<Seq<u8>>| true implies done + (seq![item@] + rest)
                =~= items.deep_view() + rest by {
                assert(done + (seq![item@] + rest) =~= done.push(item@) + rest);
            }
        }
        pos = q + 3;
    }
    proof {
        assert(s@.skip(pos as int).len() == 0);
        assert(items.deep_view() + Seq::<Seq<u8>>::empty() =~= items.deep_view());
    }
    Some(items)
}

/// Reads a value's textual form.
pub fn lex_value(v: &[u8]) -> (r: Option<Value>)
    ensures
        match r {
            None => spec_lex_value(v@) is None,
            Some(val) => spec_lex_value(v@) == Some(val@),
        },
{
    if v.len() >= 1 && v[0] == QUOTE {
        match find_byte_from(v, QUOTE, 1) {
            None => {
                proof {
                    assert(v@.skip(1) =~= v@.skip(1));
                }
                None
            },
            Some(i) => {
                proof {
                    assert(spec_find_byte(v@.skip(1), QUOTE) == Some(i - 1));
                }
                if i == v.len() - 1 {
                    let content = bytes_of(slice_subrange(v, 1, i));
                    proof {
                        assert(content@ =~= v@.subrange(1, v@.len() - 1));
                    }
                    Some(Value::Str(content))
                } else {
                    None
                }
            },
        }
    } else if bytes_eq(v, [116u8, 114, 117, 101].as_slice()) {  // "true"
        Some(Value::Bool(true))
    } else if bytes_eq(v, [102u8, 97, 108, 115, 101].as_slice()) {  // "false"
        Some(Value::Bool(false))
    } else if v.len() >= 2 && v[0] == LBRACKET {
        if v[v.len() - 1] == RBRACKET {
            let inner = slice_subrange(v, 1, v.len() - 1);
            proof {
                assert(inner@ =~= v@.subrange(1, v@.len() - 1));
            }
            match lex_items(inner) {
                None => None,
                Some(items) => Some(Value::List(items)),
            }
        } else {
            None
        }
    } else if v.len() >= 2 && v[0] == MINUS {
        let digits = slice_subrange(v, 1, v.len());
        proof {
            assert(digits@ =~= v@.skip(1));
        }
        match dec_to_u64(digits) {
            None => None,
            Some(m) => {
                if m <= 9223372036854775808 {
                    let n: i64 = if m == 9223372036854775808 {
                        i64::MIN
                    } else {
                        -(m as i64)
                    };
                    proof {
                        assert(n == (-(m as int)) as i64);
                    }
                    Some(Value::Int(n))
                } else {
                    None
                }
            },
        }
    } else {
        match dec_to_u64(v) {
            None => None,
            Some(m) => {
                if m <= i64::MAX as u64 {
                    Some(Value::Int(m as i64))
                } else {
                    None
                }
            },
        }
    }
}

/// Reads one line's textual form (without its newline).
pub fn lex_line(line: &[u8]) -> (r: Option<Line>)
    ensures
        match r {
            None => spec_lex_line(line@) is None,
            Some(l) => spec_lex_line(line@) == Some(l@),
        },
{
    proof {
        reveal(spec_lex_line);
    }
    if line.len() == 0 {
        return Some(Line::Blank);
    }
    if line[0] == LBRACKET {
        if line.len() >= 2 && line[line.len() - 1] == RBRACKET {
            let name = bytes_of(slice_subrange(line, 1, line.len() - 1));
            proof {
                assert(name@ =~= line@.subrange(1, line@.len() - 1));
            }
            return Some(Line::Header(name));
        }
        return None;
    }
    let i = match find_byte_from(line, SPACE, 0) {
        None => {
            proof {
                assert(line@.skip(0) =~= line@);
            }
            return None;
        },
        Some(i) => i,
    };
    proof {
        assert(line@.skip(0) =~= line@);
        assert(spec_find_byte(line@, SPACE) == Some(i as int));
    }
    if line.len() >= 3 && i <= line.len() - 3 && line[i + 1] == EQUALS && line[i + 2] == SPACE {
        let vtext = slice_subrange(line, i + 3, line.len());
        proof {
            assert(vtext@ =~= line@.skip(i + 3));
        }
        match lex_value(vtext) {
            None => None,
            Some(val) => {
                let key = bytes_of(slice_subrange(line, 0, i));
                proof {
                    assert(key@ =~= line@.take(i as int));
                }
                Some(Line::Pair(key, val))
            },
        }
    } else {
        None
    }
}

} // verus!
