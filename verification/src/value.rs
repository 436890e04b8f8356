//! Field-category value grammars on top of the text primitives: flags,
//! fixed-point decimals, per-field-unit durations, lists, pairs and color
//! triples. Each parser's contract ties it to a spec-level grammar.

use vstd::prelude::*;
use vstd::string::*;
use crate::text::{
    is_digit, is_dec, dec_val, dec_result, parse_dec, lemma_dec_prefix, SepMode, split_at_seps,
    split_text, seq_views,
};
use crate::color::{color_result, parse_color, Rgb};

verus! {

// --- flags ---

/// What a Flag field decodes to: a bare key (no payload) is true, the payload
/// `0` is false, and any other payload is true.
pub open spec fn flag_val(v: Option<Seq<char>>) -> bool {
    match v {
        None => true,
        Some(s) => s != seq!['0'],
    }
}

pub open spec fn opt_str_view(v: Option<String>) -> Option<Seq<char>> {
    match v {
        Some(s) => Some(s@),
        None => None,
    }
}

/// Decodes a Flag payload.
pub fn decode_flag(v: Option<&String>) -> (r: bool)
    ensures
        r == flag_val(match v {
            Some(s) => Some(s@),
            None => None,
        }),
{
    match v {
        None => true,
        Some(s) => {
            let t = s.as_str();
            let n: usize = t.unicode_len();
            let zero = n == 1 && t.get_char(0) == '0';
            proof {
                if zero {
                    assert(s@ =~= seq!['0']);
                } else {
                    if s@ == seq!['0'] {
                        assert(s@.len() == 1 && s@[0] == '0');
                    }
                }
            }
            !zero
        },
    }
}

// --- fixed-point decimals ---

/// A decimal number held exactly, in thousandths of a unit. Fields whose
/// values may carry a fractional part (font scale, margins, alpha) use this
/// representation; three fractional digits are the finest the grammar takes.
#[derive(Clone, Copy, Debug, PartialEq, Eq, Structural)]
pub struct Milli {
    pub thousandths: i64,
}

/// Largest whole part a fixed-point field accepts: the scaled value must
/// stay within the representation.
pub const MILLI_MAX_INT: u64 = 9_223_372_036_854_774;

/// Index of the first `.` in `s`, if any.
pub open spec fn first_dot(s: Seq<char>) -> Option<int>
    decreases s.len(),
{
    if s.len() == 0 {
        None
    } else if s[0] == '.' {
        Some(0int)
    } else {
        match first_dot(s.skip(1)) {
            None => None,
            Some(j) => Some(j + 1),
        }
    }
}

proof fn lemma_first_dot_at(s: Seq<char>, i: int)
    requires
        0 <= i <= s.len(),
        forall|j: int| 0 <= j < i ==> s[j] != '.',
        i < s.len() ==> s[i] == '.',
    ensures
        first_dot(s) == if i < s.len() {
            Some(i)
        } else {
            None::<int>
        },
    decreases i,
{
    if i == 0 {
    } else {
        lemma_first_dot_at(s.skip(1), i - 1);
    }
}

pub open spec fn milli_frac_scale(l: int) -> nat {
    if l == 1 {
        100
    } else if l == 2 {
        10
    } else {
        1
    }
}

/// Digit strings of up to three digits stay below one thousand.
proof fn lemma_dec_small(s: Seq<char>)
    requires
        forall|i: int| 0 <= i < s.len() ==> is_digit(s[i]),
        s.len() <= 3,
    ensures
        dec_val(s) <= if s.len() == 0 {
            0int
        } else if s.len() == 1 {
            9int
        } else if s.len() == 2 {
            99int
        } else {
            999int
        },
    decreases s.len(),
{
    if s.len() > 0 {
        lemma_dec_small(s.drop_last());
    }
}

/// Magnitude of a fixed-point body (no sign), in thousandths: whole digits,
/// then optionally a dot and one to three fractional digits.
pub open spec fn milli_body_val(b: Seq<char>) -> Option<nat> {
    match first_dot(b) {
        None => if is_dec(b) && dec_val(b) <= MILLI_MAX_INT {
            Some((dec_val(b) * 1000) as nat)
        } else {
            None
        },
        Some(d) => {
            let ip = b.take(d);
            let fp = b.skip(d + 1);
            if is_dec(ip) && dec_val(ip) <= MILLI_MAX_INT && 1 <= fp.len() <= 3 && (forall|i: int|
                0 <= i < fp.len() ==> is_digit(fp[i])) {
                Some((dec_val(ip) * 1000 + dec_val(fp) * milli_frac_scale(fp.len() as int)) as nat)
            } else {
                None
            }
        },
    }
}

/// What a fixed-point field parses to: an optional minus sign, then a body.
pub open spec fn milli_result(s: Seq<char>) -> Option<Milli> {
    if s.len() > 0 && s[0] == '-' {
        match milli_body_val(s.skip(1)) {
            Some(v) => Some(Milli { thousandths: (-(v as int)) as i64 }),
            None => None,
        }
    } else {
        match milli_body_val(s) {
            Some(v) => Some(Milli { thousandths: v as i64 }),
            None => None,
        }
    }
}

/// The magnitude of a fixed-point body fits an `i64`.
proof fn lemma_milli_body_bound(b: Seq<char>)
    ensures
        match milli_body_val(b) {
            Some(v) => v <= i64::MAX,
            None => true,
        },
{
    match first_dot(b) {
        None => {},
        Some(d) => {
            if milli_body_val(b) is Some {
                let fp = b.skip(d + 1);
                lemma_dec_small(fp);
                assert(dec_val(fp) * milli_frac_scale(fp.len() as int) <= 999);
            }
        },
    }
}

/// Parses the body of a fixed-point decimal (no sign), as thousandths.
fn parse_milli_body(b: &str) -> (r: Option<u64>)
    ensures
        match (r, milli_body_val(b@)) {
            (Some(v), Some(sv)) => v == sv,
            (None, None) => true,
            _ => false,
        },
{
    let n: usize = b.unicode_len();
    let mut i: usize = 0;
    loop
        invariant_except_break
            n == b@.len(),
            i <= n,
            forall|j: int| 0 <= j < i ==> b@[j] != '.',
        ensures
            n == b@.len(),
            i <= n,
            forall|j: int| 0 <= j < i ==> b@[j] != '.',
            i < n ==> b@[i as int] == '.',
        decreases n - i,
    {
        if i >= n {
            break;
        }
        if b.get_char(i) == '.' {
            break;
        }
        i = i + 1;
    }
    proof {
        lemma_first_dot_at(b@, i as int);
    }
    if i == n {
        match parse_dec(b, MILLI_MAX_INT) {
            Some(v) => Some(v * 1000),
            None => None,
        }
    } else {
        let ip = b.substring_char(0, i);
        let fp = b.substring_char(i + 1, n);
        proof {
            assert(ip@ =~= b@.take(i as int));
            assert(fp@ =~= b@.skip(i as int + 1));
        }
        let fl: usize = n - i - 1;
        if fl < 1 || fl > 3 {
            return None;
        }
        let iv = match parse_dec(ip, MILLI_MAX_INT) {
            Some(v) => v,
            None => {
                return None;
            },
        };
        let fv = match parse_dec(fp, 999) {
            Some(v) => v,
            None => {
                proof {
                    if forall|j: int| 0 <= j < fp@.len() ==> is_digit(fp@[j]) {
                        lemma_dec_small(fp@);
                    }
                }
                return None;
            },
        };
        let scale: u64 = if fl == 1 {
            100
        } else if fl == 2 {
            10
        } else {
            1
        };
        Some(iv * 1000 + fv * scale)
    }
}

/// Parses a fixed-point decimal with an optional sign.
pub fn parse_milli(s: &str) -> (r: Option<Milli>)
    ensures
        r == milli_result(s@),
{
    let n: usize = s.unicode_len();
    proof {
        lemma_milli_body_bound(s@);
        if s@.len() > 0 && s@[0] == '-' {
            lemma_milli_body_bound(s@.skip(1));
        }
    }
    if n > 0 && s.get_char(0) == '-' {
        let body = s.substring_char(1, n);
        proof {
            assert(body@ =~= s@.skip(1));
        }
        match parse_milli_body(body) {
            Some(v) => Some(Milli { thousandths: -(v as i64) }),
            None => None,
        }
    } else {
        match parse_milli_body(s) {
            Some(v) => Some(Milli { thousandths: v as i64 }),
            None => None,
        }
    }
}

// --- durations ---

/// Elapsed time, held in nanoseconds. The textual form of a duration field
/// is a whole number in the field's own unit.
#[derive(Clone, Copy, Debug, PartialEq, Eq, Structural)]
pub struct Elapsed {
    pub nanos: u64,
}

pub const NANOS_PER_NANO: u64 = 1;

pub const NANOS_PER_MILLI: u64 = 1_000_000;

pub const NANOS_PER_SEC: u64 = 1_000_000_000;

/// What a duration field parses to: the decimal count of `unit_nanos`-sized
/// units, as long as the product stays representable.
pub open spec fn elapsed_result(s: Seq<char>, unit_nanos: u64) -> Option<Elapsed>
    recommends
        unit_nanos >= 1,
{
    if is_dec(s) && dec_val(s) * unit_nanos <= u64::MAX {
        Some(Elapsed { nanos: (dec_val(s) * unit_nanos) as u64 })
    } else {
        None
    }
}

/// Parses a duration given the field's unit.
pub fn parse_elapsed(s: &str, unit_nanos: u64) -> (r: Option<Elapsed>)
    requires
        unit_nanos >= 1,
    ensures
        r == elapsed_result(s@, unit_nanos),
{
    let bound: u64 = u64::MAX / unit_nanos;
    proof {
        let u = unit_nanos as int;
        let bd = bound as int;
        vstd::arithmetic::div_mod::lemma_fundamental_div_mod(u64::MAX as int, u);
        vstd::arithmetic::div_mod::lemma_mod_bound(u64::MAX as int, u);
        assert(u64::MAX as int == u * bd + (u64::MAX as int) % u);
    }
    match parse_dec(s, bound) {
        Some(v) => {
            proof {
                let u = unit_nanos as int;
                let bd = bound as int;
                assert((v as int) * u <= bd * u) by (nonlinear_arith)
                    requires
                        0 <= v as int <= bd,
                        u >= 1,
                ;
                assert(bd * u == u * bd);
            }
            Some(Elapsed { nanos: v * unit_nanos })
        },
        None => {
            proof {
                let u = unit_nanos as int;
                let bd = bound as int;
                if is_dec(s@) && dec_val(s@) * unit_nanos <= u64::MAX {
                    let dv = dec_val(s@) as int;
                    if dv > bd {
                        assert(dv * u >= (bd + 1) * u) by (nonlinear_arith)
                            requires
                                dv >= bd + 1,
                                u >= 1,
                        ;
                        assert((bd + 1) * u == u * bd + u) by (nonlinear_arith);
                    }
                }
            }
            None
        },
    }
}

// --- lists, pairs, triples ---

/// What a `u16` list field parses to: items split on `,` or `+`, each a
/// decimal; one malformed item rejects the whole field.
pub open spec fn u16_list_result(s: Seq<char>) -> Option<Seq<u16>> {
    let toks = split_at_seps(SepMode::ListSep, s);
    if forall|i: int| 0 <= i < toks.len() ==> dec_result(toks[i], u16::MAX as u64) is Some {
        Some(Seq::new(toks.len(), |i: int| dec_result(toks[i], u16::MAX as u64)->0 as u16))
    } else {
        None
    }
}

/// Parses a `,`/`+` separated list of `u16` values.
pub fn parse_list(value: &str) -> (r: Option<Vec<u16>>)
    ensures
        match (r, u16_list_result(value@)) {
            (Some(v), Some(sv)) => v@ == sv,
            (None, None) => true,
            _ => false,
        },
{
    let toks = split_text(SepMode::ListSep, value);
    let ghost tvs = split_at_seps(SepMode::ListSep, value@);
    let mut out: Vec<u16> = Vec::new();
    let mut i: usize = 0;
    while i < toks.len()
        invariant
            seq_views(toks@) == tvs,
            tvs == split_at_seps(SepMode::ListSep, value@),
            tvs.len() == toks@.len(),
            i <= toks.len(),
            out@.len() == i,
            forall|j: int| 0 <= j < i ==> dec_result(tvs[j], u16::MAX as u64) is Some,
            forall|j: int| 0 <= j < i ==> out@[j] == dec_result(tvs[j], u16::MAX as u64)->0 as u16,
        decreases toks.len() - i,
    {
        proof {
            assert(seq_views(toks@)[i as int] == toks@[i as int]@);
            assert(toks@[i as int]@ == tvs[i as int]);
        }
        match parse_dec(toks[i].as_str(), 65535) {
            Some(v) => {
                out.push(v as u16);
            },
            None => {
                proof {
                    assert(dec_result(
                        split_at_seps(SepMode::ListSep, value@)[i as int],
                        u16::MAX as u64,
                    ) is None);
                    assert(u16_list_result(value@) is None);
                }
                return None;
            },
        }
        i = i + 1;
    }
    proof {
        assert(out@ =~= u16_list_result(value@)->0);
    }
    Some(out)
}

/// What a Pair field parses to: exactly two decimal bytes.
pub open spec fn u8_pair_result(s: Seq<char>) -> Option<(u8, u8)> {
    let toks = split_at_seps(SepMode::ListSep, s);
    if toks.len() == 2 && dec_result(toks[0], 255) is Some && dec_result(toks[1], 255) is Some {
        Some((dec_result(toks[0], 255)->0 as u8, dec_result(toks[1], 255)->0 as u8))
    } else {
        None
    }
}

/// Parses a pair of bytes; any other arity is rejected.
pub fn parse_u8_pair(value: &str) -> (r: Option<(u8, u8)>)
    ensures
        r == u8_pair_result(value@),
{
    let toks = split_text(SepMode::ListSep, value);
    proof {
        assert(toks@[0]@ == split_at_seps(SepMode::ListSep, value@)[0]);
    }
    if toks.len() != 2 {
        return None;
    }
    proof {
        assert(toks@[1]@ == split_at_seps(SepMode::ListSep, value@)[1]);
    }
    let a = match parse_dec(toks[0].as_str(), 255) {
        Some(v) => v as u8,
        None => {
            return None;
        },
    };
    let b = match parse_dec(toks[1].as_str(), 255) {
        Some(v) => v as u8,
        None => {
            return None;
        },
    };
    Some((a, b))
}

/// What a Triple-of-colors field parses to: exactly three hex colors, in
/// low/medium/high order.
pub open spec fn color_triple_result(s: Seq<char>) -> Option<(Rgb, Rgb, Rgb)> {
    let toks = split_at_seps(SepMode::ListSep, s);
    if toks.len() == 3 && color_result(toks[0]) is Some && color_result(toks[1]) is Some
        && color_result(toks[2]) is Some {
        Some((color_result(toks[0])->0, color_result(toks[1])->0, color_result(toks[2])->0))
    } else {
        None
    }
}

/// Parses a triple of colors; any other arity is rejected.
pub fn parse_color_triple(value: &str) -> (r: Option<(Rgb, Rgb, Rgb)>)
    ensures
        r == color_triple_result(value@),
{
    let toks = split_text(SepMode::ListSep, value);
    proof {
        assert(toks@[0]@ == split_at_seps(SepMode::ListSep, value@)[0]);
    }
    if toks.len() != 3 {
        return None;
    }
    proof {
        assert(toks@[1]@ == split_at_seps(SepMode::ListSep, value@)[1]);
        assert(toks@[2]@ == split_at_seps(SepMode::ListSep, value@)[2]);
    }
    let a = match parse_color(toks[0].as_str()) {
        Some(c) => c,
        None => {
            return None;
        },
    };
    let b = match parse_color(toks[1].as_str()) {
        Some(c) => c,
        None => {
            return None;
        },
    };
    let c = match parse_color(toks[2].as_str()) {
        Some(c) => c,
        None => {
            return None;
        },
    };
    Some((a, b, c))
}

/// What a key-name list (a chord or any free list of words) parses to:
/// the items between `,` or `+`, kept in order, never rejected.
pub open spec fn word_list_result(s: Seq<char>) -> Seq<Seq<char>> {
    split_at_seps(SepMode::ListSep, s)
}

/// Splits a list of words such as a key chord.
pub fn parse_word_list(value: &str) -> (r: Vec<String>)
    ensures
        seq_views(r@) == word_list_result(value@),
{
    split_text(SepMode::ListSep, value)
}

} // verus!
