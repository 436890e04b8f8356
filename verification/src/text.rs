//! Character-level text primitives shared by every field decoder: decimal
//! numbers, case-insensitive comparison, separator splitting and trimming.
//! Each executable function is specified against a spec-level grammar.

use vstd::prelude::*;
use vstd::string::*;

verus! {

// --- character classes ---

pub open spec fn is_digit(c: char) -> bool {
    48 <= c as u32 && c as u32 <= 57
}

pub open spec fn digit_val(c: char) -> nat
    recommends
        is_digit(c),
{
    (c as u32 - 48) as nat
}

/// Every character of `s` is a decimal digit and there is at least one.
pub open spec fn is_dec(s: Seq<char>) -> bool {
    s.len() > 0 && (forall|i: int| 0 <= i < s.len() ==> is_digit(s[i]))
}

/// Value of a digit string read in base ten.
pub open spec fn dec_val(s: Seq<char>) -> nat
    decreases s.len(),
{
    if s.len() == 0 {
        0
    } else {
        dec_val(s.drop_last()) * 10 + digit_val(s.last())
    }
}

/// A prefix of a digit string never exceeds the whole string's value.
pub proof fn lemma_dec_prefix(s: Seq<char>, i: int)
    requires
        0 <= i <= s.len(),
    ensures
        dec_val(s.take(i)) <= dec_val(s),
    decreases s.len(),
{
    if i < s.len() {
        assert(s.drop_last().take(i) =~= s.take(i));
        lemma_dec_prefix(s.drop_last(), i);
        assert(dec_val(s.drop_last()) * 10 >= dec_val(s.drop_last())) by (nonlinear_arith);
    } else {
        assert(s.take(i) =~= s);
    }
}

/// What a decimal field parses to: the numeric value when the text is all
/// digits and the value stays within `bound`, nothing otherwise.
pub open spec fn dec_result(s: Seq<char>, bound: u64) -> Option<u64> {
    if is_dec(s) && dec_val(s) <= bound {
        Some(dec_val(s) as u64)
    } else {
        None
    }
}

/// Parses an unsigned decimal no larger than `bound`.
pub fn parse_dec(s: &str, bound: u64) -> (r: Option<u64>)
    ensures
        r == dec_result(s@, bound),
{
    let n: usize = s.unicode_len();
    if n == 0 {
        return None;
    }
    let mut acc: u64 = 0;
    let mut i: usize = 0;
    while i < n
        invariant
            0 < n == s@.len(),
            i <= n,
            forall|j: int| 0 <= j < i ==> is_digit(s@[j]),
            acc == dec_val(s@.take(i as int)),
            acc <= bound,
        decreases n - i,
    {
        let c = s.get_char(i);
        let u = c as u32;
        if !(48 <= u && u <= 57) {
            assert(!is_digit(s@[i as int]));
            return None;
        }
        let d: u64 = (u - 48) as u64;
        proof {
            assert((acc as u128) * 10 + (d as u128) <= (u64::MAX as u128) * 10 + 9)
                by (nonlinear_arith)
                requires acc <= u64::MAX, d <= 9;
            assert(s@.take(i as int + 1).drop_last() =~= s@.take(i as int));
        }
        let wide: u128 = (acc as u128) * 10 + (d as u128);
        if wide > bound as u128 {
            proof {
                lemma_dec_prefix(s@, i as int + 1);
            }
            return None;
        }
        acc = wide as u64;
        i = i + 1;
    }
    proof {
        assert(s@.take(n as int) =~= s@);
    }
    Some(acc)
}

// --- signed decimals ---

pub open spec fn sint_ok(s: Seq<char>) -> bool {
    if s.len() > 0 && s[0] == '-' {
        is_dec(s.skip(1))
    } else {
        is_dec(s)
    }
}

pub open spec fn sint_val(s: Seq<char>) -> int {
    if s.len() > 0 && s[0] == '-' {
        -(dec_val(s.skip(1)) as int)
    } else {
        dec_val(s) as int
    }
}

/// What a signed decimal field parses to, within `[min, max]`.
pub open spec fn sint_result(s: Seq<char>, min: int, max: int) -> Option<i64> {
    if sint_ok(s) && min <= sint_val(s) && sint_val(s) <= max {
        Some(sint_val(s) as i64)
    } else {
        None
    }
}

/// Parses a decimal with an optional leading minus sign, within `[min, max]`.
pub fn parse_sint(s: &str, min: i64, max: i64) -> (r: Option<i64>)
    requires
        i64::MIN < min <= 0 <= max,
    ensures
        r == sint_result(s@, min as int, max as int),
{
    let n: usize = s.unicode_len();
    if n > 0 && s.get_char(0) == '-' {
        let rest = s.substring_char(1, n);
        proof {
            assert(rest@ =~= s@.skip(1));
        }
        match parse_dec(rest, (-min) as u64) {
            Some(v) => Some(-(v as i64)),
            None => None,
        }
    } else {
        match parse_dec(s, max as u64) {
            Some(v) => Some(v as i64),
            None => None,
        }
    }
}

// --- equality and case-insensitive equality ---

/// Character-wise string equality.
pub fn str_eq(a: &str, b: &str) -> (r: bool)
    ensures
        r == (a@ == b@),
{
    let na: usize = a.unicode_len();
    let nb: usize = b.unicode_len();
    if na != nb {
        proof {
            if a@ == b@ {
                assert(a@.len() == b@.len());
            }
        }
        return false;
    }
    let mut i: usize = 0;
    while i < na
        invariant
            na == a@.len() && na == b@.len(),
            i <= na,
            forall|j: int| 0 <= j < i ==> a@[j] == b@[j],
        decreases na - i,
    {
        if a.get_char(i) != b.get_char(i) {
            return false;
        }
        i = i + 1;
    }
    proof {
        assert(a@ =~= b@);
    }
    true
}

/// The two characters match up to ASCII letter case.
pub open spec fn char_ieq(a: char, b: char) -> bool {
    a == b
    || (65 <= a as u32 && a as u32 <= 90 && a as u32 + 32 == b as u32)
    || (65 <= b as u32 && b as u32 <= 90 && b as u32 + 32 == a as u32)
}

/// The two strings match up to ASCII letter case.
pub open spec fn seq_ieq(a: Seq<char>, b: Seq<char>) -> bool {
    a.len() == b.len() && (forall|i: int| 0 <= i < a.len() ==> char_ieq(a[i], b[i]))
}

/// Case-insensitive (ASCII) string comparison.
pub fn str_ieq(a: &str, b: &str) -> (r: bool)
    ensures
        r == seq_ieq(a@, b@),
{
    let na: usize = a.unicode_len();
    let nb: usize = b.unicode_len();
    if na != nb {
        return false;
    }
    let mut i: usize = 0;
    while i < na
        invariant
            na == a@.len() && na == b@.len(),
            i <= na,
            forall|j: int| 0 <= j < i ==> char_ieq(a@[j], b@[j]),
        decreases na - i,
    {
        let ca = a.get_char(i);
        let cb = b.get_char(i);
        let ua = ca as u32;
        let ub = cb as u32;
        let m = ca == cb
            || (65 <= ua && ua <= 90 && ua + 32 == ub)
            || (65 <= ub && ub <= 90 && ub + 32 == ua);
        if !m {
            assert(!char_ieq(a@[i as int], b@[i as int]));
            return false;
        }
        i = i + 1;
    }
    true
}

// --- splitting on separators ---

/// Which separator set a split uses: list fields split on `,` and `+`,
/// the file grammar splits on line breaks.
#[derive(Clone, Copy, Debug, PartialEq, Eq, Structural)]
pub enum SepMode {
    ListSep,
    LineSep,
}

pub open spec fn is_sep(m: SepMode, c: char) -> bool {
    match m {
        SepMode::ListSep => c == ',' || c == '+',
        SepMode::LineSep => c == '\n',
    }
}

/// The tokens of `s` between separators, in order; an empty input is one
/// empty token, and every separator starts a new (possibly empty) token.
pub open spec fn split_at_seps(m: SepMode, s: Seq<char>) -> Seq<Seq<char>>
    decreases s.len(),
{
    if s.len() == 0 {
        seq![Seq::empty()]
    } else {
        let r = split_at_seps(m, s.drop_last());
        if is_sep(m, s.last()) {
            r.push(Seq::empty())
        } else {
            r.update(r.len() - 1, r.last().push(s.last()))
        }
    }
}

pub proof fn lemma_split_nonempty(m: SepMode, s: Seq<char>)
    ensures
        split_at_seps(m, s).len() >= 1,
    decreases s.len(),
{
    if s.len() > 0 {
        lemma_split_nonempty(m, s.drop_last());
    }
}

pub open spec fn seq_views(v: Seq<String>) -> Seq<Seq<char>> {
    v.map_values(|t: String| t@)
}

/// Splits `s` at every separator of mode `m`.
pub fn split_text(m: SepMode, s: &str) -> (r: Vec<String>)
    ensures
        seq_views(r@) == split_at_seps(m, s@),
        r@.len() >= 1,
{
    let n: usize = s.unicode_len();
    let mut out: Vec<String> = Vec::new();
    let mut start: usize = 0;
    let mut i: usize = 0;
    proof {
        lemma_split_nonempty(m, s@.take(0));
    }
    while i < n
        invariant
            n == s@.len(),
            start <= i <= n,
            split_at_seps(m, s@.take(i as int)).len() == out@.len() + 1,
            seq_views(out@) == split_at_seps(m, s@.take(i as int)).drop_last(),
            split_at_seps(m, s@.take(i as int)).last() == s@.subrange(start as int, i as int),
        decreases n - i,
    {
        let c = s.get_char(i);
        let sep = match m {
            SepMode::ListSep => c == ',' || c == '+',
            SepMode::LineSep => c == '\n',
        };
        proof {
            assert(s@.take(i as int + 1).drop_last() =~= s@.take(i as int));
        }
        if sep {
            let tok = s.substring_char(start, i);
            let owned = tok.to_owned();
            proof {
                assert(owned@ =~= s@.subrange(start as int, i as int));
            }
            let ghost prev_out = out@;
            out.push(owned);
            start = i + 1;
            proof {
                let prev = split_at_seps(m, s@.take(i as int));
                let cur = split_at_seps(m, s@.take(i as int + 1));
                assert(cur =~~= prev.push(Seq::empty()));
                assert(seq_views(out@) =~~= seq_views(prev_out).push(owned@));
                assert(seq_views(out@) =~~= cur.drop_last());
                assert(cur.last() =~= s@.subrange(start as int, i as int + 1));
            }
        } else {
            proof {
                let prev = split_at_seps(m, s@.take(i as int));
                let cur = split_at_seps(m, s@.take(i as int + 1));
                lemma_split_nonempty(m, s@.take(i as int));
                assert(cur =~~= prev.update(prev.len() - 1, prev.last().push(s@[i as int])));
                assert(cur.drop_last() =~~= prev.drop_last());
                assert(seq_views(out@) =~~= cur.drop_last());
                assert(cur.last() =~= s@.subrange(start as int, i as int + 1));
            }
        }
        i = i + 1;
    }
    let tok = s.substring_char(start, n);
    let owned = tok.to_owned();
    proof {
        assert(s@.take(n as int) =~= s@);
        assert(owned@ =~= split_at_seps(m, s@).last());
        lemma_split_nonempty(m, s@);
        assert(seq_views(out@.push(owned)) =~~= seq_views(out@).push(owned@));
        assert(seq_views(out@.push(owned)) =~~= split_at_seps(m, s@));
    }
    out.push(owned);
    out
}

// --- trimming ---

pub open spec fn is_ws(c: char) -> bool {
    c == ' ' || c == '\t' || c == '\r'
}

pub open spec fn trim_front(s: Seq<char>) -> Seq<char>
    decreases s.len(),
{
    if s.len() > 0 && is_ws(s[0]) {
        trim_front(s.skip(1))
    } else {
        s
    }
}

pub open spec fn trim_back(s: Seq<char>) -> Seq<char>
    decreases s.len(),
{
    if s.len() > 0 && is_ws(s.last()) {
        trim_back(s.drop_last())
    } else {
        s
    }
}

/// `s` without leading and trailing spaces, tabs and carriage returns.
pub open spec fn trimmed(s: Seq<char>) -> Seq<char> {
    trim_back(trim_front(s))
}

proof fn lemma_trim_front_at(s: Seq<char>, a: int)
    requires
        0 <= a <= s.len(),
        forall|j: int| 0 <= j < a ==> is_ws(s[j]),
        a < s.len() ==> !is_ws(s[a]),
    ensures
        trim_front(s) == s.skip(a),
    decreases a,
{
    if a == 0 {
        assert(s.skip(0) =~= s);
    } else {
        lemma_trim_front_at(s.skip(1), a - 1);
        assert(s.skip(1).skip(a - 1) =~= s.skip(a));
    }
}

proof fn lemma_trim_back_at(s: Seq<char>, b: int)
    requires
        0 <= b <= s.len(),
        forall|j: int| b <= j < s.len() ==> is_ws(s[j]),
        b > 0 ==> !is_ws(s[b - 1]),
    ensures
        trim_back(s) == s.take(b),
    decreases s.len() - b,
{
    if b == s.len() {
        assert(s.take(b) =~= s);
    } else {
        lemma_trim_back_at(s.drop_last(), b);
        assert(s.drop_last().take(b) =~= s.take(b));
    }
}

/// Trims whitespace from both ends.
pub fn trim_str(s: &str) -> (r: String)
    ensures
        r@ == trimmed(s@),
{
    let n: usize = s.unicode_len();
    let mut a: usize = 0;
    loop
        invariant_except_break
            n == s@.len(),
            a <= n,
            forall|j: int| 0 <= j < a ==> is_ws(s@[j]),
        ensures
            n == s@.len(),
            a <= n,
            forall|j: int| 0 <= j < a ==> is_ws(s@[j]),
            a < n ==> !is_ws(s@[a as int]),
        decreases n - a,
    {
        if a >= n {
            break;
        }
        let c = s.get_char(a);
        if !(c == ' ' || c == '\t' || c == '\r') {
            break;
        }
        a = a + 1;
    }
    proof {
        lemma_trim_front_at(s@, a as int);
    }
    let mut b: usize = n;
    loop
        invariant_except_break
            n == s@.len(),
            a <= b <= n,
            forall|j: int| b <= j < n ==> is_ws(s@[j]),
        ensures
            n == s@.len(),
            a <= b <= n,
            forall|j: int| b <= j < n ==> is_ws(s@[j]),
            b > a ==> !is_ws(s@[b as int - 1]),
        decreases b,
    {
        if b <= a {
            break;
        }
        let c = s.get_char(b - 1);
        if !(c == ' ' || c == '\t' || c == '\r') {
            break;
        }
        b = b - 1;
    }
    proof {
        let t = s@.skip(a as int);
        lemma_trim_back_at(t, b as int - a as int);
        assert(t.take(b as int - a as int) =~= s@.subrange(a as int, b as int));
    }
    let piece = s.substring_char(a, b);
    piece.to_owned()
}

} // verus!
