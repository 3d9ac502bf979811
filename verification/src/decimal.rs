//! Numerals such as prices and sizes (`"101.25"`, `"0.000"`, `"-3.5"`,
//! `"1e2"`, `"inf"`) and the order of the numbers they denote.
//!
//! A numeral is what `str::parse::<f64>` accepts: an optional `+` or `-`,
//! then either `inf`, `infinity` or `nan` in any case, or decimal digits with
//! at most one `.` and at least one digit, followed by an optional exponent
//! (`e` or `E`, an optional sign, at least one digit). The value of every
//! numeral but NaN is captured by a canonical key: the sign, the decimal
//! position of the first significant digit, and the significant digits.
//! Keys compare lexicographically in the order of the numbers; the
//! infinities lie below and above all finite keys.
//!
//! Keys are exact: they tell apart numerals that an `f64` would round to
//! one value (more than about seventeen significant digits), and they keep
//! finite numbers that an `f64` reads as an infinity or as zero (beyond
//! about `1.8e308` or below about `5e-324`). Exponents are capped at
//! [`EXPONENT_CAP`], which lies far beyond both limits.

use vstd::prelude::*;

use crate::numeric::{all_digits, digit_value, digits_value, is_digit};
use crate::ws::channel::{find_char, find_char_exec};

verus! {

// ---------------------------------------------------------------------------
// Lexicographic order on keys
// ---------------------------------------------------------------------------

/// Strict lexicographic order; a proper prefix comes first.
pub open spec fn lex_lt(a: Seq<i128>, b: Seq<i128>) -> bool
    decreases a.len(),
{
    if a.len() == 0 {
        b.len() > 0
    } else if b.len() == 0 {
        false
    } else if a[0] != b[0] {
        a[0] < b[0]
    } else {
        lex_lt(a.drop_first(), b.drop_first())
    }
}

pub proof fn lemma_lex_irreflexive(a: Seq<i128>)
    ensures
        !lex_lt(a, a),
    decreases a.len(),
{
    if a.len() > 0 {
        lemma_lex_irreflexive(a.drop_first());
    }
}

pub proof fn lemma_lex_transitive(a: Seq<i128>, b: Seq<i128>, c: Seq<i128>)
    requires
        lex_lt(a, b),
        lex_lt(b, c),
    ensures
        lex_lt(a, c),
    decreases a.len(),
{
    if a.len() > 0 && b.len() > 0 && c.len() > 0 {
        if a[0] == b[0] && b[0] == c[0] {
            lemma_lex_transitive(a.drop_first(), b.drop_first(), c.drop_first());
        }
    }
}

pub proof fn lemma_lex_total(a: Seq<i128>, b: Seq<i128>)
    ensures
        a == b || lex_lt(a, b) || lex_lt(b, a),
    decreases a.len(),
{
    if a.len() == 0 {
        if b.len() == 0 {
            assert(a =~= b);
        }
    } else if b.len() > 0 && a[0] == b[0] {
        lemma_lex_total(a.drop_first(), b.drop_first());
        if a.drop_first() == b.drop_first() {
            assert(a.drop_first().len() == b.drop_first().len());
            assert(a.len() == b.len());
            assert forall|i: int| 0 <= i < a.len() implies a[i] == b[i] by {
                if i > 0 {
                    assert(a[i] == a.drop_first()[i - 1]);
                    assert(b[i] == b.drop_first()[i - 1]);
                }
            }
            assert(a =~= b);
        }
    }
}

pub proof fn lemma_lex_asymmetric(a: Seq<i128>, b: Seq<i128>)
    ensures
        !(lex_lt(a, b) && lex_lt(b, a)),
{
    if lex_lt(a, b) && lex_lt(b, a) {
        lemma_lex_transitive(a, b, a);
        lemma_lex_irreflexive(a);
    }
}

/// Lexicographic comparison of two keys.
pub fn lex_less(a: &Vec<i128>, b: &Vec<i128>) -> (res: bool)
    ensures
        res == lex_lt(a@, b@),
{
    let n = a.len();
    let m = b.len();
    let mut i: usize = 0;
    proof {
        assert(a@.skip(0) =~= a@);
        assert(b@.skip(0) =~= b@);
    }
    while i < n && i < m
        invariant
            n == a@.len(),
            m == b@.len(),
            i <= n,
            i <= m,
            a@.subrange(0, i as int) == b@.subrange(0, i as int),
            lex_lt(a@, b@) == lex_lt(a@.skip(i as int), b@.skip(i as int)),
        decreases n - i,
    {
        if a[i] != b[i] {
            proof {
                assert(a@.skip(i as int)[0] == a@[i as int]);
                assert(b@.skip(i as int)[0] == b@[i as int]);
            }
            return a[i] < b[i];
        }
        proof {
            assert(a@.skip(i as int).drop_first() =~= a@.skip(i + 1));
            assert(b@.skip(i as int).drop_first() =~= b@.skip(i + 1));
            assert(a@.subrange(0, i + 1) =~= a@.subrange(0, i as int).push(a@[i as int]));
            assert(b@.subrange(0, i + 1) =~= b@.subrange(0, i as int).push(b@[i as int]));
        }
        i = i + 1;
    }
    i == n && i < m
}

// ---------------------------------------------------------------------------
// Numerals
// ---------------------------------------------------------------------------

/// The numeral without its sign.
pub open spec fn unsigned_part(s: Seq<char>) -> Seq<char> {
    if s.len() > 0 && (s[0] == '-' || s[0] == '+') {
        s.drop_first()
    } else {
        s
    }
}

pub open spec fn is_negative_numeral(s: Seq<char>) -> bool {
    s.len() > 0 && s[0] == '-'
}

/// The code of `c` with an ASCII capital letter taken as its small letter.
pub open spec fn lowercase_code(c: char) -> int {
    if 'A' <= c <= 'Z' {
        c as int + 32
    } else {
        c as int
    }
}

/// Whether `u` spells the lower-case word `w`, ignoring the case of ASCII letters.
pub open spec fn spells_ignoring_case(u: Seq<char>, w: Seq<char>) -> bool {
    u.len() == w.len() && forall|i: int| 0 <= i < u.len() ==> lowercase_code(#[trigger] u[i]) == w[i] as int
}

/// Whether `s` is `inf` or `infinity` in any case, with an optional sign.
pub open spec fn is_infinity_numeral(s: Seq<char>) -> bool {
    spells_ignoring_case(unsigned_part(s), seq!['i', 'n', 'f']) || spells_ignoring_case(
        unsigned_part(s),
        seq!['i', 'n', 'f', 'i', 'n', 'i', 't', 'y'],
    )
}

/// Whether `s` is `nan` in any case, with an optional sign.
pub open spec fn is_nan_numeral(s: Seq<char>) -> bool {
    spells_ignoring_case(unsigned_part(s), seq!['n', 'a', 'n'])
}

/// Position of the first exponent mark (`e` or `E`) in `u`.
pub open spec fn exponent_mark(u: Seq<char>) -> Option<int>
    decreases u.len(),
{
    if u.len() == 0 {
        None
    } else if u[0] == 'e' || u[0] == 'E' {
        Some(0)
    } else {
        match exponent_mark(u.drop_first()) {
            Some(i) => Some(i + 1),
            None => None,
        }
    }
}

/// The unsigned numeral before its exponent mark.
pub open spec fn mantissa(s: Seq<char>) -> Seq<char> {
    let u = unsigned_part(s);
    match exponent_mark(u) {
        Some(i) => u.take(i),
        None => u,
    }
}

/// Whether the numeral has an exponent mark.
pub open spec fn has_exponent(s: Seq<char>) -> bool {
    exponent_mark(unsigned_part(s)) is Some
}

/// The text after the exponent mark.
pub open spec fn exponent_text(s: Seq<char>) -> Seq<char> {
    let u = unsigned_part(s);
    match exponent_mark(u) {
        Some(i) => u.skip(i + 1),
        None => Seq::empty(),
    }
}

/// The largest exponent told apart: every number of a larger exponent is
/// beyond what an `f64` holds (an infinity, or zero for a negative exponent).
pub const EXPONENT_CAP: i128 = 1_000_000_000;

/// The number the digits `d` denote, capped at [`EXPONENT_CAP`].
pub open spec fn capped_digits_value(d: Seq<char>) -> int
    decreases d.len(),
{
    if d.len() == 0 {
        0
    } else {
        let v = 10 * capped_digits_value(d.drop_last()) + digit_value(d.last());
        if v > EXPONENT_CAP {
            EXPONENT_CAP as int
        } else {
            v
        }
    }
}

/// The value of an exponent text (an optional sign, then at least one
/// digit), capped at [`EXPONENT_CAP`] either way; `None` for any other text.
pub open spec fn exponent_text_value(e: Seq<char>) -> Option<int> {
    let signed = e.len() > 0 && (e[0] == '-' || e[0] == '+');
    let d = if signed {
        e.drop_first()
    } else {
        e
    };
    if d.len() > 0 && all_digits(d) {
        if e.len() > 0 && e[0] == '-' {
            Some(-capped_digits_value(d))
        } else {
            Some(capped_digits_value(d))
        }
    } else {
        None
    }
}

/// The exponent of a numeral, zero when it has none.
pub open spec fn exponent_value(s: Seq<char>) -> int {
    if has_exponent(s) {
        match exponent_text_value(exponent_text(s)) {
            Some(v) => v,
            None => 0,
        }
    } else {
        0
    }
}

/// The digits before the point.
pub open spec fn integer_digits(s: Seq<char>) -> Seq<char> {
    let m = mantissa(s);
    match find_char(m, '.') {
        Some(i) => m.take(i),
        None => m,
    }
}

/// The digits after the point.
pub open spec fn fraction_digits(s: Seq<char>) -> Seq<char> {
    let m = mantissa(s);
    match find_char(m, '.') {
        Some(i) => m.skip(i + 1),
        None => Seq::empty(),
    }
}

/// Whether `s` is a finite numeral: a sign, digits with at most one point
/// and at least one digit, and an optional exponent (`e` or `E`, a sign,
/// at least one digit).
pub open spec fn is_finite_numeral(s: Seq<char>) -> bool {
    &&& all_digits(integer_digits(s))
    &&& all_digits(fraction_digits(s))
    &&& integer_digits(s).len() + fraction_digits(s).len() > 0
    &&& has_exponent(s) ==> exponent_text_value(exponent_text(s)) is Some
}

/// Whether `s` is read as a number other than NaN: a finite numeral or an infinity.
pub open spec fn is_numeral(s: Seq<char>) -> bool {
    is_finite_numeral(s) || is_infinity_numeral(s)
}

/// Whether `s` is read as a number at all, NaN included: exactly the texts
/// that `str::parse::<f64>` accepts.
pub open spec fn parses_as_number(s: Seq<char>) -> bool {
    is_numeral(s) || is_nan_numeral(s)
}

pub open spec fn strip_leading_zeros(s: Seq<char>) -> Seq<char>
    decreases s.len(),
{
    if s.len() > 0 && s[0] == '0' {
        strip_leading_zeros(s.drop_first())
    } else {
        s
    }
}

pub open spec fn strip_trailing_zeros(s: Seq<char>) -> Seq<char>
    decreases s.len(),
{
    if s.len() > 0 && s.last() == '0' {
        strip_trailing_zeros(s.drop_last())
    } else {
        s
    }
}

pub open spec fn digit_keys(s: Seq<char>) -> Seq<i128> {
    s.map_values(|c: char| digit_value(c) as i128)
}

pub open spec fn complement_keys(s: Seq<char>) -> Seq<i128> {
    s.map_values(|c: char| (9 - digit_value(c)) as i128)
}

/// The key of zero.
pub open spec fn zero_key() -> Seq<i128> {
    seq![1i128]
}

/// The key of the finite number with integer digits `i`, fraction digits
/// `f` and exponent `e`, below zero if `negative`. With `d` its significant
/// digits (no leading and no trailing zeros) the number is `0.d * 10^p`;
/// the key holds the sign, then `p`, then the digits, so that keys compare
/// as the numbers do.
pub open spec fn finite_key(i: Seq<char>, f: Seq<char>, e: int, negative: bool) -> Seq<i128> {
    let ds = i + f;
    let d = strip_trailing_zeros(strip_leading_zeros(ds));
    let p = i.len() - (ds.len() - strip_leading_zeros(ds).len()) + e;
    if d.len() == 0 {
        zero_key()
    } else if negative {
        seq![0i128, (-p) as i128] + complement_keys(d) + seq![10i128]
    } else {
        seq![2i128, p as i128] + digit_keys(d) + seq![-1i128]
    }
}

/// The key of the negative infinity, below every other key.
pub open spec fn negative_infinity_key() -> Seq<i128> {
    seq![-1i128]
}

/// The key of the positive infinity, above every other key.
pub open spec fn positive_infinity_key() -> Seq<i128> {
    seq![3i128]
}

/// The canonical key of a numeral, or `None` if `s` is not a numeral
/// (NaN included).
pub open spec fn decimal_key(s: Seq<char>) -> Option<Seq<i128>> {
    if is_infinity_numeral(s) {
        if is_negative_numeral(s) {
            Some(negative_infinity_key())
        } else {
            Some(positive_infinity_key())
        }
    } else if !is_finite_numeral(s) {
        None
    } else {
        Some(
            finite_key(
                integer_digits(s),
                fraction_digits(s),
                exponent_value(s),
                is_negative_numeral(s),
            ),
        )
    }
}

/// Whether `s` is a numeral that denotes zero.
pub open spec fn is_zero_numeral(s: Seq<char>) -> bool {
    decimal_key(s) == Some(zero_key())
}

/// Whether `s` is a numeral that denotes a number below zero.
pub open spec fn is_below_zero_numeral(s: Seq<char>) -> bool {
    match decimal_key(s) {
        Some(k) => lex_lt(k, zero_key()),
        None => false,
    }
}

/// Whether `s` is a numeral that denotes a number above zero.
pub open spec fn is_above_zero_numeral(s: Seq<char>) -> bool {
    match decimal_key(s) {
        Some(k) => lex_lt(zero_key(), k),
        None => false,
    }
}


// ---------------------------------------------------------------------------
// Computing keys
// ---------------------------------------------------------------------------

fn all_digits_exec(t: &str) -> (res: bool)
    ensures
        res == all_digits(t@),
{
    let n = t.unicode_len();
    let mut i: usize = 0;
    while i < n
        invariant
            n == t@.len(),
            i <= n,
            forall|j: int| 0 <= j < i ==> is_digit(#[trigger] t@[j]),
        decreases n - i,
    {
        let c = t.get_char(i);
        if !('0' <= c && c <= '9') {
            assert(!is_digit(t@[i as int]));
            return false;
        }
        i = i + 1;
    }
    true
}

proof fn lemma_strip_leading(s: Seq<char>, k: int)
    requires
        0 <= k <= s.len(),
        forall|j: int| 0 <= j < k ==> s[j] == '0',
        k == s.len() || s[k] != '0',
    ensures
        strip_leading_zeros(s) == s.skip(k),
    decreases k,
{
    if k == 0 {
        assert(s.skip(0) =~= s);
    } else {
        assert(s.drop_first().skip(k - 1) =~= s.skip(k));
        lemma_strip_leading(s.drop_first(), k - 1);
    }
}

proof fn lemma_strip_trailing(s: Seq<char>, k: int)
    requires
        0 <= k <= s.len(),
        forall|j: int| k <= j < s.len() ==> s[j] == '0',
        k == 0 || s[k - 1] != '0',
    ensures
        strip_trailing_zeros(s) == s.take(k),
    decreases s.len() - k,
{
    if k == s.len() {
        assert(s.take(k) =~= s);
    } else {
        assert(s.drop_last().take(k) =~= s.take(k));
        lemma_strip_trailing(s.drop_last(), k);
    }
}

/// How many leading `'0'`s `t` has.
fn count_leading_zeros(t: &str) -> (res: usize)
    ensures
        res <= t@.len(),
        strip_leading_zeros(t@) == t@.skip(res as int),
{
    let n = t.unicode_len();
    let mut i: usize = 0;
    while i < n && t.get_char(i) == '0'
        invariant
            n == t@.len(),
            i <= n,
            forall|j: int| 0 <= j < i ==> t@[j] == '0',
        decreases n - i,
    {
        i = i + 1;
    }
    proof {
        lemma_strip_leading(t@, i as int);
    }
    i
}

/// The length of `t` without its trailing `'0'`s.
fn length_without_trailing_zeros(t: &str) -> (res: usize)
    ensures
        res <= t@.len(),
        strip_trailing_zeros(t@) == t@.take(res as int),
{
    let n = t.unicode_len();
    let mut k: usize = n;
    while k > 0 && t.get_char(k - 1) == '0'
        invariant
            n == t@.len(),
            k <= n,
            forall|j: int| k <= j < n ==> t@[j] == '0',
        decreases k,
    {
        k = k - 1;
    }
    proof {
        lemma_strip_trailing(t@, k as int);
    }
    k
}

/// Append the keys of the digits `t[from..to]`, complemented to `9 - d` if asked.
fn push_digit_keys(out: &mut Vec<i128>, t: &str, from: usize, to: usize, complement: bool)
    requires
        from <= to <= t@.len(),
        all_digits(t@),
    ensures
        complement ==> final(out)@ == old(out)@ + complement_keys(t@.subrange(from as int, to as int)),
        !complement ==> final(out)@ == old(out)@ + digit_keys(t@.subrange(from as int, to as int)),
{
    let mut i: usize = from;
    while i < to
        invariant
            from <= i <= to,
            to <= t@.len(),
            all_digits(t@),
            complement ==> out@ =~= old(out)@ + complement_keys(t@.subrange(from as int, i as int)),
            !complement ==> out@ =~= old(out)@ + digit_keys(t@.subrange(from as int, i as int)),
        decreases to - i,
    {
        let c = t.get_char(i);
        assert(is_digit(t@[i as int]));
        let d = (c as u32 - '0' as u32) as i128;
        if complement {
            out.push(9 - d);
        } else {
            out.push(d);
        }
        proof {
            assert(t@.subrange(from as int, i + 1) =~= t@.subrange(from as int, i as int).push(c));
        }
        i = i + 1;
    }
}

/// Whether `t` spells the lower-case ASCII word `w`, ignoring case.
fn spells_ignoring_case_exec(t: &str, w: &str) -> (res: bool)
    ensures
        res == spells_ignoring_case(t@, w@),
{
    let n = t.unicode_len();
    if n != w.unicode_len() {
        return false;
    }
    let mut i: usize = 0;
    while i < n
        invariant
            n == t@.len(),
            n == w@.len(),
            i <= n,
            forall|j: int| 0 <= j < i ==> lowercase_code(#[trigger] t@[j]) == w@[j] as int,
        decreases n - i,
    {
        let c = t.get_char(i) as u32;
        let lc = if 65 <= c && c <= 90 {
            c + 32
        } else {
            c
        };
        if lc != w.get_char(i) as u32 {
            return false;
        }
        i = i + 1;
    }
    true
}

proof fn lemma_exponent_mark_at(u: Seq<char>, i: int)
    requires
        0 <= i < u.len(),
        u[i] == 'e' || u[i] == 'E',
        forall|j: int| 0 <= j < i ==> u[j] != 'e' && u[j] != 'E',
    ensures
        exponent_mark(u) == Some(i),
    decreases i,
{
    if i > 0 {
        lemma_exponent_mark_at(u.drop_first(), i - 1);
    }
}

proof fn lemma_exponent_mark_absent(u: Seq<char>)
    requires
        forall|j: int| 0 <= j < u.len() ==> u[j] != 'e' && u[j] != 'E',
    ensures
        exponent_mark(u) is None,
    decreases u.len(),
{
    if u.len() > 0 {
        lemma_exponent_mark_absent(u.drop_first());
    }
}

/// Position of the first exponent mark in `u`.
fn exponent_mark_exec(u: &str) -> (res: Option<usize>)
    ensures
        match res {
            Some(i) => exponent_mark(u@) == Some(i as int) && i < u@.len(),
            None => exponent_mark(u@) is None,
        },
{
    let n = u.unicode_len();
    let mut i: usize = 0;
    while i < n
        invariant
            n == u@.len(),
            i <= n,
            forall|j: int| 0 <= j < i ==> u@[j] != 'e' && u@[j] != 'E',
        decreases n - i,
    {
        let c = u.get_char(i);
        if c == 'e' || c == 'E' {
            proof {
                lemma_exponent_mark_at(u@, i as int);
            }
            return Some(i);
        }
        i = i + 1;
    }
    proof {
        lemma_exponent_mark_absent(u@);
    }
    None
}

/// The number the digits `t` denote, capped; see [`capped_digits_value`].
fn capped_digits_exec(t: &str) -> (res: i128)
    requires
        all_digits(t@),
    ensures
        res == capped_digits_value(t@),
        0 <= res <= EXPONENT_CAP,
{
    let n = t.unicode_len();
    let mut v: i128 = 0;
    let mut i: usize = 0;
    proof {
        assert(t@.take(0) =~= Seq::<char>::empty());
    }
    while i < n
        invariant
            n == t@.len(),
            i <= n,
            all_digits(t@),
            v == capped_digits_value(t@.take(i as int)),
            0 <= v <= EXPONENT_CAP,
        decreases n - i,
    {
        let c = t.get_char(i);
        assert(is_digit(t@[i as int]));
        let d = (c as u32 - '0' as u32) as i128;
        v = 10 * v + d;
        if v > EXPONENT_CAP {
            v = EXPONENT_CAP;
        }
        proof {
            assert(t@.take(i + 1).drop_last() =~= t@.take(i as int));
            assert(t@.take(i + 1).last() == c);
        }
        i = i + 1;
    }
    proof {
        assert(t@.take(n as int) =~= t@);
    }
    v
}

/// The value of an exponent text; see [`exponent_text_value`].
fn exponent_text_value_exec(e: &str) -> (res: Option<i128>)
    ensures
        match res {
            Some(v) => exponent_text_value(e@) == Some(v as int) && -EXPONENT_CAP <= v
                <= EXPONENT_CAP,
            None => exponent_text_value(e@) is None,
        },
{
    let n = e.unicode_len();
    let mut start: usize = 0;
    let mut negative = false;
    if n > 0 {
        let c = e.get_char(0);
        if c == '-' || c == '+' {
            start = 1;
        }
        negative = c == '-';
    }
    let d = e.substring_char(start, n);
    proof {
        if n > 0 && (e@[0] == '-' || e@[0] == '+') {
            assert(d@ =~= e@.drop_first());
        } else {
            assert(d@ =~= e@);
        }
    }
    if d.unicode_len() == 0 || !all_digits_exec(d) {
        return None;
    }
    let v = capped_digits_exec(d);
    if negative {
        Some(-v)
    } else {
        Some(v)
    }
}

/// The canonical key of a numeral; see [`decimal_key`].
pub fn numeral_key(s: &str) -> (res: Option<Vec<i128>>)
    ensures
        match res {
            Some(k) => decimal_key(s@) == Some(k@),
            None => decimal_key(s@) is None,
        },
{
    let n = s.unicode_len();
    let mut start: usize = 0;
    let mut negative = false;
    if n > 0 {
        let c = s.get_char(0);
        if c == '-' || c == '+' {
            start = 1;
        }
        negative = c == '-';
    }
    let u = s.substring_char(start, n);
    proof {
        assert(u@ =~= unsigned_part(s@));
        reveal_strlit("inf");
        reveal_strlit("infinity");
    }
    if spells_ignoring_case_exec(u, "inf") || spells_ignoring_case_exec(u, "infinity") {
        proof {
            assert("inf"@ =~= seq!['i', 'n', 'f']);
            assert("infinity"@ =~= seq!['i', 'n', 'f', 'i', 'n', 'i', 't', 'y']);
        }
        let mut key: Vec<i128> = Vec::new();
        if negative {
            key.push(-1);
            assert(key@ =~= negative_infinity_key());
        } else {
            key.push(3);
            assert(key@ =~= positive_infinity_key());
        }
        return Some(key);
    }
    proof {
        assert("inf"@ =~= seq!['i', 'n', 'f']);
        assert("infinity"@ =~= seq!['i', 'n', 'f', 'i', 'n', 'i', 't', 'y']);
        assert(!is_infinity_numeral(s@));
    }
    let un = u.unicode_len();
    let mut exponent: i128 = 0;
    let m = match exponent_mark_exec(u) {
        Some(i) => {
            let e = u.substring_char(i + 1, un);
            proof {
                assert(e@ =~= exponent_text(s@));
            }
            match exponent_text_value_exec(e) {
                Some(v) => {
                    exponent = v;
                },
                None => {
                    return None;
                },
            }
            u.substring_char(0, i)
        },
        None => u,
    };
    proof {
        assert(m@ =~= mantissa(s@));
        assert(exponent == exponent_value(s@));
        assert(-EXPONENT_CAP <= exponent <= EXPONENT_CAP);
    }
    let mn = m.unicode_len();
    let (int_part, frac_part) = match find_char_exec(m, '.') {
        Some(dot) => (m.substring_char(0, dot), m.substring_char(dot + 1, mn)),
        None => (m, m.substring_char(mn, mn)),
    };
    proof {
        assert(int_part@ =~= integer_digits(s@));
        assert(frac_part@ =~= fraction_digits(s@));
    }
    if !all_digits_exec(int_part) || !all_digits_exec(frac_part) {
        return None;
    }
    let ilen = int_part.unicode_len();
    let flen = frac_part.unicode_len();
    if ilen == 0 && flen == 0 {
        return None;
    }
    Some(finite_key_exec(int_part, frac_part, exponent, negative))
}

/// The key of a finite number; see [`finite_key`].
fn finite_key_exec(int_part: &str, frac_part: &str, exponent: i128, negative: bool) -> (res: Vec<i128>)
    requires
        all_digits(int_part@),
        all_digits(frac_part@),
        -EXPONENT_CAP <= exponent <= EXPONENT_CAP,
    ensures
        res@ == finite_key(int_part@, frac_part@, exponent as int, negative),
{
    let ilen = int_part.unicode_len();
    let digits = String::from_str(int_part).concat(frac_part);
    let ds = digits.as_str();
    let dlen = ds.unicode_len();
    proof {
        assert(ds@ =~= int_part@ + frac_part@);
        assert forall|j: int| 0 <= j < ds@.len() implies is_digit(#[trigger] ds@[j]) by {
            if j < ilen {
                assert(ds@[j] == int_part@[j]);
            } else {
                assert(ds@[j] == frac_part@[j - ilen]);
            }
        }
    }
    let lz = count_leading_zeros(ds);
    let rest = ds.substring_char(lz, dlen);
    let hi = length_without_trailing_zeros(rest);
    proof {
        assert(rest@ =~= ds@.skip(lz as int));
        assert(all_digits(rest@));
    }
    let mut key: Vec<i128> = Vec::new();
    if hi == 0 {
        key.push(1);
        proof {
            assert(key@ =~= zero_key());
        }
        return key;
    }
    let position = ilen as i128 - lz as i128 + exponent;
    if negative {
        key.push(0);
        key.push(-position);
    } else {
        key.push(2);
        key.push(position);
    }
    push_digit_keys(&mut key, rest, 0, hi, negative);
    if negative {
        key.push(10);
    } else {
        key.push(-1);
    }
    proof {
        assert(rest@.subrange(0, hi as int) =~= rest@.take(hi as int));
        let d = rest@.take(hi as int);
        let p = ilen - lz + exponent;
        if negative {
            assert(key@ =~= seq![0i128, (-p) as i128] + complement_keys(d) + seq![10i128]);
        } else {
            assert(key@ =~= seq![2i128, p as i128] + digit_keys(d) + seq![-1i128]);
        }
    }
    key
}

/// Whether `s` is read as a number at all; see [`parses_as_number`].
pub fn parses_as_number_exec(s: &str) -> (res: bool)
    ensures
        res == parses_as_number(s@),
{
    if numeral_key(s).is_some() {
        return true;
    }
    let n = s.unicode_len();
    let mut start: usize = 0;
    if n > 0 {
        let c = s.get_char(0);
        if c == '-' || c == '+' {
            start = 1;
        }
    }
    let u = s.substring_char(start, n);
    proof {
        assert(u@ =~= unsigned_part(s@));
        reveal_strlit("nan");
        assert("nan"@ =~= seq!['n', 'a', 'n']);
    }
    spells_ignoring_case_exec(u, "nan")
}

/// The sign of the number a numeral denotes: `-1` below zero, `1` above
/// zero, and `0` for zero, NaN, or text that is not a numeral.
pub fn numeral_sign(s: &str) -> (res: i8)
    ensures
        res == -1 <==> is_below_zero_numeral(s@),
        res == 1 <==> is_above_zero_numeral(s@),
        res == 0 <==> !is_below_zero_numeral(s@) && !is_above_zero_numeral(s@),
{
    match numeral_key(s) {
        Some(k) => {
            let z: Vec<i128> = vec![1];
            proof {
                assert(z@ =~= zero_key());
                lemma_lex_asymmetric(k@, z@);
            }
            if lex_less(&k, &z) {
                -1
            } else if lex_less(&z, &k) {
                1
            } else {
                0
            }
        },
        None => 0,
    }
}

/// Whether the numeral `s` denotes zero.
pub fn is_zero_numeral_exec(s: &str) -> (res: bool)
    ensures
        res == is_zero_numeral(s@),
{
    match numeral_key(s) {
        Some(k) => {
            let z: Vec<i128> = vec![1];
            proof {
                assert(z@ =~= zero_key());
            }
            let lt1 = lex_less(&k, &z);
            let lt2 = lex_less(&z, &k);
            proof {
                lemma_lex_total(k@, z@);
                lemma_lex_irreflexive(k@);
            }
            !lt1 && !lt2
        },
        None => false,
    }
}

// ---------------------------------------------------------------------------
// The value a finite numeral denotes
// ---------------------------------------------------------------------------

/// `10^n`.
pub open spec fn pow10(n: nat) -> nat
    decreases n,
{
    if n == 0 {
        1
    } else {
        10 * pow10((n - 1) as nat)
    }
}

/// The integer a finite numeral's digits denote, its point left out.
pub open spec fn numeral_digits_value(s: Seq<char>) -> nat {
    digits_value(integer_digits(s) + fraction_digits(s))
}

/// The power of ten that integer is multiplied by: the exponent less the
/// number of fraction digits.
pub open spec fn numeral_scale(s: Seq<char>) -> int {
    exponent_value(s) - fraction_digits(s).len()
}

/// Whether two finite numerals denote the same number: both zero (whatever
/// their signs), or the same sign and `a * 10^x == b * 10^y` for their digit
/// values `a`, `b` and scales `x`, `y` (both scales brought down to the
/// smaller one).
pub open spec fn same_value(s: Seq<char>, t: Seq<char>) -> bool {
    let a = numeral_digits_value(s);
    let b = numeral_digits_value(t);
    let x = numeral_scale(s);
    let y = numeral_scale(t);
    let m = if x <= y {
        x
    } else {
        y
    };
    if a == 0 || b == 0 {
        a == 0 && b == 0
    } else {
        is_negative_numeral(s) == is_negative_numeral(t) && a * pow10((x - m) as nat) == b * pow10(
            (y - m) as nat,
        )
    }
}

proof fn lemma_pow10_add(a: nat, b: nat)
    ensures
        pow10(a + b) == pow10(a) * pow10(b),
        pow10(a) > 0,
    decreases b,
{
    lemma_pow10_positive(a);
    if b == 0 {
        assert(a + b == a);
        assert(pow10(b) == 1);
    } else {
        let b1 = (b - 1) as nat;
        lemma_pow10_add(a, b1);
        let x = pow10(a);
        let y = pow10(b1);
        assert((a + b - 1) as nat == a + b1);
        assert(pow10(a + b) == 10 * pow10(a + b1));
        assert(pow10(a + b1) == x * y);
        assert(pow10(b) == 10 * y);
        assert(10 * (x * y) == x * (10 * y)) by (nonlinear_arith);
    }
}

proof fn lemma_pow10_positive(a: nat)
    ensures
        pow10(a) > 0,
    decreases a,
{
    if a > 0 {
        lemma_pow10_positive((a - 1) as nat);
    }
}

/// The value of digits written one after the other.
proof fn lemma_digits_value_concat(a: Seq<char>, b: Seq<char>)
    requires
        all_digits(a),
        all_digits(b),
    ensures
        digits_value(a + b) == digits_value(a) * pow10(b.len()) + digits_value(b),
    decreases b.len(),
{
    if b.len() == 0 {
        assert(a + b =~= a);
        assert(pow10(0) == 1);
    } else {
        let b1 = b.drop_last();
        assert(all_digits(b1));
        lemma_digits_value_concat(a, b1);
        let ab = a + b;
        assert(ab.drop_last() =~= a + b1);
        assert(ab.last() == b.last());
        assert(is_digit(b[b.len() - 1]));
        let va = digits_value(a);
        let vb1 = digits_value(b1);
        let p1 = pow10(b1.len());
        let dl = digit_value(b.last());
        assert(0 <= dl <= 9);
        assert(digits_value(ab) == (digits_value(a + b1) * 10 + dl) as nat);
        assert(digits_value(a + b1) == va * p1 + vb1);
        assert(digits_value(b) == (vb1 * 10 + dl) as nat);
        assert(pow10(b.len()) == 10 * p1);
        assert((va * p1 + vb1) * 10 + dl == va * (10 * p1) + (vb1 * 10 + dl)) by (nonlinear_arith);
    }
}

proof fn lemma_zeros_value(z: Seq<char>)
    requires
        forall|j: int| 0 <= j < z.len() ==> z[j] == '0',
    ensures
        digits_value(z) == 0,
    decreases z.len(),
{
    if z.len() > 0 {
        lemma_zeros_value(z.drop_last());
    }
}

/// Stripping leading zeros drops a run of zeros at the front; what is left
/// starts with a non-zero character.
proof fn lemma_strip_leading_shape(s: Seq<char>)
    ensures
        strip_leading_zeros(s).len() <= s.len(),
        strip_leading_zeros(s) == s.skip(s.len() - strip_leading_zeros(s).len()),
        forall|j: int| 0 <= j < s.len() - strip_leading_zeros(s).len() ==> s[j] == '0',
        strip_leading_zeros(s).len() > 0 ==> strip_leading_zeros(s)[0] != '0',
    decreases s.len(),
{
    if s.len() > 0 && s[0] == '0' {
        lemma_strip_leading_shape(s.drop_first());
        let k = s.len() - strip_leading_zeros(s).len();
        assert(s.drop_first().skip(k - 1) =~= s.skip(k));
        assert forall|j: int| 0 <= j < k implies s[j] == '0' by {
            if j > 0 {
                assert(s[j] == s.drop_first()[j - 1]);
            }
        }
    } else {
        assert(s.skip(0) =~= s);
    }
}

/// Stripping leading zeros keeps the value.
proof fn lemma_strip_leading_value(s: Seq<char>)
    requires
        all_digits(s),
    ensures
        digits_value(s) == digits_value(strip_leading_zeros(s)),
{
    lemma_strip_leading_shape(s);
    let k = s.len() - strip_leading_zeros(s).len();
    let z = s.take(k);
    let r = s.skip(k);
    assert(s =~= z + r);
    lemma_zeros_value(z);
    lemma_digits_value_concat(z, r);
    assert(digits_value(z) * pow10(r.len()) == 0);
}

/// Stripping trailing zeros divides the value by a power of ten; what is
/// left is a prefix that ends with a non-zero character.
proof fn lemma_strip_trailing_value(s: Seq<char>)
    requires
        all_digits(s),
    ensures
        strip_trailing_zeros(s).len() <= s.len(),
        strip_trailing_zeros(s) == s.take(strip_trailing_zeros(s).len() as int),
        strip_trailing_zeros(s).len() > 0 ==> strip_trailing_zeros(s).last() != '0',
        digits_value(s) == digits_value(strip_trailing_zeros(s)) * pow10(
            (s.len() - strip_trailing_zeros(s).len()) as nat,
        ),
    decreases s.len(),
{
    if s.len() > 0 && s.last() == '0' {
        let s1 = s.drop_last();
        assert(all_digits(s1));
        lemma_strip_trailing_value(s1);
        let d = strip_trailing_zeros(s);
        assert(d == strip_trailing_zeros(s1));
        let t = (s1.len() - d.len()) as nat;
        assert(s.take(d.len() as int) =~= s1.take(d.len() as int));
        assert(digits_value(s) == (digits_value(s1) * 10 + digit_value(s.last())) as nat);
        assert(digit_value(s.last()) == 0);
        assert(digits_value(s) == digits_value(s1) * 10);
        let vd = digits_value(d);
        let pt = pow10(t);
        assert(digits_value(s1) == vd * pt);
        assert((s.len() - d.len()) as nat == t + 1);
        assert(pow10(t + 1) == 10 * pt);
        assert((vd * pt) * 10 == vd * (10 * pt)) by (nonlinear_arith);
        assert(digits_value(s) == vd * pow10(t + 1));
        assert(strip_trailing_zeros(s).len() > 0 ==> strip_trailing_zeros(s).last() != '0');
    } else {
        assert(s.take(s.len() as int) =~= s);
        assert(strip_trailing_zeros(s) == s);
        assert((s.len() - strip_trailing_zeros(s).len()) as nat == 0);
        assert(pow10(0) == 1);
        assert(digits_value(s) == digits_value(s) * 1);
    }
}

/// Digits whose last one is not zero denote a positive number.
proof fn lemma_last_nonzero_positive(d: Seq<char>)
    requires
        all_digits(d),
        d.len() > 0,
        d.last() != '0',
    ensures
        digits_value(d) > 0,
        digits_value(d) == 10 * digits_value(d.drop_last()) + digit_value(d.last()),
        1 <= digit_value(d.last()) <= 9,
{
    assert(is_digit(d[d.len() - 1]));
}

/// Digits whose first one is not zero denote a positive number.
proof fn lemma_first_nonzero_positive(d: Seq<char>)
    requires
        all_digits(d),
        d.len() > 0,
        d[0] != '0',
    ensures
        digits_value(d) > 0,
    decreases d.len(),
{
    assert(is_digit(d[0]));
    if d.len() > 1 {
        assert(d.drop_last()[0] == d[0]);
        lemma_first_nonzero_positive(d.drop_last());
    }
}

/// Digit strings without leading zeros are told apart by their values.
proof fn lemma_digits_value_injective(a: Seq<char>, b: Seq<char>)
    requires
        all_digits(a),
        all_digits(b),
        a.len() > 0 ==> a[0] != '0',
        b.len() > 0 ==> b[0] != '0',
        digits_value(a) == digits_value(b),
    ensures
        a == b,
    decreases a.len(),
{
    if a.len() == 0 {
        if b.len() > 0 {
            lemma_first_nonzero_positive(b);
        }
        assert(a =~= b);
    } else if b.len() == 0 {
        lemma_first_nonzero_positive(a);
    } else {
        let a1 = a.drop_last();
        let b1 = b.drop_last();
        assert(is_digit(a.last()) && is_digit(b.last()));
        assert(digits_value(a) == digits_value(a1) * 10 + digit_value(a.last()));
        assert(digits_value(b) == digits_value(b1) * 10 + digit_value(b.last()));
        assert(digits_value(a1) == digits_value(b1) && digit_value(a.last()) == digit_value(
            b.last(),
        ));
        if a1.len() > 0 {
            assert(a1[0] == a[0]);
        }
        if b1.len() > 0 {
            assert(b1[0] == b[0]);
        }
        lemma_digits_value_injective(a1, b1);
        assert(a =~= a1.push(a.last()));
        assert(b =~= b1.push(b.last()));
    }
}

proof fn lemma_find_char_range(s: Seq<char>, c: char)
    ensures
        find_char(s, c) matches Some(i) ==> 0 <= i < s.len() && s[i] == c,
    decreases s.len(),
{
    if s.len() > 0 && s[0] != c {
        lemma_find_char_range(s.drop_first(), c);
    }
}

proof fn lemma_exponent_mark_range(u: Seq<char>)
    ensures
        exponent_mark(u) matches Some(i) ==> 0 <= i < u.len(),
    decreases u.len(),
{
    if u.len() > 0 && !(u[0] == 'e' || u[0] == 'E') {
        lemma_exponent_mark_range(u.drop_first());
    }
}

proof fn lemma_capped_range(d: Seq<char>)
    requires
        all_digits(d),
    ensures
        0 <= capped_digits_value(d) <= EXPONENT_CAP,
    decreases d.len(),
{
    if d.len() > 0 {
        assert(all_digits(d.drop_last()));
        lemma_capped_range(d.drop_last());
        assert(is_digit(d[d.len() - 1]));
    }
}

/// The lengths and the exponent of a numeral are bounded by its text.
proof fn lemma_numeral_bounds(s: Seq<char>)
    ensures
        integer_digits(s).len() + fraction_digits(s).len() <= s.len(),
        -EXPONENT_CAP <= exponent_value(s) <= EXPONENT_CAP,
{
    let u = unsigned_part(s);
    lemma_exponent_mark_range(u);
    let m = mantissa(s);
    lemma_find_char_range(m, '.');
    let e = exponent_text(s);
    let signed = e.len() > 0 && (e[0] == '-' || e[0] == '+');
    let d = if signed {
        e.drop_first()
    } else {
        e
    };
    if d.len() > 0 && all_digits(d) {
        lemma_capped_range(d);
    }
}

/// A finite numeral is not an infinity.
proof fn lemma_finite_not_infinity(s: Seq<char>)
    requires
        is_finite_numeral(s),
    ensures
        !is_infinity_numeral(s),
{
    let u = unsigned_part(s);
    if is_infinity_numeral(s) {
        assert(u.len() >= 3);
        assert(lowercase_code(u[0]) == 'i' as int);
        let c = u[0];
        assert(!is_digit(c) && c != '.' && c != 'e' && c != 'E');
        lemma_exponent_mark_range(u);
        let m = mantissa(s);
        assert(m.len() > 0 && m[0] == c);
        lemma_find_char_range(m, '.');
        let i = integer_digits(s);
        assert(i.len() > 0 && i[0] == c);
        assert(!all_digits(i));
    }
}

/// The significant digits of a finite numeral.
spec fn significant_digits_of(s: Seq<char>) -> Seq<char> {
    strip_trailing_zeros(strip_leading_zeros(integer_digits(s) + fraction_digits(s)))
}

/// The decimal position of the first significant digit of a finite numeral.
spec fn point_position_of(s: Seq<char>) -> int {
    let ds = integer_digits(s) + fraction_digits(s);
    integer_digits(s).len() - (ds.len() - strip_leading_zeros(ds).len()) + exponent_value(s)
}

/// A finite numeral's key is made of its sign, the position of its first
/// significant digit and its significant digits, and its value is those
/// digits times ten to the position less their count.
proof fn lemma_finite_shape(s: Seq<char>)
    requires
        is_finite_numeral(s),
    ensures
        ({
            let d = significant_digits_of(s);
            let p = point_position_of(s);
            let tz = (strip_leading_zeros(integer_digits(s) + fraction_digits(s)).len() - d.len()) as nat;
            &&& decimal_key(s) == Some(
                finite_key(
                    integer_digits(s),
                    fraction_digits(s),
                    exponent_value(s),
                    is_negative_numeral(s),
                ),
            )
            &&& all_digits(d)
            &&& d.len() > 0 ==> d[0] != '0' && d.last() != '0'
            &&& numeral_digits_value(s) == digits_value(d) * pow10(tz)
            &&& numeral_scale(s) + tz == p - d.len()
            &&& (d.len() == 0 <==> numeral_digits_value(s) == 0)
            &&& -(s.len() + EXPONENT_CAP) <= p <= s.len() + EXPONENT_CAP
        }),
{
    lemma_finite_not_infinity(s);
    lemma_numeral_bounds(s);
    let i = integer_digits(s);
    let f = fraction_digits(s);
    let ds = i + f;
    assert(all_digits(ds)) by {
        assert forall|j: int| 0 <= j < ds.len() implies is_digit(#[trigger] ds[j]) by {
            if j < i.len() {
                assert(ds[j] == i[j]);
            } else {
                assert(ds[j] == f[j - i.len()]);
            }
        }
    }
    lemma_strip_leading_shape(ds);
    lemma_strip_leading_value(ds);
    let l = strip_leading_zeros(ds);
    assert(all_digits(l)) by {
        assert forall|j: int| 0 <= j < l.len() implies is_digit(#[trigger] l[j]) by {
            assert(l[j] == ds[j + (ds.len() - l.len())]);
        }
    }
    lemma_strip_trailing_value(l);
    let d = strip_trailing_zeros(l);
    assert(all_digits(d)) by {
        assert forall|j: int| 0 <= j < d.len() implies is_digit(#[trigger] d[j]) by {
            assert(d[j] == l[j]);
        }
    }
    if d.len() > 0 {
        assert(d[0] == l[0]);
        lemma_last_nonzero_positive(d);
        lemma_pow10_positive((l.len() - d.len()) as nat);
        assert(digits_value(d) * pow10((l.len() - d.len()) as nat) > 0) by (nonlinear_arith)
            requires
                digits_value(d) > 0,
                pow10((l.len() - d.len()) as nat) > 0,
        ;
    } else {
        assert(digits_value(d) == 0);
    }
}

/// Digits whose last one is not zero, times a power of ten, determine both
/// the digits' value and the power.
proof fn lemma_scaled_digits_unique(a: nat, x: nat, b: nat, y: nat)
    requires
        a % 10 != 0,
        b % 10 != 0,
        a * pow10(x) == b * pow10(y),
    ensures
        x == y,
        a == b,
{
    if x < y {
        lemma_pow10_add(x, (y - x) as nat);
        lemma_pow10_positive(x);
        let px = pow10(x);
        let q = pow10((y - x) as nat);
        assert(y == x + (y - x) as nat);
        assert(a * px == (b * q) * px) by (nonlinear_arith)
            requires
                a * px == b * pow10(y),
                pow10(y) == px * q,
        ;
        assert(a == b * q) by (nonlinear_arith)
            requires
                a * px == (b * q) * px,
                px > 0,
        ;
        assert(q == 10 * pow10((y - x - 1) as nat));
        assert(a == 10 * (b * pow10((y - x - 1) as nat))) by (nonlinear_arith)
            requires
                a == b * q,
                q == 10 * pow10((y - x - 1) as nat),
        ;
        assert(a % 10 == 0);
    } else if y < x {
        lemma_pow10_add(y, (x - y) as nat);
        lemma_pow10_positive(y);
        let py = pow10(y);
        let q = pow10((x - y) as nat);
        assert(x == y + (x - y) as nat);
        assert(b * py == (a * q) * py) by (nonlinear_arith)
            requires
                a * pow10(x) == b * py,
                pow10(x) == py * q,
        ;
        assert(b == a * q) by (nonlinear_arith)
            requires
                b * py == (a * q) * py,
                py > 0,
        ;
        assert(q == 10 * pow10((x - y - 1) as nat));
        assert(b == 10 * (a * pow10((x - y - 1) as nat))) by (nonlinear_arith)
            requires
                b == a * q,
                q == 10 * pow10((x - y - 1) as nat),
        ;
        assert(b % 10 == 0);
    } else {
        lemma_pow10_positive(x);
        let px = pow10(x);
        assert(a == b) by (nonlinear_arith)
            requires
                a * px == b * px,
                px > 0,
        ;
    }
}

/// Two finite numerals get the same key exactly when they denote the same
/// number: digits and exponent read as an integer times a power of ten,
/// with zero equal to zero whatever the sign. So a price matches a level
/// exactly when both denote one number, and distinct numbers never share a
/// key (for numerals shorter than `2^64` characters).
pub proof fn lemma_keys_compare_values(s: Seq<char>, t: Seq<char>)
    requires
        is_finite_numeral(s),
        is_finite_numeral(t),
        s.len() < 0x1_0000_0000_0000_0000,
        t.len() < 0x1_0000_0000_0000_0000,
    ensures
        decimal_key(s) == decimal_key(t) <==> same_value(s, t),
{
    lemma_finite_shape(s);
    lemma_finite_shape(t);
    let ds = significant_digits_of(s);
    let dt = significant_digits_of(t);
    let ps = point_position_of(s);
    let pt = point_position_of(t);
    let ks = decimal_key(s)->0;
    let kt = decimal_key(t)->0;
    let a = numeral_digits_value(s);
    let b = numeral_digits_value(t);
    let x = numeral_scale(s);
    let y = numeral_scale(t);
    let m = if x <= y {
        x
    } else {
        y
    };
    let tzs = (strip_leading_zeros(integer_digits(s) + fraction_digits(s)).len() - ds.len()) as nat;
    let tzt = (strip_leading_zeros(integer_digits(t) + fraction_digits(t)).len() - dt.len()) as nat;
    if a == 0 || b == 0 {
        if a != 0 {
            assert(ks[0] == 0 || ks[0] == 2);
            assert(kt[0] == 1);
        } else if b != 0 {
            assert(kt[0] == 0 || kt[0] == 2);
            assert(ks[0] == 1);
        }
    } else {
        let xs = (tzs + x - m) as nat;
        let xt = (tzt + y - m) as nat;
        lemma_pow10_add(tzs, (x - m) as nat);
        lemma_pow10_add(tzt, (y - m) as nat);
        let vs = digits_value(ds);
        let vt = digits_value(dt);
        assert(a * pow10((x - m) as nat) == vs * pow10(xs)) by (nonlinear_arith)
            requires
                a == vs * pow10(tzs),
                pow10(xs) == pow10(tzs) * pow10((x - m) as nat),
        ;
        assert(b * pow10((y - m) as nat) == vt * pow10(xt)) by (nonlinear_arith)
            requires
                b == vt * pow10(tzt),
                pow10(xt) == pow10(tzt) * pow10((y - m) as nat),
        ;
        lemma_last_nonzero_positive(ds);
        lemma_last_nonzero_positive(dt);
        assert(vs % 10 != 0);
        assert(vt % 10 != 0);
        if decimal_key(s) == decimal_key(t) {
            assert(ks[0] == kt[0]);
            assert(is_negative_numeral(s) == is_negative_numeral(t));
            assert(ks[1] == kt[1]);
            assert(ps == pt);
            assert(ks.len() == ds.len() + 3 && kt.len() == dt.len() + 3);
            assert forall|j: int| 0 <= j < ds.len() implies ds[j] == dt[j] by {
                assert(ks[j + 2] == kt[j + 2]);
                assert(is_digit(ds[j]) && is_digit(dt[j]));
            }
            assert(ds =~= dt);
            assert(xs == xt);
        }
        if same_value(s, t) {
            lemma_scaled_digits_unique(vs, xs, vt, xt);
            lemma_digits_value_injective(ds, dt);
            assert(ps == pt);
        }
    }
}

// ---------------------------------------------------------------------------
// Keys order numerals as their values
// ---------------------------------------------------------------------------

/// The signed value of a finite numeral times `10^-m`, for `m` at most its scale.
pub open spec fn scaled_value(s: Seq<char>, m: int) -> int {
    let v = (numeral_digits_value(s) * pow10((numeral_scale(s) - m) as nat)) as int;
    if is_negative_numeral(s) {
        -v
    } else {
        v
    }
}

/// Whether the finite numeral `s` denotes a smaller number than `t`.
pub open spec fn value_below(s: Seq<char>, t: Seq<char>) -> bool {
    let x = numeral_scale(s);
    let y = numeral_scale(t);
    let m = if x <= y {
        x
    } else {
        y
    };
    scaled_value(s, m) < scaled_value(t, m)
}

/// Digits denote less than ten to their count, and at least ten to their
/// count less one when the first is not zero.
proof fn lemma_digits_value_magnitude(d: Seq<char>)
    requires
        all_digits(d),
    ensures
        digits_value(d) < pow10(d.len()),
        d.len() > 0 && d[0] != '0' ==> pow10((d.len() - 1) as nat) <= digits_value(d),
    decreases d.len(),
{
    if d.len() > 0 {
        let d1 = d.drop_last();
        assert(all_digits(d1));
        lemma_digits_value_magnitude(d1);
        assert(is_digit(d[d.len() - 1]));
        let r = digit_value(d.last());
        assert(0 <= r <= 9);
        let v1 = digits_value(d1);
        let p1 = pow10(d1.len());
        assert(digits_value(d) == v1 * 10 + r);
        assert(pow10(d.len()) == 10 * p1);
        assert(v1 * 10 + r < 10 * p1) by (nonlinear_arith)
            requires
                v1 < p1,
                r <= 9,
        ;
        if d[0] != '0' {
            assert(is_digit(d[0]));
            if d.len() == 1 {
                assert(d.last() == d[0]);
                assert(pow10(0) == 1);
            } else {
                assert(d1[0] == d[0]);
                let q = pow10((d1.len() - 1) as nat);
                assert(pow10((d.len() - 1) as nat) == 10 * q);
                assert(10 * q <= v1 * 10 + r) by (nonlinear_arith)
                    requires
                        q <= v1,
                        0 <= r,
                ;
            }
        }
    }
}

proof fn lemma_single_digit_value(c: char)
    requires
        is_digit(c),
    ensures
        digits_value(seq![c]) == digit_value(c),
{
    let s = seq![c];
    assert(s.len() == 1 && s.last() == c);
    assert(s.drop_last() =~= Seq::<char>::empty());
    assert(digits_value(s.drop_last()) == 0);
}

/// The keys of digits after a point, closed by a terminator below every
/// digit, compare as the fractions `0.d` and `0.e`.
proof fn lemma_fraction_keys_order(d: Seq<char>, e: Seq<char>, l: nat)
    requires
        all_digits(d),
        all_digits(e),
        d.len() <= l,
        e.len() <= l,
        d.len() > 0 ==> d.last() != '0',
        e.len() > 0 ==> e.last() != '0',
    ensures
        lex_lt(digit_keys(d) + seq![-1i128], digit_keys(e) + seq![-1i128]) <==> digits_value(d)
            * pow10((l - d.len()) as nat) < digits_value(e) * pow10((l - e.len()) as nat),
    decreases l,
{
    let kd = digit_keys(d) + seq![-1i128];
    let ke = digit_keys(e) + seq![-1i128];
    lemma_pow10_positive((l - d.len()) as nat);
    lemma_pow10_positive((l - e.len()) as nat);
    if d.len() == 0 && e.len() == 0 {
        assert(kd =~= ke);
        lemma_lex_irreflexive(kd);
    } else if d.len() == 0 {
        assert(is_digit(e[0]));
        assert(kd[0] == -1 && ke[0] >= 0);
        lemma_last_nonzero_positive(e);
        let pe = pow10((l - e.len()) as nat);
        assert(digits_value(e) * pe > 0) by (nonlinear_arith)
            requires
                digits_value(e) > 0,
                pe > 0,
        ;
        assert(digits_value(d) == 0);
        assert(lex_lt(kd, ke));
    } else if e.len() == 0 {
        assert(is_digit(d[0]));
        assert(ke[0] == -1 && kd[0] >= 0);
        let pd = pow10((l - d.len()) as nat);
        assert(digits_value(d) * pd >= 0) by (nonlinear_arith)
            requires
                pd > 0,
        ;
        assert(digits_value(e) == 0);
        assert(!lex_lt(kd, ke));
    } else {
        let d1 = d.drop_first();
        let e1 = e.drop_first();
        let l1 = (l - 1) as nat;
        assert(all_digits(d1) && all_digits(e1));
        if d1.len() > 0 {
            assert(d1.last() == d.last());
        }
        if e1.len() > 0 {
            assert(e1.last() == e.last());
        }
        assert(is_digit(d[0]) && is_digit(e[0]));
        let cd = digit_value(d[0]);
        let ce = digit_value(e[0]);
        // The value of digits after a point, split at the first digit.
        assert(d =~= seq![d[0]] + d1);
        assert(e =~= seq![e[0]] + e1);
        lemma_digits_value_concat(seq![d[0]], d1);
        lemma_digits_value_concat(seq![e[0]], e1);
        lemma_single_digit_value(d[0]);
        lemma_single_digit_value(e[0]);
        lemma_pow10_add(d1.len(), (l - d.len()) as nat);
        lemma_pow10_add(e1.len(), (l - e.len()) as nat);
        lemma_pow10_add((l1 - d1.len()) as nat, 0);
        let fd1 = digits_value(d1) * pow10((l1 - d1.len()) as nat);
        let fe1 = digits_value(e1) * pow10((l1 - e1.len()) as nat);
        let p = pow10(l1);
        let pdr = pow10((l - d.len()) as nat);
        let per = pow10((l - e.len()) as nat);
        assert((l1 - d1.len()) as nat == (l - d.len()) as nat);
        assert((l1 - e1.len()) as nat == (l - e.len()) as nat);
        assert(d1.len() + (l - d.len()) as nat == l1);
        assert(e1.len() + (l - e.len()) as nat == l1);
        assert(digits_value(d) * pdr == cd * p + fd1) by (nonlinear_arith)
            requires
                digits_value(d) == cd * pow10(d1.len()) + digits_value(d1),
                p == pow10(d1.len()) * pdr,
                fd1 == digits_value(d1) * pdr,
        ;
        assert(digits_value(e) * per == ce * p + fe1) by (nonlinear_arith)
            requires
                digits_value(e) == ce * pow10(e1.len()) + digits_value(e1),
                p == pow10(e1.len()) * per,
                fe1 == digits_value(e1) * per,
        ;
        lemma_digits_value_magnitude(d1);
        lemma_digits_value_magnitude(e1);
        lemma_pow10_add(d1.len(), (l1 - d1.len()) as nat);
        lemma_pow10_add(e1.len(), (l1 - e1.len()) as nat);
        assert(0 <= fd1 < p) by (nonlinear_arith)
            requires
                fd1 == digits_value(d1) * pdr,
                digits_value(d1) < pow10(d1.len()),
                p == pow10(d1.len()) * pdr,
                pdr > 0,
        ;
        assert(0 <= fe1 < p) by (nonlinear_arith)
            requires
                fe1 == digits_value(e1) * per,
                digits_value(e1) < pow10(e1.len()),
                p == pow10(e1.len()) * per,
                per > 0,
        ;
        assert(kd[0] == cd as i128 && ke[0] == ce as i128);
        assert(kd.len() > 1 && ke.len() > 1);
        if cd < ce {
            assert(cd * p + fd1 < ce * p + fe1) by (nonlinear_arith)
                requires
                    cd < ce,
                    0 <= fd1 < p,
                    0 <= fe1,
            ;
            assert(lex_lt(kd, ke));
        } else if ce < cd {
            assert(ce * p + fe1 < cd * p + fd1) by (nonlinear_arith)
                requires
                    ce < cd,
                    0 <= fe1 < p,
                    0 <= fd1,
            ;
            assert(!lex_lt(kd, ke));
        } else {
            lemma_fraction_keys_order(d1, e1, l1);
            assert(kd.drop_first() =~= digit_keys(d1) + seq![-1i128]);
            assert(ke.drop_first() =~= digit_keys(e1) + seq![-1i128]);
            assert(lex_lt(kd, ke) == lex_lt(kd.drop_first(), ke.drop_first()));
            assert(lex_lt(kd, ke) <==> fd1 < fe1);
        }
        assert(lex_lt(kd, ke) <==> digits_value(d) * pdr < digits_value(e) * per);
    }
}

/// Taking every element `x` of terminated digit keys to `9 - x` reverses
/// their order.
proof fn lemma_lex_reversed(a: Seq<i128>, b: Seq<i128>)
    requires
        a.len() > 0,
        b.len() > 0,
        a.last() == -1,
        b.last() == -1,
        forall|i: int| 0 <= i < a.len() - 1 ==> 0 <= #[trigger] a[i] <= 9,
        forall|i: int| 0 <= i < b.len() - 1 ==> 0 <= #[trigger] b[i] <= 9,
    ensures
        lex_lt(a.map_values(|x: i128| (9 - x) as i128), b.map_values(|x: i128| (9 - x) as i128))
            == lex_lt(b, a),
    decreases a.len(),
{
    let ma = a.map_values(|x: i128| (9 - x) as i128);
    let mb = b.map_values(|x: i128| (9 - x) as i128);
    assert(-1 <= a[0] <= 9) by {
        if a.len() > 1 {
            assert(0 <= a[0] <= 9);
        }
    }
    assert(-1 <= b[0] <= 9) by {
        if b.len() > 1 {
            assert(0 <= b[0] <= 9);
        }
    }
    assert(ma[0] == 9 - a[0] && mb[0] == 9 - b[0]);
    if a[0] != b[0] {
    } else if a[0] == -1 {
        assert(a.len() == 1) by {
            if a.len() > 1 {
                assert(0 <= a[0]);
            }
        }
        assert(b.len() == 1) by {
            if b.len() > 1 {
                assert(0 <= b[0]);
            }
        }
        assert(a =~= b);
        assert(ma =~= mb);
        lemma_lex_irreflexive(a);
        lemma_lex_irreflexive(ma);
    } else {
        assert(a.len() > 1 && b.len() > 1);
        let a1 = a.drop_first();
        let b1 = b.drop_first();
        assert(a1.last() == a.last() && b1.last() == b.last());
        assert forall|i: int| 0 <= i < a1.len() - 1 implies 0 <= #[trigger] a1[i] <= 9 by {
            assert(a1[i] == a[i + 1]);
        }
        assert forall|i: int| 0 <= i < b1.len() - 1 implies 0 <= #[trigger] b1[i] <= 9 by {
            assert(b1[i] == b[i + 1]);
        }
        assert(ma.drop_first() =~= a1.map_values(|x: i128| (9 - x) as i128));
        assert(mb.drop_first() =~= b1.map_values(|x: i128| (9 - x) as i128));
        lemma_lex_reversed(a1, b1);
    }
}

/// The digit value of a finite numeral times `10^(scale - m)`.
spec fn magnitude_at(s: Seq<char>, m: int) -> int {
    (numeral_digits_value(s) * pow10((numeral_scale(s) - m) as nat)) as int
}

/// A nonzero finite numeral's magnitude at `m` is its significant digits
/// times ten to the position less their count, less `m`; it lies between
/// ten to the position less one and ten to the position (both less `m`).
proof fn lemma_magnitude_bounds(s: Seq<char>, m: int)
    requires
        is_finite_numeral(s),
        m <= numeral_scale(s),
        numeral_digits_value(s) > 0,
    ensures
        ({
            let d = significant_digits_of(s);
            let p = point_position_of(s);
            let v = magnitude_at(s, m);
            &&& p - d.len() - m >= 0
            &&& v == digits_value(d) * pow10((p - d.len() - m) as nat)
            &&& pow10((p - m - 1) as nat) <= v < pow10((p - m) as nat)
            &&& d.len() > 0
        }),
{
    lemma_finite_shape(s);
    let d = significant_digits_of(s);
    let p = point_position_of(s);
    let x = numeral_scale(s);
    let a = numeral_digits_value(s);
    let tz = (strip_leading_zeros(integer_digits(s) + fraction_digits(s)).len() - d.len()) as nat;
    let xs = (tz + x - m) as nat;
    lemma_pow10_add(tz, (x - m) as nat);
    lemma_pow10_positive(xs);
    let vd = digits_value(d);
    let v = magnitude_at(s, m);
    assert(v == vd * pow10(xs)) by (nonlinear_arith)
        requires
            v == a * pow10((x - m) as nat),
            a == vd * pow10(tz),
            pow10(xs) == pow10(tz) * pow10((x - m) as nat),
    ;
    assert(xs == p - d.len() - m);
    lemma_digits_value_magnitude(d);
    lemma_pow10_add(d.len(), xs);
    lemma_pow10_add((d.len() - 1) as nat, xs);
    assert(d.len() + xs == (p - m) as nat);
    assert((d.len() - 1) as nat + xs == (p - m - 1) as nat);
    let h = pow10((p - m) as nat);
    let lo = pow10((p - m - 1) as nat);
    assert(v < h) by (nonlinear_arith)
        requires
            v == vd * pow10(xs),
            vd < pow10(d.len()),
            h == pow10(d.len()) * pow10(xs),
            pow10(xs) > 0,
    ;
    assert(lo <= v) by (nonlinear_arith)
        requires
            v == vd * pow10(xs),
            pow10((d.len() - 1) as nat) <= vd,
            lo == pow10((d.len() - 1) as nat) * pow10(xs),
            pow10(xs) > 0,
    ;
}

/// Of two nonzero finite numerals, the one whose first significant digit
/// stands at a lower position has the smaller magnitude.
proof fn lemma_position_orders_magnitude(s: Seq<char>, t: Seq<char>, m: int)
    requires
        is_finite_numeral(s),
        is_finite_numeral(t),
        m <= numeral_scale(s),
        m <= numeral_scale(t),
        numeral_digits_value(s) > 0,
        numeral_digits_value(t) > 0,
        point_position_of(s) < point_position_of(t),
    ensures
        magnitude_at(s, m) < magnitude_at(t, m),
{
    lemma_magnitude_bounds(s, m);
    lemma_magnitude_bounds(t, m);
    let ps = point_position_of(s);
    let pt = point_position_of(t);
    lemma_pow10_add((ps - m) as nat, (pt - ps - 1) as nat);
    lemma_pow10_positive((pt - ps - 1) as nat);
    assert((ps - m) as nat + (pt - ps - 1) as nat == (pt - m - 1) as nat);
    let hs = pow10((ps - m) as nat);
    let lt = pow10((pt - m - 1) as nat);
    assert(hs <= lt) by (nonlinear_arith)
        requires
            lt == hs * pow10((pt - ps - 1) as nat),
            pow10((pt - ps - 1) as nat) >= 1,
            hs > 0,
    ;
}

/// Of two nonzero finite numerals with one position, the keys of their
/// significant digits compare as their magnitudes.
proof fn lemma_digits_order_magnitude(s: Seq<char>, t: Seq<char>, m: int)
    requires
        is_finite_numeral(s),
        is_finite_numeral(t),
        m <= numeral_scale(s),
        m <= numeral_scale(t),
        numeral_digits_value(s) > 0,
        numeral_digits_value(t) > 0,
        point_position_of(s) == point_position_of(t),
    ensures
        lex_lt(
            digit_keys(significant_digits_of(s)) + seq![-1i128],
            digit_keys(significant_digits_of(t)) + seq![-1i128],
        ) <==> magnitude_at(s, m) < magnitude_at(t, m),
{
    lemma_finite_shape(s);
    lemma_finite_shape(t);
    lemma_magnitude_bounds(s, m);
    lemma_magnitude_bounds(t, m);
    let ds = significant_digits_of(s);
    let dt = significant_digits_of(t);
    let p = point_position_of(s);
    let vs = digits_value(ds);
    let vt = digits_value(dt);
    let va = magnitude_at(s, m);
    let vb = magnitude_at(t, m);
    let l = if ds.len() >= dt.len() {
        ds.len()
    } else {
        dt.len()
    };
    lemma_fraction_keys_order(ds, dt, l);
    lemma_pow10_add((l - ds.len()) as nat, (p - m - l) as nat);
    lemma_pow10_add((l - dt.len()) as nat, (p - m - l) as nat);
    lemma_pow10_positive((p - m - l) as nat);
    let g = pow10((p - m - l) as nat);
    let fs = vs * pow10((l - ds.len()) as nat);
    let ft = vt * pow10((l - dt.len()) as nat);
    assert((p - ds.len() - m) as nat == (l - ds.len()) as nat + (p - m - l) as nat);
    assert((p - dt.len() - m) as nat == (l - dt.len()) as nat + (p - m - l) as nat);
    assert(va == fs * g) by (nonlinear_arith)
        requires
            va == vs * pow10((p - ds.len() - m) as nat),
            pow10((p - ds.len() - m) as nat) == pow10((l - ds.len()) as nat) * g,
            fs == vs * pow10((l - ds.len()) as nat),
    ;
    assert(vb == ft * g) by (nonlinear_arith)
        requires
            vb == vt * pow10((p - dt.len() - m) as nat),
            pow10((p - dt.len() - m) as nat) == pow10((l - dt.len()) as nat) * g,
            ft == vt * pow10((l - dt.len()) as nat),
    ;
    assert(va < vb <==> fs < ft) by (nonlinear_arith)
        requires
            va == fs * g,
            vb == ft * g,
            g > 0,
    ;
}

/// Two finite numerals' keys compare as the numbers they denote: the key
/// of `s` comes first exactly when `s` denotes the smaller number. So asks
/// sorted by key are sorted by price, and bids sorted the other way are
/// sorted by price from the highest (for numerals shorter than `2^64`
/// characters).
#[verifier::rlimit(50)]
pub proof fn lemma_keys_order_values(s: Seq<char>, t: Seq<char>)
    requires
        is_finite_numeral(s),
        is_finite_numeral(t),
        s.len() < 0x1_0000_0000_0000_0000,
        t.len() < 0x1_0000_0000_0000_0000,
    ensures
        lex_lt(decimal_key(s)->0, decimal_key(t)->0) <==> value_below(s, t),
{
    lemma_finite_shape(s);
    lemma_finite_shape(t);
    let ds = significant_digits_of(s);
    let dt = significant_digits_of(t);
    let ps = point_position_of(s);
    let pt = point_position_of(t);
    let ks = decimal_key(s)->0;
    let kt = decimal_key(t)->0;
    let a = numeral_digits_value(s);
    let b = numeral_digits_value(t);
    let x = numeral_scale(s);
    let y = numeral_scale(t);
    let m = if x <= y {
        x
    } else {
        y
    };
    let ns = is_negative_numeral(s);
    let nt = is_negative_numeral(t);
    lemma_pow10_positive((x - m) as nat);
    lemma_pow10_positive((y - m) as nat);
    let va = magnitude_at(s, m);
    let vb = magnitude_at(t, m);
    assert(a == 0 ==> va == 0) by (nonlinear_arith)
        requires
            va == a * pow10((x - m) as nat),
    ;
    assert(b == 0 ==> vb == 0) by (nonlinear_arith)
        requires
            vb == b * pow10((y - m) as nat),
    ;
    assert(a > 0 ==> va > 0) by (nonlinear_arith)
        requires
            va == a * pow10((x - m) as nat),
            pow10((x - m) as nat) > 0,
    ;
    assert(b > 0 ==> vb > 0) by (nonlinear_arith)
        requires
            vb == b * pow10((y - m) as nat),
            pow10((y - m) as nat) > 0,
    ;
    let sv = scaled_value(s, m);
    let tv = scaled_value(t, m);
    assert(sv == if ns { -va } else { va });
    assert(tv == if nt { -vb } else { vb });
    assert(value_below(s, t) == (sv < tv));
    assert(a > 0 ==> (ns ==> ks[0] == 0) && (!ns ==> ks[0] == 2) && ks.len() > 2);
    assert(b > 0 ==> (nt ==> kt[0] == 0) && (!nt ==> kt[0] == 2) && kt.len() > 2);
    assert(a == 0 ==> ks == zero_key());
    assert(b == 0 ==> kt == zero_key());
    if a == 0 || b == 0 {
        if a == 0 && b == 0 {
            lemma_lex_irreflexive(ks);
        } else if a == 0 {
            assert(ks[0] == 1);
            assert(lex_lt(ks, kt) <==> !nt);
        } else {
            assert(kt[0] == 1);
            assert(lex_lt(ks, kt) <==> ns);
        }
    } else if ns != nt {
        assert(ks[0] != kt[0]);
        assert(lex_lt(ks, kt) <==> ns);
    } else {
        assert(ks[0] == kt[0]);
        assert(lex_lt(ks, kt) == lex_lt(ks.drop_first(), kt.drop_first()));
        let k1 = ks.drop_first();
        let l1 = kt.drop_first();
        assert(k1[0] == ks[1] && l1[0] == kt[1]);
        assert(ns ==> ks[1] == (-ps) as i128 && kt[1] == (-pt) as i128);
        assert(!ns ==> ks[1] == ps as i128 && kt[1] == pt as i128);
        if ps != pt {
            assert(ks[1] != kt[1]);
            assert(lex_lt(ks, kt) == (ks[1] < kt[1]));
            if ps < pt {
                lemma_position_orders_magnitude(s, t, m);
            } else {
                lemma_position_orders_magnitude(t, s, m);
            }
        } else {
            assert(lex_lt(k1, l1) == lex_lt(k1.drop_first(), l1.drop_first()));
            lemma_digits_order_magnitude(s, t, m);
            lemma_digits_order_magnitude(t, s, m);
            let kds = digit_keys(ds) + seq![-1i128];
            let kdt = digit_keys(dt) + seq![-1i128];
            if ns {
                assert(k1.drop_first() =~= kds.map_values(|x: i128| (9 - x) as i128));
                assert(l1.drop_first() =~= kdt.map_values(|x: i128| (9 - x) as i128));
                assert forall|i: int| 0 <= i < kds.len() - 1 implies 0 <= #[trigger] kds[i] <= 9 by {
                    assert(is_digit(ds[i]));
                }
                assert forall|i: int| 0 <= i < kdt.len() - 1 implies 0 <= #[trigger] kdt[i] <= 9 by {
                    assert(is_digit(dt[i]));
                }
                lemma_lex_reversed(kds, kdt);
            } else {
                assert(k1.drop_first() =~= kds);
                assert(l1.drop_first() =~= kdt);
            }
        }
    }
}

} // verus!
