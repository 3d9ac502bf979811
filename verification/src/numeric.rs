//! Decimal integer numerals: reading them as Rust's `i64::from_str` does and
//! writing them as Rust's `Display` for `i64` does.

use vstd::prelude::*;

verus! {

pub open spec fn is_digit(c: char) -> bool {
    '0' <= c <= '9'
}

pub open spec fn digit_value(c: char) -> int {
    c as int - '0' as int
}

pub open spec fn digit_char(d: int) -> char
    recommends
        0 <= d < 10,
{
    if d == 0 {
        '0'
    } else if d == 1 {
        '1'
    } else if d == 2 {
        '2'
    } else if d == 3 {
        '3'
    } else if d == 4 {
        '4'
    } else if d == 5 {
        '5'
    } else if d == 6 {
        '6'
    } else if d == 7 {
        '7'
    } else if d == 8 {
        '8'
    } else {
        '9'
    }
}

pub open spec fn all_digits(s: Seq<char>) -> bool {
    forall|i: int| 0 <= i < s.len() ==> is_digit(#[trigger] s[i])
}

/// The number that a string of decimal digits denotes.
pub open spec fn digits_value(s: Seq<char>) -> nat
    decreases s.len(),
{
    if s.len() == 0 {
        0
    } else {
        (digits_value(s.drop_last()) * 10 + digit_value(s.last())) as nat
    }
}

/// What `str::parse::<i64>` gives: an optional `+` or `-`, then one or more
/// decimal digits, denoting a value that fits in `i64`.
pub open spec fn parse_i64_spec(s: Seq<char>) -> Option<i64> {
    let negative = s.len() > 0 && s[0] == '-';
    let body = if s.len() > 0 && (s[0] == '-' || s[0] == '+') {
        s.drop_first()
    } else {
        s
    };
    let v: int = if negative {
        -digits_value(body)
    } else {
        digits_value(body) as int
    };
    if body.len() == 0 || !all_digits(body) || !(i64::MIN <= v <= i64::MAX) {
        None
    } else {
        Some(v as i64)
    }
}

/// The decimal digits of `n`, most significant first, without leading zeros.
pub open spec fn nat_text(n: nat) -> Seq<char>
    decreases n,
{
    if n < 10 {
        seq![digit_char(n as int)]
    } else {
        nat_text(n / 10).push(digit_char((n % 10) as int))
    }
}

/// The text that `Display` writes for an integer.
pub open spec fn int_text(n: int) -> Seq<char> {
    if n < 0 {
        seq!['-'] + nat_text((-n) as nat)
    } else {
        nat_text(n as nat)
    }
}

proof fn lemma_digits_value_prefix_le(s: Seq<char>, k: int)
    requires
        0 <= k <= s.len(),
        all_digits(s),
    ensures
        digits_value(s.take(k)) <= digits_value(s),
    decreases s.len() - k,
{
    if k < s.len() {
        lemma_digits_value_prefix_le(s, k + 1);
        assert(s.take(k + 1).drop_last() =~= s.take(k));
        assert(is_digit(s[k]));
        assert(s.take(k + 1).last() == s[k]);
        assert(digits_value(s.take(k + 1)) == digits_value(s.take(k)) * 10 + digit_value(s[k]));
    } else {
        assert(s.take(k) =~= s);
    }
}

/// Read a decimal integer the way `str::parse::<i64>` does.
pub fn parse_i64(s: &str) -> (res: Option<i64>)
    ensures
        res == parse_i64_spec(s@),
{
    let n = s.unicode_len();
    if n == 0 {
        return None;
    }
    let first = s.get_char(0);
    let negative = first == '-';
    let start: usize = if first == '-' || first == '+' {
        1
    } else {
        0
    };
    let ghost body = if first == '-' || first == '+' {
        s@.drop_first()
    } else {
        s@
    };
    proof {
        assert(body =~= s@.subrange(start as int, n as int));
    }
    if start == n {
        return None;
    }
    let mut acc: i64 = 0;
    let mut i: usize = start;
    while i < n
        invariant
            n == s@.len(),
            start <= i <= n,
            body =~= s@.subrange(start as int, n as int),
            body == (if s@.len() > 0 && (s@[0] == '-' || s@[0] == '+') {
                s@.drop_first()
            } else {
                s@
            }),
            negative == (s@.len() > 0 && s@[0] == '-'),
            all_digits(body.take(i - start)),
            negative ==> acc == -digits_value(body.take(i - start)),
            !negative ==> acc == digits_value(body.take(i - start)),
        decreases n - i,
    {
        let c = s.get_char(i);
        let ghost k = i - start;
        proof {
            assert(body[k] == c);
            assert(body.take(k + 1).drop_last() =~= body.take(k));
            assert(body.take(k + 1).last() == c);
        }
        if !('0' <= c && c <= '9') {
            proof {
                assert(!is_digit(body[k]));
                assert(!all_digits(body));
                assert(body == (if s@.len() > 0 && (s@[0] == '-' || s@[0] == '+') {
                    s@.drop_first()
                } else {
                    s@
                }));
            }
            return None;
        }
        let d = (c as u32 - '0' as u32) as i64;
        proof {
            assert(d == digit_value(c));
            assert(digits_value(body.take(k + 1)) == digits_value(body.take(k)) * 10 + d);
        }
        let next: i128 = if negative {
            acc as i128 * 10 - d as i128
        } else {
            acc as i128 * 10 + d as i128
        };
        if negative {
            if next < i64::MIN as i128 {
                proof {
                    assert(all_digits(body.take(k + 1)));
                    assert(digits_value(body.take(k + 1)) == digits_value(body.take(k)) * 10 + d);
                    if all_digits(body) {
                        lemma_digits_value_prefix_le(body, k + 1);
                    }
                }
                return None;
            }
            acc = next as i64;
        } else {
            if next > i64::MAX as i128 {
                proof {
                    assert(digits_value(body.take(k + 1)) == digits_value(body.take(k)) * 10 + d);
                    if all_digits(body) {
                        lemma_digits_value_prefix_le(body, k + 1);
                    }
                }
                return None;
            }
            acc = next as i64;
        }
        proof {
            assert(all_digits(body.take(k + 1)));
        }
        i = i + 1;
    }
    proof {
        assert(body.take(n - start) =~= body);
    }
    Some(acc)
}

/// Append the decimal digits of `n` to `out`.
pub fn append_nat(out: &mut String, n: u64)
    ensures
        final(out)@ == old(out)@ + nat_text(n as nat),
    decreases n,
{
    if n >= 10 {
        append_nat(out, n / 10);
    }
    let d = n % 10;
    let digit: &str = if d == 0 {
        "0"
    } else if d == 1 {
        "1"
    } else if d == 2 {
        "2"
    } else if d == 3 {
        "3"
    } else if d == 4 {
        "4"
    } else if d == 5 {
        "5"
    } else if d == 6 {
        "6"
    } else if d == 7 {
        "7"
    } else if d == 8 {
        "8"
    } else {
        "9"
    };
    proof {
        reveal_strlit("0");
        reveal_strlit("1");
        reveal_strlit("2");
        reveal_strlit("3");
        reveal_strlit("4");
        reveal_strlit("5");
        reveal_strlit("6");
        reveal_strlit("7");
        reveal_strlit("8");
        reveal_strlit("9");
        assert(digit@ =~= seq![digit_char(d as int)]);
    }
    out.append(digit);
    proof {
        if n >= 10 {
            assert(nat_text(n as nat) == nat_text((n / 10) as nat).push(digit_char((n % 10) as int)));
        }
    }
}

/// Append the decimal text of `n` to `out`, as `Display` writes it.
pub fn append_i64(out: &mut String, n: i64)
    ensures
        final(out)@ == old(out)@ + int_text(n as int),
{
    if n < 0 {
        out.append("-");
        proof {
            reveal_strlit("-");
        }
        let magnitude: u64 = ((-(n + 1)) as u64) + 1;
        append_nat(out, magnitude);
        proof {
            assert(out@ =~= old(out)@ + int_text(n as int));
        }
    } else {
        append_nat(out, n as u64);
    }
}

/// The decimal text of `n`, as `Display` writes it.
pub fn format_i64(n: i64) -> (res: String)
    ensures
        res@ == int_text(n as int),
{
    let mut out = String::new();
    append_i64(&mut out, n);
    proof {
        assert(out@ =~= int_text(n as int));
    }
    out
}

proof fn lemma_digit_char_value(d: int)
    requires
        0 <= d < 10,
    ensures
        digit_value(digit_char(d)) == d,
        is_digit(digit_char(d)),
{
    if d == 0 {
        assert('0' as int == 48);
    } else if d == 1 {
        assert('1' as int == 49);
    } else if d == 2 {
        assert('2' as int == 50);
    } else if d == 3 {
        assert('3' as int == 51);
    } else if d == 4 {
        assert('4' as int == 52);
    } else if d == 5 {
        assert('5' as int == 53);
    } else if d == 6 {
        assert('6' as int == 54);
    } else if d == 7 {
        assert('7' as int == 55);
    } else if d == 8 {
        assert('8' as int == 56);
    } else {
        assert('9' as int == 57);
    }
}

proof fn lemma_nat_text_digits(n: nat)
    ensures
        nat_text(n).len() > 0,
        all_digits(nat_text(n)),
        digits_value(nat_text(n)) == n,
        nat_text(n)[0] != '-' && nat_text(n)[0] != '+',
    decreases n,
{
    let t = nat_text(n);
    if n >= 10 {
        lemma_nat_text_digits(n / 10);
        assert(t.drop_last() =~= nat_text(n / 10));
        assert(t.last() == digit_char((n % 10) as int));
        lemma_digit_char_value((n % 10) as int);
        assert(digit_value(digit_char((n % 10) as int)) == n % 10);
        assert(digits_value(t) == digits_value(nat_text(n / 10)) * 10 + n % 10);
        vstd::arithmetic::div_mod::lemma_fundamental_div_mod(n as int, 10);
        assert(digits_value(nat_text(n / 10)) == n / 10);
    } else {
        assert(t.drop_last() =~= Seq::<char>::empty());
        assert(digits_value(Seq::<char>::empty()) == 0);
        lemma_digit_char_value(n as int);
        assert(digits_value(t) == digits_value(t.drop_last()) * 10 + digit_value(t.last()));
        assert(digit_value(digit_char(n as int)) == n);
    }
}

/// Reading back the text that formatting writes gives the number again.
pub proof fn lemma_parse_format_roundtrip(n: i64)
    ensures
        parse_i64_spec(int_text(n as int)) == Some(n),
{
    if n < 0 {
        let m = (-(n as int)) as nat;
        lemma_nat_text_digits(m);
        let t = int_text(n as int);
        assert(t.drop_first() =~= nat_text(m));
    } else {
        lemma_nat_text_digits(n as nat);
    }
}

/// The text of a number holds only digits and an optional leading minus sign.
pub proof fn lemma_int_text_chars(n: int)
    ensures
        forall|i: int|
            0 <= i < int_text(n).len() ==> is_digit(#[trigger] int_text(n)[i]) || (i == 0
                && int_text(n)[i] == '-'),
{
    if n < 0 {
        lemma_nat_text_digits((-n) as nat);
        assert forall|i: int| 0 <= i < int_text(n).len() implies is_digit(#[trigger] int_text(n)[i]) || (i == 0
                && int_text(n)[i] == '-') by {
            if i > 0 {
                assert(int_text(n)[i] == nat_text((-n) as nat)[i - 1]);
            }
        }
    } else {
        lemma_nat_text_digits(n as nat);
    }
}

} // verus!
