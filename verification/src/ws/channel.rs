//! Reading market and account identifiers out of websocket channel names
//! such as `order_book:42`, `order_book/42` or `account_orders/42/7`.

use vstd::prelude::*;

use crate::numeric::{int_text, is_digit, lemma_int_text_chars, lemma_parse_format_roundtrip, parse_i64, parse_i64_spec};

verus! {

/// Position of the first occurrence of `c` in `s`.
pub open spec fn find_char(s: Seq<char>, c: char) -> Option<int>
    decreases s.len(),
{
    if s.len() == 0 {
        None
    } else if s[0] == c {
        Some(0)
    } else {
        match find_char(s.drop_first(), c) {
            Some(i) => Some(i + 1),
            None => None,
        }
    }
}

/// The `n`-th piece of `s` split at every `sep`, as `str::split(sep).nth(n)` gives it.
pub open spec fn split_nth(s: Seq<char>, sep: char, n: nat) -> Option<Seq<char>>
    decreases n,
{
    match find_char(s, sep) {
        None => if n == 0 {
            Some(s)
        } else {
            None
        },
        Some(i) => if n == 0 {
            Some(s.take(i))
        } else {
            split_nth(s.skip(i + 1), sep, (n - 1) as nat)
        },
    }
}

proof fn lemma_find_char_absent(s: Seq<char>, c: char)
    requires
        forall|j: int| 0 <= j < s.len() ==> s[j] != c,
    ensures
        find_char(s, c) is None,
    decreases s.len(),
{
    if s.len() > 0 {
        lemma_find_char_absent(s.drop_first(), c);
    }
}

pub(crate) proof fn lemma_find_char_at(s: Seq<char>, c: char, i: int)
    requires
        0 <= i < s.len(),
        s[i] == c,
        forall|j: int| 0 <= j < i ==> s[j] != c,
    ensures
        find_char(s, c) == Some(i),
    decreases i,
{
    if i > 0 {
        lemma_find_char_at(s.drop_first(), c, i - 1);
    }
}

/// Position of the first `c` in `s`, scanning the characters in order.
pub(crate) fn find_char_exec(s: &str, c: char) -> (res: Option<usize>)
    ensures
        match res {
            Some(i) => find_char(s@, c) == Some(i as int) && i < s@.len(),
            None => find_char(s@, c) is None,
        },
{
    let n = s.unicode_len();
    let mut i: usize = 0;
    while i < n
        invariant
            n == s@.len(),
            i <= n,
            forall|j: int| 0 <= j < i ==> s@[j] != c,
        decreases n - i,
    {
        if s.get_char(i) == c {
            proof {
                lemma_find_char_at(s@, c, i as int);
            }
            return Some(i);
        }
        i = i + 1;
    }
    proof {
        lemma_find_char_absent(s@, c);
    }
    None
}

/// The text before the first `sep`, or all of `s`: `s.split(sep).next()`.
pub fn split_first(s: &str, sep: char) -> (res: &str)
    ensures
        split_nth(s@, sep, 0) == Some(res@),
{
    match find_char_exec(s, sep) {
        Some(i) => s.substring_char(0, i),
        None => {
            let n = s.unicode_len();
            let r = s.substring_char(0, n);
            proof {
                assert(r@ =~= s@);
            }
            r
        },
    }
}

/// The text between the first and the second `sep`: `s.split(sep).nth(1)`.
pub fn split_second(s: &str, sep: char) -> (res: Option<&str>)
    ensures
        match res {
            Some(r) => split_nth(s@, sep, 1) == Some(r@),
            None => split_nth(s@, sep, 1) is None,
        },
{
    match find_char_exec(s, sep) {
        None => None,
        Some(i) => {
            let n = s.unicode_len();
            let rest = s.substring_char(i + 1, n);
            proof {
                assert(rest@ =~= s@.skip(i + 1));
            }
            Some(split_first(rest, sep))
        },
    }
}

/// The channel suffix after the first `:`, as in `order_book:42`.
pub fn extract_channel_suffix(channel: &str) -> (res: Option<&str>)
    ensures
        match res {
            Some(r) => split_nth(channel@, ':', 1) == Some(r@),
            None => split_nth(channel@, ':', 1) is None,
        },
{
    split_second(channel, ':')
}

/// The market id of a token like `42` or `42/123`: the number before any `/`.
pub open spec fn market_id_token_spec(s: Seq<char>) -> Option<i64> {
    parse_i64_spec(split_nth(s, '/', 0).unwrap())
}

/// The market id of a channel: after a `:` if there is one, else after the first `/`.
pub open spec fn market_id_from_channel_spec(channel: Seq<char>) -> Option<i64> {
    match split_nth(channel, ':', 1) {
        Some(suffix) => market_id_token_spec(suffix),
        None => match split_nth(channel, '/', 1) {
            Some(token) => market_id_token_spec(token),
            None => None,
        },
    }
}

/// The account id of a channel like `user_stats/54255` or `user_stats:54255`.
pub open spec fn account_id_from_channel_spec(channel: Seq<char>) -> Option<i64> {
    match split_nth(channel, ':', 1) {
        Some(suffix) => parse_i64_spec(suffix),
        None => match split_nth(channel, '/', 1) {
            Some(token) => parse_i64_spec(token),
            None => None,
        },
    }
}

/// Parse market id from strings like "42" or "42/123".
pub fn parse_market_id_token(s: &str) -> (res: Option<i64>)
    ensures
        res == market_id_token_spec(s@),
{
    parse_i64(split_first(s, '/'))
}

/// Parse the market id of a channel such as `order_book:42` or `order_book/42`.
pub fn parse_market_id_from_channel(channel: &str) -> (res: Option<i64>)
    ensures
        res == market_id_from_channel_spec(channel@),
{
    if let Some(suffix) = extract_channel_suffix(channel) {
        return parse_market_id_token(suffix);
    }
    match split_second(channel, '/') {
        Some(token) => parse_market_id_token(token),
        None => None,
    }
}

/// Parse account id from channels like "user_stats/54255" or "user_stats:54255".
pub fn parse_account_id_from_channel(channel: &str) -> (res: Option<i64>)
    ensures
        res == account_id_from_channel_spec(channel@),
{
    if let Some(suffix) = extract_channel_suffix(channel) {
        return parse_i64(suffix);
    }
    match split_second(channel, '/') {
        Some(token) => parse_i64(token),
        None => None,
    }
}

/// Whether the channel name `name` can prefix an identifier: it holds neither `:` nor `/`.
pub open spec fn plain_channel_name(name: Seq<char>) -> bool {
    forall|j: int| 0 <= j < name.len() ==> name[j] != ':' && name[j] != '/'
}

proof fn lemma_text_has_no_separators(n: int)
    ensures
        forall|j: int| 0 <= j < int_text(n).len() ==> int_text(n)[j] != ':' && int_text(n)[j] != '/',
{
    lemma_int_text_chars(n);
    assert forall|j: int| 0 <= j < int_text(n).len() implies int_text(n)[j] != ':' && int_text(n)[j]
        != '/' by {
        assert(is_digit(int_text(n)[j]) || int_text(n)[j] == '-');
    }
}

/// A channel written as `name/id` is read back as `id`, both as a market id
/// and as an account id.
pub proof fn lemma_channel_id_roundtrip(name: Seq<char>, id: i64)
    requires
        plain_channel_name(name),
    ensures
        account_id_from_channel_spec(name + seq!['/'] + int_text(id as int)) == Some(id),
        market_id_from_channel_spec(name + seq!['/'] + int_text(id as int)) == Some(id),
{
    let t = int_text(id as int);
    let ch = name + seq!['/'] + t;
    lemma_text_has_no_separators(id as int);
    lemma_parse_format_roundtrip(id);
    assert forall|j: int| 0 <= j < ch.len() implies ch[j] != ':' by {
        if j < name.len() {
        } else if j == name.len() {
        } else {
            assert(ch[j] == t[j - name.len() - 1]);
        }
    }
    lemma_find_char_absent(ch, ':');
    lemma_find_char_at(ch, '/', name.len() as int);
    assert(ch.skip(name.len() as int + 1) =~= t);
    lemma_find_char_absent(t, '/');
    assert(split_nth(t, '/', 0) == Some(t));
    assert(split_nth(ch, '/', 1) == split_nth(t, '/', 0));
}

} // verus!
