//! Local state kept from websocket updates: order books per market and the
//! latest account payloads per account.

use vstd::prelude::*;

use std::collections::HashMap;

use crate::decimal::{
    decimal_key, is_zero_numeral, is_zero_numeral_exec, parses_as_number, parses_as_number_exec, lemma_lex_asymmetric,
    lemma_lex_irreflexive, lemma_lex_total, lemma_lex_transitive, lex_less, lex_lt, numeral_key,
    zero_key,
};
use crate::models::order::Order;
use crate::numeric::{append_i64, int_text};
use crate::models::order_book::PriceLevel;
use crate::models::ws::{
    WsAccountAllAssetsUpdate, WsAccountAllPositionsUpdate, WsAccountSpotAvgEntryPricesUpdate,
    WsOrderBook, WsOrderBookState, WsUserStatsUpdate,
};

verus! {

broadcast use vstd::std_specs::hash::group_hash_axioms;

// ---------------------------------------------------------------------------
// Price level deltas
// ---------------------------------------------------------------------------

/// The position of the first level whose price denotes the number with key `k`.
pub open spec fn level_position(levels: Seq<PriceLevel>, k: Seq<i128>) -> Option<int>
    decreases levels.len(),
{
    if levels.len() == 0 {
        None
    } else if decimal_key(levels[0].price@) == Some(k) {
        Some(0)
    } else {
        match level_position(levels.drop_first(), k) {
            Some(i) => Some(i + 1),
            None => None,
        }
    }
}

/// One delta applied to a list of levels. A delta whose price is not read
/// as a number is ignored. A delta of size zero removes the level at that
/// price; another delta replaces the size of the level at that price, or is
/// appended when no level has that price. A NaN price equals no price, so
/// such a delta is appended unless its size is zero.
pub open spec fn apply_delta(levels: Seq<PriceLevel>, delta: PriceLevel) -> Seq<PriceLevel> {
    match decimal_key(delta.price@) {
        None => if parses_as_number(delta.price@) && !is_zero_numeral(delta.size@) {
            levels.push(delta)
        } else {
            levels
        },
        Some(k) => {
            let removal = is_zero_numeral(delta.size@);
            match level_position(levels, k) {
                Some(i) => if removal {
                    levels.remove(i)
                } else {
                    levels.update(i, PriceLevel { price: levels[i].price, size: delta.size })
                },
                None => if removal {
                    levels
                } else {
                    levels.push(delta)
                },
            }
        },
    }
}

/// The deltas applied in order.
pub open spec fn apply_deltas(levels: Seq<PriceLevel>, deltas: Seq<PriceLevel>) -> Seq<PriceLevel>
    decreases deltas.len(),
{
    if deltas.len() == 0 {
        levels
    } else {
        apply_delta(apply_deltas(levels, deltas.drop_last()), deltas.last())
    }
}

proof fn lemma_level_position_found(levels: Seq<PriceLevel>, k: Seq<i128>, i: int)
    requires
        0 <= i < levels.len(),
        decimal_key(levels[i].price@) == Some(k),
        forall|j: int| 0 <= j < i ==> decimal_key(levels[j].price@) != Some(k),
    ensures
        level_position(levels, k) == Some(i),
    decreases i,
{
    if i > 0 {
        lemma_level_position_found(levels.drop_first(), k, i - 1);
    }
}

proof fn lemma_level_position_absent(levels: Seq<PriceLevel>, k: Seq<i128>)
    requires
        forall|j: int| 0 <= j < levels.len() ==> decimal_key(levels[j].price@) != Some(k),
    ensures
        level_position(levels, k) is None,
    decreases levels.len(),
{
    if levels.len() > 0 {
        lemma_level_position_absent(levels.drop_first(), k);
    }
}

/// Apply delta price levels to an existing price level list; see [`apply_deltas`].
fn apply_price_level_deltas(existing: &mut Vec<PriceLevel>, deltas: &[PriceLevel])
    ensures
        final(existing)@ == apply_deltas(old(existing)@, deltas@),
{
    let mut d: usize = 0;
    while d < deltas.len()
        invariant
            d <= deltas@.len(),
            existing@ == apply_deltas(old(existing)@, deltas@.take(d as int)),
        decreases deltas@.len() - d,
    {
        let delta = &deltas[d];
        proof {
            assert(deltas@.take(d + 1).drop_last() =~= deltas@.take(d as int));
            assert(deltas@.take(d + 1).last() == *delta);
        }
        let ghost before = existing@;
        match numeral_key(delta.price.as_str()) {
            None => {
                if parses_as_number_exec(delta.price.as_str()) && !is_zero_numeral_exec(
                    delta.size.as_str(),
                ) {
                    existing.push(delta.clone());
                }
            },
            Some(k) => {
                let removal = is_zero_numeral_exec(delta.size.as_str());
                let mut pos: usize = 0;
                let mut found = false;
                while pos < existing.len()
                    invariant_except_break
                        !found,
                    invariant
                        existing@ == before,
                        pos <= existing@.len(),
                        forall|j: int| 0 <= j < pos ==> decimal_key(#[trigger] existing@[j].price@)
                            != Some(k@),
                    ensures
                        found ==> pos < existing@.len() && decimal_key(existing@[pos as int].price@)
                            == Some(k@),
                        !found ==> pos == existing@.len(),
                    decreases existing@.len() - pos,
                {
                    let matches = match numeral_key(existing[pos].price.as_str()) {
                        Some(kp) => {
                            let a = lex_less(&kp, &k);
                            let b = lex_less(&k, &kp);
                            proof {
                                lemma_lex_total(kp@, k@);
                                lemma_lex_irreflexive(k@);
                            }
                            !a && !b
                        },
                        None => false,
                    };
                    if matches {
                        found = true;
                        break;
                    }
                    pos = pos + 1;
                }
                if found {
                    proof {
                        lemma_level_position_found(before, k@, pos as int);
                    }
                    if removal {
                        existing.remove(pos);
                    } else {
                        let price = existing[pos].price.clone();
                        existing.set(pos, PriceLevel { price, size: delta.size.clone() });
                    }
                } else {
                    proof {
                        lemma_level_position_absent(before, k@);
                    }
                    if !removal {
                        existing.push(delta.clone());
                    }
                }
            },
        }
        d = d + 1;
    }
    proof {
        assert(deltas@.take(d as int) =~= deltas@);
    }
}

// ---------------------------------------------------------------------------
// Sorting
// ---------------------------------------------------------------------------

/// The key a level is sorted by: its price, or zero when the price is not a
/// numeral or is NaN (the order a NaN price takes is not defined by a float
/// comparison; here it sorts as zero).
pub open spec fn sort_key(l: PriceLevel) -> Seq<i128> {
    match decimal_key(l.price@) {
        Some(k) => k,
        None => zero_key(),
    }
}

/// Whether `x` belongs strictly before `y`: a lower price when ascending, a
/// higher one when descending.
pub open spec fn goes_before(x: PriceLevel, y: PriceLevel, descending: bool) -> bool {
    if descending {
        lex_lt(sort_key(y), sort_key(x))
    } else {
        lex_lt(sort_key(x), sort_key(y))
    }
}

/// Where `x` is inserted into `t`: before the first level it goes before.
pub open spec fn insert_position(t: Seq<PriceLevel>, x: PriceLevel, descending: bool) -> int
    decreases t.len(),
{
    if t.len() == 0 {
        0
    } else if goes_before(x, t[0], descending) {
        0
    } else {
        1 + insert_position(t.drop_first(), x, descending)
    }
}

/// The levels sorted by price by insertion; levels with equal prices keep
/// their relative order.
pub open spec fn sort_levels(s: Seq<PriceLevel>, descending: bool) -> Seq<PriceLevel>
    decreases s.len(),
{
    if s.len() == 0 {
        s
    } else {
        let t = sort_levels(s.drop_last(), descending);
        t.insert(insert_position(t, s.last(), descending), s.last())
    }
}

/// No level goes before an earlier one.
pub open spec fn is_sorted_levels(s: Seq<PriceLevel>, descending: bool) -> bool {
    forall|i: int, j: int| 0 <= i < j < s.len() ==> !goes_before(s[j], s[i], descending)
}

proof fn lemma_insert_position_is(t: Seq<PriceLevel>, x: PriceLevel, descending: bool, j: int)
    requires
        0 <= j <= t.len(),
        forall|k: int| 0 <= k < j ==> !goes_before(x, #[trigger] t[k], descending),
        j == t.len() || goes_before(x, t[j], descending),
    ensures
        insert_position(t, x, descending) == j,
    decreases j,
{
    if j > 0 {
        assert(!goes_before(x, t[0], descending));
        lemma_insert_position_is(t.drop_first(), x, descending, j - 1);
    }
}

proof fn lemma_insert_position_bounds(t: Seq<PriceLevel>, x: PriceLevel, descending: bool)
    ensures
        0 <= insert_position(t, x, descending) <= t.len(),
        forall|k: int|
            0 <= k < insert_position(t, x, descending) ==> !goes_before(
                x,
                #[trigger] t[k],
                descending,
            ),
        insert_position(t, x, descending) < t.len() ==> goes_before(
            x,
            t[insert_position(t, x, descending)],
            descending,
        ),
    decreases t.len(),
{
    if t.len() > 0 && !goes_before(x, t[0], descending) {
        lemma_insert_position_bounds(t.drop_first(), x, descending);
        assert forall|k: int| 0 <= k < insert_position(t, x, descending) implies !goes_before(
            x,
            #[trigger] t[k],
            descending,
        ) by {
            if k > 0 {
                assert(t[k] == t.drop_first()[k - 1]);
            }
        }
    }
}

proof fn lemma_goes_before_transitive(a: PriceLevel, b: PriceLevel, c: PriceLevel, descending: bool)
    requires
        goes_before(a, b, descending),
        goes_before(b, c, descending),
    ensures
        goes_before(a, c, descending),
{
    if descending {
        lemma_lex_transitive(sort_key(c), sort_key(b), sort_key(a));
    } else {
        lemma_lex_transitive(sort_key(a), sort_key(b), sort_key(c));
    }
}

proof fn lemma_goes_before_total(a: PriceLevel, b: PriceLevel, descending: bool)
    ensures
        sort_key(a) == sort_key(b) || goes_before(a, b, descending) || goes_before(b, a, descending),
        !(goes_before(a, b, descending) && goes_before(b, a, descending)),
        sort_key(a) == sort_key(b) ==> !goes_before(a, b, descending),
{
    lemma_lex_total(sort_key(a), sort_key(b));
    lemma_lex_asymmetric(sort_key(a), sort_key(b));
    lemma_lex_irreflexive(sort_key(a));
}

/// Sorting by insertion yields a sorted permutation of the input.
pub proof fn lemma_sort_levels_sorted(s: Seq<PriceLevel>, descending: bool)
    ensures
        is_sorted_levels(sort_levels(s, descending), descending),
        sort_levels(s, descending).to_multiset() == s.to_multiset(),
        sort_levels(s, descending).len() == s.len(),
    decreases s.len(),
{
    broadcast use vstd::seq_lib::group_to_multiset_ensures;

    if s.len() > 0 {
        let t = sort_levels(s.drop_last(), descending);
        let x = s.last();
        lemma_sort_levels_sorted(s.drop_last(), descending);
        lemma_insert_position_bounds(t, x, descending);
        let p = insert_position(t, x, descending);
        let r = t.insert(p, x);
        assert(r == sort_levels(s, descending));
        assert forall|i: int, j: int| 0 <= i < j < r.len() implies !goes_before(
            r[j],
            r[i],
            descending,
        ) by {
            if j < p {
                assert(r[i] == t[i] && r[j] == t[j]);
            } else if j == p {
                assert(r[i] == t[i]);
                assert(!goes_before(x, t[i], descending));
            } else if i == p {
                // r[j] == t[j - 1] with j - 1 >= p: t[p] <= t[j - 1], and x before t[p].
                assert(r[j] == t[j - 1]);
                assert(goes_before(x, t[p], descending));
                if j - 1 > p {
                    assert(!goes_before(t[j - 1], t[p], descending));
                    lemma_goes_before_total(t[j - 1], t[p], descending);
                    if goes_before(t[p], t[j - 1], descending) {
                        lemma_goes_before_transitive(x, t[p], t[j - 1], descending);
                    } else {
                        assert(sort_key(t[p]) == sort_key(t[j - 1]));
                    }
                }
                lemma_goes_before_total(x, t[j - 1], descending);
            } else if i < p {
                assert(r[i] == t[i] && r[j] == t[j - 1]);
            } else {
                assert(r[i] == t[i - 1] && r[j] == t[j - 1]);
            }
        }
        assert(s =~= s.drop_last().push(x));
        vstd::seq_lib::to_multiset_insert(t, p, x);
        vstd::seq_lib::to_multiset_build(s.drop_last(), x);
    }
}

/// Insert every level of `levels` into a new list at its sorted position.
fn sort_price_levels(levels: &mut Vec<PriceLevel>, descending: bool)
    ensures
        final(levels)@ == sort_levels(old(levels)@, descending),
{
    let mut out: Vec<PriceLevel> = Vec::new();
    let mut keys: Vec<Vec<i128>> = Vec::new();
    let mut i: usize = 0;
    let zero: Vec<i128> = vec![1];
    proof {
        assert(zero@ =~= zero_key());
        assert(levels@.take(0) =~= Seq::<PriceLevel>::empty());
    }
    while i < levels.len()
        invariant
            i <= levels@.len(),
            levels@ == old(levels)@,
            zero@ == zero_key(),
            out@ == sort_levels(levels@.take(i as int), descending),
            keys@.len() == out@.len(),
            forall|j: int| 0 <= j < keys@.len() ==> (#[trigger] keys@[j])@ == sort_key(out@[j]),
        decreases levels@.len() - i,
    {
        let x = levels[i].clone();
        let kx = match numeral_key(x.price.as_str()) {
            Some(k) => k,
            None => zero.clone(),
        };
        proof {
            assert(kx@ == sort_key(x));
        }
        let mut pos: usize = 0;
        while pos < out.len()
            invariant
                pos <= out@.len(),
                keys@.len() == out@.len(),
                forall|j: int| 0 <= j < keys@.len() ==> (#[trigger] keys@[j])@ == sort_key(out@[j]),
                kx@ == sort_key(x),
                forall|k: int| 0 <= k < pos ==> !goes_before(x, #[trigger] out@[k], descending),
            ensures
                pos <= out@.len(),
                forall|k: int| 0 <= k < pos ==> !goes_before(x, #[trigger] out@[k], descending),
                pos == out@.len() || goes_before(x, out@[pos as int], descending),
            decreases out@.len() - pos,
        {
            let before = if descending {
                lex_less(&keys[pos], &kx)
            } else {
                lex_less(&kx, &keys[pos])
            };
            if before {
                break;
            }
            pos = pos + 1;
        }
        proof {
            lemma_insert_position_is(out@, x, descending, pos as int);
            assert(levels@.take(i + 1).drop_last() =~= levels@.take(i as int));
            assert(levels@.take(i + 1).last() == x);
        }
        let ghost keys_before = keys@;
        let ghost out_before = out@;
        out.insert(pos, x);
        keys.insert(pos, kx);
        proof {
            assert forall|j: int| 0 <= j < keys@.len() implies (#[trigger] keys@[j])@ == sort_key(
                out@[j],
            ) by {
                if j < pos {
                    assert(keys@[j] == keys_before[j] && out@[j] == out_before[j]);
                } else if j > pos {
                    assert(keys@[j] == keys_before[j - 1] && out@[j] == out_before[j - 1]);
                }
            }
        }
        i = i + 1;
    }
    proof {
        assert(levels@.take(i as int) =~= levels@);
    }
    *levels = out;
}

/// Sort asks ascending: the best (lowest) ask first.
fn sort_price_levels_ascending(levels: &mut Vec<PriceLevel>)
    ensures
        final(levels)@ == sort_levels(old(levels)@, false),
{
    sort_price_levels(levels, false);
}

/// Sort bids descending: the best (highest) bid first.
fn sort_price_levels_descending(levels: &mut Vec<PriceLevel>)
    ensures
        final(levels)@ == sort_levels(old(levels)@, true),
{
    sort_price_levels(levels, true);
}

// ---------------------------------------------------------------------------
// The order book handler
// ---------------------------------------------------------------------------

/// No two levels with a numeral price denote the same price.
pub open spec fn distinct_prices(levels: Seq<PriceLevel>) -> bool {
    forall|i: int, j: int|
        0 <= i < j < levels.len() && (decimal_key(levels[i].price@) is Some) ==> decimal_key(
            #[trigger] levels[i].price@,
        ) != decimal_key(#[trigger] levels[j].price@)
}

proof fn lemma_level_position_spec(levels: Seq<PriceLevel>, k: Seq<i128>)
    ensures
        match level_position(levels, k) {
            Some(i) => 0 <= i < levels.len() && decimal_key(levels[i].price@) == Some(k) && forall|
                j: int,
            | 0 <= j < i ==> decimal_key(#[trigger] levels[j].price@) != Some(k),
            None => forall|j: int|
                0 <= j < levels.len() ==> decimal_key(#[trigger] levels[j].price@) != Some(k),
        },
    decreases levels.len(),
{
    if levels.len() > 0 {
        lemma_level_position_spec(levels.drop_first(), k);
        if decimal_key(levels[0].price@) != Some(k) {
            match level_position(levels.drop_first(), k) {
                Some(i) => {
                    assert forall|j: int| 0 <= j < i + 1 implies decimal_key(
                        #[trigger] levels[j].price@,
                    ) != Some(k) by {
                        if j > 0 {
                            assert(levels[j] == levels.drop_first()[j - 1]);
                        }
                    }
                },
                None => {
                    assert forall|j: int| 0 <= j < levels.len() implies decimal_key(
                        #[trigger] levels[j].price@,
                    ) != Some(k) by {
                        if j > 0 {
                            assert(levels[j] == levels.drop_first()[j - 1]);
                        }
                    }
                },
            }
        }
    }
}

/// Applying a delta keeps the prices of a book distinct.
pub proof fn lemma_apply_delta_keeps_prices_distinct(levels: Seq<PriceLevel>, delta: PriceLevel)
    requires
        distinct_prices(levels),
    ensures
        distinct_prices(apply_delta(levels, delta)),
{
    if decimal_key(delta.price@) is None {
        let r = apply_delta(levels, delta);
        assert forall|i: int, j: int|
            0 <= i < j < r.len() && (decimal_key(r[i].price@) is Some) implies decimal_key(
            #[trigger] r[i].price@,
        ) != decimal_key(#[trigger] r[j].price@) by {
            if j == levels.len() {
                assert(r[j] == delta);
            } else {
                assert(r[i] == levels[i] && r[j] == levels[j]);
            }
        }
    }
    if let Some(k) = decimal_key(delta.price@) {
        lemma_level_position_spec(levels, k);
        let r = apply_delta(levels, delta);
        match level_position(levels, k) {
            Some(p) => {
                if is_zero_numeral(delta.size@) {
                    assert forall|i: int, j: int|
                        0 <= i < j < r.len() && (decimal_key(r[i].price@) is Some) implies decimal_key(
                        #[trigger] r[i].price@,
                    ) != decimal_key(#[trigger] r[j].price@) by {
                        let oi = if i < p { i } else { i + 1 };
                        let oj = if j < p { j } else { j + 1 };
                        assert(r[i] == levels[oi] && r[j] == levels[oj]);
                    }
                } else {
                    assert forall|i: int, j: int|
                        0 <= i < j < r.len() && (decimal_key(r[i].price@) is Some) implies decimal_key(
                        #[trigger] r[i].price@,
                    ) != decimal_key(#[trigger] r[j].price@) by {
                        assert(r[i].price == levels[i].price && r[j].price == levels[j].price);
                    }
                }
            },
            None => {
                if !is_zero_numeral(delta.size@) {
                    assert forall|i: int, j: int|
                        0 <= i < j < r.len() && (decimal_key(r[i].price@) is Some) implies decimal_key(
                        #[trigger] r[i].price@,
                    ) != decimal_key(#[trigger] r[j].price@) by {
                        if j == levels.len() {
                            assert(r[j] == delta);
                            assert(r[i] == levels[i]);
                        } else {
                            assert(r[i] == levels[i] && r[j] == levels[j]);
                        }
                    }
                }
            },
        }
    }
}

/// Applying deltas in turn keeps the prices of a book distinct.
pub proof fn lemma_apply_deltas_keeps_prices_distinct(levels: Seq<PriceLevel>, deltas: Seq<PriceLevel>)
    requires
        distinct_prices(levels),
    ensures
        distinct_prices(apply_deltas(levels, deltas)),
    decreases deltas.len(),
{
    if deltas.len() > 0 {
        lemma_apply_deltas_keeps_prices_distinct(levels, deltas.drop_last());
        lemma_apply_delta_keeps_prices_distinct(apply_deltas(levels, deltas.drop_last()), deltas.last());
    }
}

proof fn lemma_distinct_prefix(s: Seq<PriceLevel>)
    requires
        distinct_prices(s),
        s.len() > 0,
    ensures
        distinct_prices(s.drop_last()),
{
    let d = s.drop_last();
    assert forall|i: int, j: int|
        0 <= i < j < d.len() && (decimal_key(d[i].price@) is Some) implies decimal_key(
        #[trigger] d[i].price@,
    ) != decimal_key(#[trigger] d[j].price@) by {
        assert(d[i] == s[i] && d[j] == s[j]);
    }
}

/// Sorting keeps the prices of a book distinct.
pub proof fn lemma_sort_keeps_prices_distinct(s: Seq<PriceLevel>, descending: bool)
    requires
        distinct_prices(s),
    ensures
        distinct_prices(sort_levels(s, descending)),
    decreases s.len(),
{
    broadcast use vstd::seq_lib::group_to_multiset_ensures;

    if s.len() > 0 {
        let d = s.drop_last();
        let x = s.last();
        lemma_distinct_prefix(s);
        lemma_sort_keeps_prices_distinct(d, descending);
        lemma_sort_levels_sorted(d, descending);
        let t = sort_levels(d, descending);
        lemma_insert_position_bounds(t, x, descending);
        let p = insert_position(t, x, descending);
        let r = t.insert(p, x);
        assert(r == sort_levels(s, descending));
        // Every level of `t` is a level of `d`, whose prices differ from `x`'s.
        assert forall|k: int| 0 <= k < t.len() && (decimal_key(x.price@) is Some) implies decimal_key(
            #[trigger] t[k].price@,
        ) != decimal_key(x.price@) by {
            let y = t[k];
            assert(t.to_multiset().count(y) > 0);
            assert(d.to_multiset().count(y) > 0);
            assert(d.contains(y));
            let j = choose|j: int| 0 <= j < d.len() && d[j] == y;
            assert(d[j] == s[j]);
            assert(x == s[s.len() - 1]);
        }
        assert forall|i: int, j: int|
            0 <= i < j < r.len() && (decimal_key(r[i].price@) is Some) implies decimal_key(
            #[trigger] r[i].price@,
        ) != decimal_key(#[trigger] r[j].price@) by {
            if j < p {
                assert(r[i] == t[i] && r[j] == t[j]);
            } else if j == p {
                assert(r[i] == t[i] && r[j] == x);
            } else if i == p {
                assert(r[i] == x && r[j] == t[j - 1]);
            } else if i < p {
                assert(r[i] == t[i] && r[j] == t[j - 1]);
            } else {
                assert(r[i] == t[i - 1] && r[j] == t[j - 1]);
            }
        }
    }
}

/// An accepted delta keeps the prices of each side distinct.
pub proof fn lemma_accepted_update_keeps_prices_distinct(
    before: Map<i64, WsOrderBookState>,
    after: Map<i64, WsOrderBookState>,
    market_id: i64,
    update: WsOrderBook,
)
    requires
        accepted_update(before, after, market_id, update),
        distinct_prices(before[market_id].asks@),
        distinct_prices(before[market_id].bids@),
    ensures
        distinct_prices(after[market_id].asks@),
        distinct_prices(after[market_id].bids@),
{
    lemma_apply_deltas_keeps_prices_distinct(before[market_id].asks@, update.asks@);
    lemma_apply_deltas_keeps_prices_distinct(before[market_id].bids@, update.bids@);
    lemma_sort_keeps_prices_distinct(apply_deltas(before[market_id].asks@, update.asks@), false);
    lemma_sort_keeps_prices_distinct(apply_deltas(before[market_id].bids@, update.bids@), true);
}

/// A delta at a numeral price, on a book whose prices are distinct: a zero
/// size leaves no level at that price; another size leaves exactly one
/// level at that price, holding the delta's size.
pub proof fn lemma_apply_delta_sets_price(levels: Seq<PriceLevel>, delta: PriceLevel)
    requires
        distinct_prices(levels),
        decimal_key(delta.price@) is Some,
    ensures
        is_zero_numeral(delta.size@) ==> forall|i: int|
            0 <= i < apply_delta(levels, delta).len() ==> decimal_key(
                #[trigger] apply_delta(levels, delta)[i].price@,
            ) != decimal_key(delta.price@),
        !is_zero_numeral(delta.size@) ==> exists|i: int|
            0 <= i < apply_delta(levels, delta).len() && decimal_key(
                #[trigger] apply_delta(levels, delta)[i].price@,
            ) == decimal_key(delta.price@) && apply_delta(levels, delta)[i].size == delta.size,
{
    let k = decimal_key(delta.price@)->0;
    lemma_level_position_spec(levels, k);
    let r = apply_delta(levels, delta);
    match level_position(levels, k) {
        Some(p) => {
            if is_zero_numeral(delta.size@) {
                assert forall|i: int| 0 <= i < r.len() implies decimal_key(#[trigger] r[i].price@)
                    != decimal_key(delta.price@) by {
                    if i < p {
                        assert(r[i] == levels[i]);
                    } else {
                        assert(r[i] == levels[i + 1]);
                        assert(decimal_key(levels[p].price@) != decimal_key(levels[i + 1].price@));
                    }
                }
            } else {
                assert(decimal_key(r[p].price@) == decimal_key(delta.price@) && r[p].size == delta.size);
            }
        },
        None => {
            if !is_zero_numeral(delta.size@) {
                let last = levels.len() as int;
                assert(r[last] == delta);
                assert(decimal_key(r[last].price@) == decimal_key(delta.price@));
            }
        },
    }
}

/// One side of a book after a delta of a single level at a numeral price,
/// as an accepted update leaves it (deltas applied, then sorted): a zero
/// size leaves no level at that price; another size leaves a level at that
/// price holding the delta's size.
pub proof fn lemma_single_level_delta(levels: Seq<PriceLevel>, delta: PriceLevel, descending: bool)
    requires
        distinct_prices(levels),
        decimal_key(delta.price@) is Some,
    ensures
        is_zero_numeral(delta.size@) ==> forall|i: int|
            0 <= i < sort_levels(apply_deltas(levels, seq![delta]), descending).len() ==> decimal_key(
                #[trigger] sort_levels(apply_deltas(levels, seq![delta]), descending)[i].price@,
            ) != decimal_key(delta.price@),
        !is_zero_numeral(delta.size@) ==> exists|i: int|
            0 <= i < sort_levels(apply_deltas(levels, seq![delta]), descending).len() && decimal_key(
                #[trigger] sort_levels(apply_deltas(levels, seq![delta]), descending)[i].price@,
            ) == decimal_key(delta.price@) && sort_levels(
                apply_deltas(levels, seq![delta]),
                descending,
            )[i].size == delta.size,
{
    broadcast use vstd::seq_lib::group_to_multiset_ensures;

    let ds = seq![delta];
    assert(ds.drop_last() =~= Seq::<PriceLevel>::empty());
    assert(ds.last() == delta);
    assert(apply_deltas(levels, ds.drop_last()) == levels);
    let a = apply_deltas(levels, ds);
    assert(a == apply_delta(levels, delta));
    lemma_apply_delta_sets_price(levels, delta);
    lemma_sort_levels_sorted(a, descending);
    let r = sort_levels(a, descending);
    if is_zero_numeral(delta.size@) {
        assert forall|i: int| 0 <= i < r.len() implies decimal_key(#[trigger] r[i].price@)
            != decimal_key(delta.price@) by {
            let y = r[i];
            assert(r.to_multiset().count(y) > 0);
            assert(a.to_multiset().count(y) > 0);
            assert(a.contains(y));
            let j = choose|j: int| 0 <= j < a.len() && a[j] == y;
            assert(decimal_key(a[j].price@) != decimal_key(delta.price@));
        }
    } else {
        let j = choose|j: int|
            0 <= j < a.len() && decimal_key(#[trigger] a[j].price@) == decimal_key(delta.price@)
                && a[j].size == delta.size;
        let y = a[j];
        assert(a.contains(y));
        assert(a.to_multiset().count(y) > 0);
        assert(r.to_multiset().count(y) > 0);
        assert(r.contains(y));
        let i = choose|i: int| 0 <= i < r.len() && r[i] == y;
        assert(decimal_key(r[i].price@) == decimal_key(delta.price@) && r[i].size == delta.size);
    }
}

/// Every accepted delta leaves the asks in ascending and the bids in
/// descending order of price, so that the first level of each side is the best.
pub proof fn lemma_accepted_update_sorted(
    before: Map<i64, WsOrderBookState>,
    after: Map<i64, WsOrderBookState>,
    market_id: i64,
    update: WsOrderBook,
)
    requires
        accepted_update(before, after, market_id, update),
    ensures
        is_sorted_levels(after[market_id].asks@, false),
        is_sorted_levels(after[market_id].bids@, true),
{
    lemma_sort_levels_sorted(apply_deltas(before[market_id].asks@, update.asks@), false);
    lemma_sort_levels_sorted(apply_deltas(before[market_id].bids@, update.bids@), true);
}

/// What is read back after a store: storing `value` under `key` and reading
/// `key` gives `value`; reading any other key gives what it held before. This
/// is what `set_snapshot` then `get`, `set_state` then `get`, and
/// `set_orders_for_account` then `get_for_account` (with the pair as key)
/// promise, since each store inserts into the handler's map and each read
/// looks the map up.
pub proof fn lemma_store_then_read<K, V>(states: Map<K, V>, key: K, value: V, other: K)
    ensures
        states.insert(key, value).contains_key(key),
        states.insert(key, value)[key] == value,
        other != key ==> (states.insert(key, value).contains_key(other) <==> states.contains_key(other)),
        other != key && states.contains_key(other) ==> states.insert(key, value)[other] == states[other],
{
}

/// Why an order book delta could not be applied.
#[derive(Debug, Clone, Copy, PartialEq, Eq, Structural)]
pub enum OrderBookUpdateError {
    MissingSnapshot { market_id: i64 },
    NonContiguousNonce {
        market_id: i64,
        expected_begin_nonce: i64,
        actual_begin_nonce: i64,
        previous_nonce: i64,
    },
}

/// The text an order book update error reads as.
pub open spec fn update_error_text(e: OrderBookUpdateError) -> Seq<char> {
    match e {
        OrderBookUpdateError::MissingSnapshot { market_id } => "market "@ + int_text(market_id as int)
            + " received an order book delta before a snapshot"@,
        OrderBookUpdateError::NonContiguousNonce {
            market_id,
            expected_begin_nonce,
            actual_begin_nonce,
            previous_nonce,
        } => "market "@ + int_text(market_id as int) + " order book nonce gap: expected begin_nonce "@
            + int_text(expected_begin_nonce as int) + ", got "@ + int_text(actual_begin_nonce as int)
            + " (previous nonce "@ + int_text(previous_nonce as int) + ")"@,
    }
}

impl OrderBookUpdateError {
    /// The text the error reads as; see [`update_error_text`].
    pub fn to_text(&self) -> (res: String)
        ensures
            res@ == update_error_text(*self),
    {
        let mut out = String::from_str("market ");
        match self {
            OrderBookUpdateError::MissingSnapshot { market_id } => {
                append_i64(&mut out, *market_id);
                out.append(" received an order book delta before a snapshot");
            },
            OrderBookUpdateError::NonContiguousNonce {
                market_id,
                expected_begin_nonce,
                actual_begin_nonce,
                previous_nonce,
            } => {
                append_i64(&mut out, *market_id);
                out.append(" order book nonce gap: expected begin_nonce ");
                append_i64(&mut out, *expected_begin_nonce);
                out.append(", got ");
                append_i64(&mut out, *actual_begin_nonce);
                out.append(" (previous nonce ");
                append_i64(&mut out, *previous_nonce);
                out.append(")");
            },
        }
        proof {
            assert(out@ =~= update_error_text(*self));
        }
        out
    }
}

/// Manages local order book state from WebSocket delta updates.
#[derive(Debug)]
pub struct OrderBookHandler {
    states: HashMap<i64, WsOrderBookState>,
}

impl View for OrderBookHandler {
    type V = Map<i64, WsOrderBookState>;

    closed spec fn view(&self) -> Map<i64, WsOrderBookState> {
        self.states@
    }
}

/// The book after a contiguous delta: deltas applied, asks ascending and bids
/// descending by price, and the delta's nonce.
pub open spec fn updated_asks(state: WsOrderBookState, update: WsOrderBook) -> Seq<PriceLevel> {
    sort_levels(apply_deltas(state.asks@, update.asks@), false)
}

pub open spec fn updated_bids(state: WsOrderBookState, update: WsOrderBook) -> Seq<PriceLevel> {
    sort_levels(apply_deltas(state.bids@, update.bids@), true)
}

/// Why a delta for `market_id` is refused, if it is: no snapshot yet, or a
/// delta that does not begin at the stored nonce.
pub open spec fn update_error(states: Map<i64, WsOrderBookState>, market_id: i64, update: WsOrderBook) -> Option<
    OrderBookUpdateError,
> {
    if !states.contains_key(market_id) {
        Some(OrderBookUpdateError::MissingSnapshot { market_id })
    } else if update.begin_nonce != states[market_id].nonce {
        Some(
            OrderBookUpdateError::NonContiguousNonce {
                market_id,
                expected_begin_nonce: states[market_id].nonce,
                actual_begin_nonce: update.begin_nonce,
                previous_nonce: states[market_id].nonce,
            },
        )
    } else {
        None
    }
}

/// `after` is `before` with the delta accepted for `market_id`: only that
/// market changed, to the updated levels and the delta's nonce.
pub open spec fn accepted_update(
    before: Map<i64, WsOrderBookState>,
    after: Map<i64, WsOrderBookState>,
    market_id: i64,
    update: WsOrderBook,
) -> bool {
    &&& after.contains_key(market_id)
    &&& after == before.insert(market_id, after[market_id])
    &&& after[market_id].asks@ == updated_asks(before[market_id], update)
    &&& after[market_id].bids@ == updated_bids(before[market_id], update)
    &&& after[market_id].nonce == update.nonce
}

impl OrderBookHandler {
    /// A handler with no market.
    pub fn new() -> (res: Self)
        ensures
            res@ == Map::<i64, WsOrderBookState>::empty(),
    {
        OrderBookHandler { states: HashMap::new() }
    }

    /// Initialize or replace the full order book snapshot for a market.
    pub fn set_snapshot(&mut self, market_id: i64, state: WsOrderBookState)
        ensures
            final(self)@ == old(self)@.insert(market_id, state),
    {
        self.states.insert(market_id, state);
    }

    /// Get the current order book state for a market.
    pub fn get(&self, market_id: i64) -> (res: Option<&WsOrderBookState>)
        ensures
            match res {
                Some(s) => self@.contains_key(market_id) && *s == self@[market_id],
                None => !self@.contains_key(market_id),
            },
    {
        self.states.get(&market_id)
    }

    /// Apply a delta update to the local order book state.
    ///
    /// The delta is accepted only when the market has a snapshot and the
    /// delta begins at the stored nonce; otherwise the state is left as it
    /// was and the error says why. An accepted delta is applied to both
    /// sides, bids are sorted descending and asks ascending by price so that
    /// the first level is always the best one, and the delta's nonce becomes
    /// the stored nonce.
    pub fn apply_update(&mut self, market_id: i64, update: &WsOrderBook) -> (res: Result<
        &WsOrderBookState,
        OrderBookUpdateError,
    >)
        ensures
            match update_error(old(self)@, market_id, *update) {
                Some(e) => res == Err::<&WsOrderBookState, _>(e) && final(self)@ == old(self)@,
                None => (res matches Ok(s) && *s == final(self)@[market_id]) && accepted_update(
                    old(self)@,
                    final(self)@,
                    market_id,
                    *update,
                ),
            },
    {
        let removed = self.states.remove(&market_id);
        match removed {
            None => Err(OrderBookUpdateError::MissingSnapshot { market_id }),
            Some(mut state) => {
                if update.begin_nonce != state.nonce {
                    let previous = state.nonce;
                    self.states.insert(market_id, state);
                    proof {
                        assert(self.states@ =~= old(self)@);
                    }
                    return Err(
                        OrderBookUpdateError::NonContiguousNonce {
                            market_id,
                            expected_begin_nonce: previous,
                            actual_begin_nonce: update.begin_nonce,
                            previous_nonce: previous,
                        },
                    );
                }
                apply_price_level_deltas(&mut state.asks, update.asks.as_slice());
                apply_price_level_deltas(&mut state.bids, update.bids.as_slice());
                sort_price_levels_ascending(&mut state.asks);
                sort_price_levels_descending(&mut state.bids);
                state.nonce = update.nonce;
                self.states.insert(market_id, state);
                proof {
                    assert(self.states@ =~= old(self)@.insert(market_id, state));
                }
                match self.states.get(&market_id) {
                    Some(s) => Ok(s),
                    None => Err(OrderBookUpdateError::MissingSnapshot { market_id }),
                }
            },
        }
    }
}

// ---------------------------------------------------------------------------
// Account orders
// ---------------------------------------------------------------------------

/// Manages local account orders state from WebSocket updates: a global view
/// by market, and a precise view by account and market.
#[derive(Debug)]
pub struct AccountOrdersHandler {
    states_by_market: HashMap<i64, Vec<Order>>,
    states_by_account: HashMap<i64, HashMap<i64, Vec<Order>>>,
}

impl AccountOrdersHandler {
    /// The orders stored per market.
    pub closed spec fn by_market(&self) -> Map<i64, Seq<Order>> {
        self.states_by_market@.map_values(|v: Vec<Order>| v@)
    }

    /// The orders stored per (account, market) pair.
    pub closed spec fn by_account_market(&self) -> Map<(i64, i64), Seq<Order>> {
        Map::new(
            |k: (i64, i64)|
                self.states_by_account@.contains_key(k.0) && self.states_by_account@[k.0]@.contains_key(k.1),
            |k: (i64, i64)| self.states_by_account@[k.0]@[k.1]@,
        )
    }

    /// A handler with no orders.
    pub fn new() -> (res: Self)
        ensures
            res.by_market() == Map::<i64, Seq<Order>>::empty(),
            res.by_account_market() == Map::<(i64, i64), Seq<Order>>::empty(),
    {
        let res = AccountOrdersHandler {
            states_by_market: HashMap::new(),
            states_by_account: HashMap::new(),
        };
        proof {
            assert(res.by_market() =~= Map::<i64, Seq<Order>>::empty());
            assert(res.by_account_market() =~= Map::<(i64, i64), Seq<Order>>::empty());
        }
        res
    }

    /// Set or replace the orders for a market.
    pub fn set_orders(&mut self, market_id: i64, orders: Vec<Order>)
        ensures
            final(self).by_market() == old(self).by_market().insert(market_id, orders@),
            final(self).by_account_market() == old(self).by_account_market(),
    {
        self.states_by_market.insert(market_id, orders);
        proof {
            assert(self.by_market() =~= old(self).by_market().insert(market_id, orders@));
            assert(self.by_account_market() =~= old(self).by_account_market());
        }
    }

    /// Set or replace the orders for an (account, market) pair; the orders of
    /// every other pair are left as they were.
    pub fn set_orders_for_account(&mut self, account_id: i64, market_id: i64, orders: Vec<Order>)
        ensures
            final(self).by_account_market() == old(self).by_account_market().insert(
                (account_id, market_id),
                orders@,
            ),
            final(self).by_market() == old(self).by_market(),
    {
        let ghost old_outer = self.states_by_account@;
        let ghost orders_view = orders@;
        let mut inner = match self.states_by_account.remove(&account_id) {
            Some(inner) => inner,
            None => HashMap::new(),
        };
        let ghost old_inner = inner@;
        inner.insert(market_id, orders);
        self.states_by_account.insert(account_id, inner);
        proof {
            assert(old_outer.contains_key(account_id) ==> old_inner == old_outer[account_id]@);
            assert(!old_outer.contains_key(account_id) ==> old_inner == Map::<i64, Vec<Order>>::empty());
            assert(self.by_account_market() =~= old(self).by_account_market().insert(
                (account_id, market_id),
                orders_view,
            ));
            assert(self.by_market() =~= old(self).by_market());
        }
    }

    /// Get the current orders for a market.
    pub fn get(&self, market_id: i64) -> (res: Option<&Vec<Order>>)
        ensures
            match res {
                Some(v) => self.by_market().contains_key(market_id) && v@ == self.by_market()[market_id],
                None => !self.by_market().contains_key(market_id),
            },
    {
        self.states_by_market.get(&market_id)
    }

    /// Get the current orders for an (account, market) pair.
    pub fn get_for_account(&self, account_id: i64, market_id: i64) -> (res: Option<&Vec<Order>>)
        ensures
            match res {
                Some(v) => self.by_account_market().contains_key((account_id, market_id)) && v@
                    == self.by_account_market()[(account_id, market_id)],
                None => !self.by_account_market().contains_key((account_id, market_id)),
            },
    {
        match self.states_by_account.get(&account_id) {
            Some(inner) => inner.get(&market_id),
            None => None,
        }
    }
}

// ---------------------------------------------------------------------------
// Account-all-positions
// ---------------------------------------------------------------------------

/// Manages the latest account_all_positions payload per account from WebSocket updates.
#[derive(Debug)]
pub struct AccountAllPositionsHandler {
    states: HashMap<i64, WsAccountAllPositionsUpdate>,
}

impl View for AccountAllPositionsHandler {
    type V = Map<i64, WsAccountAllPositionsUpdate>;

    closed spec fn view(&self) -> Map<i64, WsAccountAllPositionsUpdate> {
        self.states@
    }
}

impl AccountAllPositionsHandler {
    /// A handler with no account.
    pub fn new() -> (res: Self)
        ensures
            res@ == Map::<i64, WsAccountAllPositionsUpdate>::empty(),
    {
        AccountAllPositionsHandler { states: HashMap::new() }
    }

    /// Set or replace the latest account_all_positions payload of an account.
    pub fn set_state(&mut self, account_id: i64, state: WsAccountAllPositionsUpdate)
        ensures
            final(self)@ == old(self)@.insert(account_id, state),
    {
        self.states.insert(account_id, state);
    }

    /// Get the latest account_all_positions payload of an account.
    pub fn get(&self, account_id: i64) -> (res: Option<&WsAccountAllPositionsUpdate>)
        ensures
            match res {
                Some(s) => self@.contains_key(account_id) && *s == self@[account_id],
                None => !self@.contains_key(account_id),
            },
    {
        self.states.get(&account_id)
    }
}

// ---------------------------------------------------------------------------
// Account-all-assets
// ---------------------------------------------------------------------------

/// Manages the latest account_all_assets payload per account from WebSocket updates.
#[derive(Debug)]
pub struct AccountAllAssetsHandler {
    states: HashMap<i64, WsAccountAllAssetsUpdate>,
}

impl View for AccountAllAssetsHandler {
    type V = Map<i64, WsAccountAllAssetsUpdate>;

    closed spec fn view(&self) -> Map<i64, WsAccountAllAssetsUpdate> {
        self.states@
    }
}

impl AccountAllAssetsHandler {
    /// A handler with no account.
    pub fn new() -> (res: Self)
        ensures
            res@ == Map::<i64, WsAccountAllAssetsUpdate>::empty(),
    {
        AccountAllAssetsHandler { states: HashMap::new() }
    }

    /// Set or replace the latest account_all_assets payload of an account.
    pub fn set_state(&mut self, account_id: i64, state: WsAccountAllAssetsUpdate)
        ensures
            final(self)@ == old(self)@.insert(account_id, state),
    {
        self.states.insert(account_id, state);
    }

    /// Get the latest account_all_assets payload of an account.
    pub fn get(&self, account_id: i64) -> (res: Option<&WsAccountAllAssetsUpdate>)
        ensures
            match res {
                Some(s) => self@.contains_key(account_id) && *s == self@[account_id],
                None => !self@.contains_key(account_id),
            },
    {
        self.states.get(&account_id)
    }
}

// ---------------------------------------------------------------------------
// Account-spot-avg-entry-prices
// ---------------------------------------------------------------------------

/// Manages the latest account_spot_avg_entry_prices payload per account from WebSocket updates.
#[derive(Debug)]
pub struct AccountSpotAvgEntryPricesHandler {
    states: HashMap<i64, WsAccountSpotAvgEntryPricesUpdate>,
}

impl View for AccountSpotAvgEntryPricesHandler {
    type V = Map<i64, WsAccountSpotAvgEntryPricesUpdate>;

    closed spec fn view(&self) -> Map<i64, WsAccountSpotAvgEntryPricesUpdate> {
        self.states@
    }
}

impl AccountSpotAvgEntryPricesHandler {
    /// A handler with no account.
    pub fn new() -> (res: Self)
        ensures
            res@ == Map::<i64, WsAccountSpotAvgEntryPricesUpdate>::empty(),
    {
        AccountSpotAvgEntryPricesHandler { states: HashMap::new() }
    }

    /// Set or replace the latest account_spot_avg_entry_prices payload of an account.
    pub fn set_state(&mut self, account_id: i64, state: WsAccountSpotAvgEntryPricesUpdate)
        ensures
            final(self)@ == old(self)@.insert(account_id, state),
    {
        self.states.insert(account_id, state);
    }

    /// Get the latest account_spot_avg_entry_prices payload of an account.
    pub fn get(&self, account_id: i64) -> (res: Option<&WsAccountSpotAvgEntryPricesUpdate>)
        ensures
            match res {
                Some(s) => self@.contains_key(account_id) && *s == self@[account_id],
                None => !self@.contains_key(account_id),
            },
    {
        self.states.get(&account_id)
    }
}

// ---------------------------------------------------------------------------
// User stats
// ---------------------------------------------------------------------------

/// Manages the latest user stats per account from WebSocket updates.
#[derive(Debug)]
pub struct UserStatsHandler {
    states: HashMap<i64, WsUserStatsUpdate>,
}

impl View for UserStatsHandler {
    type V = Map<i64, WsUserStatsUpdate>;

    closed spec fn view(&self) -> Map<i64, WsUserStatsUpdate> {
        self.states@
    }
}

impl UserStatsHandler {
    /// A handler with no account.
    pub fn new() -> (res: Self)
        ensures
            res@ == Map::<i64, WsUserStatsUpdate>::empty(),
    {
        UserStatsHandler { states: HashMap::new() }
    }

    /// Set or replace the latest user stats of an account.
    pub fn set_state(&mut self, account_id: i64, state: WsUserStatsUpdate)
        ensures
            final(self)@ == old(self)@.insert(account_id, state),
    {
        self.states.insert(account_id, state);
    }

    /// Get the latest user stats of an account.
    pub fn get(&self, account_id: i64) -> (res: Option<&WsUserStatsUpdate>)
        ensures
            match res {
                Some(s) => self@.contains_key(account_id) && *s == self@[account_id],
                None => !self@.contains_key(account_id),
            },
    {
        self.states.get(&account_id)
    }
}

} // verus!
