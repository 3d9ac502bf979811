//! Which market statistics a `market_stats` message carries.
//!
//! The statistics arrive under `market_stats` (or `market`) either as one
//! market object or as an object keyed by market. Decoding a market's
//! statistics reads floats and stays with the caller; what is decided here
//! is the shape: which objects become updates, and which market each one is
//! for.

use vstd::prelude::*;

use crate::numeric::{parse_i64, parse_i64_spec};
use crate::text::str_eq;

verus! {

/// The fields whose presence marks an object as the statistics of one market.
pub open spec fn is_market_field(key: Seq<char>) -> bool {
    ||| key == "market_id"@
    ||| key == "symbol"@
    ||| key == "mark_price"@
    ||| key == "index_price"@
    ||| key == "last_trade_price"@
    ||| key == "current_funding_rate"@
}

/// Whether an object with the field names `keys` is the statistics of one
/// market rather than an object keyed by market.
pub open spec fn is_single_market(keys: Seq<String>) -> bool {
    exists|i: int| 0 <= i < keys.len() && is_market_field(#[trigger] keys[i]@)
}

/// Whether `key` is one of the fields of a single market's statistics.
fn is_market_field_exec(key: &str) -> (res: bool)
    ensures
        res == is_market_field(key@),
{
    str_eq(key, "market_id") || str_eq(key, "symbol") || str_eq(key, "mark_price") || str_eq(
        key,
        "index_price",
    ) || str_eq(key, "last_trade_price") || str_eq(key, "current_funding_rate")
}

/// Whether an object with the field names `keys` is the statistics of one
/// market; see [`is_single_market`].
pub fn is_single_market_object(keys: &Vec<String>) -> (res: bool)
    ensures
        res == is_single_market(keys@),
{
    let mut i: usize = 0;
    while i < keys.len()
        invariant
            i <= keys@.len(),
            forall|j: int| 0 <= j < i ==> !is_market_field(#[trigger] keys@[j]@),
        decreases keys@.len() - i,
    {
        if is_market_field_exec(keys[i].as_str()) {
            return true;
        }
        i = i + 1;
    }
    false
}

/// One entry of an object keyed by market: its key, whether its value is an
/// object, whether that object decodes as a market's statistics, and the
/// market id the decoded statistics carry.
#[derive(Debug, Clone)]
pub struct MarketStatsEntry {
    pub key: String,
    pub is_object: bool,
    pub decodes: bool,
    pub market_id: Option<i64>,
}

/// How a message carries its market statistics.
#[derive(Debug, Clone)]
pub enum MarketStatsPayload {
    /// Neither `market_stats` nor `market` is present.
    Absent,
    /// One market's statistics; `decodes` tells whether they decode.
    Single { decodes: bool },
    /// An object keyed by market, its entries in the order they came.
    Keyed(Vec<MarketStatsEntry>),
    /// Any other value.
    Other,
}

/// Where one update comes from.
#[derive(Debug, Clone, Copy, PartialEq, Eq, Structural)]
pub enum MarketStatsPick {
    /// The single market object.
    Single,
    /// The entry at `index`, for the market `market_id`.
    Entry { index: usize, market_id: Option<i64> },
}

/// The market an entry is for: the id its statistics carry, or else its key
/// read as an integer.
pub open spec fn entry_market_id(e: MarketStatsEntry) -> Option<i64> {
    match e.market_id {
        Some(id) => Some(id),
        None => parse_i64_spec(e.key@),
    }
}

/// The updates of the first `n` entries: one for each entry whose value is
/// an object that decodes, in order.
pub open spec fn keyed_picks(entries: Seq<MarketStatsEntry>, n: int) -> Seq<MarketStatsPick>
    decreases n,
{
    if n <= 0 {
        Seq::empty()
    } else {
        let e = entries[n - 1];
        if e.is_object && e.decodes {
            keyed_picks(entries, n - 1).push(
                MarketStatsPick::Entry { index: (n - 1) as usize, market_id: entry_market_id(e) },
            )
        } else {
            keyed_picks(entries, n - 1)
        }
    }
}

/// The updates a payload gives: the single market when it decodes, one per
/// decoding object entry of a keyed payload, and none otherwise.
pub open spec fn market_stats_picks(payload: MarketStatsPayload) -> Seq<MarketStatsPick> {
    match payload {
        MarketStatsPayload::Single { decodes } => if decodes {
            seq![MarketStatsPick::Single]
        } else {
            Seq::empty()
        },
        MarketStatsPayload::Keyed(entries) => keyed_picks(entries@, entries@.len() as int),
        _ => Seq::empty(),
    }
}

/// The updates a payload gives; see [`market_stats_picks`].
pub fn market_stats_updates(payload: &MarketStatsPayload) -> (res: Vec<MarketStatsPick>)
    ensures
        res@ == market_stats_picks(*payload),
{
    let mut picks: Vec<MarketStatsPick> = Vec::new();
    match payload {
        MarketStatsPayload::Single { decodes } => {
            if *decodes {
                picks.push(MarketStatsPick::Single);
            }
            proof {
                assert(picks@ =~= market_stats_picks(*payload));
            }
        },
        MarketStatsPayload::Keyed(entries) => {
            let mut i: usize = 0;
            while i < entries.len()
                invariant
                    i <= entries@.len(),
                    picks@ == keyed_picks(entries@, i as int),
                decreases entries@.len() - i,
            {
                let e = &entries[i];
                if e.is_object && e.decodes {
                    let market_id = match e.market_id {
                        Some(id) => Some(id),
                        None => parse_i64(e.key.as_str()),
                    };
                    picks.push(MarketStatsPick::Entry { index: i, market_id });
                }
                i = i + 1;
            }
        },
        _ => {
            proof {
                assert(picks@ =~= market_stats_picks(*payload));
            }
        },
    }
    picks
}

} // verus!
