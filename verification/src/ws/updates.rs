//! What a websocket client does with each message it receives: which kind of
//! message a `type` names, and how a decoded update changes the local state.
//! The caller decodes the JSON, runs the callbacks and talks to the socket.

use vstd::prelude::*;

use crate::error::SdkError;
use crate::models::order::Order;
use crate::models::ws::{
    WsAccountAllAssetsUpdate, WsAccountAllPositionsUpdate, WsAccountSpotAvgEntryPricesUpdate,
    WsOrderBookMessage, WsOrderBookState, WsUserStatsUpdate,
};
use crate::numeric::{append_i64, int_text};
use crate::text::str_eq;
use crate::ws::channel::{
    account_id_from_channel_spec, market_id_from_channel_spec, market_id_token_spec,
    parse_account_id_from_channel, parse_market_id_from_channel, parse_market_id_token,
};
use crate::ws::handler::{
    accepted_update, update_error, update_error_text, AccountAllAssetsHandler,
    AccountAllPositionsHandler, AccountOrdersHandler, AccountSpotAvgEntryPricesHandler,
    OrderBookHandler, UserStatsHandler,
};

verus! {

broadcast use vstd::std_specs::hash::group_hash_axioms;

/// The kinds of text message the exchange sends on the websocket.
#[derive(Debug, Clone, Copy, PartialEq, Eq, Structural)]
pub enum WsMessageKind {
    Connected,
    Ping,
    OrderBookSnapshot,
    OrderBookUpdate,
    Ticker,
    AccountAll,
    AccountAllPositions,
    AccountAllAssets,
    AccountSpotAvgEntryPrices,
    AccountAllTrades,
    UserStats,
    MarketStats,
    AccountOrders,
    AccountAllOrders,
    Unhandled,
}

/// The kind of message a `type` names; `subscribed/x` and `update/x` name
/// the same kind, except for order books, whose snapshot and delta differ.
pub open spec fn message_kind(t: Seq<char>) -> WsMessageKind {
    if t == "connected"@ {
        WsMessageKind::Connected
    } else if t == "ping"@ {
        WsMessageKind::Ping
    } else if t == "subscribed/order_book"@ {
        WsMessageKind::OrderBookSnapshot
    } else if t == "update/order_book"@ {
        WsMessageKind::OrderBookUpdate
    } else if t == "subscribed/ticker"@ || t == "update/ticker"@ {
        WsMessageKind::Ticker
    } else if t == "subscribed/account_all"@ || t == "update/account_all"@ {
        WsMessageKind::AccountAll
    } else if t == "subscribed/account_all_positions"@ || t == "update/account_all_positions"@ {
        WsMessageKind::AccountAllPositions
    } else if t == "subscribed/account_all_assets"@ || t == "update/account_all_assets"@ {
        WsMessageKind::AccountAllAssets
    } else if t == "subscribed/account_spot_avg_entry_prices"@
        || t == "update/account_spot_avg_entry_prices"@ {
        WsMessageKind::AccountSpotAvgEntryPrices
    } else if t == "subscribed/account_all_trades"@ || t == "update/account_all_trades"@ {
        WsMessageKind::AccountAllTrades
    } else if t == "subscribed/user_stats"@ || t == "update/user_stats"@ {
        WsMessageKind::UserStats
    } else if t == "subscribed/market_stats"@ || t == "update/market_stats"@ {
        WsMessageKind::MarketStats
    } else if t == "subscribed/account_orders"@ || t == "update/account_orders"@ {
        WsMessageKind::AccountOrders
    } else if t == "subscribed/account_all_orders"@ || t == "update/account_all_orders"@ {
        WsMessageKind::AccountAllOrders
    } else {
        WsMessageKind::Unhandled
    }
}

/// The kind of message a `type` names; see [`message_kind`].
pub fn classify_message_type(msg_type: &str) -> (res: WsMessageKind)
    ensures
        res == message_kind(msg_type@),
{
    if str_eq(msg_type, "connected") {
        WsMessageKind::Connected
    } else if str_eq(msg_type, "ping") {
        WsMessageKind::Ping
    } else if str_eq(msg_type, "subscribed/order_book") {
        WsMessageKind::OrderBookSnapshot
    } else if str_eq(msg_type, "update/order_book") {
        WsMessageKind::OrderBookUpdate
    } else if str_eq(msg_type, "subscribed/ticker") || str_eq(msg_type, "update/ticker") {
        WsMessageKind::Ticker
    } else if str_eq(msg_type, "subscribed/account_all") || str_eq(msg_type, "update/account_all") {
        WsMessageKind::AccountAll
    } else if str_eq(msg_type, "subscribed/account_all_positions") || str_eq(
        msg_type,
        "update/account_all_positions",
    ) {
        WsMessageKind::AccountAllPositions
    } else if str_eq(msg_type, "subscribed/account_all_assets") || str_eq(
        msg_type,
        "update/account_all_assets",
    ) {
        WsMessageKind::AccountAllAssets
    } else if str_eq(msg_type, "subscribed/account_spot_avg_entry_prices") || str_eq(
        msg_type,
        "update/account_spot_avg_entry_prices",
    ) {
        WsMessageKind::AccountSpotAvgEntryPrices
    } else if str_eq(msg_type, "subscribed/account_all_trades") || str_eq(
        msg_type,
        "update/account_all_trades",
    ) {
        WsMessageKind::AccountAllTrades
    } else if str_eq(msg_type, "subscribed/user_stats") || str_eq(msg_type, "update/user_stats") {
        WsMessageKind::UserStats
    } else if str_eq(msg_type, "subscribed/market_stats") || str_eq(msg_type, "update/market_stats") {
        WsMessageKind::MarketStats
    } else if str_eq(msg_type, "subscribed/account_orders") || str_eq(
        msg_type,
        "update/account_orders",
    ) {
        WsMessageKind::AccountOrders
    } else if str_eq(msg_type, "subscribed/account_all_orders") || str_eq(
        msg_type,
        "update/account_all_orders",
    ) {
        WsMessageKind::AccountAllOrders
    } else {
        WsMessageKind::Unhandled
    }
}

/// The error a client without any subscription reports when asked to run.
pub fn no_subscriptions_error() -> (res: SdkError)
    ensures
        res matches SdkError::Other(m) && m@ == "No subscriptions provided"@,
{
    SdkError::Other(String::from_str("No subscriptions provided"))
}

// ---------------------------------------------------------------------------
// Order books
// ---------------------------------------------------------------------------

/// Store an order book snapshot under the market its channel names. Returns
/// that market, or `None` (and nothing changes) when the channel names none.
pub fn apply_order_book_snapshot(handler: &mut OrderBookHandler, msg: &WsOrderBookMessage) -> (res:
    Option<i64>)
    ensures
        res == market_id_from_channel_spec(msg.channel@),
        res is None ==> final(handler)@ == old(handler)@,
        res matches Some(id) ==> {
            &&& final(handler)@.contains_key(id)
            &&& final(handler)@ == old(handler)@.insert(id, final(handler)@[id])
            &&& final(handler)@[id].asks@ == msg.order_book.asks@
            &&& final(handler)@[id].bids@ == msg.order_book.bids@
            &&& final(handler)@[id].nonce == msg.order_book.nonce
        },
{
    match parse_market_id_from_channel(msg.channel.as_str()) {
        None => None,
        Some(market_id) => {
            let state = WsOrderBookState::from_order_book(&msg.order_book);
            handler.set_snapshot(market_id, state);
            Some(market_id)
        },
    }
}

/// The text of a refused order book delta for `market_id`.
pub open spec fn refused_update_text(market_id: i64, e: crate::ws::handler::OrderBookUpdateError) -> Seq<
    char,
> {
    "failed to apply order book update for market "@ + int_text(market_id as int) + ": "@
        + update_error_text(e)
}

/// Apply an order book delta to the market its channel names.
///
/// With no market in the channel nothing changes and the answer is
/// `Ok(None)`. A refused delta leaves the state as it was and becomes an
/// `Other` error naming the market and the reason. An accepted delta gives
/// `Ok(Some(market))`.
pub fn apply_order_book_delta(handler: &mut OrderBookHandler, msg: &WsOrderBookMessage) -> (res:
    Result<Option<i64>, SdkError>)
    ensures
        match market_id_from_channel_spec(msg.channel@) {
            None => res == Ok::<Option<i64>, SdkError>(None) && final(handler)@ == old(handler)@,
            Some(id) => match update_error(old(handler)@, id, msg.order_book) {
                Some(e) => (res matches Err(SdkError::Other(m)) && m@ == refused_update_text(id, e))
                    && final(handler)@ == old(handler)@,
                None => res == Ok::<Option<i64>, SdkError>(Some(id)) && accepted_update(
                    old(handler)@,
                    final(handler)@,
                    id,
                    msg.order_book,
                ),
            },
        },
{
    match parse_market_id_from_channel(msg.channel.as_str()) {
        None => Ok(None),
        Some(market_id) => {
            match handler.apply_update(market_id, &msg.order_book) {
                Ok(_) => Ok(Some(market_id)),
                Err(e) => {
                    let mut text = String::from_str("failed to apply order book update for market ");
                    append_i64(&mut text, market_id);
                    text.append(": ");
                    let reason = e.to_text();
                    text.append(reason.as_str());
                    proof {
                        assert(text@ =~= refused_update_text(market_id, e));
                    }
                    Err(SdkError::Other(text))
                },
            }
        },
    }
}

// ---------------------------------------------------------------------------
// Account payloads keyed by the account in the channel
// ---------------------------------------------------------------------------

/// Store an `account_all_positions` payload under the account its channel
/// names; returns that account, or `None` when the channel names none.
pub fn apply_account_all_positions(
    handler: &mut AccountAllPositionsHandler,
    msg: WsAccountAllPositionsUpdate,
) -> (res: Option<i64>)
    ensures
        res == account_id_from_channel_spec(msg.channel@),
        res is None ==> final(handler)@ == old(handler)@,
        res matches Some(id) ==> final(handler)@ == old(handler)@.insert(id, msg),
{
    match parse_account_id_from_channel(msg.channel.as_str()) {
        None => None,
        Some(id) => {
            handler.set_state(id, msg);
            Some(id)
        },
    }
}

/// Store an `account_all_assets` payload under the account its channel
/// names; returns that account, or `None` when the channel names none.
pub fn apply_account_all_assets(handler: &mut AccountAllAssetsHandler, msg: WsAccountAllAssetsUpdate) -> (res:
    Option<i64>)
    ensures
        res == account_id_from_channel_spec(msg.channel@),
        res is None ==> final(handler)@ == old(handler)@,
        res matches Some(id) ==> final(handler)@ == old(handler)@.insert(id, msg),
{
    match parse_account_id_from_channel(msg.channel.as_str()) {
        None => None,
        Some(id) => {
            handler.set_state(id, msg);
            Some(id)
        },
    }
}

/// Store an `account_spot_avg_entry_prices` payload under the account its
/// channel names; returns that account, or `None` when the channel names none.
pub fn apply_account_spot_avg_entry_prices(
    handler: &mut AccountSpotAvgEntryPricesHandler,
    msg: WsAccountSpotAvgEntryPricesUpdate,
) -> (res: Option<i64>)
    ensures
        res == account_id_from_channel_spec(msg.channel@),
        res is None ==> final(handler)@ == old(handler)@,
        res matches Some(id) ==> final(handler)@ == old(handler)@.insert(id, msg),
{
    match parse_account_id_from_channel(msg.channel.as_str()) {
        None => None,
        Some(id) => {
            handler.set_state(id, msg);
            Some(id)
        },
    }
}

/// Store a `user_stats` payload under the account its channel names;
/// returns that account, or `None` when the channel names none.
pub fn apply_user_stats(handler: &mut UserStatsHandler, msg: WsUserStatsUpdate) -> (res: Option<i64>)
    ensures
        res == account_id_from_channel_spec(msg.channel@),
        res is None ==> final(handler)@ == old(handler)@,
        res matches Some(id) ==> final(handler)@ == old(handler)@.insert(id, msg),
{
    match parse_account_id_from_channel(msg.channel.as_str()) {
        None => None,
        Some(id) => {
            handler.set_state(id, msg);
            Some(id)
        },
    }
}

// ---------------------------------------------------------------------------
// Orders
// ---------------------------------------------------------------------------

/// The market of the first key, in order, that names one.
pub open spec fn first_market_key(entries: Seq<(String, Vec<Order>)>) -> Option<i64>
    decreases entries.len(),
{
    if entries.len() == 0 {
        None
    } else {
        match market_id_token_spec(entries[0].0@) {
            Some(id) => Some(id),
            None => first_market_key(entries.drop_first()),
        }
    }
}

/// The orders of all entries, in order.
pub open spec fn all_orders(entries: Seq<(String, Vec<Order>)>) -> Seq<Order>
    decreases entries.len(),
{
    if entries.len() == 0 {
        Seq::empty()
    } else {
        all_orders(entries.drop_last()) + entries.last().1@
    }
}

/// The market of an `account_orders` update: the one its channel names, or
/// else the first key of its orders that names one.
pub open spec fn account_orders_market(channel: Seq<char>, entries: Seq<(String, Vec<Order>)>) -> Option<
    i64,
> {
    match market_id_from_channel_spec(channel) {
        Some(id) => Some(id),
        None => first_market_key(entries),
    }
}

fn find_first_market_key(entries: &Vec<(String, Vec<Order>)>) -> (res: Option<i64>)
    ensures
        res == first_market_key(entries@),
{
    let mut i: usize = entries.len();
    let mut found: Option<i64> = None;
    proof {
        assert(entries@.skip(i as int) =~= Seq::<(String, Vec<Order>)>::empty());
    }
    while i > 0
        invariant
            i <= entries@.len(),
            found == first_market_key(entries@.skip(i as int)),
        decreases i,
    {
        i = i - 1;
        let t = parse_market_id_token(entries[i].0.as_str());
        proof {
            assert(entries@.skip(i as int).drop_first() =~= entries@.skip(i + 1));
        }
        if t.is_some() {
            found = t;
        }
    }
    proof {
        assert(entries@.skip(0) =~= entries@);
    }
    found
}

fn collect_orders(entries: &Vec<(String, Vec<Order>)>) -> (res: Vec<Order>)
    ensures
        res@ == all_orders(entries@),
{
    let mut out: Vec<Order> = Vec::new();
    let mut i: usize = 0;
    proof {
        assert(entries@.take(0) =~= Seq::<(String, Vec<Order>)>::empty());
    }
    while i < entries.len()
        invariant
            i <= entries@.len(),
            out@ == all_orders(entries@.take(i as int)),
        decreases entries@.len() - i,
    {
        let orders = &entries[i].1;
        let ghost before = out@;
        let mut j: usize = 0;
        while j < orders.len()
            invariant
                j <= orders@.len(),
                out@ == before + orders@.take(j as int),
            decreases orders@.len() - j,
        {
            out.push(orders[j].clone());
            j = j + 1;
            proof {
                assert(orders@.take(j as int) =~= orders@.take(j - 1).push(orders@[j - 1]));
            }
        }
        proof {
            assert(orders@.take(j as int) =~= orders@);
            assert(entries@.take(i + 1).drop_last() =~= entries@.take(i as int));
        }
        i = i + 1;
    }
    proof {
        assert(entries@.take(i as int) =~= entries@);
    }
    out
}

/// Store the orders of an `account_orders` update of `account`: all orders
/// of `entries`, in order, become the orders of the update's market (see
/// [`account_orders_market`]) both in the global view and for the account.
/// Returns that market, or `None` (and nothing changes) when there is none.
pub fn apply_account_orders(
    handler: &mut AccountOrdersHandler,
    account: i64,
    channel: &str,
    entries: Vec<(String, Vec<Order>)>,
) -> (res: Option<i64>)
    ensures
        res == account_orders_market(channel@, entries@),
        res is None ==> final(handler).by_market() == old(handler).by_market()
            && final(handler).by_account_market() == old(handler).by_account_market(),
        res matches Some(m) ==> final(handler).by_market() == old(handler).by_market().insert(
            m,
            all_orders(entries@),
        ) && final(handler).by_account_market() == old(handler).by_account_market().insert(
            (account, m),
            all_orders(entries@),
        ),
{
    let market = match parse_market_id_from_channel(channel) {
        Some(id) => Some(id),
        None => find_first_market_key(&entries),
    };
    match market {
        None => None,
        Some(market_id) => {
            let orders = collect_orders(&entries);
            let copy = orders.clone();
            proof {
                assert(copy@ =~= orders@);
            }
            handler.set_orders(market_id, copy);
            handler.set_orders_for_account(account, market_id, orders);
            Some(market_id)
        },
    }
}

/// The orders per (account, market) after storing, for `account`, the
/// orders of each entry whose key names a market, in order.
pub open spec fn with_account_entries(
    m: Map<(i64, i64), Seq<Order>>,
    account: i64,
    entries: Seq<(String, Vec<Order>)>,
) -> Map<(i64, i64), Seq<Order>>
    decreases entries.len(),
{
    if entries.len() == 0 {
        m
    } else {
        let before = with_account_entries(m, account, entries.drop_last());
        match market_id_token_spec(entries.last().0@) {
            Some(market) => before.insert((account, market), entries.last().1@),
            None => before,
        }
    }
}

/// Store the orders of an `account_all_orders` update for the account its
/// channel names: each entry whose key names a market replaces the orders of
/// that market. Returns the account, or `None` (and nothing changes) when
/// the channel names none.
pub fn apply_account_all_orders(
    handler: &mut AccountOrdersHandler,
    channel: &str,
    entries: Vec<(String, Vec<Order>)>,
) -> (res: Option<i64>)
    ensures
        res == account_id_from_channel_spec(channel@),
        final(handler).by_market() == old(handler).by_market(),
        res is None ==> final(handler).by_account_market() == old(handler).by_account_market(),
        res matches Some(a) ==> final(handler).by_account_market() == with_account_entries(
            old(handler).by_account_market(),
            a,
            entries@,
        ),
{
    match parse_account_id_from_channel(channel) {
        None => None,
        Some(account_id) => {
            let mut i: usize = 0;
            proof {
                assert(entries@.take(0) =~= Seq::<(String, Vec<Order>)>::empty());
            }
            while i < entries.len()
                invariant
                    i <= entries@.len(),
                    handler.by_market() == old(handler).by_market(),
                    handler.by_account_market() == with_account_entries(
                        old(handler).by_account_market(),
                        account_id,
                        entries@.take(i as int),
                    ),
                decreases entries@.len() - i,
            {
                proof {
                    assert(entries@.take(i + 1).drop_last() =~= entries@.take(i as int));
                }
                match parse_market_id_token(entries[i].0.as_str()) {
                    Some(market_id) => {
                        let orders = entries[i].1.clone();
                        proof {
                            assert(orders@ =~= entries@[i as int].1@);
                        }
                        handler.set_orders_for_account(account_id, market_id, orders);
                    },
                    None => {},
                }
                i = i + 1;
            }
            proof {
                assert(entries@.take(i as int) =~= entries@);
            }
            Some(account_id)
        },
    }
}

} // verus!
