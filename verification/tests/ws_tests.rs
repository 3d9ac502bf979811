use lighter_sdk::ws::market_stats::{
    is_single_market_object, market_stats_updates, MarketStatsEntry, MarketStatsPayload, MarketStatsPick,
};
use lighter_sdk::error::SdkError;
use lighter_sdk::models::order::Order;
use lighter_sdk::models::order_book::PriceLevel;
use lighter_sdk::models::ws::{
    UserStatsBlock, UserStatsWithSub, WsAccountAllAssetsUpdate, WsOrderBook, WsOrderBookMessage,
    WsUserStatsUpdate,
};
use lighter_sdk::ws::channel::{
    extract_channel_suffix, parse_account_id_from_channel, parse_market_id_from_channel,
    parse_market_id_token,
};
use lighter_sdk::ws::handler::{AccountAllAssetsHandler, AccountOrdersHandler, OrderBookHandler, UserStatsHandler};
use lighter_sdk::ws::subscriptions::WsSubscriptions;
use lighter_sdk::ws::updates::{
    apply_account_all_assets, apply_account_all_orders, apply_account_orders,
    apply_order_book_delta, apply_order_book_snapshot, apply_user_stats, classify_message_type,
    no_subscriptions_error, WsMessageKind,
};

#[test]
fn subscription_messages_include_direct_market_stats_channels() {
    let subs = WsSubscriptions::new().subscribe_market_stats(vec![91]).subscribe_ticker(vec![91]);

    let messages = subs.subscription_messages();

    assert!(messages.iter().any(|msg| msg.channel == "market_stats/91"));
    assert!(messages.iter().any(|msg| msg.channel == "ticker/91"));
}

#[test]
fn direct_market_stats_count_as_subscriptions() {
    let subs = WsSubscriptions::new().subscribe_market_stats(vec![91]);

    assert!(subs.has_subscriptions());
}

#[test]
fn subscription_order_and_auth() {
    let subs = WsSubscriptions::new();
    assert!(!subs.has_subscriptions());
    let subs = subs
        .with_auth_token("tok")
        .subscribe_account_all_orders(vec![5])
        .subscribe_account_orders(89, 5)
        .subscribe_market_stats_all()
        .subscribe_user_stats(vec![5])
        .subscribe_accounts(vec![5])
        .subscribe_order_books(vec![1, 2]);
    let got: Vec<(String, Option<String>)> =
        subs.subscription_messages().into_iter().map(|m| (m.channel, m.auth)).collect();
    let tok = Some("tok".to_string());
    assert_eq!(
        got,
        vec![
            ("order_book/1".to_string(), None),
            ("order_book/2".to_string(), None),
            ("account_all/5".to_string(), None),
            ("user_stats/5".to_string(), tok.clone()),
            ("market_stats/all".to_string(), None),
            ("account_orders/89/5".to_string(), tok.clone()),
            ("account_all_orders/5".to_string(), tok.clone()),
        ]
    );
}

#[test]
fn channel_ids() {
    assert_eq!(extract_channel_suffix("order_book:42"), Some("42"));
    assert_eq!(extract_channel_suffix("order_book/42"), None);
    assert_eq!(parse_market_id_token("42/123"), Some(42));
    assert_eq!(parse_market_id_from_channel("order_book:42"), Some(42));
    assert_eq!(parse_market_id_from_channel("order_book/42"), Some(42));
    assert_eq!(parse_market_id_from_channel("account_orders/89/5"), Some(89));
    assert_eq!(parse_market_id_from_channel("market_stats/all"), None);
    assert_eq!(parse_account_id_from_channel("user_stats/54255"), Some(54255));
    assert_eq!(parse_account_id_from_channel("user_stats:54255"), Some(54255));
    assert_eq!(parse_account_id_from_channel("user_stats/x"), None);
    assert_eq!(parse_account_id_from_channel("user_stats"), None);
}

#[test]
fn message_types() {
    assert_eq!(classify_message_type("connected"), WsMessageKind::Connected);
    assert_eq!(classify_message_type("ping"), WsMessageKind::Ping);
    assert_eq!(classify_message_type("subscribed/order_book"), WsMessageKind::OrderBookSnapshot);
    assert_eq!(classify_message_type("update/order_book"), WsMessageKind::OrderBookUpdate);
    assert_eq!(classify_message_type("update/user_stats"), WsMessageKind::UserStats);
    assert_eq!(classify_message_type("subscribed/account_all_orders"), WsMessageKind::AccountAllOrders);
    assert_eq!(classify_message_type("update/unknown"), WsMessageKind::Unhandled);
    assert_eq!(no_subscriptions_error(), SdkError::Other("No subscriptions provided".to_string()));
}

fn ws_level(price: &str, size: &str) -> PriceLevel {
    PriceLevel { price: price.to_string(), size: size.to_string() }
}

fn book_message(channel: &str, begin_nonce: i64, nonce: i64, asks: Vec<PriceLevel>) -> WsOrderBookMessage {
    WsOrderBookMessage {
        msg_type: "update/order_book".to_string(),
        channel: channel.to_string(),
        offset: 0,
        order_book: WsOrderBook { code: 0, asks, bids: vec![], offset: 0, nonce, begin_nonce },
        timestamp: 0,
    }
}

#[test]
fn order_book_messages_update_the_market_of_their_channel() {
    let mut handler = OrderBookHandler::new();
    assert_eq!(apply_order_book_snapshot(&mut handler, &book_message("order_book", 0, 3, vec![])), None);
    assert_eq!(
        apply_order_book_snapshot(&mut handler, &book_message("order_book:7", 0, 3, vec![ws_level("1", "1")])),
        Some(7)
    );
    assert_eq!(handler.get(7).unwrap().nonce, 3);
    assert_eq!(
        apply_order_book_delta(&mut handler, &book_message("order_book:7", 3, 4, vec![ws_level("2", "1")])),
        Ok(Some(7))
    );
    assert_eq!(handler.get(7).unwrap().asks.len(), 2);
    assert_eq!(
        apply_order_book_delta(&mut handler, &book_message("order_book:7", 9, 10, vec![])),
        Err(SdkError::Other(
            "failed to apply order book update for market 7: market 7 order book nonce gap: expected begin_nonce 4, got 9 (previous nonce 4)"
                .to_string()
        ))
    );
    assert_eq!(apply_order_book_delta(&mut handler, &book_message("no-market", 9, 10, vec![])), Ok(None));
}

#[test]
fn account_payloads_are_keyed_by_the_channel_account() {
    let mut assets = AccountAllAssetsHandler::new();
    let msg = WsAccountAllAssetsUpdate {
        msg_type: "update/account_all_assets".to_string(),
        channel: "account_all_assets:1234".to_string(),
        assets: vec![],
    };
    assert_eq!(apply_account_all_assets(&mut assets, msg), Some(1234));
    assert!(assets.get(1234).is_some());
    let bad = WsAccountAllAssetsUpdate {
        msg_type: "update/account_all_assets".to_string(),
        channel: "account_all_assets".to_string(),
        assets: vec![],
    };
    assert_eq!(apply_account_all_assets(&mut assets, bad), None);

    let mut stats = UserStatsHandler::new();
    let block = UserStatsBlock {
        collateral: Some("1000.50".to_string()),
        portfolio_value: None,
        leverage: None,
        available_balance: None,
        margin_usage: None,
        buying_power: None,
        account_trading_mode: None,
    };
    let update = WsUserStatsUpdate {
        msg_type: "update/user_stats".to_string(),
        channel: "user_stats/54255".to_string(),
        stats: UserStatsWithSub { top: block, cross_stats: None, total_stats: None },
    };
    assert_eq!(apply_user_stats(&mut stats, update), Some(54255));
    assert_eq!(stats.get(54255).unwrap().stats.top.collateral.as_deref(), Some("1000.50"));
}

fn order(order_index: i64) -> Order {
    Order {
        order_index,
        client_order_index: 0,
        order_id: String::new(),
        client_order_id: String::new(),
        market_index: 89,
        owner_account_index: 0,
        initial_base_amount: "1".to_string(),
        price: "80.56".to_string(),
        nonce: 0,
        remaining_base_amount: "1".to_string(),
        is_ask: false,
        base_size: 0,
        base_price: 0,
        filled_base_amount: "0".to_string(),
        filled_quote_amount: String::new(),
        side: "bid".to_string(),
        order_type: "limit".to_string(),
        time_in_force: "good-till-time".to_string(),
        reduce_only: false,
        trigger_price: String::new(),
        order_expiry: 0,
        status: "open".to_string(),
        trigger_status: String::new(),
        trigger_time: 0,
        parent_order_index: 0,
        parent_order_id: String::new(),
        to_trigger_order_id_0: String::new(),
        to_trigger_order_id_1: String::new(),
        to_cancel_order_id_0: String::new(),
        block_height: 0,
        timestamp: 0,
        created_at: 0,
        updated_at: 0,
        transaction_time: 0,
    }
}

#[test]
fn account_orders_updates_fill_both_views() {
    let mut handler = AccountOrdersHandler::new();
    let entries = vec![("x".to_string(), vec![order(1)]), ("89".to_string(), vec![order(2), order(3)])];
    assert_eq!(apply_account_orders(&mut handler, 54255, "account_orders", entries), Some(89));
    let ids: Vec<i64> = handler.get(89).unwrap().iter().map(|o| o.order_index).collect();
    assert_eq!(ids, vec![1, 2, 3]);
    assert_eq!(handler.get_for_account(54255, 89).unwrap().len(), 3);
    assert_eq!(
        apply_account_orders(&mut handler, 1, "account_orders/90/1", vec![("z".to_string(), vec![])]),
        Some(90)
    );
    assert_eq!(apply_account_orders(&mut handler, 1, "account_orders", vec![]), None);

    let entries = vec![("89".to_string(), vec![order(7)]), ("bad".to_string(), vec![order(8)])];
    assert_eq!(apply_account_all_orders(&mut handler, "account_all_orders:54255", entries), Some(54255));
    assert_eq!(handler.get_for_account(54255, 89).unwrap()[0].order_index, 7);
    assert_eq!(handler.get(89).unwrap().len(), 3);
    assert_eq!(apply_account_all_orders(&mut handler, "account_all_orders", vec![]), None);
}

fn stats_entry(key: &str, is_object: bool, decodes: bool, market_id: Option<i64>) -> MarketStatsEntry {
    MarketStatsEntry { key: key.to_string(), is_object, decodes, market_id }
}

#[test]
fn market_stats_shapes_give_their_updates() {
    let keys = vec!["symbol".to_string(), "volume".to_string()];
    assert!(is_single_market_object(&keys));
    assert!(!is_single_market_object(&vec!["91".to_string(), "92".to_string()]));
    assert!(!is_single_market_object(&vec![]));

    assert_eq!(market_stats_updates(&MarketStatsPayload::Absent), vec![]);
    assert_eq!(market_stats_updates(&MarketStatsPayload::Other), vec![]);
    assert_eq!(
        market_stats_updates(&MarketStatsPayload::Single { decodes: true }),
        vec![MarketStatsPick::Single]
    );
    assert_eq!(market_stats_updates(&MarketStatsPayload::Single { decodes: false }), vec![]);

    let keyed = MarketStatsPayload::Keyed(vec![
        stats_entry("1", true, true, Some(7)),
        stats_entry("2", false, false, None),
        stats_entry("3", true, false, None),
        stats_entry("44", true, true, None),
        stats_entry("all", true, true, None),
    ]);
    assert_eq!(
        market_stats_updates(&keyed),
        vec![
            MarketStatsPick::Entry { index: 0, market_id: Some(7) },
            MarketStatsPick::Entry { index: 3, market_id: Some(44) },
            MarketStatsPick::Entry { index: 4, market_id: None },
        ]
    );
}
