use lighter_sdk::models::order::Order;
use lighter_sdk::models::order_book::PriceLevel;
use lighter_sdk::models::ws::{WsAccountAllAssetsUpdate, WsAccountSpotAvgEntryPricesUpdate, WsOrderBook, WsOrderBookState};
use lighter_sdk::ws::handler::{
    AccountAllAssetsHandler, AccountOrdersHandler, AccountSpotAvgEntryPricesHandler,
    OrderBookHandler, OrderBookUpdateError,
};
use std::collections::HashMap;

fn level(price: &str, size: &str) -> PriceLevel {
    PriceLevel { price: price.to_string(), size: size.to_string() }
}

fn snapshot_state() -> WsOrderBookState {
    WsOrderBookState {
        asks: vec![level("101", "2"), level("102", "3")],
        bids: vec![level("99", "4"), level("98", "5")],
        nonce: 10,
    }
}

fn update_book(begin_nonce: i64, nonce: i64, asks: Vec<PriceLevel>, bids: Vec<PriceLevel>) -> WsOrderBook {
    WsOrderBook { code: 0, asks, bids, offset: 0, nonce, begin_nonce }
}

fn sample_order(order_index: i64, market_index: i64) -> Order {
    Order {
        order_index,
        client_order_index: 0,
        order_id: String::new(),
        client_order_id: String::new(),
        market_index,
        owner_account_index: 0,
        initial_base_amount: "1".to_string(),
        price: "1".to_string(),
        nonce: 0,
        remaining_base_amount: "1".to_string(),
        is_ask: true,
        base_size: 0,
        base_price: 0,
        filled_base_amount: "0".to_string(),
        filled_quote_amount: String::new(),
        side: "ask".to_string(),
        order_type: "limit".to_string(),
        time_in_force: "good-till-time".to_string(),
        reduce_only: false,
        trigger_price: String::new(),
        order_expiry: 0,
        status: "open".to_string(),
        trigger_status: String::new(),
        trigger_time: 0,
        parent_order_index: 0,
        parent_order_id: String::new(),
        to_trigger_order_id_0: String::new(),
        to_trigger_order_id_1: String::new(),
        to_cancel_order_id_0: String::new(),
        block_height: 0,
        timestamp: 0,
        created_at: 0,
        updated_at: 0,
        transaction_time: 0,
    }
}

#[test]
fn account_scoped_orders_do_not_clobber_each_other() {
    let mut handler = AccountOrdersHandler::new();
    handler.set_orders_for_account(100, 89, vec![sample_order(1, 89)]);
    handler.set_orders_for_account(200, 89, vec![sample_order(2, 89)]);

    let a = handler.get_for_account(100, 89).unwrap();
    let b = handler.get_for_account(200, 89).unwrap();
    assert_eq!(a.len(), 1);
    assert_eq!(b.len(), 1);
    assert_eq!(a[0].order_index, 1);
    assert_eq!(b[0].order_index, 2);
}

#[test]
fn account_all_assets_state_is_stored_by_account() {
    let mut handler = AccountAllAssetsHandler::new();
    handler.set_state(
        1234,
        WsAccountAllAssetsUpdate {
            msg_type: "update/account_all_assets".to_string(),
            channel: "account_all_assets:1234".to_string(),
            assets: vec![],
        },
    );

    assert!(handler.get(1234).is_some());
    assert!(handler.get(9999).is_none());
}

#[test]
fn account_spot_avg_entry_prices_state_is_stored_by_account() {
    let mut handler = AccountSpotAvgEntryPricesHandler::new();
    handler.set_state(
        1234,
        WsAccountSpotAvgEntryPricesUpdate {
            msg_type: "update/account_spot_avg_entry_prices".to_string(),
            channel: "account_spot_avg_entry_prices/1234".to_string(),
            avg_entry_prices: HashMap::new(),
        },
    );

    assert!(handler.get(1234).is_some());
    assert!(handler.get(9999).is_none());
}

#[test]
fn order_book_snapshot_initializes_state_and_nonce() {
    let mut handler = OrderBookHandler::new();
    handler.set_snapshot(42, snapshot_state());

    let state = handler.get(42).unwrap();
    assert_eq!(state.nonce, 10);
    assert_eq!(state.bids[0].price, "99");
    assert_eq!(state.asks[0].price, "101");
}

#[test]
fn contiguous_order_book_delta_updates_state() {
    let mut handler = OrderBookHandler::new();
    handler.set_snapshot(42, snapshot_state());

    let updated = handler
        .apply_update(
            42,
            &update_book(
                10,
                11,
                vec![level("101", "1"), level("103", "7")],
                vec![level("99", "0"), level("100", "6")],
            ),
        )
        .unwrap();

    assert_eq!(updated.nonce, 11);
    assert_eq!(updated.asks.len(), 3);
    assert_eq!(updated.asks[0].price, "101");
    assert_eq!(updated.asks[0].size, "1");
    assert_eq!(updated.bids.len(), 2);
    assert_eq!(updated.bids[0].price, "100");
    assert_eq!(updated.bids[0].size, "6");
}

#[test]
fn order_book_nonce_gap_is_rejected() {
    let mut handler = OrderBookHandler::new();
    handler.set_snapshot(42, snapshot_state());

    let err = handler
        .apply_update(42, &update_book(9, 11, vec![level("101", "1")], Vec::new()))
        .unwrap_err();

    assert_eq!(
        err,
        OrderBookUpdateError::NonContiguousNonce {
            market_id: 42,
            expected_begin_nonce: 10,
            actual_begin_nonce: 9,
            previous_nonce: 10,
        }
    );
}

#[test]
fn order_book_delta_before_snapshot_is_rejected_and_changes_nothing() {
    let mut handler = OrderBookHandler::new();
    let err = handler
        .apply_update(7, &update_book(0, 1, vec![level("1", "1")], Vec::new()))
        .unwrap_err();
    assert_eq!(err, OrderBookUpdateError::MissingSnapshot { market_id: 7 });
    assert!(handler.get(7).is_none());
}

#[test]
fn refused_delta_leaves_the_book_as_it_was() {
    let mut handler = OrderBookHandler::new();
    handler.set_snapshot(42, snapshot_state());
    let _ = handler.apply_update(42, &update_book(3, 4, vec![level("50", "1")], Vec::new()));
    let state = handler.get(42).unwrap();
    assert_eq!(state.nonce, 10);
    assert_eq!(state.asks.len(), 2);
    assert_eq!(state.asks[0].price, "101");
}

#[test]
fn delta_levels_are_matched_by_price_value_and_sorted() {
    let mut handler = OrderBookHandler::new();
    handler.set_snapshot(
        1,
        WsOrderBookState {
            asks: vec![level("101.50", "2"), level("100", "1")],
            bids: vec![level("98", "1"), level("99.0", "3")],
            nonce: 5,
        },
    );
    let updated = handler
        .apply_update(
            1,
            &update_book(
                5,
                6,
                vec![level("101.5", "9"), level("100.000", "0.000"), level("abc", "4")],
                vec![level("99", "0"), level("97", "2"), level("98.5", "1")],
            ),
        )
        .unwrap();
    // "101.5" updates the level "101.50"; "100.000" with zero size removes "100";
    // a delta whose price is not a numeral is ignored.
    assert_eq!(updated.asks.len(), 1);
    assert_eq!(updated.asks[0].price, "101.50");
    assert_eq!(updated.asks[0].size, "9");
    // "99" removes "99.0"; new levels are appended, then bids sort descending.
    let prices: Vec<&str> = updated.bids.iter().map(|l| l.price.as_str()).collect();
    assert_eq!(prices, vec!["98.5", "98", "97"]);
    assert_eq!(updated.nonce, 6);
}

#[test]
fn asks_sort_ascending_after_update() {
    let mut handler = OrderBookHandler::new();
    handler.set_snapshot(3, WsOrderBookState { asks: vec![level("5", "1")], bids: vec![], nonce: 0 });
    let updated = handler
        .apply_update(3, &update_book(0, 1, vec![level("4.25", "1"), level("-1", "1"), level("10", "2")], vec![]))
        .unwrap();
    let prices: Vec<&str> = updated.asks.iter().map(|l| l.price.as_str()).collect();
    assert_eq!(prices, vec!["-1", "4.25", "5", "10"]);
}

#[test]
fn order_book_update_error_texts() {
    assert_eq!(
        OrderBookUpdateError::MissingSnapshot { market_id: 42 }.to_text(),
        "market 42 received an order book delta before a snapshot"
    );
    assert_eq!(
        OrderBookUpdateError::NonContiguousNonce {
            market_id: 42,
            expected_begin_nonce: 10,
            actual_begin_nonce: 9,
            previous_nonce: 10,
        }
        .to_text(),
        "market 42 order book nonce gap: expected begin_nonce 10, got 9 (previous nonce 10)"
    );
}

#[test]
fn orders_by_market_and_by_account_are_separate_views() {
    let mut handler = AccountOrdersHandler::new();
    handler.set_orders(89, vec![sample_order(1, 89), sample_order(2, 89)]);
    assert_eq!(handler.get(89).unwrap().len(), 2);
    assert!(handler.get_for_account(100, 89).is_none());
    handler.set_orders_for_account(100, 89, vec![sample_order(3, 89)]);
    handler.set_orders_for_account(100, 90, vec![]);
    assert_eq!(handler.get(89).unwrap().len(), 2);
    assert_eq!(handler.get_for_account(100, 89).unwrap()[0].order_index, 3);
    assert_eq!(handler.get_for_account(100, 90).unwrap().len(), 0);
    handler.set_orders_for_account(100, 89, vec![]);
    assert_eq!(handler.get_for_account(100, 89).unwrap().len(), 0);
}

#[test]
fn snapshot_state_keeps_levels_and_nonce() {
    let book = update_book(3, 4, vec![level("1", "2")], vec![level("0.5", "1")]);
    let state = WsOrderBookState::from(book.clone());
    assert_eq!(state.nonce, 4);
    assert_eq!(state.asks[0].price, "1");
    assert_eq!(state.bids[0].size, "1");
    let by_ref = WsOrderBookState::from_order_book(&book);
    assert_eq!(by_ref.nonce, 4);
    assert_eq!(by_ref.asks.len(), 1);
}

#[test]
fn deltas_match_prices_written_with_an_exponent() {
    let mut handler = OrderBookHandler::new();
    handler.set_snapshot(
        3,
        WsOrderBookState { asks: vec![level("100", "1"), level("101", "2")], bids: vec![], nonce: 1 },
    );
    let update = update_book(1, 2, vec![level("1e2", "0"), level("1.01E+2", "7")], vec![]);
    let state = handler.apply_update(3, &update).unwrap();
    assert_eq!(state.asks.len(), 1);
    assert_eq!(state.asks[0].price, "101");
    assert_eq!(state.asks[0].size, "7");
}

#[test]
fn exponent_infinity_and_nan_prices_sort_as_numbers() {
    let mut handler = OrderBookHandler::new();
    handler.set_snapshot(4, WsOrderBookState { asks: vec![], bids: vec![], nonce: 1 });
    let asks = vec![
        level("inf", "1"),
        level("2e1", "1"),
        level("5", "1"),
        level("-INFINITY", "1"),
        level("abc", "1"),
        level("NaN", "1"),
        level("NaN", "0"),
    ];
    let state = handler.apply_update(4, &update_book(1, 2, asks, vec![])).unwrap();
    let prices: Vec<&str> = state.asks.iter().map(|l| l.price.as_str()).collect();
    assert_eq!(prices, vec!["-INFINITY", "NaN", "5", "2e1", "inf"]);
}

#[test]
fn zero_sizes_written_with_an_exponent_remove_levels() {
    let mut handler = OrderBookHandler::new();
    handler.set_snapshot(
        5,
        WsOrderBookState { asks: vec![], bids: vec![level("99", "4"), level("98", "5")], nonce: 1 },
    );
    let update = update_book(1, 2, vec![], vec![level("9.9e1", "0e3"), level("+98.0", "-0.0E-1")]);
    let state = handler.apply_update(5, &update).unwrap();
    assert!(state.bids.is_empty());
}
