use lighter_sdk::decimal::{is_zero_numeral_exec, numeral_key, numeral_sign, parses_as_number_exec};
use lighter_sdk::models::account::AccountPosition;
use lighter_sdk::models::order::OrderStatus;
use lighter_sdk::numeric::{format_i64, parse_i64};
use lighter_sdk::types::enums::{GroupingType, MarginDirection, OrderType, TimeInForce};

fn position(sign: i64, size: &str, avg: &str, margin: &str) -> AccountPosition {
    AccountPosition {
        market_id: 93,
        symbol: "XAG".to_string(),
        initial_margin_fraction: "100".to_string(),
        open_order_count: 0,
        pending_order_count: 0,
        position_tied_order_count: 0,
        sign,
        position: size.to_string(),
        avg_entry_price: avg.to_string(),
        position_value: "40.650311".to_string(),
        unrealized_pnl: "-0.067422".to_string(),
        realized_pnl: "0.000000".to_string(),
        liquidation_price: "70.0".to_string(),
        total_funding_paid_out: Some("0.0".to_string()),
        margin_mode: 1,
        allocated_margin: margin.to_string(),
    }
}

#[test]
fn parses_position_fields() {
    let pos = position(1, "0.53", "76.8259", "40.717733");
    assert_eq!(pos.market_id, 93);
    assert_eq!(pos.symbol, "XAG");
    assert_eq!(pos.position, "0.53");
    assert_eq!(pos.sign, 1);
    assert_eq!(pos.avg_entry_price, "76.8259");
    assert_eq!(pos.position_value, "40.650311");
    assert_eq!(pos.unrealized_pnl, "-0.067422");
    assert_eq!(pos.realized_pnl, "0.000000");
    assert_eq!(pos.allocated_margin, "40.717733");
    assert_eq!(pos.side_label(), "long");
}

#[test]
fn parses_short_position_sign() {
    let pos = position(-1, "0.40", "75.0", "40.0");
    assert_eq!(pos.market_id, 93);
    assert_eq!(pos.position, "0.40");
    assert_eq!(pos.avg_entry_price, "75.0");
    assert_eq!(pos.initial_margin_fraction, "100");
    assert_eq!(pos.margin_mode, 1);
    assert_eq!(pos.sign, -1);
    assert_eq!(pos.side_label(), "short");
}

#[test]
fn parses_avg_entry_price_field() {
    let pos = position(1, "0.40", "75.0", "40.0");
    assert_eq!(pos.avg_entry_price, "75.0");
}

#[test]
fn side_label_edge_cases() {
    assert_eq!(position(1, "0", "1", "1").side_label(), "flat");
    assert_eq!(position(-1, "0.000", "1", "1").side_label(), "flat");
    assert_eq!(position(1, "not a number", "1", "1").side_label(), "flat");
    assert_eq!(position(0, "-2.5", "1", "1").side_label(), "short");
    assert_eq!(position(0, "2.5", "1", "1").side_label(), "long");
    assert_eq!(position(1, "-2.5", "1", "1").side_label(), "long");
    assert_eq!(position(-3, "+2", "1", "1").side_label(), "short");
}

#[test]
fn order_status_parsing() {
    assert_eq!(OrderStatus::parse("open"), OrderStatus::Open);
    assert_eq!(OrderStatus::parse("partially-filled"), OrderStatus::PartiallyFilled);
    assert_eq!(OrderStatus::parse("partially_filled"), OrderStatus::PartiallyFilled);
    assert_eq!(OrderStatus::parse("cancelled"), OrderStatus::Canceled);
    assert_eq!(OrderStatus::parse("canceled-self-trade"), OrderStatus::CanceledSelfTrade);
    assert_eq!(OrderStatus::parse("weird"), OrderStatus::Unknown("weird".to_string()));
    assert!(OrderStatus::parse("new").is_open_like());
    assert!(!OrderStatus::parse("new").is_terminal());
    assert!(OrderStatus::parse("expired").is_terminal());
    assert!(!OrderStatus::parse("pending").is_open_like());
    assert!(!OrderStatus::parse("pending").is_terminal());
    assert!(!OrderStatus::Unknown("x".to_string()).is_terminal());
}

#[test]
fn order_status_text_reads_back() {
    let all = [
        OrderStatus::InProgress,
        OrderStatus::Pending,
        OrderStatus::New,
        OrderStatus::Open,
        OrderStatus::PartiallyFilled,
        OrderStatus::Filled,
        OrderStatus::Rejected,
        OrderStatus::Canceled,
        OrderStatus::CanceledPostOnly,
        OrderStatus::CanceledReduceOnly,
        OrderStatus::CanceledPositionNotAllowed,
        OrderStatus::CanceledMarginNotAllowed,
        OrderStatus::CanceledTooMuchSlippage,
        OrderStatus::CanceledNotEnoughLiquidity,
        OrderStatus::CanceledSelfTrade,
        OrderStatus::CanceledExpired,
        OrderStatus::CanceledOco,
        OrderStatus::CanceledChild,
        OrderStatus::CanceledLiquidation,
        OrderStatus::CanceledInvalidBalance,
        OrderStatus::Expired,
        OrderStatus::Unknown("mystery".to_string()),
    ];
    for s in all.iter() {
        assert_eq!(&OrderStatus::parse(s.as_str()), s);
        assert!(!(s.is_open_like() && s.is_terminal()));
    }
    assert_eq!(OrderStatus::PartiallyFilled.as_str(), "partially_filled");
}

#[test]
fn order_types_from_wire() {
    assert_eq!(OrderType::from_wire_str("take-profit-limit"), Some(OrderType::TakeProfitLimit));
    assert_eq!(OrderType::from_wire_str("TWAP"), None);
}

#[test]
fn numerals() {
    assert_eq!(numeral_sign("-0.5"), -1);
    assert_eq!(numeral_sign("0.000"), 0);
    assert_eq!(numeral_sign("+12"), 1);
    assert_eq!(numeral_sign("1.2.3"), 0);
    assert_eq!(numeral_sign(""), 0);
    assert!(is_zero_numeral_exec("-0.00"));
    assert!(!is_zero_numeral_exec("abc"));
    assert_eq!(parse_i64("-9223372036854775808"), Some(i64::MIN));
    assert_eq!(parse_i64("9223372036854775808"), None);
    assert_eq!(parse_i64("+7"), Some(7));
    assert_eq!(format_i64(i64::MIN), "-9223372036854775808");
    assert_eq!(format_i64(0), "0");
}

#[test]
fn enum_codes_read_back() {
    assert_eq!(OrderType::Liquidation.code(), 8);
    assert_eq!(OrderType::from_code(8), Some(OrderType::Liquidation));
    assert_eq!(OrderType::from_code(9), None);
    assert_eq!(GroupingType::from_code(0), Some(GroupingType::NoGrouping));
    assert_eq!(GroupingType::OneTriggersAOneCancelsTheOther.code(), 3);
    assert_eq!(TimeInForce::from_code(2), Some(TimeInForce::PostOnly));
    assert_eq!(MarginDirection::from_code(2), None);
    assert_eq!(MarginDirection::Add.code(), 1);
}

#[test]
fn numerals_in_every_form_a_float_reads() {
    assert_eq!(numeral_sign("1e2"), 1);
    assert_eq!(numeral_sign("-1E-2"), -1);
    assert_eq!(numeral_sign("inf"), 1);
    assert_eq!(numeral_sign("-Infinity"), -1);
    assert_eq!(numeral_sign("nan"), 0);
    assert_eq!(numeral_sign("1e"), 0);
    assert_eq!(numeral_sign("e2"), 0);
    assert_eq!(numeral_sign("1e2.5"), 0);
    assert_eq!(numeral_sign("infinit"), 0);
    assert!(is_zero_numeral_exec("0E-7"));
    assert!(is_zero_numeral_exec("-.0e+3"));
    assert!(!is_zero_numeral_exec("1e-9"));
    assert_eq!(numeral_key("1e2"), numeral_key("100"));
    assert_eq!(numeral_key("0.5e-1"), numeral_key("0.05"));
    assert_eq!(numeral_key("12.5E1"), numeral_key("125.000"));
    assert_eq!(numeral_key("-2.50"), numeral_key("-25e-1"));
    assert_ne!(numeral_key("1e2"), numeral_key("1e3"));
    assert_eq!(numeral_key("INF"), numeral_key("+infinity"));
    assert_eq!(numeral_key("NaN"), None);
    assert!(parses_as_number_exec("-NAN"));
    assert!(parses_as_number_exec("1."));
    assert!(!parses_as_number_exec("."));
    assert!(!parses_as_number_exec(" 1"));
}

#[test]
fn side_label_reads_exponents_and_infinities() {
    assert_eq!(position(0, "1e2", "1", "1").side_label(), "long");
    assert_eq!(position(0, "-2E-3", "1", "1").side_label(), "short");
    assert_eq!(position(-1, "inf", "1", "1").side_label(), "short");
    assert_eq!(position(0, "0e5", "1", "1").side_label(), "flat");
    assert_eq!(position(1, "NaN", "1", "1").side_label(), "flat");
}
