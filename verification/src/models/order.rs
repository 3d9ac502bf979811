//! Orders and their status.

use vstd::prelude::*;

use crate::text::str_eq;

verus! {

/// The lifecycle status of an order, as the exchange names it.
#[derive(Debug, Clone, PartialEq, Eq)]
pub enum OrderStatus {
    InProgress,
    Pending,
    New,
    Open,
    PartiallyFilled,
    Filled,
    Rejected,
    Canceled,
    CanceledPostOnly,
    CanceledReduceOnly,
    CanceledPositionNotAllowed,
    CanceledMarginNotAllowed,
    CanceledTooMuchSlippage,
    CanceledNotEnoughLiquidity,
    CanceledSelfTrade,
    CanceledExpired,
    CanceledOco,
    CanceledChild,
    CanceledLiquidation,
    CanceledInvalidBalance,
    Expired,
    Unknown(String),
}

/// The status that the wire text `raw` names, if it is one the SDK knows.
/// Both spellings `partially_filled` / `partially-filled` and
/// `canceled` / `cancelled` are accepted.
pub open spec fn known_status(raw: Seq<char>) -> Option<OrderStatus> {
    if raw == "in-progress"@ {
        Some(OrderStatus::InProgress)
    } else if raw == "pending"@ {
        Some(OrderStatus::Pending)
    } else if raw == "new"@ {
        Some(OrderStatus::New)
    } else if raw == "open"@ {
        Some(OrderStatus::Open)
    } else if raw == "partially_filled"@ || raw == "partially-filled"@ {
        Some(OrderStatus::PartiallyFilled)
    } else if raw == "filled"@ {
        Some(OrderStatus::Filled)
    } else if raw == "rejected"@ {
        Some(OrderStatus::Rejected)
    } else if raw == "canceled"@ || raw == "cancelled"@ {
        Some(OrderStatus::Canceled)
    } else if raw == "canceled-post-only"@ {
        Some(OrderStatus::CanceledPostOnly)
    } else if raw == "canceled-reduce-only"@ {
        Some(OrderStatus::CanceledReduceOnly)
    } else if raw == "canceled-position-not-allowed"@ {
        Some(OrderStatus::CanceledPositionNotAllowed)
    } else if raw == "canceled-margin-not-allowed"@ {
        Some(OrderStatus::CanceledMarginNotAllowed)
    } else if raw == "canceled-too-much-slippage"@ {
        Some(OrderStatus::CanceledTooMuchSlippage)
    } else if raw == "canceled-not-enough-liquidity"@ {
        Some(OrderStatus::CanceledNotEnoughLiquidity)
    } else if raw == "canceled-self-trade"@ {
        Some(OrderStatus::CanceledSelfTrade)
    } else if raw == "canceled-expired"@ {
        Some(OrderStatus::CanceledExpired)
    } else if raw == "canceled-oco"@ {
        Some(OrderStatus::CanceledOco)
    } else if raw == "canceled-child"@ {
        Some(OrderStatus::CanceledChild)
    } else if raw == "canceled-liquidation"@ {
        Some(OrderStatus::CanceledLiquidation)
    } else if raw == "canceled-invalid-balance"@ {
        Some(OrderStatus::CanceledInvalidBalance)
    } else if raw == "expired"@ {
        Some(OrderStatus::Expired)
    } else {
        None
    }
}

/// The canonical wire text of a status; an unknown status keeps its raw text.
pub open spec fn status_text(s: OrderStatus) -> Seq<char> {
    match s {
        OrderStatus::InProgress => "in-progress"@,
        OrderStatus::Pending => "pending"@,
        OrderStatus::New => "new"@,
        OrderStatus::Open => "open"@,
        OrderStatus::PartiallyFilled => "partially_filled"@,
        OrderStatus::Filled => "filled"@,
        OrderStatus::Rejected => "rejected"@,
        OrderStatus::Canceled => "canceled"@,
        OrderStatus::CanceledPostOnly => "canceled-post-only"@,
        OrderStatus::CanceledReduceOnly => "canceled-reduce-only"@,
        OrderStatus::CanceledPositionNotAllowed => "canceled-position-not-allowed"@,
        OrderStatus::CanceledMarginNotAllowed => "canceled-margin-not-allowed"@,
        OrderStatus::CanceledTooMuchSlippage => "canceled-too-much-slippage"@,
        OrderStatus::CanceledNotEnoughLiquidity => "canceled-not-enough-liquidity"@,
        OrderStatus::CanceledSelfTrade => "canceled-self-trade"@,
        OrderStatus::CanceledExpired => "canceled-expired"@,
        OrderStatus::CanceledOco => "canceled-oco"@,
        OrderStatus::CanceledChild => "canceled-child"@,
        OrderStatus::CanceledLiquidation => "canceled-liquidation"@,
        OrderStatus::CanceledInvalidBalance => "canceled-invalid-balance"@,
        OrderStatus::Expired => "expired"@,
        OrderStatus::Unknown(raw) => raw@,
    }
}

/// Whether a status is one of the resting ones.
pub open spec fn status_open_like(s: OrderStatus) -> bool {
    s is Open || s is New || s is PartiallyFilled
}

/// Whether a status is final: filled, rejected, canceled for any reason, or expired.
pub open spec fn status_terminal(s: OrderStatus) -> bool {
    ||| s is Filled
    ||| s is Rejected
    ||| s is Canceled
    ||| s is CanceledPostOnly
    ||| s is CanceledReduceOnly
    ||| s is CanceledPositionNotAllowed
    ||| s is CanceledMarginNotAllowed
    ||| s is CanceledTooMuchSlippage
    ||| s is CanceledNotEnoughLiquidity
    ||| s is CanceledSelfTrade
    ||| s is CanceledExpired
    ||| s is CanceledOco
    ||| s is CanceledChild
    ||| s is CanceledLiquidation
    ||| s is CanceledInvalidBalance
    ||| s is Expired
}

/// What `parse` gives for `raw`: the known status, or `Unknown` with the same text.
pub open spec fn parses_to(raw: Seq<char>, s: OrderStatus) -> bool {
    match known_status(raw) {
        Some(k) => s == k,
        None => s is Unknown && s->0@ == raw,
    }
}

impl OrderStatus {
    /// Read a status from its wire text; unrecognised text is kept as `Unknown`.
    pub fn parse(raw: &str) -> (res: Self)
        ensures
            parses_to(raw@, res),
    {
        if str_eq(raw, "in-progress") {
            Self::InProgress
        } else if str_eq(raw, "pending") {
            Self::Pending
        } else if str_eq(raw, "new") {
            Self::New
        } else if str_eq(raw, "open") {
            Self::Open
        } else if str_eq(raw, "partially_filled") || str_eq(raw, "partially-filled") {
            Self::PartiallyFilled
        } else if str_eq(raw, "filled") {
            Self::Filled
        } else if str_eq(raw, "rejected") {
            Self::Rejected
        } else if str_eq(raw, "canceled") || str_eq(raw, "cancelled") {
            Self::Canceled
        } else if str_eq(raw, "canceled-post-only") {
            Self::CanceledPostOnly
        } else if str_eq(raw, "canceled-reduce-only") {
            Self::CanceledReduceOnly
        } else if str_eq(raw, "canceled-position-not-allowed") {
            Self::CanceledPositionNotAllowed
        } else if str_eq(raw, "canceled-margin-not-allowed") {
            Self::CanceledMarginNotAllowed
        } else if str_eq(raw, "canceled-too-much-slippage") {
            Self::CanceledTooMuchSlippage
        } else if str_eq(raw, "canceled-not-enough-liquidity") {
            Self::CanceledNotEnoughLiquidity
        } else if str_eq(raw, "canceled-self-trade") {
            Self::CanceledSelfTrade
        } else if str_eq(raw, "canceled-expired") {
            Self::CanceledExpired
        } else if str_eq(raw, "canceled-oco") {
            Self::CanceledOco
        } else if str_eq(raw, "canceled-child") {
            Self::CanceledChild
        } else if str_eq(raw, "canceled-liquidation") {
            Self::CanceledLiquidation
        } else if str_eq(raw, "canceled-invalid-balance") {
            Self::CanceledInvalidBalance
        } else if str_eq(raw, "expired") {
            Self::Expired
        } else {
            Self::Unknown(raw.to_string())
        }
    }

    /// Whether the order is resting on the book (`open`, `new` or partially filled).
    pub fn is_open_like(&self) -> (res: bool)
        ensures
            res == status_open_like(*self),
    {
        match self {
            Self::Open | Self::New | Self::PartiallyFilled => true,
            _ => false,
        }
    }

    /// Whether the order has reached a final status.
    pub fn is_terminal(&self) -> (res: bool)
        ensures
            res == status_terminal(*self),
    {
        match self {
            Self::Filled | Self::Rejected | Self::Canceled | Self::CanceledPostOnly
            | Self::CanceledReduceOnly | Self::CanceledPositionNotAllowed
            | Self::CanceledMarginNotAllowed | Self::CanceledTooMuchSlippage
            | Self::CanceledNotEnoughLiquidity | Self::CanceledSelfTrade
            | Self::CanceledExpired | Self::CanceledOco | Self::CanceledChild
            | Self::CanceledLiquidation | Self::CanceledInvalidBalance | Self::Expired => true,
            _ => false,
        }
    }

    /// The canonical wire text of the status (what the status displays as).
    pub fn as_str(&self) -> (res: &str)
        ensures
            res@ == status_text(*self),
    {
        match self {
            Self::InProgress => "in-progress",
            Self::Pending => "pending",
            Self::New => "new",
            Self::Open => "open",
            Self::PartiallyFilled => "partially_filled",
            Self::Filled => "filled",
            Self::Rejected => "rejected",
            Self::Canceled => "canceled",
            Self::CanceledPostOnly => "canceled-post-only",
            Self::CanceledReduceOnly => "canceled-reduce-only",
            Self::CanceledPositionNotAllowed => "canceled-position-not-allowed",
            Self::CanceledMarginNotAllowed => "canceled-margin-not-allowed",
            Self::CanceledTooMuchSlippage => "canceled-too-much-slippage",
            Self::CanceledNotEnoughLiquidity => "canceled-not-enough-liquidity",
            Self::CanceledSelfTrade => "canceled-self-trade",
            Self::CanceledExpired => "canceled-expired",
            Self::CanceledOco => "canceled-oco",
            Self::CanceledChild => "canceled-child",
            Self::CanceledLiquidation => "canceled-liquidation",
            Self::CanceledInvalidBalance => "canceled-invalid-balance",
            Self::Expired => "expired",
            Self::Unknown(raw) => raw.as_str(),
        }
    }
}

/// No status is both resting and final.
pub proof fn lemma_open_like_not_terminal(s: OrderStatus)
    ensures
        !(status_open_like(s) && status_terminal(s)),
{
}

/// The statuses split as the exchange's order life cycle does: resting
/// statuses (open, new, partially filled) are open-like; a status is final
/// exactly when it is neither resting, nor in progress, nor pending, nor an
/// unknown text. Filled, rejected, expired and every canceled status are final.
pub proof fn lemma_status_classes(s: OrderStatus)
    ensures
        status_open_like(s) <==> (s is Open || s is New || s is PartiallyFilled),
        status_terminal(s) <==> !(s is Open || s is New || s is PartiallyFilled || s is InProgress
            || s is Pending || s is Unknown),
        status_terminal(OrderStatus::Filled),
        status_terminal(OrderStatus::Rejected),
        status_terminal(OrderStatus::Expired),
        status_terminal(OrderStatus::Canceled),
{
}

/// Reading back the text of a status gives the status again, for every
/// status but an `Unknown` one whose raw text is itself a known name.
pub proof fn lemma_status_text_roundtrip(s: OrderStatus)
    requires
        s is Unknown ==> known_status(s->0@) is None,
    ensures
        parses_to(status_text(s), s),
{
    reveal_strlit("in-progress");
    reveal_strlit("pending");
    reveal_strlit("new");
    reveal_strlit("open");
    reveal_strlit("partially_filled");
    reveal_strlit("partially-filled");
    reveal_strlit("filled");
    reveal_strlit("rejected");
    reveal_strlit("canceled");
    reveal_strlit("cancelled");
    reveal_strlit("canceled-post-only");
    reveal_strlit("canceled-reduce-only");
    reveal_strlit("canceled-position-not-allowed");
    reveal_strlit("canceled-margin-not-allowed");
    reveal_strlit("canceled-too-much-slippage");
    reveal_strlit("canceled-not-enough-liquidity");
    reveal_strlit("canceled-self-trade");
    reveal_strlit("canceled-expired");
    reveal_strlit("canceled-oco");
    reveal_strlit("canceled-child");
    reveal_strlit("canceled-liquidation");
    reveal_strlit("canceled-invalid-balance");
    reveal_strlit("expired");
    assert("in-progress"@.len() == 11);
    assert("pending"@.len() == 7);
    assert("new"@.len() == 3);
    assert("open"@.len() == 4);
    assert("partially_filled"@.len() == 16);
    assert("partially-filled"@.len() == 16);
    assert("filled"@.len() == 6);
    assert("rejected"@.len() == 8);
    assert("canceled"@.len() == 8);
    assert("cancelled"@.len() == 9);
    assert("canceled-post-only"@.len() == 18);
    assert("canceled-reduce-only"@.len() == 20);
    assert("canceled-position-not-allowed"@.len() == 29);
    assert("canceled-margin-not-allowed"@.len() == 27);
    assert("canceled-too-much-slippage"@.len() == 26);
    assert("canceled-not-enough-liquidity"@.len() == 29);
    assert("canceled-self-trade"@.len() == 19);
    assert("canceled-expired"@.len() == 16);
    assert("canceled-oco"@.len() == 12);
    assert("canceled-child"@.len() == 14);
    assert("canceled-liquidation"@.len() == 20);
    assert("canceled-invalid-balance"@.len() == 24);
    assert("expired"@.len() == 7);
    assert("pending"@[0] != "expired"@[0]);
    assert("partially_filled"@[9] != "partially-filled"@[9]);
    assert("partially_filled"@[0] != "canceled-expired"@[0]);
    assert("partially-filled"@[0] != "canceled-expired"@[0]);
    assert("rejected"@[0] != "canceled"@[0]);
    assert("canceled-reduce-only"@[9] != "canceled-liquidation"@[9]);
    assert("canceled-position-not-allowed"@[9] != "canceled-not-enough-liquidity"@[9]);
    match s {
        OrderStatus::Unknown(_) => {},
        OrderStatus::InProgress => {
            assert(known_status(status_text(s)) == Some(OrderStatus::InProgress));
        },
        OrderStatus::Pending => {
            assert(known_status(status_text(s)) == Some(OrderStatus::Pending));
        },
        OrderStatus::New => {
            assert(known_status(status_text(s)) == Some(OrderStatus::New));
        },
        OrderStatus::Open => {
            assert(known_status(status_text(s)) == Some(OrderStatus::Open));
        },
        OrderStatus::PartiallyFilled => {
            assert(known_status(status_text(s)) == Some(OrderStatus::PartiallyFilled));
        },
        OrderStatus::Filled => {
            assert(known_status(status_text(s)) == Some(OrderStatus::Filled));
        },
        OrderStatus::Rejected => {
            assert(known_status(status_text(s)) == Some(OrderStatus::Rejected));
        },
        OrderStatus::Canceled => {
            assert(known_status(status_text(s)) == Some(OrderStatus::Canceled));
        },
        OrderStatus::CanceledPostOnly => {
            assert(known_status(status_text(s)) == Some(OrderStatus::CanceledPostOnly));
        },
        OrderStatus::CanceledReduceOnly => {
            assert(known_status(status_text(s)) == Some(OrderStatus::CanceledReduceOnly));
        },
        OrderStatus::CanceledPositionNotAllowed => {
            assert(known_status(status_text(s)) == Some(OrderStatus::CanceledPositionNotAllowed));
        },
        OrderStatus::CanceledMarginNotAllowed => {
            assert(known_status(status_text(s)) == Some(OrderStatus::CanceledMarginNotAllowed));
        },
        OrderStatus::CanceledTooMuchSlippage => {
            assert(known_status(status_text(s)) == Some(OrderStatus::CanceledTooMuchSlippage));
        },
        OrderStatus::CanceledNotEnoughLiquidity => {
            assert(known_status(status_text(s)) == Some(OrderStatus::CanceledNotEnoughLiquidity));
        },
        OrderStatus::CanceledSelfTrade => {
            assert(known_status(status_text(s)) == Some(OrderStatus::CanceledSelfTrade));
        },
        OrderStatus::CanceledExpired => {
            assert(known_status(status_text(s)) == Some(OrderStatus::CanceledExpired));
        },
        OrderStatus::CanceledOco => {
            assert(known_status(status_text(s)) == Some(OrderStatus::CanceledOco));
        },
        OrderStatus::CanceledChild => {
            assert(known_status(status_text(s)) == Some(OrderStatus::CanceledChild));
        },
        OrderStatus::CanceledLiquidation => {
            assert(known_status(status_text(s)) == Some(OrderStatus::CanceledLiquidation));
        },
        OrderStatus::CanceledInvalidBalance => {
            assert(known_status(status_text(s)) == Some(OrderStatus::CanceledInvalidBalance));
        },
        OrderStatus::Expired => {
            assert(known_status(status_text(s)) == Some(OrderStatus::Expired));
        },
    }
}

/// Order payload used across both REST and WebSocket SDK models.
#[derive(Debug)]
pub struct Order {
    pub order_index: i64,
    pub client_order_index: i64,
    pub order_id: String,
    pub client_order_id: String,
    pub market_index: i64,
    pub owner_account_index: i64,
    pub initial_base_amount: String,
    pub price: String,
    pub nonce: i64,
    pub remaining_base_amount: String,
    pub is_ask: bool,
    pub base_size: i64,
    pub base_price: i64,
    pub filled_base_amount: String,
    pub filled_quote_amount: String,
    pub side: String,
    pub order_type: String,
    pub time_in_force: String,
    pub reduce_only: bool,
    pub trigger_price: String,
    pub order_expiry: i64,
    pub status: String,
    pub trigger_status: String,
    pub trigger_time: i64,
    pub parent_order_index: i64,
    pub parent_order_id: String,
    pub to_trigger_order_id_0: String,
    pub to_trigger_order_id_1: String,
    pub to_cancel_order_id_0: String,
    pub block_height: i64,
    pub timestamp: i64,
    pub created_at: i64,
    pub updated_at: i64,
    pub transaction_time: i64,
}

impl Clone for Order {
    fn clone(&self) -> (res: Self)
        ensures
            res == *self,
    {
        Order {
            order_index: self.order_index,
            client_order_index: self.client_order_index,
            order_id: self.order_id.clone(),
            client_order_id: self.client_order_id.clone(),
            market_index: self.market_index,
            owner_account_index: self.owner_account_index,
            initial_base_amount: self.initial_base_amount.clone(),
            price: self.price.clone(),
            nonce: self.nonce,
            remaining_base_amount: self.remaining_base_amount.clone(),
            is_ask: self.is_ask,
            base_size: self.base_size,
            base_price: self.base_price,
            filled_base_amount: self.filled_base_amount.clone(),
            filled_quote_amount: self.filled_quote_amount.clone(),
            side: self.side.clone(),
            order_type: self.order_type.clone(),
            time_in_force: self.time_in_force.clone(),
            reduce_only: self.reduce_only,
            trigger_price: self.trigger_price.clone(),
            order_expiry: self.order_expiry,
            status: self.status.clone(),
            trigger_status: self.trigger_status.clone(),
            trigger_time: self.trigger_time,
            parent_order_index: self.parent_order_index,
            parent_order_id: self.parent_order_id.clone(),
            to_trigger_order_id_0: self.to_trigger_order_id_0.clone(),
            to_trigger_order_id_1: self.to_trigger_order_id_1.clone(),
            to_cancel_order_id_0: self.to_cancel_order_id_0.clone(),
            block_height: self.block_height,
            timestamp: self.timestamp,
            created_at: self.created_at,
            updated_at: self.updated_at,
            transaction_time: self.transaction_time,
        }
    }
}

impl Order {
    /// The order's status read from its wire text.
    pub fn status_typed(&self) -> (res: OrderStatus)
        ensures
            parses_to(self.status@, res),
    {
        OrderStatus::parse(self.status.as_str())
    }
}

/// A page of orders.
#[derive(Debug, Clone)]
pub struct Orders {
    pub code: i64,
    pub message: Option<String>,
    pub orders: Vec<Order>,
    pub cursor: Option<String>,
}

/// A resting order reduced to its price and remaining size.
#[derive(Debug, Clone)]
pub struct SimpleOrder {
    pub price: String,
    pub remaining_base_amount: String,
}

} // verus!
