//! Enumerations of the wire protocol and their numeric and textual forms.

use vstd::prelude::*;

verus! {

/// Kind of an order.
#[derive(Debug, Clone, Copy, PartialEq, Eq, Structural)]
pub enum OrderType {
    Limit,
    Market,
    StopLoss,
    StopLossLimit,
    TakeProfit,
    TakeProfitLimit,
    Twap,
    TwapSub,
    Liquidation,
}

/// The order type that the wire-format name `s` denotes, if any.
pub open spec fn wire_order_type(s: Seq<char>) -> Option<OrderType> {
    if s == "limit"@ {
        Some(OrderType::Limit)
    } else if s == "market"@ {
        Some(OrderType::Market)
    } else if s == "stop-loss"@ {
        Some(OrderType::StopLoss)
    } else if s == "stop-loss-limit"@ {
        Some(OrderType::StopLossLimit)
    } else if s == "take-profit"@ {
        Some(OrderType::TakeProfit)
    } else if s == "take-profit-limit"@ {
        Some(OrderType::TakeProfitLimit)
    } else if s == "twap"@ {
        Some(OrderType::Twap)
    } else if s == "twap-sub"@ {
        Some(OrderType::TwapSub)
    } else if s == "liquidation"@ {
        Some(OrderType::Liquidation)
    } else {
        None
    }
}

impl OrderType {
    /// Parse the wire-format string returned by the WS/REST API.
    pub fn from_wire_str(s: &str) -> (res: Option<Self>)
        ensures
            res == wire_order_type(s@),
    {
        if crate::text::str_eq(s, "limit") {
            Some(Self::Limit)
        } else if crate::text::str_eq(s, "market") {
            Some(Self::Market)
        } else if crate::text::str_eq(s, "stop-loss") {
            Some(Self::StopLoss)
        } else if crate::text::str_eq(s, "stop-loss-limit") {
            Some(Self::StopLossLimit)
        } else if crate::text::str_eq(s, "take-profit") {
            Some(Self::TakeProfit)
        } else if crate::text::str_eq(s, "take-profit-limit") {
            Some(Self::TakeProfitLimit)
        } else if crate::text::str_eq(s, "twap") {
            Some(Self::Twap)
        } else if crate::text::str_eq(s, "twap-sub") {
            Some(Self::TwapSub)
        } else if crate::text::str_eq(s, "liquidation") {
            Some(Self::Liquidation)
        } else {
            None
        }
    }

    /// The numeric code of this order type on the wire.
    pub fn code(&self) -> (c: u8)
        ensures
            c == self.spec_code(),
    {
        match self {
            Self::Limit => 0,
            Self::Market => 1,
            Self::StopLoss => 2,
            Self::StopLossLimit => 3,
            Self::TakeProfit => 4,
            Self::TakeProfitLimit => 5,
            Self::Twap => 6,
            Self::TwapSub => 7,
            Self::Liquidation => 8,
        }
    }

    pub open spec fn spec_code(self) -> u8 {
        match self {
            Self::Limit => 0,
            Self::Market => 1,
            Self::StopLoss => 2,
            Self::StopLossLimit => 3,
            Self::TakeProfit => 4,
            Self::TakeProfitLimit => 5,
            Self::Twap => 6,
            Self::TwapSub => 7,
            Self::Liquidation => 8,
        }
    }
}

/// How long an order stays on the book.
#[derive(Debug, Clone, Copy, PartialEq, Eq, Structural)]
pub enum TimeInForce {
    ImmediateOrCancel,
    GoodTillTime,
    PostOnly,
}

/// How the orders of a grouped-orders transaction relate to each other.
#[derive(Debug, Clone, Copy, PartialEq, Eq, Structural)]
pub enum GroupingType {
    NoGrouping,
    OneTriggersTheOther,
    OneCancelsTheOther,
    OneTriggersAOneCancelsTheOther,
}

/// Mode of a cancel-all-orders transaction.
#[derive(Debug, Clone, Copy, PartialEq, Eq, Structural)]
pub enum CancelAllTimeInForce {
    Immediate,
    Scheduled,
    AbortScheduled,
}

/// Margin mode of a position.
#[derive(Debug, Clone, Copy, PartialEq, Eq, Structural)]
pub enum MarginMode {
    Cross,
    Isolated,
}

/// Whether an asset moves on the perps or the spot route.
#[derive(Debug, Clone, Copy, PartialEq, Eq, Structural)]
pub enum RouteType {
    Perps,
    Spot,
}

/// Direction of an isolated-margin update.
#[derive(Debug, Clone, Copy, PartialEq, Eq, Structural)]
pub enum MarginDirection {
    Remove,
    Add,
}

impl OrderType {
    /// The value whose numeric code is `code`, if any.
    pub fn from_code(code: u8) -> (res: Option<Self>)
        ensures
            match res {
                Some(v) => v.spec_code() == code,
                None => code >= 9,
            },
    {
        match code {
            0 => Some(Self::Limit),
            1 => Some(Self::Market),
            2 => Some(Self::StopLoss),
            3 => Some(Self::StopLossLimit),
            4 => Some(Self::TakeProfit),
            5 => Some(Self::TakeProfitLimit),
            6 => Some(Self::Twap),
            7 => Some(Self::TwapSub),
            8 => Some(Self::Liquidation),
            _ => None,
        }
    }
}

/// Every value is read back from its code.
pub proof fn lemma_order_type_code_roundtrip(v: OrderType)
    ensures
        v.spec_code() < 9,
        forall|w: OrderType| #[trigger] w.spec_code() == v.spec_code() ==> w == v,
{
}

impl TimeInForce {
    /// The numeric code of this value on the wire.
    pub open spec fn spec_code(self) -> u8 {
        match self {
            Self::ImmediateOrCancel => 0,
            Self::GoodTillTime => 1,
            Self::PostOnly => 2,
        }
    }

    /// The numeric code of this value on the wire.
    pub fn code(&self) -> (c: u8)
        ensures
            c == self.spec_code(),
    {
        match self {
            Self::ImmediateOrCancel => 0,
            Self::GoodTillTime => 1,
            Self::PostOnly => 2,
        }
    }
}

impl TimeInForce {
    /// The value whose numeric code is `code`, if any.
    pub fn from_code(code: u8) -> (res: Option<Self>)
        ensures
            match res {
                Some(v) => v.spec_code() == code,
                None => code >= 3,
            },
    {
        match code {
            0 => Some(Self::ImmediateOrCancel),
            1 => Some(Self::GoodTillTime),
            2 => Some(Self::PostOnly),
            _ => None,
        }
    }
}

/// Every value is read back from its code.
pub proof fn lemma_time_in_force_code_roundtrip(v: TimeInForce)
    ensures
        v.spec_code() < 3,
        forall|w: TimeInForce| #[trigger] w.spec_code() == v.spec_code() ==> w == v,
{
}

impl GroupingType {
    /// The numeric code of this value on the wire.
    pub open spec fn spec_code(self) -> u8 {
        match self {
            Self::NoGrouping => 0,
            Self::OneTriggersTheOther => 1,
            Self::OneCancelsTheOther => 2,
            Self::OneTriggersAOneCancelsTheOther => 3,
        }
    }

    /// The numeric code of this value on the wire.
    pub fn code(&self) -> (c: u8)
        ensures
            c == self.spec_code(),
    {
        match self {
            Self::NoGrouping => 0,
            Self::OneTriggersTheOther => 1,
            Self::OneCancelsTheOther => 2,
            Self::OneTriggersAOneCancelsTheOther => 3,
        }
    }
}

impl GroupingType {
    /// The value whose numeric code is `code`, if any.
    pub fn from_code(code: u8) -> (res: Option<Self>)
        ensures
            match res {
                Some(v) => v.spec_code() == code,
                None => code >= 4,
            },
    {
        match code {
            0 => Some(Self::NoGrouping),
            1 => Some(Self::OneTriggersTheOther),
            2 => Some(Self::OneCancelsTheOther),
            3 => Some(Self::OneTriggersAOneCancelsTheOther),
            _ => None,
        }
    }
}

/// Every value is read back from its code.
pub proof fn lemma_grouping_type_code_roundtrip(v: GroupingType)
    ensures
        v.spec_code() < 4,
        forall|w: GroupingType| #[trigger] w.spec_code() == v.spec_code() ==> w == v,
{
}

impl CancelAllTimeInForce {
    /// The numeric code of this value on the wire.
    pub open spec fn spec_code(self) -> u8 {
        match self {
            Self::Immediate => 0,
            Self::Scheduled => 1,
            Self::AbortScheduled => 2,
        }
    }

    /// The numeric code of this value on the wire.
    pub fn code(&self) -> (c: u8)
        ensures
            c == self.spec_code(),
    {
        match self {
            Self::Immediate => 0,
            Self::Scheduled => 1,
            Self::AbortScheduled => 2,
        }
    }
}

impl CancelAllTimeInForce {
    /// The value whose numeric code is `code`, if any.
    pub fn from_code(code: u8) -> (res: Option<Self>)
        ensures
            match res {
                Some(v) => v.spec_code() == code,
                None => code >= 3,
            },
    {
        match code {
            0 => Some(Self::Immediate),
            1 => Some(Self::Scheduled),
            2 => Some(Self::AbortScheduled),
            _ => None,
        }
    }
}

/// Every value is read back from its code.
pub proof fn lemma_cancel_all_time_in_force_code_roundtrip(v: CancelAllTimeInForce)
    ensures
        v.spec_code() < 3,
        forall|w: CancelAllTimeInForce| #[trigger] w.spec_code() == v.spec_code() ==> w == v,
{
}

impl MarginMode {
    /// The numeric code of this value on the wire.
    pub open spec fn spec_code(self) -> u8 {
        match self {
            Self::Cross => 0,
            Self::Isolated => 1,
        }
    }

    /// The numeric code of this value on the wire.
    pub fn code(&self) -> (c: u8)
        ensures
            c == self.spec_code(),
    {
        match self {
            Self::Cross => 0,
            Self::Isolated => 1,
        }
    }
}

impl MarginMode {
    /// The value whose numeric code is `code`, if any.
    pub fn from_code(code: u8) -> (res: Option<Self>)
        ensures
            match res {
                Some(v) => v.spec_code() == code,
                None => code >= 2,
            },
    {
        match code {
            0 => Some(Self::Cross),
            1 => Some(Self::Isolated),
            _ => None,
        }
    }
}

/// Every value is read back from its code.
pub proof fn lemma_margin_mode_code_roundtrip(v: MarginMode)
    ensures
        v.spec_code() < 2,
        forall|w: MarginMode| #[trigger] w.spec_code() == v.spec_code() ==> w == v,
{
}

impl RouteType {
    /// The numeric code of this value on the wire.
    pub open spec fn spec_code(self) -> u8 {
        match self {
            Self::Perps => 0,
            Self::Spot => 1,
        }
    }

    /// The numeric code of this value on the wire.
    pub fn code(&self) -> (c: u8)
        ensures
            c == self.spec_code(),
    {
        match self {
            Self::Perps => 0,
            Self::Spot => 1,
        }
    }
}

impl RouteType {
    /// The value whose numeric code is `code`, if any.
    pub fn from_code(code: u8) -> (res: Option<Self>)
        ensures
            match res {
                Some(v) => v.spec_code() == code,
                None => code >= 2,
            },
    {
        match code {
            0 => Some(Self::Perps),
            1 => Some(Self::Spot),
            _ => None,
        }
    }
}

/// Every value is read back from its code.
pub proof fn lemma_route_type_code_roundtrip(v: RouteType)
    ensures
        v.spec_code() < 2,
        forall|w: RouteType| #[trigger] w.spec_code() == v.spec_code() ==> w == v,
{
}

impl MarginDirection {
    /// The numeric code of this value on the wire.
    pub open spec fn spec_code(self) -> u8 {
        match self {
            Self::Remove => 0,
            Self::Add => 1,
        }
    }

    /// The numeric code of this value on the wire.
    pub fn code(&self) -> (c: u8)
        ensures
            c == self.spec_code(),
    {
        match self {
            Self::Remove => 0,
            Self::Add => 1,
        }
    }
}

impl MarginDirection {
    /// The value whose numeric code is `code`, if any.
    pub fn from_code(code: u8) -> (res: Option<Self>)
        ensures
            match res {
                Some(v) => v.spec_code() == code,
                None => code >= 2,
            },
    {
        match code {
            0 => Some(Self::Remove),
            1 => Some(Self::Add),
            _ => None,
        }
    }
}

/// Every value is read back from its code.
pub proof fn lemma_margin_direction_code_roundtrip(v: MarginDirection)
    ensures
        v.spec_code() < 2,
        forall|w: MarginDirection| #[trigger] w.spec_code() == v.spec_code() ==> w == v,
{
}

} // verus!
