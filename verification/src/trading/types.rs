//! The vocabulary of the trading REST surface: order sides, types,
//! time-in-force, order statuses, balances, account information and order
//! responses, together with their exact wire encodings.
//!
//! Quantities and prices are carried as the exchange's decimal strings
//! end to end; they are never parsed to floating point inside the library,
//! so no precision is lost between a response and its consumer.

use vstd::prelude::*;
use crate::strutil::str_eq;

verus! {

/// The side of an order.
#[derive(Debug, Clone, Copy, PartialEq, Eq, Structural)]
pub enum OrderSide {
    Buy,
    Sell,
}

/// The wire literal of an order side: `BUY` or `SELL`.
pub open spec fn spec_side_wire(side: OrderSide) -> Seq<char> {
    match side {
        OrderSide::Buy => "BUY"@,
        OrderSide::Sell => "SELL"@,
    }
}

impl OrderSide {
    /// Encode this side exactly as the exchange expects it.
    pub fn wire_str(&self) -> (r: &'static str)
        ensures
            r@ == spec_side_wire(*self),
    {
        match self {
            OrderSide::Buy => "BUY",
            OrderSide::Sell => "SELL",
        }
    }
}

/// The kind of an order.
#[derive(Debug, Clone, Copy, PartialEq, Eq, Structural)]
pub enum OrderType {
    Market,
    Limit,
}

/// The wire literal of an order type: `MARKET` or `LIMIT`.
pub open spec fn spec_order_type_wire(t: OrderType) -> Seq<char> {
    match t {
        OrderType::Market => "MARKET"@,
        OrderType::Limit => "LIMIT"@,
    }
}

impl OrderType {
    pub fn wire_str(&self) -> (r: &'static str)
        ensures
            r@ == spec_order_type_wire(*self),
    {
        match self {
            OrderType::Market => "MARKET",
            OrderType::Limit => "LIMIT",
        }
    }
}

/// How long an unfilled order stays active.
#[derive(Debug, Clone, Copy, PartialEq, Eq, Structural)]
pub enum TimeInForce {
    GoodTillCanceled,
    ImmediateOrCancel,
    FillOrKill,
}

/// The wire literal of a time-in-force: `GTC`, `IOC` or `FOK`.
pub open spec fn spec_time_in_force_wire(t: TimeInForce) -> Seq<char> {
    match t {
        TimeInForce::GoodTillCanceled => "GTC"@,
        TimeInForce::ImmediateOrCancel => "IOC"@,
        TimeInForce::FillOrKill => "FOK"@,
    }
}

impl TimeInForce {
    pub fn wire_str(&self) -> (r: &'static str)
        ensures
            r@ == spec_time_in_force_wire(*self),
    {
        match self {
            TimeInForce::GoodTillCanceled => "GTC",
            TimeInForce::ImmediateOrCancel => "IOC",
            TimeInForce::FillOrKill => "FOK",
        }
    }
}

/// The lifecycle state of an order, as the exchange reports it.
#[derive(Debug, Clone, Copy, PartialEq, Eq, Structural)]
pub enum OrderStatus {
    New,
    PartiallyFilled,
    Filled,
    Canceled,
    Rejected,
    Expired,
}

/// The wire literal of an order status.
pub open spec fn spec_status_wire(s: OrderStatus) -> Seq<char> {
    match s {
        OrderStatus::New => "NEW"@,
        OrderStatus::PartiallyFilled => "PARTIALLY_FILLED"@,
        OrderStatus::Filled => "FILLED"@,
        OrderStatus::Canceled => "CANCELED"@,
        OrderStatus::Rejected => "REJECTED"@,
        OrderStatus::Expired => "EXPIRED"@,
    }
}

/// The status a wire literal denotes, `None` for any other text.
pub open spec fn spec_status_of_wire(s: Seq<char>) -> Option<OrderStatus> {
    if s == spec_status_wire(OrderStatus::New) {
        Some(OrderStatus::New)
    } else if s == spec_status_wire(OrderStatus::PartiallyFilled) {
        Some(OrderStatus::PartiallyFilled)
    } else if s == spec_status_wire(OrderStatus::Filled) {
        Some(OrderStatus::Filled)
    } else if s == spec_status_wire(OrderStatus::Canceled) {
        Some(OrderStatus::Canceled)
    } else if s == spec_status_wire(OrderStatus::Rejected) {
        Some(OrderStatus::Rejected)
    } else if s == spec_status_wire(OrderStatus::Expired) {
        Some(OrderStatus::Expired)
    } else {
        None
    }
}

impl OrderStatus {
    pub fn wire_str(&self) -> (r: &'static str)
        ensures
            r@ == spec_status_wire(*self),
    {
        match self {
            OrderStatus::New => "NEW",
            OrderStatus::PartiallyFilled => "PARTIALLY_FILLED",
            OrderStatus::Filled => "FILLED",
            OrderStatus::Canceled => "CANCELED",
            OrderStatus::Rejected => "REJECTED",
            OrderStatus::Expired => "EXPIRED",
        }
    }

    /// Decode a status literal; returns a status exactly when the text is
    /// one of the six wire literals.
    pub fn from_wire_str(s: &str) -> (r: Option<OrderStatus>)
        ensures
            r == spec_status_of_wire(s@),
            match r {
                Some(st) => s@ == spec_status_wire(st),
                None => forall|st: OrderStatus| s@ != spec_status_wire(st),
            },
    {
        if str_eq(s, "NEW") {
            Some(OrderStatus::New)
        } else if str_eq(s, "PARTIALLY_FILLED") {
            Some(OrderStatus::PartiallyFilled)
        } else if str_eq(s, "FILLED") {
            Some(OrderStatus::Filled)
        } else if str_eq(s, "CANCELED") {
            Some(OrderStatus::Canceled)
        } else if str_eq(s, "REJECTED") {
            Some(OrderStatus::Rejected)
        } else if str_eq(s, "EXPIRED") {
            Some(OrderStatus::Expired)
        } else {
            None
        }
    }
}

/// One asset's holdings: the symbol and the free and locked quantities,
/// kept as the exchange's decimal strings.
#[derive(Debug, Clone, PartialEq, Eq)]
pub struct Balance {
    pub asset: String,
    pub free: String,
    pub locked: String,
}

/// Account capabilities and the balances list.
#[derive(Debug, Clone, PartialEq, Eq)]
pub struct AccountInfo {
    pub balances: Vec<Balance>,
    pub can_trade: bool,
    pub can_withdraw: bool,
    pub can_deposit: bool,
}

/// A caller-assembled order, before it is turned into request parameters.
/// Quantities and prices are pre-formatted decimal strings.
#[derive(Debug, Clone)]
pub struct NewOrderRequest {
    pub symbol: String,
    pub side: OrderSide,
    pub order_type: OrderType,
    pub time_in_force: Option<TimeInForce>,
    pub quantity: Option<String>,
    pub quote_order_qty: Option<String>,
    pub price: Option<String>,
    pub timestamp: Option<u64>,
}

/// The exchange's description of one order. Price and quantity fields stay
/// as wire decimal strings. `transact_time` is set on freshly placed or
/// cancelled orders, `time` on orders returned by the listing call; a
/// consumer falls back from the first to the second.
#[derive(Debug, Clone)]
pub struct OrderResponse {
    pub symbol: String,
    pub order_id: u64,
    pub order_list_id: i64,
    pub client_order_id: String,
    pub transact_time: Option<u64>,
    pub price: String,
    pub orig_qty: String,
    pub executed_qty: String,
    pub cummulative_quote_qty: String,
    pub status: OrderStatus,
    pub time_in_force: String,
    pub order_type: String,
    pub side: String,
    pub time: Option<u64>,
}

} // verus!
