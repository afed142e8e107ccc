//! The shared vocabulary of the streaming path: tickers, order-book
//! levels, trades and the tagged event union produced by ingest.
//!
//! Prices and quantities are carried as the exchange's decimal strings;
//! converting them to floating point is left to presentation boundaries
//! outside the library, where the loss of precision is acceptable.

use vstd::prelude::*;

verus! {

/// A snapshot of one symbol's latest price and rolling volume.
/// `price` and `volume` hold validated decimal tokens; `timestamp` is the
/// event time in milliseconds.
#[derive(Debug, Clone, PartialEq, Eq)]
pub struct Ticker {
    pub symbol: String,
    pub price: String,
    pub volume: String,
    pub timestamp: u64,
}

/// One side's entry in an order book.
#[derive(Debug, Clone, PartialEq, Eq)]
pub struct OrderBookLevel {
    pub price: String,
    pub quantity: String,
}

/// A depth snapshot (reserved: ingest does not populate it yet).
#[derive(Debug, Clone, PartialEq, Eq)]
pub struct OrderBook {
    pub symbol: String,
    pub bids: Vec<OrderBookLevel>,
    pub asks: Vec<OrderBookLevel>,
    pub timestamp: u64,
}

/// A single executed trade (reserved: ingest does not populate it yet).
#[derive(Debug, Clone, PartialEq, Eq)]
pub struct Trade {
    pub symbol: String,
    pub price: String,
    pub quantity: String,
    pub side: TradeSide,
    pub timestamp: u64,
}

/// The aggressor side of a trade.
#[derive(Debug, Clone, Copy, PartialEq, Eq, Structural)]
pub enum TradeSide {
    Buy,
    Sell,
}

/// The tagged union carried over the event stream. Only `Ticker` and
/// `Error` are produced by this library; `OrderBook` and `Trade` are
/// reserved extension points that consumers must still handle.
#[derive(Debug, Clone)]
pub enum MarketDataEvent {
    Ticker(Ticker),
    OrderBook(OrderBook),
    Trade(Trade),
    Error(String),
}

} // verus!
