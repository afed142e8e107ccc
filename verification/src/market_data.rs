pub mod binance;
pub mod types;
