//! Tests for the market data types, frame decoding and the subscription
//! URL builder.

use rust_trading_system::market_data::binance::{build_stream_url, decode_frame, event_of_frame, handle_message};
use rust_trading_system::market_data::types::{MarketDataEvent, Ticker, TradeSide};

#[test]
fn test_ticker_creation() {
    let ticker = Ticker {
        symbol: "BTCUSDT".to_string(),
        price: "50000".to_string(),
        volume: "1000".to_string(),
        timestamp: 1640995200000,
    };

    assert_eq!(ticker.symbol, "BTCUSDT");
    assert_eq!(ticker.price.parse::<f64>().unwrap(), 50000.0);
    assert_eq!(ticker.volume.parse::<f64>().unwrap(), 1000.0);
}

#[test]
fn test_market_data_event_matching() {
    let ticker = Ticker {
        symbol: "BTCUSDT".to_string(),
        price: "50000".to_string(),
        volume: "1000".to_string(),
        timestamp: 1640995200000,
    };

    let event = MarketDataEvent::Ticker(ticker.clone());

    match event {
        MarketDataEvent::Ticker(t) => {
            assert_eq!(t.symbol, "BTCUSDT");
            assert_eq!(t.price.parse::<f64>().unwrap(), 50000.0);
        }
        _ => panic!("Expected Ticker event"),
    }
}

#[test]
fn test_trade_side_enum() {
    assert_eq!(format!("{:?}", TradeSide::Buy), "Buy");
    assert_eq!(format!("{:?}", TradeSide::Sell), "Sell");
}

#[test]
fn test_combined_stream_ticker_frame() {
    let frame = r#"{"stream":"btcusdt@ticker","data":{"s":"BTCUSDT","c":"50000.00","v":"1000.0","E":1640995200000}}"#;
    match handle_message(frame) {
        Some(MarketDataEvent::Ticker(t)) => {
            assert_eq!(t.symbol, "BTCUSDT");
            assert_eq!(t.price.parse::<f64>().unwrap(), 50000.0);
            assert_eq!(t.volume.parse::<f64>().unwrap(), 1000.0);
            assert_eq!(t.timestamp, 1640995200000);
        }
        other => panic!("expected a ticker event, got {:?}", other),
    }
}

#[test]
fn test_single_envelope_ticker_frame() {
    let combined = r#"{"stream":"btcusdt@ticker","data":{"s":"BTCUSDT","c":"50000.00","v":"1000.0","E":1640995200000}}"#;
    let single = r#"{"e":"24hrTicker","s":"BTCUSDT","c":"50000.00","v":"1000.0","E":1640995200000}"#;
    let from_combined = match handle_message(combined) {
        Some(MarketDataEvent::Ticker(t)) => t,
        other => panic!("expected a ticker event, got {:?}", other),
    };
    let from_single = match handle_message(single) {
        Some(MarketDataEvent::Ticker(t)) => t,
        other => panic!("expected a ticker event, got {:?}", other),
    };
    assert_eq!(from_combined, from_single);
}

#[test]
fn test_frame_missing_price_defaults_to_zero() {
    let frame = r#"{"e":"24hrTicker","s":"BTCUSDT","v":"1000.0","E":1640995200000}"#;
    match handle_message(frame) {
        Some(MarketDataEvent::Ticker(t)) => {
            assert_eq!(t.price, "0");
            assert_eq!(t.price.parse::<f64>().unwrap(), 0.0);
        }
        other => panic!("expected a ticker event, got {:?}", other),
    }
}

#[test]
fn test_malformed_price_becomes_error_event() {
    let frame = r#"{"e":"24hrTicker","s":"BTCUSDT","c":"fifty","v":"1000.0"}"#;
    match handle_message(frame) {
        Some(MarketDataEvent::Error(_)) => {}
        other => panic!("expected an error event, got {:?}", other),
    }
}

#[test]
fn test_uninteresting_frames_are_ignored() {
    assert!(handle_message(r#"{"stream":"btcusdt@depth","data":{}}"#).is_none());
    assert!(handle_message(r#"{"e":"trade","s":"BTCUSDT"}"#).is_none());
    assert!(handle_message(r#"{"result":null,"id":1}"#).is_none());
    match handle_message("{not json") {
        Some(MarketDataEvent::Error(_)) => {}
        other => panic!("expected an error event, got {:?}", other),
    }
}

#[test]
fn test_frame_decode_and_dispatch_agree() {
    let frame_text = r#"{"stream":"ethusdt@ticker","data":{"s":"ETHUSDT","c":"4000.5","v":"2.5","E":7}}"#;
    let frame = decode_frame(frame_text).unwrap();
    let direct = event_of_frame(&frame);
    let composed = handle_message(frame_text);
    match (direct, composed) {
        (Some(MarketDataEvent::Ticker(a)), Some(MarketDataEvent::Ticker(b))) => {
            assert_eq!(a, b);
            assert_eq!(a.symbol, "ETHUSDT");
        }
        other => panic!("expected matching ticker events, got {:?}", other),
    }
}

#[test]
fn test_stream_url_single_symbol() {
    let url = build_stream_url(&vec!["BTCUSDT".to_string()]);
    assert_eq!(url, "wss://stream.testnet.binance.vision/ws/btcusdt@ticker");
}

#[test]
fn test_stream_url_multiple_symbols() {
    let url = build_stream_url(&vec!["BTCUSDT".to_string(), "EthUsdt".to_string()]);
    assert_eq!(
        url,
        "wss://stream.testnet.binance.vision/stream?streams=btcusdt@ticker/ethusdt@ticker"
    );
}
