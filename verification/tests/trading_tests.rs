//! Tests for the trading types, the canonical query string and the
//! request signing path, with the real outside crates linked.

use rust_trading_system::trading::client::{
    check_status, parse_account_info, parse_balance, parse_open_orders, parse_order_response,
    parse_price, HttpMethod, TestnetTrader, TradeError,
};
use rust_trading_system::trading::types::{OrderSide, OrderStatus};

fn create_test_trader() -> TestnetTrader {
    TestnetTrader::new("test_api_key".to_string(), "test_secret_key".to_string())
}

#[test]
fn test_balance_deserialization() {
    let json = r#"{"asset":"BTC","free":"1.50000000","locked":"0.25000000"}"#;
    let v: serde_json::Value = serde_json::from_str(json).unwrap();
    let balance = parse_balance(&v).unwrap();

    assert_eq!(balance.asset, "BTC");
    assert_eq!(balance.free.parse::<f64>().unwrap(), 1.5);
    assert_eq!(balance.locked.parse::<f64>().unwrap(), 0.25);
}

#[test]
fn test_order_side_serialization() {
    assert_eq!(OrderSide::Buy.wire_str(), "BUY");
    assert_eq!(OrderSide::Sell.wire_str(), "SELL");
}

#[test]
fn test_order_status_variants() {
    let _new = OrderStatus::New;
    let _filled = OrderStatus::Filled;
    let _canceled = OrderStatus::Canceled;
    let _rejected = OrderStatus::Rejected;
    let _expired = OrderStatus::Expired;
    let _partially_filled = OrderStatus::PartiallyFilled;
}

#[test]
fn test_order_status_round_trip() {
    let all = [
        OrderStatus::New,
        OrderStatus::PartiallyFilled,
        OrderStatus::Filled,
        OrderStatus::Canceled,
        OrderStatus::Rejected,
        OrderStatus::Expired,
    ];
    for st in all {
        assert_eq!(OrderStatus::from_wire_str(st.wire_str()), Some(st));
    }
    assert_eq!(OrderStatus::from_wire_str("filled"), None);
    assert_eq!(OrderStatus::from_wire_str(""), None);
}

#[test]
fn test_query_string_building() {
    let trader = create_test_trader();
    let params = vec![
        ("symbol".to_string(), "BTCUSDT".to_string()),
        ("side".to_string(), "BUY".to_string()),
        ("timestamp".to_string(), "1640995200000".to_string()),
    ];

    let query_string = trader.build_query_string(&params);

    assert_eq!(query_string, "side=BUY&symbol=BTCUSDT&timestamp=1640995200000");
}

#[test]
fn test_query_string_insertion_order_irrelevant() {
    let trader = create_test_trader();
    let a = vec![
        ("timestamp".to_string(), "1640995200000".to_string()),
        ("symbol".to_string(), "BTCUSDT".to_string()),
        ("side".to_string(), "BUY".to_string()),
    ];
    let b = vec![
        ("side".to_string(), "BUY".to_string()),
        ("symbol".to_string(), "BTCUSDT".to_string()),
        ("timestamp".to_string(), "1640995200000".to_string()),
    ];
    assert_eq!(trader.build_query_string(&a), trader.build_query_string(&b));
    assert_eq!(trader.build_query_string(&a), trader.build_query_string(&a));
}

#[test]
fn test_signature_consistency() {
    let trader = create_test_trader();
    let query1 = "symbol=BTCUSDT&side=BUY&timestamp=1640995200000";
    let query2 = "symbol=BTCUSDT&side=BUY&timestamp=1640995200000";

    let sig1 = trader.sign(query1);
    let sig2 = trader.sign(query2);

    assert_eq!(sig1, sig2, "Same query should produce same signature");
    assert_eq!(sig1.len(), 64, "HMAC-SHA256 should produce 64-character hex string");
}

#[test]
fn test_signature_different_for_different_queries() {
    let trader = create_test_trader();
    let query1 = "symbol=BTCUSDT&side=BUY&timestamp=1640995200000";
    let query2 = "symbol=BTCUSDT&side=SELL&timestamp=1640995200000";

    let sig1 = trader.sign(query1);
    let sig2 = trader.sign(query2);

    assert_ne!(sig1, sig2, "Different queries should produce different signatures");
}

#[test]
fn test_signature_is_hex() {
    let trader = create_test_trader();
    let query = "test=123&time=456";
    let signature = trader.sign(query);

    assert!(signature.chars().all(|c| c.is_ascii_hexdigit()));
    assert_eq!(signature.len(), 64);
}

#[test]
fn test_signature_distinct_messages_differ() {
    let trader = create_test_trader();
    let mut seed: u64 = 0x1234_5678;
    let mut msgs: Vec<String> = Vec::new();
    for i in 0..40 {
        let mut m = String::new();
        for _ in 0..16 {
            seed = seed
                .wrapping_mul(6364136223846793005)
                .wrapping_add(1442695040888963407);
            m.push((b'a' + ((seed >> 33) % 26) as u8) as char);
        }
        m.push_str(&format!("-{}", i));
        msgs.push(m);
    }
    let sigs: Vec<String> = msgs.iter().map(|m| trader.sign(m)).collect();
    for i in 0..sigs.len() {
        for j in (i + 1)..sigs.len() {
            assert_ne!(sigs[i], sigs[j], "distinct messages should almost surely differ");
        }
    }
}

#[test]
fn test_query_string_empty_params() {
    let trader = create_test_trader();
    assert_eq!(trader.build_query_string(&vec![]), "");
}

#[test]
fn test_signature_known_vector() {
    // RFC-style HMAC-SHA256 test vector.
    let trader = TestnetTrader::new("unused".to_string(), "key".to_string());
    let sig = trader.sign("The quick brown fox jumps over the lazy dog");
    assert_eq!(sig, "f7bc83f430538424b13298e6aa6fb143ef4d59a14946175997479dbc2d1a3cd8");
}

#[test]
fn test_signature_shape_for_secret_lengths() {
    for secret in ["", "k", "a-much-longer-secret-key-of-arbitrary-length-0123456789"] {
        let trader = TestnetTrader::new("api".to_string(), secret.to_string());
        let sig = trader.sign("symbol=BTCUSDT");
        assert_eq!(sig.len(), 64);
        assert!(sig.chars().all(|c| c.is_ascii_digit() || ('a'..='f').contains(&c)));
    }
}

#[test]
fn test_signed_request_builders() {
    let trader = create_test_trader();
    let ts: u64 = 1640995200000;

    let acct = trader.account_info_request(ts);
    assert_eq!(acct.method, HttpMethod::Get);
    assert_eq!(acct.path, "/api/v3/account");
    let expected_sig = trader.sign("timestamp=1640995200000");
    assert_eq!(acct.query, format!("timestamp=1640995200000&signature={}", expected_sig));

    let market = trader.market_order_request("BTCUSDT", OrderSide::Buy, "0.00100000", ts);
    assert_eq!(market.method, HttpMethod::Post);
    assert_eq!(market.path, "/api/v3/order");
    let canon = "quantity=0.00100000&side=BUY&symbol=BTCUSDT&timestamp=1640995200000&type=MARKET";
    assert_eq!(market.query, format!("{}&signature={}", canon, trader.sign(canon)));

    let limit = trader.limit_order_request("BTCUSDT", OrderSide::Sell, "0.00100000", "50000.00", ts);
    let canon = "price=50000.00&quantity=0.00100000&side=SELL&symbol=BTCUSDT&timeInForce=GTC&timestamp=1640995200000&type=LIMIT";
    assert_eq!(limit.query, format!("{}&signature={}", canon, trader.sign(canon)));

    let open = trader.open_orders_request(Some("BTCUSDT"), ts);
    assert_eq!(open.method, HttpMethod::Get);
    assert_eq!(open.path, "/api/v3/openOrders");
    let canon = "symbol=BTCUSDT&timestamp=1640995200000";
    assert_eq!(open.query, format!("{}&signature={}", canon, trader.sign(canon)));

    let cancel = trader.cancel_order_request("BTCUSDT", 42, ts);
    assert_eq!(cancel.method, HttpMethod::Delete);
    let canon = "orderId=42&symbol=BTCUSDT&timestamp=1640995200000";
    assert_eq!(cancel.query, format!("{}&signature={}", canon, trader.sign(canon)));
}

#[test]
fn test_base_url_override() {
    let trader = create_test_trader();
    assert_eq!(trader.ticker_price_url("BTCUSDT"),
        "https://testnet.binance.vision/api/v3/ticker/price?symbol=BTCUSDT");
    let trader = trader.with_base_url("http://localhost:9999".to_string());
    assert_eq!(trader.ticker_price_url("ETHUSDT"),
        "http://localhost:9999/api/v3/ticker/price?symbol=ETHUSDT");
}

#[test]
fn test_non_success_status_preserves_body() {
    let body = r#"{"code":-1021,"msg":"Timestamp for this request is outside of the recvWindow."}"#;
    match check_status(400, body.to_string()) {
        Err(TradeError::Api(m)) => {
            assert_eq!(m, body);
        }
        other => panic!("expected an API rejection, got {:?}", other),
    }
    let msg = check_status(500, body.to_string()).unwrap_err().message();
    assert!(msg.contains(body));

    assert_eq!(check_status(200, "ok".to_string()).unwrap(), "ok");
    assert_eq!(check_status(204, "x".to_string()).unwrap(), "x");
    assert!(check_status(301, "moved".to_string()).is_err());
}

#[test]
fn test_parse_price_responses() {
    let ok = parse_price(r#"{"symbol":"BTCUSDT","price":"50000.12"}"#).unwrap();
    assert_eq!(ok, "50000.12");
    assert_eq!(ok.parse::<f64>().unwrap(), 50000.12);

    let bad = r#"{"symbol":"BTCUSDT"}"#;
    match parse_price(bad) {
        Err(TradeError::Parse(m)) => assert_eq!(m, bad),
        other => panic!("expected a parse failure, got {:?}", other),
    }
    let not_json = "not json at all";
    match parse_price(not_json) {
        Err(TradeError::Parse(m)) => assert_eq!(m, not_json),
        other => panic!("expected a parse failure, got {:?}", other),
    }
}

#[test]
fn test_parse_account_info_response() {
    let text = r#"{"balances":[{"asset":"BTC","free":"1.50000000","locked":"0.25000000"},
        {"asset":"USDT","free":"100.0","locked":"0"}],
        "canTrade":true,"canWithdraw":false,"canDeposit":true}"#;
    let info = parse_account_info(text).unwrap();
    assert_eq!(info.balances.len(), 2);
    assert!(info.can_trade);
    assert!(!info.can_withdraw);
    assert!(info.can_deposit);
    assert_eq!(info.balances[0].asset, "BTC");
    assert_eq!(info.balances[1].free.parse::<f64>().unwrap(), 100.0);

    let missing_flags = r#"{"balances":[]}"#;
    match parse_account_info(missing_flags) {
        Err(TradeError::Parse(m)) => assert_eq!(m, missing_flags),
        other => panic!("expected a parse failure, got {:?}", other),
    }
}

#[test]
fn test_parse_order_responses() {
    let text = r#"{"symbol":"BTCUSDT","orderId":12345,"orderListId":-1,
        "clientOrderId":"abc123","transactTime":1640995200000,
        "price":"50000.00","origQty":"0.00100000","executedQty":"0.00000000",
        "cummulativeQuoteQty":"0.00000000","status":"NEW","timeInForce":"GTC",
        "type":"LIMIT","side":"BUY"}"#;
    let order = parse_order_response(text).unwrap();
    assert_eq!(order.symbol, "BTCUSDT");
    assert_eq!(order.order_id, 12345);
    assert_eq!(order.order_list_id, -1);
    assert_eq!(order.client_order_id, "abc123");
    assert_eq!(order.transact_time, Some(1640995200000));
    assert_eq!(order.time, None);
    assert_eq!(order.status, OrderStatus::New);
    assert_eq!(order.price, "50000.00");

    let list = format!("[{}]", text);
    let orders = parse_open_orders(&list).unwrap();
    assert_eq!(orders.len(), 1);
    assert_eq!(orders[0].order_id, 12345);

    let bad = r#"{"symbol":"BTCUSDT","orderId":12345,"status":"SOMETHING_ODD"}"#;
    match parse_order_response(bad) {
        Err(TradeError::Parse(m)) => assert_eq!(m, bad),
        other => panic!("expected a parse failure, got {:?}", other),
    }
}
