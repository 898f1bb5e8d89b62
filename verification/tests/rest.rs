use okx::apikey::{mainnet_config, testnet_config, OkxAccountClient, OkxPublicClient};
use okx::models::{InstType, OrderRequestInfo, TradeSide};
use okx::sign::sign_message;
use okx::OkxError;

fn account_client(testnet: bool) -> OkxAccountClient {
    let cfg = if testnet { testnet_config() } else { mainnet_config() };
    OkxAccountClient::new(cfg, "key", "secret", "phrase")
}

fn spot_order(inst: &str) -> OrderRequestInfo {
    OrderRequestInfo::new_spot_limit_order(
        inst,
        TradeSide::Buy,
        "1".to_string(),
        "100".to_string(),
        None,
        None,
    )
}

#[test]
fn signing_is_stable_across_runs() {
    // Fixed timestamp, secret, method, path and body give a byte-equal
    // signature every time.
    let msg = "2023-01-01T00:00:00.000ZGET/api/v5/account/balance";
    let a = sign_message("secret", msg);
    let b = sign_message("secret", msg);
    assert_eq!(a, b);

    // Cross-check against the HMAC and base64 primitives directly.
    let key = ring::hmac::Key::new(ring::hmac::HMAC_SHA256, b"secret");
    let tag = ring::hmac::sign(&key, msg.as_bytes());
    let expected = base64::engine::Engine::encode(
        &base64::engine::general_purpose::STANDARD,
        tag.as_ref(),
    );
    assert_eq!(a, expected);
}

#[test]
fn query_strings_join_pairs() {
    let c = account_client(false);
    let params = vec![
        ("a".to_string(), "1".to_string()),
        ("b".to_string(), "2".to_string()),
    ];
    assert_eq!(c.parse_params_to_str(&params), "a=1&b=2");
    assert_eq!(c.parse_params_to_str(&vec![]), "");
}

#[test]
fn prepared_get_signs_path_and_query() {
    let c = account_client(false);
    let params = vec![("instId".to_string(), "BTC-USDT".to_string())];
    let ts = "2023-01-01T00:00:00.000Z";
    let r = c.prepare_get("/api/v5/trade/order", &params, ts);
    assert_eq!(r.method, "GET");
    assert_eq!(r.path, "/api/v5/trade/order?instId=BTC-USDT");
    assert!(r.body.is_none());

    let names: Vec<&str> = r.headers.iter().map(|h| h.0.as_str()).collect();
    assert_eq!(
        names,
        vec![
            "OK-ACCESS-KEY",
            "OK-ACCESS-SIGN",
            "OK-ACCESS-TIMESTAMP",
            "OK-ACCESS-PASSPHRASE",
            "Content-Type",
        ]
    );
    let expected_sign = sign_message("secret", &format!("{}GET{}", ts, r.path));
    assert_eq!(r.headers[1].1, expected_sign);
    assert_eq!(r.headers[2].1, ts);
}

#[test]
fn testnet_requests_carry_the_simulated_header() {
    let c = account_client(true);
    let r = c.prepare_post("/api/v5/trade/order", "{}", "t");
    let last = r.headers.last().unwrap();
    assert_eq!(last.0, "x-simulated-trading");
    assert_eq!(last.1, "1");

    let m = account_client(false).prepare_post("/api/v5/trade/order", "{}", "t");
    assert!(m.headers.iter().all(|h| h.0 != "x-simulated-trading"));
}

#[test]
fn batch_order_guards() {
    // Twenty-one orders are too many.
    let mut c = account_client(false);
    let orders: Vec<OrderRequestInfo> = (0..21).map(|_| spot_order("A")).collect();
    assert_eq!(
        c.trade_batch_order_request("A", &orders, "[]", "t", 0),
        Err(OkxError::OutOfMaxOrderSize)
    );

    // Two orders naming different instruments disagree.
    let mixed = vec![spot_order("A"), spot_order("B")];
    assert_eq!(
        c.trade_batch_order_request("A", &mixed, "[]", "t", 0),
        Err(OkxError::MustHaveSameInstId)
    );

    // Twenty consistent orders pass the guards.
    let fine: Vec<OrderRequestInfo> = (0..20).map(|_| spot_order("A")).collect();
    assert!(c.trade_batch_order_request("A", &fine, "[]", "t", 0).is_ok());
}

#[test]
fn batch_orders_count_as_their_size() {
    // A ten-order batch deducts weight ten from the 300-per-window batch
    // limit, so the thirty-first such batch is refused.
    let mut c = account_client(false);
    let orders: Vec<OrderRequestInfo> = (0..10).map(|_| spot_order("X")).collect();
    for _ in 0..30 {
        assert!(c.trade_batch_order_request("X", &orders, "[]", "t", 0).is_ok());
    }
    assert_eq!(
        c.trade_batch_order_request("X", &orders, "[]", "t", 0),
        Err(OkxError::RateLimit)
    );
    // A single-order batch counts against the place-order window instead,
    // which is still open.
    let one = vec![spot_order("X")];
    assert!(c.trade_batch_order_request("X", &one, "[]", "t", 0).is_ok());
}

#[test]
fn orders_pending_window() {
    // Sixty unit calls succeed, the sixty-first fails, and the window
    // reopens strictly past its end.
    let mut c = account_client(false);
    let filter = okx::rest::OrdersPendingFilter {
        inst_type: Some(InstType::Spot),
        uly: None,
        inst_family: None,
        inst_id: None,
        ord_type: None,
        state: None,
        after: None,
        before: None,
        limit: None,
    };
    for _ in 0..60 {
        assert!(c.trade_orders_pending_request(&filter, "t", 0).is_ok());
    }
    assert_eq!(
        c.trade_orders_pending_request(&filter, "t", 0),
        Err(OkxError::RateLimit)
    );
    let r = c.trade_orders_pending_request(&filter, "t", 3).unwrap();
    assert_eq!(r.path, "/api/v5/trade/orders-pending?instType=SPOT");
}

#[test]
fn instruments_window_is_per_type() {
    let mut c = OkxPublicClient::new(mainnet_config());
    for _ in 0..20 {
        assert!(c.public_instruments_request(InstType::Spot, None, None, None, "t", 0).is_ok());
    }
    assert_eq!(
        c.public_instruments_request(InstType::Spot, None, None, None, "t", 0),
        Err(OkxError::RateLimit)
    );
    // A different instrument type has its own window.
    assert!(c.public_instruments_request(InstType::Swap, None, None, None, "t", 0).is_ok());
}

#[test]
fn market_requests_build_paths() {
    let c = OkxPublicClient::new(mainnet_config());
    let r = c.market_trades_request("BTC-USDT", 25, "t");
    assert_eq!(r.path, "/api/v5/market/trades?instId=BTC-USDT&limit=25");
    let t = c.market_ticker_request("ETH-USDT", "t");
    assert_eq!(t.path, "/api/v5/market/ticker?instId=ETH-USDT");
}

#[test]
fn cancel_batch_rows_and_weight() {
    let mut c = account_client(false);
    let rows = c.trade_cancel_batch_orders_params(
        "BTC-USDT",
        &vec!["o1".to_string(), "o2".to_string()],
        &vec!["c1".to_string()],
    );
    assert_eq!(rows.len(), 3);
    assert_eq!(rows[0], vec![
        ("instId".to_string(), "BTC-USDT".to_string()),
        ("ordId".to_string(), "o1".to_string()),
    ]);
    assert_eq!(rows[2], vec![
        ("clOrdId".to_string(), "c1".to_string()),
        ("instId".to_string(), "BTC-USDT".to_string()),
    ]);

    let r = c
        .trade_cancel_batch_orders_request(
            "BTC-USDT",
            &vec!["o1".to_string(), "o2".to_string()],
            &vec!["c1".to_string()],
            "[]",
            "t",
            0,
        )
        .unwrap();
    assert_eq!(r.method, "POST");
    assert_eq!(r.path, "/api/v5/trade/cancel-batch-orders");
    assert_eq!(r.body.as_deref(), Some("[]"));
}
