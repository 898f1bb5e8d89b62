use okx::account_ws::{route_account, AccountRoute, AccountSessionCore, AuthState};
use okx::conn::{
    classify_frame, handle_err, ConnCore, ConnState, EnvelopeHeader, FrameClass, WebsocketRequest,
    WsArg, WsErrorKind, WsOutMessage,
};
use okx::models::InstType;
use okx::public_ws::{route_public, PublicRoute, PublicSessionCore};
use okx::sign::sign_message;
use okx::ws_events::{OrderBookSize, OrderBookType};
use okx::OkxError;

fn channel_inst(req: &WebsocketRequest) -> (String, String) {
    assert_eq!(req.args.len(), 1);
    match &req.args[0] {
        WsArg::Ticker(a) => (a.channel.clone(), a.inst_id.clone()),
        other => panic!("unexpected argument kind: {:?}", other),
    }
}

fn header(event: &str, channel: Option<&str>, action: &str, code: &str) -> EnvelopeHeader {
    EnvelopeHeader {
        event: event.to_string(),
        channel: channel.map(|c| c.to_string()),
        inst_id: None,
        action: action.to_string(),
        code: code.to_string(),
        msg: String::new(),
        has_data: true,
    }
}

#[test]
fn send_requires_a_connected_session() {
    let mut c = ConnCore::new();
    assert_eq!(c.state(), ConnState::Connecting);
    assert_eq!(c.send("x".to_string()), Err(OkxError::NotConnect));
    c.on_handshake_success(1_000);
    assert_eq!(c.state(), ConnState::Connected);
    assert_eq!(c.send("x".to_string()), Ok(()));
    match c.next_outbound() {
        Some(WsOutMessage::Text(t)) => assert_eq!(t, "x"),
        other => panic!("expected the queued text, got {:?}", other),
    }
    assert!(c.next_outbound().is_none());
}

#[test]
fn handshake_drains_stale_messages() {
    let mut c = ConnCore::new();
    c.on_handshake_success(0);
    c.send("stale".to_string()).unwrap();
    c.on_sender_exit(false);
    assert_eq!(c.state(), ConnState::Connecting);
    c.on_handshake_success(10);
    assert!(c.next_outbound().is_none());
}

#[test]
fn close_sentinel_ends_the_session() {
    let mut c = ConnCore::new();
    c.on_handshake_success(0);
    c.close();
    match c.next_outbound() {
        Some(WsOutMessage::Close) => {},
        other => panic!("expected the close sentinel, got {:?}", other),
    }
    c.on_sender_exit(true);
    assert_eq!(c.state(), ConnState::Closed);
}

#[test]
fn heartbeat_timeout_reconnects() {
    // No pong for thirty seconds turns Connected back into Connecting.
    let mut c = ConnCore::new();
    c.on_handshake_success(1_000);
    assert!(!c.on_tick(31_000));
    assert_eq!(c.state(), ConnState::Connected);
    c.on_pong(5_000);
    assert!(!c.on_tick(35_000));
    assert!(c.on_tick(35_001));
    assert_eq!(c.state(), ConnState::Connecting);
}

#[test]
fn frames_and_errors_classify() {
    assert_eq!(classify_frame("pong"), FrameClass::Pong);
    assert_eq!(classify_frame("{\"event\":\"x\"}"), FrameClass::Payload);
    assert!(handle_err(&WsErrorKind::ConnectionClosed));
    assert!(handle_err(&WsErrorKind::Io));
    assert!(handle_err(&WsErrorKind::ProtocolSendAfterClosing));
    assert!(!handle_err(&WsErrorKind::Tls));
    assert!(!handle_err(&WsErrorKind::Capacity));
    assert!(!handle_err(&WsErrorKind::Url));
}

#[test]
fn reconnect_replays_desired_subscriptions() {
    // Tickers {A, B} are re-subscribed, idempotently, after a reconnect.
    let mut s = PublicSessionCore::new();
    assert!(s.ticker_subscribe("BTC-USDT").is_some());
    assert!(s.ticker_subscribe("ETH-USDT").is_some());
    assert!(s.ticker_subscribe("BTC-USDT").is_none());

    let frames = s.on_connected_requests();
    assert_eq!(frames.len(), 2);
    for f in &frames {
        assert_eq!(f.op, "subscribe");
    }
    assert_eq!(channel_inst(&frames[0]), ("tickers".to_string(), "BTC-USDT".to_string()));
    assert_eq!(channel_inst(&frames[1]), ("tickers".to_string(), "ETH-USDT".to_string()));
}

#[test]
fn replay_order_is_tickers_trades_books_types() {
    let mut s = PublicSessionCore::new();
    assert!(s.trade_symbol_change_subscribe(InstType::Spot).is_some());
    assert!(s.orderbook_subscribe("D", OrderBookSize::Size5).is_some());
    assert!(s.trade_subscribe("T").is_some());
    assert!(s.ticker_subscribe("K").is_some());

    let frames = s.on_connected_requests();
    assert_eq!(frames.len(), 4);
    assert_eq!(channel_inst(&frames[0]), ("tickers".to_string(), "K".to_string()));
    assert_eq!(channel_inst(&frames[1]), ("trades".to_string(), "T".to_string()));
    assert_eq!(channel_inst(&frames[2]), ("books5".to_string(), "D".to_string()));
    match &frames[3].args[0] {
        WsArg::Symbol(a) => {
            assert_eq!(a.channel, "instruments");
            assert_eq!(a.inst_type, InstType::Spot);
        },
        other => panic!("expected an instrument-list argument, got {:?}", other),
    }
}

#[test]
fn unsubscribe_always_sends_and_forgets() {
    let mut s = PublicSessionCore::new();
    assert!(s.ticker_subscribe("A").is_some());
    let f = s.ticker_unsubscribe("A");
    assert_eq!(f.op, "unsubscribe");
    assert_eq!(channel_inst(&f), ("tickers".to_string(), "A".to_string()));
    // Forgotten: a fresh subscribe sends again.
    assert!(s.ticker_subscribe("A").is_some());
}

#[test]
fn orderbook_subscribe_opens_a_merge() {
    let mut s = PublicSessionCore::new();
    assert!(s.orderbook_subscribe("A", OrderBookSize::Default).is_some());
    assert!(s.orderbook_merge().get_merge("A").is_some());
    s.orderbook_unsubscribe("A", OrderBookSize::Default);
    assert!(s.orderbook_merge().get_merge("A").is_none());
}

#[test]
fn public_envelopes_route_by_channel() {
    assert_eq!(route_public(&header("", Some("tickers"), "", "0")), PublicRoute::Tickers);
    assert_eq!(route_public(&header("", Some("trades"), "", "0")), PublicRoute::Trades);
    assert_eq!(
        route_public(&header("", Some("books5"), "snapshot", "0")),
        PublicRoute::OrderBook { size: OrderBookSize::Size5, book_type: OrderBookType::Snapshot }
    );
    assert_eq!(
        route_public(&header("", Some("books"), "update", "0")),
        PublicRoute::OrderBook { size: OrderBookSize::Default, book_type: OrderBookType::Update }
    );
    assert_eq!(route_public(&header("", Some("books"), "garbled", "0")), PublicRoute::Ignore);
    assert_eq!(route_public(&header("", Some("instruments"), "", "0")), PublicRoute::Instruments);
    assert_eq!(route_public(&header("", Some("other"), "", "0")), PublicRoute::Ignore);
    assert_eq!(route_public(&header("", None, "", "0")), PublicRoute::Ignore);
    assert_eq!(route_public(&header("", Some("tickers"), "", "60012")), PublicRoute::RemoteErr);
}

#[test]
fn login_comes_first_and_replay_waits_for_success() {
    // On start the session emits the login frame; the private replay comes
    // only after a successful login envelope.
    let mut s = AccountSessionCore::new("key", "secret", "phrase");
    assert!(s.account_subscribe().is_some());
    assert!(s.order_subscribe(InstType::Spot).is_some());

    let login = s.login_request(1_700_000_000);
    assert_eq!(login.op, "login");
    assert_eq!(s.auth_state(), AuthState::AuthInFlight);
    match &login.args[0] {
        WsArg::Login(a) => {
            assert_eq!(a.api_key, "key");
            assert_eq!(a.passphrase, "phrase");
            assert_eq!(a.timestamp, "1700000000");
            let expected = sign_message("secret", "1700000000GET/users/self/verify");
            assert_eq!(a.sign, expected);
        },
        other => panic!("expected the login argument, got {:?}", other),
    }

    // A failed login replays nothing.
    let none = s.handle_login("60009");
    assert!(none.is_empty());
    assert_eq!(s.auth_state(), AuthState::Unauth);

    // A successful login replays account, then orders.
    let frames = s.handle_login("0");
    assert_eq!(s.auth_state(), AuthState::Authed);
    assert_eq!(frames.len(), 2);
    match &frames[0].args[0] {
        WsArg::Account(a) => {
            assert_eq!(a.channel, "account");
            assert_eq!(a.extra_params.as_deref(), Some("{\"updateInterval\":0}"));
        },
        other => panic!("expected the account argument, got {:?}", other),
    }
    match &frames[1].args[0] {
        WsArg::Order(a) => {
            assert_eq!(a.channel, "orders");
            assert_eq!(a.inst_type, InstType::Spot);
        },
        other => panic!("expected the orders argument, got {:?}", other),
    }

    s.on_disconnected();
    assert_eq!(s.auth_state(), AuthState::Unauth);
}

#[test]
fn account_subscriptions_are_idempotent() {
    let mut s = AccountSessionCore::new("k", "s", "p");
    assert!(s.account_subscribe().is_some());
    assert!(s.account_subscribe().is_none());
    assert!(s.account_unsubscribe().is_some());
    assert!(s.account_unsubscribe().is_none());
    assert!(s.order_subscribe(InstType::Swap).is_some());
    assert!(s.order_subscribe(InstType::Swap).is_none());
    let f = s.order_unsubscribe(InstType::Swap);
    assert_eq!(f.op, "unsubscribe");
    assert!(s.order_subscribe(InstType::Swap).is_some());
}

#[test]
fn private_envelopes_route_by_event_and_channel() {
    assert_eq!(route_account(&header("login", None, "", "0")), AccountRoute::LoginSuccess);
    assert_eq!(route_account(&header("login", None, "", "60009")), AccountRoute::LoginFailure);
    assert_eq!(route_account(&header("", Some("account"), "", "0")), AccountRoute::Account);
    assert_eq!(route_account(&header("", Some("orders"), "", "0")), AccountRoute::Orders);
    assert_eq!(route_account(&header("", Some("orders"), "", "1")), AccountRoute::RemoteErr);
    assert_eq!(route_account(&header("", Some("other"), "", "0")), AccountRoute::Ignore);
    assert_eq!(route_account(&header("", None, "", "0")), AccountRoute::Ignore);
}
