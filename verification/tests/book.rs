use okx::book::{OrderBookItem, OrderBookMerge, OrderBookMergeMgr};
use okx::ws_events::{OrderBookEvent, OrderBookSize};
use okx::OkxError;

const UNIT: i128 = 1_000_000_000_000;

fn level(px: &str, amt: &str, count: &str) -> Vec<String> {
    vec![px.to_string(), amt.to_string(), "0".to_string(), count.to_string()]
}

fn event(prev: i64, seq: i64, bids: Vec<Vec<String>>, asks: Vec<Vec<String>>) -> OrderBookEvent {
    OrderBookEvent { asks, bids, ts: 0, checksum: 0, prev_seq_id: prev, seq_id: seq }
}

#[test]
fn level_row_parses_scaled() {
    let it = OrderBookItem::new(&level("10.5", "2", "3")).unwrap();
    assert_eq!(it.price, 10 * UNIT + UNIT / 2);
    assert_eq!(it.amount, 2 * UNIT);
    assert_eq!(it.order_count, 3);
}

#[test]
fn level_row_refuses_malformed() {
    // A short row carries no level.
    assert_eq!(
        OrderBookItem::new(&vec!["1".to_string(), "2".to_string()]),
        Err(OkxError::DecimalError)
    );
    assert_eq!(
        OrderBookItem::new(&level("x", "2", "3")),
        Err(OkxError::DecimalError)
    );
    assert_eq!(
        OrderBookItem::new(&level("1", "2", "y")),
        Err(OkxError::ParseIntError)
    );
}

#[test]
fn depth_reconstruction() {
    // Snapshot, then a delta that removes one bid and adds another.
    let mut m = OrderBookMerge::new("DOT-USDT", OrderBookSize::Default);
    let snap = event(
        -1,
        100,
        vec![level("10.0", "2", "1"), level("9.5", "5", "2")],
        vec![level("10.5", "3", "1")],
    );
    assert!(m.handle_orderbook_event(&snap));
    let delta = event(100, 101, vec![level("10.0", "0", "0"), level("9.0", "1", "1")], vec![]);
    assert!(m.handle_orderbook_event(&delta));

    let book = m.get_order_book();
    assert_eq!(book.seq_id, 101);
    assert_eq!(book.asks.len(), 1);
    assert_eq!(book.asks[0].price, 10 * UNIT + UNIT / 2);
    assert_eq!(book.asks[0].amount, 3 * UNIT);
    assert_eq!(book.bids.len(), 2);
    assert_eq!(book.bids[0].price, 9 * UNIT + UNIT / 2);
    assert_eq!(book.bids[0].amount, 5 * UNIT);
    assert_eq!(book.bids[1].price, 9 * UNIT);
    assert_eq!(book.bids[1].amount, 1 * UNIT);
}

#[test]
fn gap_detection_leaves_book_unchanged() {
    let mut m = OrderBookMerge::new("DOT-USDT", OrderBookSize::Default);
    let snap = event(
        -1,
        100,
        vec![level("10.0", "2", "1"), level("9.5", "5", "2")],
        vec![level("10.5", "3", "1")],
    );
    assert!(m.handle_orderbook_event(&snap));
    let before = m.get_order_book();

    let gap = event(200, 201, vec![level("1.0", "1", "1")], vec![]);
    assert!(!m.handle_orderbook_event(&gap));

    let after = m.get_order_book();
    assert_eq!(after.seq_id, before.seq_id);
    assert_eq!(after.asks.len(), before.asks.len());
    assert_eq!(after.bids.len(), before.bids.len());
    for (a, b) in after.bids.iter().zip(before.bids.iter()) {
        assert_eq!(a.price, b.price);
        assert_eq!(a.amount, b.amount);
    }
}

#[test]
fn zero_amount_removes_and_reinserts() {
    let mut m = OrderBookMerge::new("X", OrderBookSize::Default);
    assert!(m.handle_orderbook_event(&event(-1, 1, vec![level("10.0", "2", "1")], vec![])));
    assert!(m.handle_orderbook_event(&event(1, 2, vec![level("10.0", "0", "0")], vec![])));
    assert_eq!(m.get_order_book().bids.len(), 0);
    assert!(m.handle_orderbook_event(&event(2, 3, vec![level("10.0", "4", "2")], vec![])));
    let book = m.get_order_book();
    assert_eq!(book.bids.len(), 1);
    assert_eq!(book.bids[0].amount, 4 * UNIT);
}

#[test]
fn emitted_sides_are_strictly_ordered() {
    let mut m = OrderBookMerge::new("X", OrderBookSize::Default);
    let snap = event(
        -1,
        7,
        vec![level("3", "1", "1"), level("1", "1", "1"), level("2", "1", "1")],
        vec![level("6", "1", "1"), level("4", "1", "1"), level("5", "1", "1")],
    );
    assert!(m.handle_orderbook_event(&snap));
    // A duplicate price overwrites instead of coexisting.
    let dup = event(7, 8, vec![level("2", "9", "9")], vec![]);
    assert!(m.handle_orderbook_event(&dup));
    let book = m.get_order_book();
    for w in book.asks.windows(2) {
        assert!(w[0].price < w[1].price);
    }
    for w in book.bids.windows(2) {
        assert!(w[0].price > w[1].price);
    }
    assert_eq!(book.bids.len(), 3);
    assert_eq!(book.bids[1].amount, 9 * UNIT);
}

#[test]
fn size5_pushes_replace_the_book() {
    let mut m = OrderBookMerge::new("X", OrderBookSize::Size5);
    assert!(m.handle_orderbook_event(&event(-1, 1, vec![level("1", "1", "1")], vec![])));
    // Not a snapshot, but the size class replaces in full.
    assert!(m.handle_orderbook_event(&event(1, 2, vec![level("2", "1", "1")], vec![])));
    let book = m.get_order_book();
    assert_eq!(book.bids.len(), 1);
    assert_eq!(book.bids[0].price, 2 * UNIT);
}

#[test]
fn empty_payload_updates_sequence_only() {
    let mut m = OrderBookMerge::new("X", OrderBookSize::Default);
    assert!(m.handle_orderbook_event(&event(-1, 1, vec![level("1", "1", "1")], vec![])));
    assert!(!m.handle_orderbook_event(&event(1, 2, vec![], vec![])));
    let book = m.get_order_book();
    assert_eq!(book.seq_id, 2);
    assert_eq!(book.bids.len(), 1);
}

#[test]
fn merge_table_routes_by_instrument() {
    let mut mgr = OrderBookMergeMgr::new();
    mgr.add_merge("A", OrderBookSize::Default);
    mgr.add_merge("B", OrderBookSize::Default);
    assert!(mgr.get_merge("A").is_some());
    assert!(mgr.get_merge("C").is_none());

    let snap = event(-1, 5, vec![level("2", "1", "1")], vec![]);
    let out = mgr.orderbook_event("A", &vec![snap]);
    let book = out.expect("a mutating batch publishes");
    assert_eq!(book.seq_id, 5);
    assert_eq!(book.bids.len(), 1);

    // An unknown instrument publishes nothing.
    assert!(mgr.orderbook_event("C", &vec![]).is_none());

    // A gap-only batch publishes nothing.
    let gap = event(99, 100, vec![level("3", "1", "1")], vec![]);
    assert!(mgr.orderbook_event("A", &vec![gap]).is_none());

    mgr.remove_merge("A");
    assert!(mgr.get_merge("A").is_none());
}
