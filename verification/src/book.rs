//! The order-book merge engine: applies snapshot and delta depth events to
//! per-instrument book state and yields consistent, ordered views.
//!
//! Each side of a book is a vector of levels kept strictly ascending in
//! price; its meaning is the map from price to level.

use vstd::prelude::*;

use crate::kvtable::distinct_keys;
use crate::kvtable::entries_map;
use crate::kvtable::lemma_entries_map_contains;
use crate::kvtable::lemma_entries_map_index;
use crate::kvtable::lemma_entries_map_insert_at;
use crate::kvtable::lemma_entries_map_push;
use crate::kvtable::lemma_entries_map_remove_absent;
use crate::kvtable::lemma_entries_map_remove_at;
use crate::kvtable::lemma_entries_map_update;
use crate::numeric::dec_str_value;
use crate::numeric::parse_scaled_dec;
use crate::numeric::parse_u32;
use crate::numeric::u32_str_value;
use crate::strutil::str_eq;
use crate::ws_events::OrderBookEvent;
use crate::ws_events::OrderBookSize;
use crate::OkxError;

verus! {

/// One price level: price and amount scaled by `10^12`, and the number of
/// resting orders.
#[derive(Clone, Copy, Debug, Eq, PartialEq, Structural)]
pub struct OrderBookItem {
    pub price: i128,
    pub amount: i128,
    pub order_count: u32,
}

/// The level a wire row `[price, amount, _, order_count, ...]` denotes,
/// if it denotes one.
pub open spec fn spec_level_item(l: Seq<Seq<char>>) -> Option<OrderBookItem> {
    if l.len() >= 4 {
        match (dec_str_value(l[0]), dec_str_value(l[1]), u32_str_value(l[3])) {
            (Some(p), Some(a), Some(c)) => Some(
                OrderBookItem { price: p as i128, amount: a as i128, order_count: c as u32 },
            ),
            _ => None,
        }
    } else {
        None
    }
}

impl OrderBookItem {
    /// Reads one wire row.  Price and amount must be decimals and the count
    /// a digit string; a malformed row is refused.
    pub fn new(data: &Vec<String>) -> (r: Result<OrderBookItem, OkxError>)
        ensures
            match r {
                Ok(it) => spec_level_item(data.deep_view()) == Some(it),
                Err(_) => spec_level_item(data.deep_view()) is None,
            },
    {
        let ghost l = data.deep_view();
        if data.len() < 4 {
            return Err(OkxError::DecimalError);
        }
        proof {
            assert(l[0] == data@[0]@);
            assert(l[1] == data@[1]@);
            assert(l[3] == data@[3]@);
        }
        let price = parse_scaled_dec(data[0].as_str())?;
        let amount = parse_scaled_dec(data[1].as_str())?;
        let order_count = parse_u32(data[3].as_str())?;
        Ok(OrderBookItem { price, amount, order_count })
    }
}

/// Strictly ascending prices; equal prices never coexist.
pub open spec fn sorted_by_price(s: Seq<OrderBookItem>) -> bool {
    forall|i: int, j: int| 0 <= i < j < s.len() ==> s[i].price < s[j].price
}

/// Strictly descending prices.
pub open spec fn sorted_by_price_desc(s: Seq<OrderBookItem>) -> bool {
    forall|i: int, j: int| 0 <= i < j < s.len() ==> s[i].price > s[j].price
}

/// The price sequence of a side.
pub open spec fn side_prices(s: Seq<OrderBookItem>) -> Seq<i128> {
    s.map_values(|it: OrderBookItem| it.price)
}

/// The meaning of a side: its price-to-level map.
pub open spec fn side_map(s: Seq<OrderBookItem>) -> Map<i128, OrderBookItem> {
    entries_map(side_prices(s), s)
}

proof fn lemma_sorted_distinct(s: Seq<OrderBookItem>)
    requires
        sorted_by_price(s),
    ensures
        distinct_keys(side_prices(s)),
{
    assert forall|i: int, j: int|
        0 <= i < j < side_prices(s).len() implies side_prices(s)[i] != side_prices(s)[j] by {
        assert(s[i].price < s[j].price);
    }
}

/// Applies one level to one side: zero amount removes the price, anything
/// else upserts it; order stays strictly ascending.
fn apply_level(side: &mut Vec<OrderBookItem>, item: OrderBookItem)
    requires
        sorted_by_price(old(side)@),
    ensures
        sorted_by_price(final(side)@),
        side_map(final(side)@) == (if item.amount == 0 {
            side_map(old(side)@).remove(item.price)
        } else {
            side_map(old(side)@).insert(item.price, item)
        }),
{
    proof {
        lemma_sorted_distinct(side@);
    }
    let ghost s0 = side@;
    let n = side.len();
    let mut i: usize = 0;
    while i < n && side[i].price < item.price
        invariant
            0 <= i <= n,
            n == side@.len(),
            side@ == s0,
            forall|j: int| 0 <= j < i ==> s0[j].price < item.price,
        decreases n - i,
    {
        i = i + 1;
    }
    if i < n && side[i].price == item.price {
        if item.amount == 0 {
            side.remove(i);
            proof {
                lemma_entries_map_remove_at(side_prices(s0), s0, i as int);
                assert(side_prices(side@) =~= side_prices(s0).remove(i as int));
                assert(side@ =~= s0.remove(i as int));
            }
        } else {
            side[i] = item;
            proof {
                lemma_entries_map_update(side_prices(s0), s0, i as int, item);
                assert(side_prices(side@) =~= side_prices(s0).update(i as int, item.price));
                assert(side_prices(s0).update(i as int, item.price) =~= side_prices(s0));
            }
        }
    } else {
        // The price is not on this side.
        proof {
            assert forall|j: int| 0 <= j < s0.len() implies side_prices(s0)[j] != item.price by {
                if j < i {
                    assert(s0[j].price < item.price);
                } else if i < n {
                    if j == i {
                    } else {
                        assert(s0[i as int].price < s0[j].price);
                    }
                }
            }
        }
        if item.amount == 0 {
            proof {
                lemma_entries_map_remove_absent(side_prices(s0), s0, item.price);
            }
        } else {
            side.insert(i, item);
            proof {
                lemma_entries_map_insert_at(side_prices(s0), s0, i as int, item.price, item);
                assert(side_prices(side@) =~= side_prices(s0).insert(i as int, item.price));
                assert(side@ =~= s0.insert(i as int, item));
                assert forall|a: int, b: int|
                    0 <= a < b < side@.len() implies side@[a].price < side@[b].price by {
                    if b < i {
                    } else if a < i && b == i {
                        assert(side@[a] == s0[a]);
                    } else if a < i {
                        assert(side@[b] == s0[b - 1]);
                    } else if a == i {
                        assert(side@[b] == s0[b - 1]);
                        assert(b - 1 >= i);
                        if i < n {
                            assert(s0[i as int].price <= s0[b - 1].price);
                        }
                    } else {
                        assert(side@[a] == s0[a - 1]);
                        assert(side@[b] == s0[b - 1]);
                    }
                }
            }
        }
    }
}

/// Applies a list of wire rows to a side map in order; malformed rows are
/// skipped, later rows win on equal prices.
pub open spec fn spec_apply_levels(
    m: Map<i128, OrderBookItem>,
    levels: Seq<Seq<Seq<char>>>,
) -> Map<i128, OrderBookItem>
    decreases levels.len(),
{
    if levels.len() == 0 {
        m
    } else {
        let prev = spec_apply_levels(m, levels.drop_last());
        match spec_level_item(levels.last()) {
            Some(it) => if it.amount == 0 {
                prev.remove(it.price)
            } else {
                prev.insert(it.price, it)
            },
            None => prev,
        }
    }
}

/// Applies the rows of one event side to a book side.
fn apply_side(side: &mut Vec<OrderBookItem>, levels: &Vec<Vec<String>>)
    requires
        sorted_by_price(old(side)@),
    ensures
        sorted_by_price(final(side)@),
        side_map(final(side)@) == spec_apply_levels(side_map(old(side)@), levels.deep_view()),
{
    let ghost base = side_map(old(side)@);
    let ghost lv = levels.deep_view();
    let n = levels.len();
    let mut i: usize = 0;
    proof {
        assert(lv.take(0) =~= Seq::<Seq<Seq<char>>>::empty());
    }
    while i < n
        invariant
            0 <= i <= n,
            n == lv.len(),
            lv == levels.deep_view(),
            sorted_by_price(side@),
            side_map(side@) == spec_apply_levels(base, lv.take(i as int)),
        decreases n - i,
    {
        proof {
            assert(lv.take(i + 1).drop_last() =~= lv.take(i as int));
            assert(lv[i as int] == levels@[i as int].deep_view());
        }
        match OrderBookItem::new(&levels[i]) {
            Ok(it) => {
                apply_level(side, it);
            },
            Err(_) => {},
        }
        i = i + 1;
    }
    proof {
        assert(lv.take(n as int) =~= lv);
    }
}

/// One event applied to a book: the new side maps, the new sequence id, and
/// whether anything is to be published.
pub open spec fn spec_book_step(
    asks: Map<i128, OrderBookItem>,
    bids: Map<i128, OrderBookItem>,
    seq_id: i64,
    size: OrderBookSize,
    e: OrderBookEvent,
) -> (Map<i128, OrderBookItem>, Map<i128, OrderBookItem>, i64, bool) {
    let gap = e.prev_seq_id != -1 && seq_id != e.prev_seq_id;
    let empty_payload = e.bids@.len() == 0 && e.asks@.len() == 0;
    let clear_first = e.prev_seq_id == -1 || size == OrderBookSize::Size5 || size
        == OrderBookSize::BboTbt;
    if gap {
        (asks, bids, seq_id, false)
    } else if empty_payload {
        if e.prev_seq_id == -1 {
            (
                Map::<i128, OrderBookItem>::empty(),
                Map::<i128, OrderBookItem>::empty(),
                e.seq_id,
                false,
            )
        } else {
            (asks, bids, e.seq_id, false)
        }
    } else {
        let base_a = if clear_first {
            Map::<i128, OrderBookItem>::empty()
        } else {
            asks
        };
        let base_b = if clear_first {
            Map::<i128, OrderBookItem>::empty()
        } else {
            bids
        };
        (
            spec_apply_levels(base_a, e.asks.deep_view()),
            spec_apply_levels(base_b, e.bids.deep_view()),
            e.seq_id,
            true,
        )
    }
}

/// A run of events applied in order; the flag says whether any one of them
/// is to be published.
pub open spec fn spec_book_run(
    asks: Map<i128, OrderBookItem>,
    bids: Map<i128, OrderBookItem>,
    seq_id: i64,
    size: OrderBookSize,
    events: Seq<OrderBookEvent>,
) -> (Map<i128, OrderBookItem>, Map<i128, OrderBookItem>, i64, bool)
    decreases events.len(),
{
    if events.len() == 0 {
        (asks, bids, seq_id, false)
    } else {
        let p = spec_book_run(asks, bids, seq_id, size, events.drop_last());
        let s = spec_book_step(p.0, p.1, p.2, size, events.last());
        (s.0, s.1, s.2, p.3 || s.3)
    }
}

/// The merge state of one instrument's book.
#[derive(Debug)]
pub struct OrderBookMerge {
    pub asks: Vec<OrderBookItem>,
    pub bids: Vec<OrderBookItem>,
    pub seq_id: i64,
    pub size: OrderBookSize,
    pub inst_id: String,
}

/// A published, consistent view of one book.
#[derive(Debug, Clone)]
pub struct OrderBook {
    pub seq_id: i64,
    /// Ask levels, strictly ascending in price.
    pub asks: Vec<OrderBookItem>,
    /// Bid levels, strictly descending in price.
    pub bids: Vec<OrderBookItem>,
}

impl OrderBookMerge {
    /// The ask levels, ascending in price.
    pub open spec fn asks_seq(&self) -> Seq<OrderBookItem> {
        self.asks@
    }

    /// The bid levels, ascending in price; views yield them reversed.
    pub open spec fn bids_seq(&self) -> Seq<OrderBookItem> {
        self.bids@
    }

    pub open spec fn asks_map(&self) -> Map<i128, OrderBookItem> {
        side_map(self.asks_seq())
    }

    pub open spec fn bids_map(&self) -> Map<i128, OrderBookItem> {
        side_map(self.bids_seq())
    }

    pub open spec fn wf(&self) -> bool {
        sorted_by_price(self.asks_seq()) && sorted_by_price(self.bids_seq())
    }

    /// A fresh book: empty sides and the unset sequence sentinel.
    pub fn new(inst_id: &str, size: OrderBookSize) -> (r: Self)
        ensures
            r.wf(),
            r.asks_map() == Map::<i128, OrderBookItem>::empty(),
            r.bids_map() == Map::<i128, OrderBookItem>::empty(),
            r.seq_id == -1,
            r.size == size,
            r.inst_id@ == inst_id@,
    {
        let r = Self {
            asks: Vec::new(),
            bids: Vec::new(),
            seq_id: -1,
            size,
            inst_id: inst_id.to_owned(),
        };
        r
    }

    /// Empties both sides; sequence id, size and instrument stay.
    pub fn clear(&mut self)
        ensures
            final(self).wf(),
            final(self).asks_map() == Map::<i128, OrderBookItem>::empty(),
            final(self).bids_map() == Map::<i128, OrderBookItem>::empty(),
            final(self).seq_id == old(self).seq_id,
            final(self).size == old(self).size,
            final(self).inst_id == old(self).inst_id,
    {
        self.asks.clear();
        self.bids.clear();
    }

    /// Applies one event.  A sequence gap leaves the book untouched and
    /// publishes nothing; otherwise the event's levels are merged (after a
    /// clear for snapshots and for full-push size classes) and anything with
    /// a payload is published.
    pub fn handle_orderbook_event(&mut self, event: &OrderBookEvent) -> (changed: bool)
        requires
            old(self).wf(),
        ensures
            final(self).wf(),
            final(self).size == old(self).size,
            final(self).inst_id == old(self).inst_id,
            ({
                let s = spec_book_step(
                    old(self).asks_map(),
                    old(self).bids_map(),
                    old(self).seq_id,
                    old(self).size,
                    *event,
                );
                &&& final(self).asks_map() == s.0
                &&& final(self).bids_map() == s.1
                &&& final(self).seq_id == s.2
                &&& changed == s.3
            }),
    {
        if event.prev_seq_id == -1 {
            self.clear();
        } else if self.seq_id != event.prev_seq_id {
            return false;
        }
        self.seq_id = event.seq_id;
        if event.bids.len() == 0 && event.asks.len() == 0 {
            return false;
        }
        if matches!(self.size, OrderBookSize::Size5 | OrderBookSize::BboTbt) {
            self.clear();
        }
        apply_side(&mut self.bids, &event.bids);
        apply_side(&mut self.asks, &event.asks);
        true
    }

    /// A copy of the book: asks ascending, bids descending, with the
    /// current sequence id.
    pub fn get_order_book(&self) -> (r: OrderBook)
        requires
            self.wf(),
        ensures
            r.seq_id == self.seq_id,
            r.asks@ == self.asks_seq(),
            r.bids@.len() == self.bids_seq().len(),
            forall|i: int|
                0 <= i < r.bids@.len() ==> r.bids@[i] == self.bids_seq()[self.bids_seq().len() - 1
                    - i],
            sorted_by_price(r.asks@),
            sorted_by_price_desc(r.bids@),
            side_map(r.asks@) == self.asks_map(),
    {
        let n = self.asks.len();
        let mut asks: Vec<OrderBookItem> = Vec::new();
        let mut i: usize = 0;
        while i < n
            invariant
                0 <= i <= n,
                n == self.asks@.len(),
                asks@ == self.asks@.take(i as int),
            decreases n - i,
        {
            asks.push(self.asks[i]);
            proof {
                assert(self.asks@.take(i + 1) =~= self.asks@.take(i as int).push(
                    self.asks@[i as int],
                ));
            }
            i = i + 1;
        }
        proof {
            assert(self.asks@.take(n as int) =~= self.asks@);
        }
        let m = self.bids.len();
        let mut bids: Vec<OrderBookItem> = Vec::new();
        let mut k: usize = m;
        while k > 0
            invariant
                0 <= k <= m,
                m == self.bids@.len(),
                bids@.len() == m - k,
                forall|j: int| 0 <= j < bids@.len() ==> bids@[j] == self.bids@[m - 1 - j],
            decreases k,
        {
            k = k - 1;
            bids.push(self.bids[k]);
        }
        OrderBook { seq_id: self.seq_id, asks, bids }
    }
}


/// A strictly ascending side is pinned by its meaning: two sorted sides
/// with the same price-to-level map hold the same levels in the same order,
/// so every published view of one book content is the same.
pub proof fn lemma_sorted_side_unique(a: Seq<OrderBookItem>, b: Seq<OrderBookItem>)
    requires
        sorted_by_price(a),
        sorted_by_price(b),
        side_map(a) == side_map(b),
    ensures
        a == b,
    decreases a.len(),
{
    lemma_sorted_distinct(a);
    lemma_sorted_distinct(b);
    if a.len() == 0 {
        if b.len() > 0 {
            lemma_entries_map_index(side_prices(b), b, b.len() - 1);
            lemma_entries_map_contains(side_prices(a), a, b.last().price);
        }
        assert(a =~= b);
    } else if b.len() == 0 {
        lemma_entries_map_index(side_prices(a), a, a.len() - 1);
        lemma_entries_map_contains(side_prices(b), b, a.last().price);
    } else {
        // The two last levels share the greatest price, hence each other.
        lemma_entries_map_index(side_prices(a), a, a.len() - 1);
        lemma_entries_map_index(side_prices(b), b, b.len() - 1);
        lemma_entries_map_contains(side_prices(b), b, a.last().price);
        let j = choose|j: int| 0 <= j < b.len() && side_prices(b)[j] == a.last().price;
        assert(b[j].price == a.last().price);
        assert(b[j].price <= b.last().price);
        lemma_entries_map_contains(side_prices(a), a, b.last().price);
        let i = choose|i: int| 0 <= i < a.len() && side_prices(a)[i] == b.last().price;
        assert(a[i].price == b.last().price);
        assert(a[i].price <= a.last().price);
        assert(a.last().price == b.last().price);
        lemma_entries_map_index(side_prices(b), b, j);
        assert(a.last() == b.last());
        // Dropping it drops the same key from both maps.
        lemma_entries_map_remove_at(side_prices(a), a, a.len() - 1);
        lemma_entries_map_remove_at(side_prices(b), b, b.len() - 1);
        assert(side_prices(a).remove(a.len() - 1) =~= side_prices(a.drop_last()));
        assert(a.remove(a.len() - 1) =~= a.drop_last());
        assert(side_prices(b).remove(b.len() - 1) =~= side_prices(b.drop_last()));
        assert(b.remove(b.len() - 1) =~= b.drop_last());
        lemma_sorted_side_unique(a.drop_last(), b.drop_last());
        assert(a.len() == b.len());
        assert forall|k: int| 0 <= k < a.len() implies a[k] == b[k] by {
            if k < a.len() - 1 {
                assert(a.drop_last()[k] == b.drop_last()[k]);
            }
        }
        assert(a =~= b);
    }
}

/// Zero-amount removal: a level row with amount zero deletes its price,
/// and a later non-zero row at the same price re-inserts it.
pub proof fn lemma_zero_amount_removes(m: Map<i128, OrderBookItem>, l: Seq<Seq<char>>)
    requires
        spec_level_item(l) is Some,
    ensures
        ({
            let it = spec_level_item(l)->Some_0;
            &&& it.amount == 0 ==> !spec_apply_levels(m, seq![l]).contains_key(it.price)
            &&& it.amount != 0 ==> spec_apply_levels(m, seq![l]).contains_key(it.price)
                && spec_apply_levels(m, seq![l])[it.price] == it
        }),
{
    assert(seq![l].drop_last() =~= Seq::<Seq<Seq<char>>>::empty());
    assert(seq![l].last() == l);
}

/// The instrument keys of a merge table.
pub open spec fn merge_key_views(s: Seq<OrderBookMerge>) -> Seq<Seq<char>> {
    s.map_values(|m: OrderBookMerge| m.inst_id@)
}

/// The per-instrument merge table.
pub struct OrderBookMergeMgr {
    merges: Vec<OrderBookMerge>,
}

impl OrderBookMergeMgr {
    /// The books by instrument id.
    pub closed spec fn merge_map(&self) -> Map<Seq<char>, OrderBookMerge> {
        entries_map(merge_key_views(self.merges@), self.merges@)
    }

    /// Distinct instruments, each book well formed.
    pub closed spec fn wf(&self) -> bool {
        &&& distinct_keys(merge_key_views(self.merges@))
        &&& forall|i: int| 0 <= i < self.merges@.len() ==> (#[trigger] self.merges@[i]).wf()
    }

    pub fn new() -> (r: Self)
        ensures
            r.wf(),
            r.merge_map() == Map::<Seq<char>, OrderBookMerge>::empty(),
    {
        let r = Self { merges: Vec::new() };
        proof {
            assert(merge_key_views(r.merges@) =~= Seq::<Seq<char>>::empty());
        }
        r
    }

    fn find_merge(&self, inst_id: &str) -> (r: Option<usize>)
        ensures
            match r {
                Some(i) => i < self.merges@.len() && self.merges@[i as int].inst_id@ == inst_id@,
                None => forall|j: int|
                    0 <= j < self.merges@.len() ==> (#[trigger] self.merges@[j]).inst_id@
                        != inst_id@,
            },
    {
        let n = self.merges.len();
        let mut i: usize = 0;
        while i < n
            invariant
                0 <= i <= n,
                n == self.merges@.len(),
                forall|j: int| 0 <= j < i ==> (#[trigger] self.merges@[j]).inst_id@ != inst_id@,
            decreases n - i,
        {
            if str_eq(self.merges[i].inst_id.as_str(), inst_id) {
                return Some(i);
            }
            i = i + 1;
        }
        None
    }

    /// Ensures a merge exists for the instrument; an existing one stays.
    pub fn add_merge(&mut self, inst_id: &str, orderbook_size: OrderBookSize)
        requires
            old(self).wf(),
        ensures
            final(self).wf(),
            final(self).merge_map().contains_key(inst_id@),
            old(self).merge_map().contains_key(inst_id@) ==> *final(self) == *old(self),
            !old(self).merge_map().contains_key(inst_id@) ==> {
                let m = final(self).merge_map()[inst_id@];
                &&& final(self).merge_map() == old(self).merge_map().insert(inst_id@, m)
                &&& m.wf()
                &&& m.asks_map() == Map::<i128, OrderBookItem>::empty()
                &&& m.bids_map() == Map::<i128, OrderBookItem>::empty()
                &&& m.seq_id == -1
                &&& m.size == orderbook_size
                &&& m.inst_id@ == inst_id@
            },
    {
        let found = self.find_merge(inst_id);
        match found {
            Some(i) => {
                proof {
                    assert(merge_key_views(self.merges@)[i as int] == inst_id@);
                    lemma_entries_map_contains(
                        merge_key_views(self.merges@),
                        self.merges@,
                        inst_id@,
                    );
                }
            },
            None => {
                let ghost gk = merge_key_views(self.merges@);
                let ghost gv = self.merges@;
                proof {
                    lemma_entries_map_contains(gk, gv, inst_id@);
                }
                let m = OrderBookMerge::new(inst_id, orderbook_size);
                self.merges.push(m);
                proof {
                    assert(merge_key_views(self.merges@) =~= gk.push(inst_id@));
                    lemma_entries_map_push(gk, gv, inst_id@, self.merges@.last());
                    lemma_entries_map_index(
                        merge_key_views(self.merges@),
                        self.merges@,
                        self.merges@.len() - 1,
                    );
                }
            },
        }
    }

    /// Drops the instrument's merge, if it has one.
    pub fn remove_merge(&mut self, inst_id: &str)
        requires
            old(self).wf(),
        ensures
            final(self).wf(),
            final(self).merge_map() == old(self).merge_map().remove(inst_id@),
    {
        let found = self.find_merge(inst_id);
        match found {
            Some(i) => {
                proof {
                    assert(merge_key_views(self.merges@)[i as int] == inst_id@);
                    lemma_entries_map_remove_at(merge_key_views(self.merges@), self.merges@, i as int);
                }
                let ghost gk = merge_key_views(self.merges@);
                let ghost gv = self.merges@;
                self.merges.remove(i);
                proof {
                    assert(merge_key_views(self.merges@) =~= gk.remove(i as int));
                    assert(self.merges@ =~= gv.remove(i as int));
                }
            },
            None => {
                proof {
                    lemma_entries_map_contains(merge_key_views(self.merges@), self.merges@, inst_id@);
                    assert(final(self).merge_map() =~= old(self).merge_map().remove(inst_id@));
                }
            },
        }
    }

    /// A look at the instrument's merge state, if it has one.
    pub fn get_merge(&self, inst_id: &str) -> (r: Option<&OrderBookMerge>)
        requires
            self.wf(),
        ensures
            match r {
                Some(m) => self.merge_map().contains_key(inst_id@) && *m
                    == self.merge_map()[inst_id@],
                None => !self.merge_map().contains_key(inst_id@),
            },
    {
        let found = self.find_merge(inst_id);
        match found {
            Some(i) => {
                proof {
                    assert(merge_key_views(self.merges@)[i as int] == inst_id@);
                    lemma_entries_map_index(merge_key_views(self.merges@), self.merges@, i as int);
                }
                Some(&self.merges[i])
            },
            None => {
                proof {
                    lemma_entries_map_contains(merge_key_views(self.merges@), self.merges@, inst_id@);
                }
                None
            },
        }
    }

    /// Routes a batch of depth events into the instrument's merge.  The
    /// returned view, present exactly when some event mutated the book, is
    /// what subscribers are to see.
    pub fn orderbook_event(&mut self, inst_id: &str, events: &Vec<OrderBookEvent>) -> (r: Option<
        OrderBook,
    >)
        requires
            old(self).wf(),
        ensures
            final(self).wf(),
            ({
                let m0 = old(self).merge_map();
                if m0.contains_key(inst_id@) {
                    let b0 = m0[inst_id@];
                    let run = spec_book_run(
                        b0.asks_map(),
                        b0.bids_map(),
                        b0.seq_id,
                        b0.size,
                        events@,
                    );
                    &&& final(self).merge_map().contains_key(inst_id@)
                    &&& ({
                        let b1 = final(self).merge_map()[inst_id@];
                        &&& b1.asks_map() == run.0
                        &&& b1.bids_map() == run.1
                        &&& b1.seq_id == run.2
                        &&& b1.size == b0.size
                        &&& b1.inst_id@ == inst_id@
                        &&& b1.wf()
                        &&& final(self).merge_map() == m0.insert(inst_id@, b1)
                        &&& match r {
                            Some(book) => run.3 && book.seq_id == run.2 && book.asks@
                                == b1.asks_seq() && sorted_by_price(book.asks@)
                                && sorted_by_price_desc(book.bids@) && book.bids@.len()
                                == b1.bids_seq().len() && (forall|i: int|
                                0 <= i < book.bids@.len() ==> book.bids@[i]
                                    == b1.bids_seq()[b1.bids_seq().len() - 1 - i]),
                            None => !run.3,
                        }
                    })
                } else {
                    r is None && *final(self) == *old(self)
                }
            }),
    {
        let found = self.find_merge(inst_id);
        let idx: usize;
        match found {
            Some(i) => {
                idx = i;
            },
            None => {
                proof {
                    lemma_entries_map_contains(merge_key_views(self.merges@), self.merges@, inst_id@);
                }
                return None;
            },
        }
        proof {
            assert(merge_key_views(self.merges@)[idx as int] == inst_id@);
            lemma_entries_map_index(merge_key_views(self.merges@), self.merges@, idx as int);
        }
        let ghost gk = merge_key_views(self.merges@);
        let ghost gv = self.merges@;
        let ghost b0 = gv[idx as int];
        let mut m = self.merges.remove(idx);
        let n = events.len();
        let mut changed = false;
        let mut j: usize = 0;
        proof {
            assert(events@.take(0) =~= Seq::<OrderBookEvent>::empty());
        }
        while j < n
            invariant
                0 <= j <= n,
                n == events@.len(),
                ({
                    let run = spec_book_run(
                        b0.asks_map(),
                        b0.bids_map(),
                        b0.seq_id,
                        b0.size,
                        events@.take(j as int),
                    );
                    &&& m.wf()
                    &&& m.size == b0.size
                    &&& m.inst_id == b0.inst_id
                    &&& m.asks_map() == run.0
                    &&& m.bids_map() == run.1
                    &&& m.seq_id == run.2
                    &&& changed == run.3
                }),
            decreases n - j,
        {
            proof {
                assert(events@.take(j + 1).drop_last() =~= events@.take(j as int));
            }
            let c = m.handle_orderbook_event(&events[j]);
            if c {
                changed = true;
            }
            j = j + 1;
        }
        proof {
            assert(events@.take(n as int) =~= events@);
        }
        let r = if changed {
            Some(m.get_order_book())
        } else {
            None
        };
        self.merges.insert(idx, m);
        proof {
            assert(self.merges@ =~= gv.update(idx as int, self.merges@[idx as int]));
            assert(merge_key_views(self.merges@) =~= gk);
            lemma_entries_map_update(gk, gv, idx as int, self.merges@[idx as int]);
            lemma_entries_map_index(merge_key_views(self.merges@), self.merges@, idx as int);
        }
        r
    }
}

} // verus!
