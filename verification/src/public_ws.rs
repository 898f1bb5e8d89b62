//! The public session core: desired subscriptions, the frames that realise
//! them, the replay after a reconnect, and the routing of inbound envelopes.

use vstd::prelude::*;

use crate::book::OrderBook;
use crate::book::OrderBookMerge;
use crate::book::OrderBookMergeMgr;
use crate::conn::is_channel_inst_frame;
use crate::conn::is_symbol_frame;
use crate::conn::EnvelopeHeader;
use crate::conn::WebsocketRequest;
use crate::conn::WsArg;
use crate::models::InstType;
use crate::strutil::str_eq;
use crate::strutil::string_views;
use crate::ws_events::OrderBookEvent;
use crate::ws_events::OrderBookSize;
use crate::ws_events::OrderBookType;
use crate::ws_events::TickerEventArg;
use crate::ws_events::TradeSymbolChangeSubscribeInfo;

verus! {

/// One desired depth subscription.
#[derive(Debug, Clone)]
pub struct OrderBookSubscribeInfo {
    pub inst_id: String,
    pub size: OrderBookSize,
}

/// Where an inbound public envelope goes.
#[derive(Clone, Copy, Debug, Eq, PartialEq, Structural)]
pub enum PublicRoute {
    /// Non-zero code: surfaced as an error, nothing dispatched.
    RemoteErr,
    Tickers,
    Trades,
    OrderBook { size: OrderBookSize, book_type: OrderBookType },
    Instruments,
    Ignore,
}

/// The routing rule for public envelopes.
pub open spec fn spec_route_public(h: EnvelopeHeader) -> PublicRoute {
    if h.code@ != "0"@ {
        PublicRoute::RemoteErr
    } else {
        match h.channel {
            Option::None => PublicRoute::Ignore,
            Option::Some(c) => {
                if c@ == "tickers"@ {
                    PublicRoute::Tickers
                } else if c@ == "trades"@ {
                    PublicRoute::Trades
                } else if OrderBookSize::spec_from_channel(c@) is Some {
                    match OrderBookType::spec_from_action(h.action@) {
                        Option::Some(t) => PublicRoute::OrderBook {
                            size: OrderBookSize::spec_from_channel(c@)->Some_0,
                            book_type: t,
                        },
                        Option::None => PublicRoute::Ignore,
                    }
                } else if c@ == "instruments"@ {
                    PublicRoute::Instruments
                } else {
                    PublicRoute::Ignore
                }
            },
        }
    }
}

/// Routes one inbound public envelope.
pub fn route_public(h: &EnvelopeHeader) -> (r: PublicRoute)
    ensures
        r == spec_route_public(*h),
{
    if !str_eq(h.code.as_str(), "0") {
        return PublicRoute::RemoteErr;
    }
    match &h.channel {
        Option::None => PublicRoute::Ignore,
        Option::Some(c) => {
            if str_eq(c.as_str(), "tickers") {
                PublicRoute::Tickers
            } else if str_eq(c.as_str(), "trades") {
                PublicRoute::Trades
            } else if let Option::Some(size) = OrderBookSize::from_channel(c.as_str()) {
                match OrderBookType::from_action(h.action.as_str()) {
                    Option::Some(t) => PublicRoute::OrderBook { size, book_type: t },
                    Option::None => PublicRoute::Ignore,
                }
            } else if str_eq(c.as_str(), "instruments") {
                PublicRoute::Instruments
            } else {
                PublicRoute::Ignore
            }
        },
    }
}

/// The book-subscription keys of a list of desired depth subscriptions.
pub open spec fn book_views(s: Seq<OrderBookSubscribeInfo>) -> Seq<(Seq<char>, OrderBookSize)> {
    s.map_values(|b: OrderBookSubscribeInfo| (b.inst_id@, b.size))
}

/// The public session core: desired subscriptions and the per-instrument
/// merge table.
pub struct PublicSessionCore {
    ticker_subscribed: Vec<String>,
    trade_subscribed: Vec<String>,
    orderbook_subscribed: Vec<OrderBookSubscribeInfo>,
    trade_symbol_change_subscribed: Vec<InstType>,
    orderbook_merge_mgr: OrderBookMergeMgr,
}

impl PublicSessionCore {
    /// The desired ticker subscriptions.
    pub closed spec fn tickers(&self) -> Seq<Seq<char>> {
        string_views(self.ticker_subscribed@)
    }

    /// The desired trade subscriptions.
    pub closed spec fn trades(&self) -> Seq<Seq<char>> {
        string_views(self.trade_subscribed@)
    }

    /// The desired depth subscriptions.
    pub closed spec fn books(&self) -> Seq<(Seq<char>, OrderBookSize)> {
        book_views(self.orderbook_subscribed@)
    }

    /// The desired instrument-list subscriptions.
    pub closed spec fn symbol_types(&self) -> Seq<InstType> {
        self.trade_symbol_change_subscribed@
    }

    /// The books by instrument id.
    pub open spec fn merge_map(&self) -> Map<Seq<char>, OrderBookMerge> {
        self.merge_mgr_spec().merge_map()
    }

    pub closed spec fn merge_mgr_spec(&self) -> OrderBookMergeMgr {
        self.orderbook_merge_mgr
    }

    /// Each desired set holds its key once.
    pub closed spec fn wf(&self) -> bool {
        &&& crate::kvtable::distinct_keys(self.tickers())
        &&& crate::kvtable::distinct_keys(self.trades())
        &&& crate::kvtable::distinct_keys(self.books().map_values(|b: (Seq<char>, OrderBookSize)| b.0))
        &&& crate::kvtable::distinct_keys(self.symbol_types())
        &&& self.orderbook_merge_mgr.wf()
    }

    pub fn new() -> (r: Self)
        ensures
            r.wf(),
            r.tickers().len() == 0,
            r.trades().len() == 0,
            r.books().len() == 0,
            r.symbol_types().len() == 0,
            r.merge_map() == Map::<Seq<char>, OrderBookMerge>::empty(),
    {
        let r = Self {
            ticker_subscribed: Vec::new(),
            trade_subscribed: Vec::new(),
            orderbook_subscribed: Vec::new(),
            trade_symbol_change_subscribed: Vec::new(),
            orderbook_merge_mgr: OrderBookMergeMgr::new(),
        };
        proof {
            assert(string_views(r.ticker_subscribed@) =~= Seq::<Seq<char>>::empty());
            assert(string_views(r.trade_subscribed@) =~= Seq::<Seq<char>>::empty());
            assert(book_views(r.orderbook_subscribed@) =~= Seq::<(Seq<char>, OrderBookSize)>::empty());
        }
        r
    }

    /// A look at the merge table.
    pub fn orderbook_merge(&self) -> (r: &OrderBookMergeMgr)
        ensures
            r == &self.merge_mgr_spec(),
    {
        &self.orderbook_merge_mgr
    }

    /// Routes a batch of depth events into the instrument's merge; see
    /// [`OrderBookMergeMgr::orderbook_event`].
    pub fn orderbook_event(&mut self, inst_id: &str, events: &Vec<OrderBookEvent>) -> (r: Option<
        OrderBook,
    >)
        requires
            old(self).wf(),
        ensures
            final(self).wf(),
            final(self).tickers() == old(self).tickers(),
            final(self).trades() == old(self).trades(),
            final(self).books() == old(self).books(),
            final(self).symbol_types() == old(self).symbol_types(),
            ({
                let m0 = old(self).merge_map();
                if m0.contains_key(inst_id@) {
                    let b0 = m0[inst_id@];
                    let run = crate::book::spec_book_run(
                        b0.asks_map(),
                        b0.bids_map(),
                        b0.seq_id,
                        b0.size,
                        events@,
                    );
                    &&& final(self).merge_map().contains_key(inst_id@)
                    &&& ({
                        let b1 = final(self).merge_map()[inst_id@];
                        &&& b1.asks_map() == run.0
                        &&& b1.bids_map() == run.1
                        &&& b1.seq_id == run.2
                        &&& final(self).merge_map() == m0.insert(inst_id@, b1)
                        &&& match r {
                            Some(book) => run.3 && book.seq_id == run.2 && book.asks@
                                == b1.asks_seq() && crate::book::sorted_by_price(book.asks@)
                                && crate::book::sorted_by_price_desc(book.bids@),
                            None => !run.3,
                        }
                    })
                } else {
                    r is None && final(self).merge_map() == m0
                }
            }),
    {
        self.orderbook_merge_mgr.orderbook_event(inst_id, events)
    }

    fn find_ticker(&self, inst_id: &str) -> (r: Option<usize>)
        ensures
            match r {
                Some(i) => i < self.tickers().len() && self.tickers()[i as int] == inst_id@,
                None => forall|j: int| 0 <= j < self.tickers().len() ==> self.tickers()[j] != inst_id@,
            },
    {
        let n = self.ticker_subscribed.len();
        let mut i: usize = 0;
        while i < n
            invariant
                0 <= i <= n,
                n == self.tickers().len(),
                forall|j: int| 0 <= j < i ==> self.tickers()[j] != inst_id@,
            decreases n - i,
        {
            if str_eq(self.ticker_subscribed[i].as_str(), inst_id) {
                return Some(i);
            }
            i = i + 1;
        }
        None
    }

    /// Records the wish for a ticker stream.  A repeated wish is absorbed;
    /// a new one yields the subscribe frame to put on the wire.
    pub fn ticker_subscribe(&mut self, inst_id: &str) -> (r: Option<WebsocketRequest>)
        requires
            old(self).wf(),
        ensures
            final(self).wf(),
            final(self).trades() == old(self).trades(),
            final(self).books() == old(self).books(),
            final(self).symbol_types() == old(self).symbol_types(),
            final(self).merge_map() == old(self).merge_map(),
            match r {
                Some(req) => {
                    &&& !old(self).tickers().contains(inst_id@)
                    &&& final(self).tickers() == old(self).tickers().push(inst_id@)
                    &&& is_channel_inst_frame(req, "subscribe"@, "tickers"@, inst_id@)
                },
                None => old(self).tickers().contains(inst_id@) && final(self).tickers() == old(
                    self,
                ).tickers(),
            },
    {
        let found = self.find_ticker(inst_id);
        match found {
            Some(_) => {
                proof {
                    assert(old(self).tickers().contains(inst_id@));
                }
                None
            },
            None => {
                proof {
                    if old(self).tickers().contains(inst_id@) {
                        let j = choose|j: int|
                            0 <= j < old(self).tickers().len() && old(self).tickers()[j]
                                == inst_id@;
                        assert(false);
                    }
                }
                self.ticker_subscribed.push(inst_id.to_owned());
                proof {
                    assert(self.tickers() =~= old(self).tickers().push(inst_id@));
                }
                Some(
                    WebsocketRequest {
                        op: "subscribe".to_owned(),
                        args: vec![
                            WsArg::Ticker(
                                TickerEventArg {
                                    channel: "tickers".to_owned(),
                                    inst_id: inst_id.to_owned(),
                                },
                            ),
                        ],
                    },
                )
            },
        }
    }

    /// Withdraws the wish for a ticker stream and yields the unsubscribe
    /// frame; the frame goes out whether or not the wish was recorded.
    pub fn ticker_unsubscribe(&mut self, inst_id: &str) -> (r: WebsocketRequest)
        requires
            old(self).wf(),
        ensures
            final(self).wf(),
            final(self).trades() == old(self).trades(),
            final(self).books() == old(self).books(),
            final(self).symbol_types() == old(self).symbol_types(),
            final(self).merge_map() == old(self).merge_map(),
            !final(self).tickers().contains(inst_id@),
            if old(self).tickers().contains(inst_id@) {
                exists|i: int|
                    0 <= i < old(self).tickers().len() && old(self).tickers()[i] == inst_id@
                        && final(self).tickers() == old(self).tickers().remove(i)
            } else {
                final(self).tickers() == old(self).tickers()
            },
            is_channel_inst_frame(r, "unsubscribe"@, "tickers"@, inst_id@),
    {
        let found = self.find_ticker(inst_id);
        match found {
            Some(i) => {
                let ghost g = self.tickers();
                self.ticker_subscribed.remove(i);
                proof {
                    assert(self.tickers() =~= g.remove(i as int));
                    assert forall|j: int|
                        0 <= j < self.tickers().len() implies self.tickers()[j] != inst_id@ by {
                        if j < i {
                            assert(g[j] != g[i as int]);
                        } else {
                            assert(g[j + 1] != g[i as int]);
                        }
                    }
                }
            },
            None => {},
        }
        WebsocketRequest {
            op: "unsubscribe".to_owned(),
            args: vec![
                WsArg::Ticker(
                    TickerEventArg { channel: "tickers".to_owned(), inst_id: inst_id.to_owned() },
                ),
            ],
        }
    }

    fn find_trade(&self, inst_id: &str) -> (r: Option<usize>)
        ensures
            match r {
                Some(i) => i < self.trades().len() && self.trades()[i as int] == inst_id@,
                None => forall|j: int| 0 <= j < self.trades().len() ==> self.trades()[j] != inst_id@,
            },
    {
        let n = self.trade_subscribed.len();
        let mut i: usize = 0;
        while i < n
            invariant
                0 <= i <= n,
                n == self.trades().len(),
                forall|j: int| 0 <= j < i ==> self.trades()[j] != inst_id@,
            decreases n - i,
        {
            if str_eq(self.trade_subscribed[i].as_str(), inst_id) {
                return Some(i);
            }
            i = i + 1;
        }
        None
    }

    /// Records the wish for a trade stream; a repeated wish is absorbed.
    pub fn trade_subscribe(&mut self, inst_id: &str) -> (r: Option<WebsocketRequest>)
        requires
            old(self).wf(),
        ensures
            final(self).wf(),
            final(self).tickers() == old(self).tickers(),
            final(self).books() == old(self).books(),
            final(self).symbol_types() == old(self).symbol_types(),
            final(self).merge_map() == old(self).merge_map(),
            match r {
                Some(req) => {
                    &&& !old(self).trades().contains(inst_id@)
                    &&& final(self).trades() == old(self).trades().push(inst_id@)
                    &&& is_channel_inst_frame(req, "subscribe"@, "trades"@, inst_id@)
                },
                None => old(self).trades().contains(inst_id@) && final(self).trades() == old(
                    self,
                ).trades(),
            },
    {
        let found = self.find_trade(inst_id);
        match found {
            Some(_) => {
                proof {
                    assert(old(self).trades().contains(inst_id@));
                }
                None
            },
            None => {
                proof {
                    if old(self).trades().contains(inst_id@) {
                        let j = choose|j: int|
                            0 <= j < old(self).trades().len() && old(self).trades()[j] == inst_id@;
                        assert(false);
                    }
                }
                self.trade_subscribed.push(inst_id.to_owned());
                proof {
                    assert(self.trades() =~= old(self).trades().push(inst_id@));
                }
                Some(
                    WebsocketRequest {
                        op: "subscribe".to_owned(),
                        args: vec![
                            WsArg::Ticker(
                                TickerEventArg {
                                    channel: "trades".to_owned(),
                                    inst_id: inst_id.to_owned(),
                                },
                            ),
                        ],
                    },
                )
            },
        }
    }

    /// Withdraws the wish for a trade stream; the unsubscribe frame goes out
    /// either way.
    pub fn trade_unsubscribe(&mut self, inst_id: &str) -> (r: WebsocketRequest)
        requires
            old(self).wf(),
        ensures
            final(self).wf(),
            final(self).tickers() == old(self).tickers(),
            final(self).books() == old(self).books(),
            final(self).symbol_types() == old(self).symbol_types(),
            final(self).merge_map() == old(self).merge_map(),
            !final(self).trades().contains(inst_id@),
            if old(self).trades().contains(inst_id@) {
                exists|i: int|
                    0 <= i < old(self).trades().len() && old(self).trades()[i] == inst_id@
                        && final(self).trades() == old(self).trades().remove(i)
            } else {
                final(self).trades() == old(self).trades()
            },
            is_channel_inst_frame(r, "unsubscribe"@, "trades"@, inst_id@),
    {
        let found = self.find_trade(inst_id);
        match found {
            Some(i) => {
                let ghost g = self.trades();
                self.trade_subscribed.remove(i);
                proof {
                    assert(self.trades() =~= g.remove(i as int));
                    assert forall|j: int|
                        0 <= j < self.trades().len() implies self.trades()[j] != inst_id@ by {
                        if j < i {
                            assert(g[j] != g[i as int]);
                        } else {
                            assert(g[j + 1] != g[i as int]);
                        }
                    }
                }
            },
            None => {},
        }
        WebsocketRequest {
            op: "unsubscribe".to_owned(),
            args: vec![
                WsArg::Ticker(
                    TickerEventArg { channel: "trades".to_owned(), inst_id: inst_id.to_owned() },
                ),
            ],
        }
    }

    fn find_book(&self, inst_id: &str) -> (r: Option<usize>)
        ensures
            match r {
                Some(i) => i < self.books().len() && self.books()[i as int].0 == inst_id@,
                None => forall|j: int|
                    0 <= j < self.books().len() ==> (#[trigger] self.books()[j]).0 != inst_id@,
            },
    {
        let n = self.orderbook_subscribed.len();
        let mut i: usize = 0;
        while i < n
            invariant
                0 <= i <= n,
                n == self.books().len(),
                forall|j: int| 0 <= j < i ==> (#[trigger] self.books()[j]).0 != inst_id@,
            decreases n - i,
        {
            if str_eq(self.orderbook_subscribed[i].inst_id.as_str(), inst_id) {
                return Some(i);
            }
            i = i + 1;
        }
        None
    }

    /// Records the wish for a depth stream.  A new wish yields the subscribe
    /// frame on the size class's channel and opens the instrument's merge.
    pub fn orderbook_subscribe(&mut self, inst_id: &str, size: OrderBookSize) -> (r: Option<
        WebsocketRequest,
    >)
        requires
            old(self).wf(),
        ensures
            final(self).wf(),
            final(self).tickers() == old(self).tickers(),
            final(self).trades() == old(self).trades(),
            final(self).symbol_types() == old(self).symbol_types(),
            match r {
                Some(req) => {
                    &&& forall|j: int|
                        0 <= j < old(self).books().len() ==> (#[trigger] old(self).books()[j]).0
                            != inst_id@
                    &&& final(self).books() == old(self).books().push((inst_id@, size))
                    &&& is_channel_inst_frame(req, "subscribe"@, size.spec_channel(), inst_id@)
                    &&& final(self).merge_map().contains_key(inst_id@)
                    &&& old(self).merge_map().contains_key(inst_id@) ==> final(self).merge_map()
                        == old(self).merge_map()
                    &&& !old(self).merge_map().contains_key(inst_id@) ==> {
                        let m = final(self).merge_map()[inst_id@];
                        &&& final(self).merge_map() == old(self).merge_map().insert(inst_id@, m)
                        &&& m.seq_id == -1
                        &&& m.size == size
                        &&& m.asks_map() == Map::<i128, crate::book::OrderBookItem>::empty()
                        &&& m.bids_map() == Map::<i128, crate::book::OrderBookItem>::empty()
                    }
                },
                None => {
                    &&& (exists|j: int|
                        0 <= j < old(self).books().len() && (#[trigger] old(self).books()[j]).0
                            == inst_id@)
                    &&& final(self).books() == old(self).books()
                    &&& final(self).merge_map() == old(self).merge_map()
                },
            },
    {
        let found = self.find_book(inst_id);
        match found {
            Some(_) => None,
            None => {
                self.orderbook_subscribed.push(
                    OrderBookSubscribeInfo { inst_id: inst_id.to_owned(), size },
                );
                self.orderbook_merge_mgr.add_merge(inst_id, size);
                proof {
                    assert(self.books() =~= old(self).books().push((inst_id@, size)));
                    assert(self.books().map_values(|b: (Seq<char>, OrderBookSize)| b.0) =~= old(
                        self,
                    ).books().map_values(|b: (Seq<char>, OrderBookSize)| b.0).push(inst_id@));
                }
                let channel = size.channel();
                Some(
                    WebsocketRequest {
                        op: "subscribe".to_owned(),
                        args: vec![
                            WsArg::Ticker(
                                TickerEventArg { channel, inst_id: inst_id.to_owned() },
                            ),
                        ],
                    },
                )
            },
        }
    }

    /// Withdraws the wish for a depth stream, closes the instrument's merge
    /// and yields the unsubscribe frame.
    pub fn orderbook_unsubscribe(&mut self, inst_id: &str, size: OrderBookSize) -> (r:
        WebsocketRequest)
        requires
            old(self).wf(),
        ensures
            final(self).wf(),
            final(self).tickers() == old(self).tickers(),
            final(self).trades() == old(self).trades(),
            final(self).symbol_types() == old(self).symbol_types(),
            final(self).merge_map() == old(self).merge_map().remove(inst_id@),
            forall|j: int|
                0 <= j < final(self).books().len() ==> (#[trigger] final(self).books()[j]).0
                    != inst_id@,
            if exists|i: int|
                0 <= i < old(self).books().len() && (#[trigger] old(self).books()[i]).0
                    == inst_id@ {
                exists|i: int|
                    0 <= i < old(self).books().len() && (#[trigger] old(self).books()[i]).0
                        == inst_id@ && final(self).books() == old(self).books().remove(i)
            } else {
                final(self).books() == old(self).books()
            },
            is_channel_inst_frame(r, "unsubscribe"@, size.spec_channel(), inst_id@),
    {
        let found = self.find_book(inst_id);
        match found {
            Some(i) => {
                let ghost g = self.books();
                self.orderbook_subscribed.remove(i);
                proof {
                    assert(self.books() =~= g.remove(i as int));
                    assert(self.books().map_values(|b: (Seq<char>, OrderBookSize)| b.0) =~= g
                        .map_values(|b: (Seq<char>, OrderBookSize)| b.0).remove(i as int));
                    let gm = g.map_values(|b: (Seq<char>, OrderBookSize)| b.0);
                    assert forall|j: int|
                        0 <= j < self.books().len() implies (#[trigger] self.books()[j]).0
                        != inst_id@ by {
                        if j < i {
                            assert(gm[j] != gm[i as int]);
                            assert(gm[j] == g[j].0);
                        } else {
                            assert(gm[j + 1] != gm[i as int]);
                            assert(gm[j + 1] == g[j + 1].0);
                        }
                        assert(gm[i as int] == g[i as int].0);
                    }
                }
            },
            None => {},
        }
        self.orderbook_merge_mgr.remove_merge(inst_id);
        let channel = size.channel();
        WebsocketRequest {
            op: "unsubscribe".to_owned(),
            args: vec![
                WsArg::Ticker(TickerEventArg { channel, inst_id: inst_id.to_owned() }),
            ],
        }
    }

    fn find_symbol(&self, inst_type: InstType) -> (r: Option<usize>)
        ensures
            match r {
                Some(i) => i < self.symbol_types().len() && self.symbol_types()[i as int]
                    == inst_type,
                None => forall|j: int|
                    0 <= j < self.symbol_types().len() ==> self.symbol_types()[j] != inst_type,
            },
    {
        let n = self.trade_symbol_change_subscribed.len();
        let mut i: usize = 0;
        while i < n
            invariant
                0 <= i <= n,
                n == self.symbol_types().len(),
                forall|j: int| 0 <= j < i ==> self.symbol_types()[j] != inst_type,
            decreases n - i,
        {
            if self.trade_symbol_change_subscribed[i] == inst_type {
                return Some(i);
            }
            i = i + 1;
        }
        None
    }

    /// Records the wish for an instrument-list stream of one type.
    pub fn trade_symbol_change_subscribe(&mut self, inst_type: InstType) -> (r: Option<
        WebsocketRequest,
    >)
        requires
            old(self).wf(),
        ensures
            final(self).wf(),
            final(self).tickers() == old(self).tickers(),
            final(self).trades() == old(self).trades(),
            final(self).books() == old(self).books(),
            final(self).merge_map() == old(self).merge_map(),
            match r {
                Some(req) => {
                    &&& !old(self).symbol_types().contains(inst_type)
                    &&& final(self).symbol_types() == old(self).symbol_types().push(inst_type)
                    &&& is_symbol_frame(req, "subscribe"@, inst_type)
                },
                None => old(self).symbol_types().contains(inst_type) && final(self).symbol_types()
                    == old(self).symbol_types(),
            },
    {
        let found = self.find_symbol(inst_type);
        match found {
            Some(_) => {
                proof {
                    assert(old(self).symbol_types().contains(inst_type));
                }
                None
            },
            None => {
                proof {
                    if old(self).symbol_types().contains(inst_type) {
                        let j = choose|j: int|
                            0 <= j < old(self).symbol_types().len() && old(self).symbol_types()[j]
                                == inst_type;
                        assert(false);
                    }
                }
                self.trade_symbol_change_subscribed.push(inst_type);
                Some(
                    WebsocketRequest {
                        op: "subscribe".to_owned(),
                        args: vec![
                            WsArg::Symbol(
                                TradeSymbolChangeSubscribeInfo {
                                    channel: "instruments".to_owned(),
                                    inst_type,
                                },
                            ),
                        ],
                    },
                )
            },
        }
    }

    /// Withdraws the wish for an instrument-list stream; the unsubscribe
    /// frame goes out either way.
    pub fn trade_symbol_unsubscribe(&mut self, inst_type: InstType) -> (r: WebsocketRequest)
        requires
            old(self).wf(),
        ensures
            final(self).wf(),
            final(self).tickers() == old(self).tickers(),
            final(self).trades() == old(self).trades(),
            final(self).books() == old(self).books(),
            final(self).merge_map() == old(self).merge_map(),
            !final(self).symbol_types().contains(inst_type),
            if old(self).symbol_types().contains(inst_type) {
                exists|i: int|
                    0 <= i < old(self).symbol_types().len() && old(self).symbol_types()[i]
                        == inst_type && final(self).symbol_types()
                        == old(self).symbol_types().remove(i)
            } else {
                final(self).symbol_types() == old(self).symbol_types()
            },
            is_symbol_frame(r, "unsubscribe"@, inst_type),
    {
        let found = self.find_symbol(inst_type);
        match found {
            Some(i) => {
                let ghost g = self.symbol_types();
                self.trade_symbol_change_subscribed.remove(i);
                proof {
                    assert(self.symbol_types() =~= g.remove(i as int));
                    assert forall|j: int|
                        0 <= j < self.symbol_types().len() implies self.symbol_types()[j]
                        != inst_type by {
                        if j < i {
                            assert(g[j] != g[i as int]);
                        } else {
                            assert(g[j + 1] != g[i as int]);
                        }
                    }
                }
            },
            None => {},
        }
        WebsocketRequest {
            op: "unsubscribe".to_owned(),
            args: vec![
                WsArg::Symbol(
                    TradeSymbolChangeSubscribeInfo {
                        channel: "instruments".to_owned(),
                        inst_type,
                    },
                ),
            ],
        }
    }


    /// The frames that reconcile a fresh connection with the desired state:
    /// every ticker, trade, depth and instrument-list subscription is
    /// replayed, in that order, and every desired depth stream has a merge.
    pub fn on_connected_requests(&mut self) -> (r: Vec<WebsocketRequest>)
        requires
            old(self).wf(),
        ensures
            final(self).wf(),
            final(self).tickers() == old(self).tickers(),
            final(self).trades() == old(self).trades(),
            final(self).books() == old(self).books(),
            final(self).symbol_types() == old(self).symbol_types(),
            ({
                let nt = old(self).tickers().len();
                let ntr = old(self).trades().len();
                let nb = old(self).books().len();
                let ns = old(self).symbol_types().len();
                &&& r@.len() == nt + ntr + nb + ns
                &&& forall|i: int|
                    0 <= i < nt ==> is_channel_inst_frame(
                        #[trigger] r@[i],
                        "subscribe"@,
                        "tickers"@,
                        old(self).tickers()[i],
                    )
                &&& forall|i: int|
                    0 <= i < ntr ==> is_channel_inst_frame(
                        #[trigger] r@[nt + i],
                        "subscribe"@,
                        "trades"@,
                        old(self).trades()[i],
                    )
                &&& forall|i: int|
                    0 <= i < nb ==> is_channel_inst_frame(
                        #[trigger] r@[nt + ntr + i],
                        "subscribe"@,
                        (#[trigger] old(self).books()[i]).1.spec_channel(),
                        old(self).books()[i].0,
                    )
                &&& forall|i: int|
                    0 <= i < ns ==> is_symbol_frame(
                        #[trigger] r@[nt + ntr + nb + i],
                        "subscribe"@,
                        old(self).symbol_types()[i],
                    )
            }),
            forall|k: Seq<char>|
                #[trigger] old(self).merge_map().contains_key(k)
                    ==> final(self).merge_map().contains_key(k)
                    && final(self).merge_map()[k] == old(self).merge_map()[k],
            forall|i: int|
                0 <= i < old(self).books().len() ==> final(self).merge_map().contains_key(
                    (#[trigger] old(self).books()[i]).0,
                ),
            forall|k: Seq<char>|
                #[trigger] final(self).merge_map().contains_key(k)
                    ==> old(self).merge_map().contains_key(k) || (exists|i: int|
                    0 <= i < old(self).books().len() && (#[trigger] old(self).books()[i]).0 == k),
    {
        let ghost mm0 = self.merge_map();
        let mut out: Vec<WebsocketRequest> = Vec::new();
        let nt = self.ticker_subscribed.len();
        let mut i: usize = 0;
        while i < nt
            invariant
                0 <= i <= nt,
                nt == self.tickers().len(),
                *self == *old(self),
                out@.len() == i,
                forall|j: int|
                    0 <= j < i ==> is_channel_inst_frame(
                        #[trigger] out@[j],
                        "subscribe"@,
                        "tickers"@,
                        self.tickers()[j],
                    ),
            decreases nt - i,
        {
            proof {
                assert(self.tickers()[i as int] == self.ticker_subscribed@[i as int]@);
            }
            out.push(
                WebsocketRequest {
                    op: "subscribe".to_owned(),
                    args: vec![
                        WsArg::Ticker(
                            TickerEventArg {
                                channel: "tickers".to_owned(),
                                inst_id: self.ticker_subscribed[i].clone(),
                            },
                        ),
                    ],
                },
            );
            i = i + 1;
        }
        let ntr = self.trade_subscribed.len();
        let mut i2: usize = 0;
        while i2 < ntr
            invariant
                0 <= i2 <= ntr,
                nt == self.tickers().len(),
                ntr == self.trades().len(),
                *self == *old(self),
                out@.len() == nt + i2,
                forall|j: int|
                    0 <= j < nt ==> is_channel_inst_frame(
                        #[trigger] out@[j],
                        "subscribe"@,
                        "tickers"@,
                        self.tickers()[j],
                    ),
                forall|j: int|
                    0 <= j < i2 ==> is_channel_inst_frame(
                        #[trigger] out@[nt + j],
                        "subscribe"@,
                        "trades"@,
                        self.trades()[j],
                    ),
            decreases ntr - i2,
        {
            proof {
                assert(self.trades()[i2 as int] == self.trade_subscribed@[i2 as int]@);
            }
            out.push(
                WebsocketRequest {
                    op: "subscribe".to_owned(),
                    args: vec![
                        WsArg::Ticker(
                            TickerEventArg {
                                channel: "trades".to_owned(),
                                inst_id: self.trade_subscribed[i2].clone(),
                            },
                        ),
                    ],
                },
            );
            i2 = i2 + 1;
        }
        let nb = self.orderbook_subscribed.len();
        let mut i3: usize = 0;
        while i3 < nb
            invariant
                0 <= i3 <= nb,
                old(self).wf(),
                self.wf(),
                nt == self.tickers().len(),
                ntr == self.trades().len(),
                nb == self.books().len(),
                self.tickers() == old(self).tickers(),
                self.trades() == old(self).trades(),
                self.books() == old(self).books(),
                self.symbol_types() == old(self).symbol_types(),
                mm0 == old(self).merge_map(),
                out@.len() == nt + ntr + i3,
                forall|j: int|
                    0 <= j < nt ==> is_channel_inst_frame(
                        #[trigger] out@[j],
                        "subscribe"@,
                        "tickers"@,
                        self.tickers()[j],
                    ),
                forall|j: int|
                    0 <= j < ntr ==> is_channel_inst_frame(
                        #[trigger] out@[nt + j],
                        "subscribe"@,
                        "trades"@,
                        self.trades()[j],
                    ),
                forall|j: int|
                    0 <= j < i3 ==> is_channel_inst_frame(
                        #[trigger] out@[nt + ntr + j],
                        "subscribe"@,
                        (#[trigger] self.books()[j]).1.spec_channel(),
                        self.books()[j].0,
                    ),
                forall|k: Seq<char>|
                    #[trigger] mm0.contains_key(k) ==> self.merge_map().contains_key(k)
                        && self.merge_map()[k] == mm0[k],
                forall|j: int|
                    0 <= j < i3 ==> self.merge_map().contains_key(
                        (#[trigger] self.books()[j]).0,
                    ),
                forall|k: Seq<char>|
                    #[trigger] self.merge_map().contains_key(k) ==> mm0.contains_key(k) || (
                    exists|j: int|
                        0 <= j < i3 && (#[trigger] self.books()[j]).0 == k),
            decreases nb - i3,
        {
            proof {
                assert(self.books()[i3 as int] == (
                    self.orderbook_subscribed@[i3 as int].inst_id@,
                    self.orderbook_subscribed@[i3 as int].size,
                ));
            }
            let info_inst = self.orderbook_subscribed[i3].inst_id.clone();
            let info_size = self.orderbook_subscribed[i3].size;
            let channel = info_size.channel();
            out.push(
                WebsocketRequest {
                    op: "subscribe".to_owned(),
                    args: vec![
                        WsArg::Ticker(
                            TickerEventArg { channel, inst_id: info_inst.clone() },
                        ),
                    ],
                },
            );
            let ghost pre = self.merge_map();
            self.orderbook_merge_mgr.add_merge(info_inst.as_str(), info_size);
            proof {
                assert forall|k: Seq<char>|
                    #[trigger] mm0.contains_key(k) implies self.merge_map().contains_key(k)
                    && self.merge_map()[k] == mm0[k] by {
                    assert(pre.contains_key(k) && pre[k] == mm0[k]);
                }
                assert forall|k: Seq<char>|
                    #[trigger] self.merge_map().contains_key(k) implies mm0.contains_key(k) || (
                exists|j: int|
                    0 <= j < i3 + 1 && (#[trigger] self.books()[j]).0 == k) by {
                    if pre.contains_key(k) {
                        if !mm0.contains_key(k) {
                            let j = choose|j: int|
                                0 <= j < i3 && (#[trigger] self.books()[j]).0 == k;
                            assert(0 <= j < i3 + 1 && self.books()[j].0 == k);
                        }
                    } else {
                        assert((#[trigger] self.books()[i3 as int]).0 == k);
                    }
                }
            }
            i3 = i3 + 1;
        }
        let ns = self.trade_symbol_change_subscribed.len();
        let mut i4: usize = 0;
        while i4 < ns
            invariant
                0 <= i4 <= ns,
                old(self).wf(),
                self.wf(),
                nt == self.tickers().len(),
                ntr == self.trades().len(),
                nb == self.books().len(),
                ns == self.symbol_types().len(),
                self.tickers() == old(self).tickers(),
                self.trades() == old(self).trades(),
                self.books() == old(self).books(),
                self.symbol_types() == old(self).symbol_types(),
                mm0 == old(self).merge_map(),
                out@.len() == nt + ntr + nb + i4,
                forall|j: int|
                    0 <= j < nt ==> is_channel_inst_frame(
                        #[trigger] out@[j],
                        "subscribe"@,
                        "tickers"@,
                        self.tickers()[j],
                    ),
                forall|j: int|
                    0 <= j < ntr ==> is_channel_inst_frame(
                        #[trigger] out@[nt + j],
                        "subscribe"@,
                        "trades"@,
                        self.trades()[j],
                    ),
                forall|j: int|
                    0 <= j < nb ==> is_channel_inst_frame(
                        #[trigger] out@[nt + ntr + j],
                        "subscribe"@,
                        (#[trigger] self.books()[j]).1.spec_channel(),
                        self.books()[j].0,
                    ),
                forall|j: int|
                    0 <= j < i4 ==> is_symbol_frame(
                        #[trigger] out@[nt + ntr + nb + j],
                        "subscribe"@,
                        self.symbol_types()[j],
                    ),
                forall|k: Seq<char>|
                    #[trigger] mm0.contains_key(k) ==> self.merge_map().contains_key(k)
                        && self.merge_map()[k] == mm0[k],
                forall|j: int|
                    0 <= j < nb ==> self.merge_map().contains_key(
                        (#[trigger] self.books()[j]).0,
                    ),
                forall|k: Seq<char>|
                    #[trigger] self.merge_map().contains_key(k) ==> mm0.contains_key(k) || (
                    exists|j: int|
                        0 <= j < nb && (#[trigger] self.books()[j]).0 == k),
            decreases ns - i4,
        {
            out.push(
                WebsocketRequest {
                    op: "subscribe".to_owned(),
                    args: vec![
                        WsArg::Symbol(
                            TradeSymbolChangeSubscribeInfo {
                                channel: "instruments".to_owned(),
                                inst_type: self.trade_symbol_change_subscribed[i4],
                            },
                        ),
                    ],
                },
            );
            i4 = i4 + 1;
        }
        out
    }
}

} // verus!
