//! Typed events and arguments of the WebSocket channels.

use vstd::prelude::*;

use crate::models::InstType;
use crate::strutil::str_eq;

verus! {

/// Depth stream size classes.
#[derive(Clone, Copy, Debug, Eq, PartialEq, Structural)]
pub enum OrderBookSize {
    /// 400-level snapshot, then incremental updates.
    Default,
    /// 5-level snapshot, replaced in full on every push.
    Size5,
    /// Best bid and offer, replaced in full on every push.
    BboTbt,
    /// 400-level snapshot, then incremental updates every 10 ms.
    BooksL2Tbt,
    /// 50-level snapshot, then incremental updates every 10 ms.
    Books50L2Tbt,
}

impl OrderBookSize {
    /// The channel name of this size class.
    pub open spec fn spec_channel(self) -> Seq<char> {
        match self {
            OrderBookSize::Default => "books"@,
            OrderBookSize::Size5 => "books5"@,
            OrderBookSize::BboTbt => "bbo-tbt"@,
            OrderBookSize::BooksL2Tbt => "books-l2-tb"@,
            OrderBookSize::Books50L2Tbt => "books50-l2-tbt"@,
        }
    }

    pub fn channel(&self) -> (r: String)
        ensures
            r@ == self.spec_channel(),
    {
        match self {
            OrderBookSize::Default => "books".to_owned(),
            OrderBookSize::Size5 => "books5".to_owned(),
            OrderBookSize::BboTbt => "bbo-tbt".to_owned(),
            OrderBookSize::BooksL2Tbt => "books-l2-tb".to_owned(),
            OrderBookSize::Books50L2Tbt => "books50-l2-tbt".to_owned(),
        }
    }

    /// Which size class a channel name denotes, if any.
    pub open spec fn spec_from_channel(channel: Seq<char>) -> Option<OrderBookSize> {
        if channel == "books"@ {
            Some(OrderBookSize::Default)
        } else if channel == "books5"@ {
            Some(OrderBookSize::Size5)
        } else if channel == "bbo-tbt"@ {
            Some(OrderBookSize::BboTbt)
        } else if channel == "books-l2-tb"@ {
            Some(OrderBookSize::BooksL2Tbt)
        } else if channel == "books50-l2-tbt"@ {
            Some(OrderBookSize::Books50L2Tbt)
        } else {
            None
        }
    }

    pub fn from_channel(channel: &str) -> (r: Option<OrderBookSize>)
        ensures
            r == Self::spec_from_channel(channel@),
    {
        if str_eq(channel, "books") {
            Some(OrderBookSize::Default)
        } else if str_eq(channel, "books5") {
            Some(OrderBookSize::Size5)
        } else if str_eq(channel, "bbo-tbt") {
            Some(OrderBookSize::BboTbt)
        } else if str_eq(channel, "books-l2-tb") {
            Some(OrderBookSize::BooksL2Tbt)
        } else if str_eq(channel, "books50-l2-tbt") {
            Some(OrderBookSize::Books50L2Tbt)
        } else {
            None
        }
    }
}

/// Whether a depth push replaces the book or amends it.
#[derive(Clone, Copy, Debug, Eq, PartialEq, Structural)]
pub enum OrderBookType {
    Snapshot,
    Update,
}

impl OrderBookType {
    /// Which push type an envelope action names, if any.
    pub open spec fn spec_from_action(action: Seq<char>) -> Option<OrderBookType> {
        if action == "snapshot"@ {
            Some(OrderBookType::Snapshot)
        } else if action == "update"@ {
            Some(OrderBookType::Update)
        } else {
            None
        }
    }

    pub fn from_action(action: &str) -> (r: Option<OrderBookType>)
        ensures
            r == Self::spec_from_action(action@),
    {
        if str_eq(action, "snapshot") {
            Some(OrderBookType::Snapshot)
        } else if str_eq(action, "update") {
            Some(OrderBookType::Update)
        } else {
            None
        }
    }
}

/// Argument object of the per-instrument channels.
#[derive(Debug, Clone)]
pub struct TickerEventArg {
    pub channel: String,
    pub inst_id: String,
}

/// One ticker push row.
#[derive(Debug, Clone)]
pub struct TickerEvent {
    pub inst_type: InstType,
    pub inst_id: String,
    pub last: String,
    pub last_sz: String,
    pub ask_px: String,
    pub ask_sz: String,
    pub bid_px: String,
    pub bid_sz: String,
    pub open24h: String,
    pub high24h: String,
    pub low24h: String,
    pub vol_ccy24h: String,
    pub vol24h: String,
    pub sod_utc0: String,
    pub sod_utc8: String,
    pub ts: i64,
}

pub type TradeEventArg = TickerEventArg;

pub type TradeEvent = crate::models::Trade;

pub type OrderBookEventArg = TickerEventArg;

/// One depth push: level lists plus sequence bookkeeping.
#[derive(Debug, Clone)]
pub struct OrderBookEvent {
    pub asks: Vec<Vec<String>>,
    pub bids: Vec<Vec<String>>,
    pub ts: i64,
    pub checksum: i64,
    pub prev_seq_id: i64,
    pub seq_id: i64,
}


/// Argument of the private order-lifecycle channel.
#[derive(Debug, Clone)]
pub struct OrderSubscribeArg {
    pub channel: String,
    pub inst_type: InstType,
    pub inst_family: Option<String>,
    pub inst_id: Option<String>,
}

/// Argument object of the account channel.
#[derive(Debug, Clone)]
pub struct AccountEventArg {
    pub channel: String,
    pub ccy: String,
    pub uid: String,
}

/// Argument of the instrument-list change channel.
#[derive(Debug, Clone)]
pub struct TradeSymbolChangeSubscribeInfo {
    pub channel: String,
    pub inst_type: InstType,
}

/// Per-currency detail of an account push.
#[derive(Debug, Clone)]
pub struct AccountAssetItemEvent {
    pub avail_bal: String,
    pub avail_eq: String,
    pub ccy: String,
    pub cash_bal: String,
    pub u_time: i64,
    pub dis_eq: String,
    pub eq: String,
    pub eq_usd: String,
    pub frozen_bal: String,
    pub interest: String,
    pub iso_eq: String,
    pub liab: String,
    pub max_loan: String,
    pub mgn_ratio: String,
    pub notional_lever: String,
    pub ord_frozen: String,
    pub upl: String,
    pub upl_liab: String,
    pub cross_liab: String,
    pub iso_liab: String,
    pub coin_usd_price: String,
    pub stgy_eq: String,
    pub spot_in_use_amt: String,
    pub iso_upl: String,
}

/// One account push row.
#[derive(Debug, Clone)]
pub struct AccountEvent {
    pub u_time: i64,
    pub total_eq: String,
    pub iso_eq: String,
    pub adj_eq: String,
    pub ord_froz: String,
    pub imr: String,
    pub mmr: String,
    pub notional_usd: String,
    pub mgn_ratio: String,
    pub details: Vec<AccountAssetItemEvent>,
}

/// One order-lifecycle push row.
#[derive(Debug, Clone)]
pub struct OrderEvent {
    pub inst_type: InstType,
    pub inst_id: String,
    pub ccy: String,
    pub ord_id: String,
    pub cl_ord_id: String,
    pub tag: String,
    pub px: String,
    pub sz: String,
    pub notional_usd: String,
    pub ord_type: crate::models::OrderType,
    pub side: crate::models::TradeSide,
    pub pos_side: crate::models::PositionSide,
    pub td_mode: crate::models::TradeMode,
    pub tgt_ccy: String,
    pub fill_px: String,
    pub trade_id: i64,
    pub fill_sz: String,
    pub fill_pnl: String,
    pub fill_time: i64,
    pub fill_fee: String,
    pub fill_fee_ccy: String,
    pub exec_type: crate::models::ExecuteType,
    pub acc_fill_sz: String,
    pub fill_notional_usd: String,
    pub avg_px: String,
    pub state: crate::models::OrderState,
    pub lever: String,
    pub attach_algo_cl_ord_id: String,
    pub tp_trigger_px: String,
    pub tp_trigger_px_type: crate::models::TpTriggerPxType,
    pub tp_ord_px: String,
    pub sl_trigger_px: String,
    pub sl_trigger_px_type: crate::models::TpTriggerPxType,
    pub sl_ord_px: String,
    pub stp_id: String,
    pub stp_mode: crate::models::StopMode,
    pub fee_ccy: String,
    pub fee: String,
    pub rebate_ccy: String,
    pub rebate: String,
    pub pnl: String,
    pub source: String,
    pub cancel_source: String,
    pub amend_source: String,
    pub category: String,
    pub c_time: i64,
    pub u_time: i64,
    pub req_id: String,
    pub amend_result: String,
    pub reduce_only: bool,
    pub quick_mgn_type: String,
    pub algo_cl_ord_id: String,
    pub algo_id: String,
    pub code: i32,
    pub msg: String,
}

} // verus!
