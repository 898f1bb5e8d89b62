//! Data model of the REST surface: the uniform envelope, the wire enums and
//! the typed request and response records.

use vstd::prelude::*;

use crate::numeric::char_index;
use crate::numeric::lemma_char_index_at;
use crate::numeric::lemma_char_index_none;
use crate::OkxError;

verus! {

/// Instrument type tags.
#[derive(Clone, Copy, Debug, Eq, PartialEq, Ord, PartialOrd, Hash, Structural)]
pub enum InstType {
    Spot,
    Margin,
    Swap,
    Futures,
    Option,
    Any,
}

impl InstType {
    /// The tag as the server spells it.
    pub open spec fn spec_wire_name(self) -> Seq<char> {
        match self {
            InstType::Spot => "SPOT"@,
            InstType::Margin => "MARGIN"@,
            InstType::Swap => "SWAP"@,
            InstType::Futures => "FUTURES"@,
            InstType::Option => "OPTION"@,
            InstType::Any => "ANY"@,
        }
    }

    pub fn wire_name(&self) -> (r: String)
        ensures
            r@ == self.spec_wire_name(),
    {
        match self {
            InstType::Spot => "SPOT".to_owned(),
            InstType::Margin => "MARGIN".to_owned(),
            InstType::Swap => "SWAP".to_owned(),
            InstType::Futures => "FUTURES".to_owned(),
            InstType::Option => "OPTION".to_owned(),
            InstType::Any => "ANY".to_owned(),
        }
    }
}

/// Trade mode tags.
#[derive(Clone, Copy, Debug, Eq, PartialEq, Ord, PartialOrd, Hash, Structural)]
pub enum TradeMode {
    Isolated,
    Cross,
    Cash,
}

impl TradeMode {
    pub open spec fn spec_wire_name(self) -> Seq<char> {
        match self {
            TradeMode::Isolated => "isolated"@,
            TradeMode::Cross => "cross"@,
            TradeMode::Cash => "cash"@,
        }
    }

    pub fn wire_name(&self) -> (r: String)
        ensures
            r@ == self.spec_wire_name(),
    {
        match self {
            TradeMode::Isolated => "isolated".to_owned(),
            TradeMode::Cross => "cross".to_owned(),
            TradeMode::Cash => "cash".to_owned(),
        }
    }
}

/// Order direction.
#[derive(Clone, Copy, Debug, Eq, PartialEq, Ord, PartialOrd, Hash, Structural)]
pub enum TradeSide {
    Buy,
    Sell,
}

impl TradeSide {
    pub open spec fn spec_wire_name(self) -> Seq<char> {
        match self {
            TradeSide::Buy => "buy"@,
            TradeSide::Sell => "sell"@,
        }
    }

    pub fn wire_name(&self) -> (r: String)
        ensures
            r@ == self.spec_wire_name(),
    {
        match self {
            TradeSide::Buy => "buy".to_owned(),
            TradeSide::Sell => "sell".to_owned(),
        }
    }
}

/// Position direction.
#[derive(Clone, Copy, Debug, Eq, PartialEq, Ord, PartialOrd, Hash, Structural)]
pub enum PositionSide {
    Unset,
    Long,
    Short,
    Net,
}

/// Order type tags.
#[derive(Clone, Copy, Debug, Eq, PartialEq, Ord, PartialOrd, Hash, Structural)]
pub enum OrderType {
    Market,
    Limit,
    PostOnly,
    Fok,
    Ioc,
    OptimalLimitIoc,
    Mmp,
    MmpAndPostOnly,
}

impl OrderType {
    pub open spec fn spec_wire_name(self) -> Seq<char> {
        match self {
            OrderType::Market => "market"@,
            OrderType::Limit => "limit"@,
            OrderType::PostOnly => "post_only"@,
            OrderType::Fok => "fok"@,
            OrderType::Ioc => "ioc"@,
            OrderType::OptimalLimitIoc => "optimal_limit_ioc"@,
            OrderType::Mmp => "mmp"@,
            OrderType::MmpAndPostOnly => "mmp_and_post_only"@,
        }
    }

    pub fn wire_name(&self) -> (r: String)
        ensures
            r@ == self.spec_wire_name(),
    {
        match self {
            OrderType::Market => "market".to_owned(),
            OrderType::Limit => "limit".to_owned(),
            OrderType::PostOnly => "post_only".to_owned(),
            OrderType::Fok => "fok".to_owned(),
            OrderType::Ioc => "ioc".to_owned(),
            OrderType::OptimalLimitIoc => "optimal_limit_ioc".to_owned(),
            OrderType::Mmp => "mmp".to_owned(),
            OrderType::MmpAndPostOnly => "mmp_and_post_only".to_owned(),
        }
    }
}

/// Self-trade prevention mode.
#[derive(Clone, Copy, Debug, Eq, PartialEq, Ord, PartialOrd, Hash, Structural)]
pub enum StopMode {
    Unset,
    CancelMaker,
    CancelTaker,
    CancelBoth,
}

/// Trigger price source for stop orders.
#[derive(Clone, Copy, Debug, Eq, PartialEq, Ord, PartialOrd, Hash, Structural)]
pub enum TpTriggerPxType {
    Unset,
    Last,
    Index,
    Mark,
}

/// Margin-borrow mode for isolated margin orders.
#[derive(Clone, Copy, Debug, Eq, PartialEq, Ord, PartialOrd, Hash, Structural)]
pub enum QuickMgnType {
    Unset,
    Manual,
    AutoBorrow,
    AutoRepay,
}

/// Order lifecycle state.
#[derive(Clone, Copy, Debug, Eq, PartialEq, Ord, PartialOrd, Hash, Structural)]
pub enum OrderState {
    Live,
    PartiallyFilled,
    Filled,
    MmpCanceled,
    Canceled,
}

impl OrderState {
    pub open spec fn spec_wire_name(self) -> Seq<char> {
        match self {
            OrderState::Live => "live"@,
            OrderState::PartiallyFilled => "partially_filled"@,
            OrderState::Filled => "filled"@,
            OrderState::MmpCanceled => "mmp_canceled"@,
            OrderState::Canceled => "canceled"@,
        }
    }

    pub fn wire_name(&self) -> (r: String)
        ensures
            r@ == self.spec_wire_name(),
    {
        match self {
            OrderState::Live => "live".to_owned(),
            OrderState::PartiallyFilled => "partially_filled".to_owned(),
            OrderState::Filled => "filled".to_owned(),
            OrderState::MmpCanceled => "mmp_canceled".to_owned(),
            OrderState::Canceled => "canceled".to_owned(),
        }
    }
}

/// Taker or maker side of an execution.
#[derive(Clone, Copy, Debug, Eq, PartialEq, Ord, PartialOrd, Hash, Structural)]
pub enum ExecuteType {
    Unset,
    Taker,
    Maker,
}

/// Listing state of an instrument.
#[derive(Clone, Copy, Debug, Eq, PartialEq, Ord, PartialOrd, Hash, Structural)]
pub enum InstrumentState {
    Live,
    Suspend,
    Preopen,
    Test,
}

/// Greeks display mode of an account.
#[derive(Clone, Copy, Debug, Eq, PartialEq, Ord, PartialOrd, Hash, Structural)]
pub enum GreeksType {
    Pa,
    Bs,
}

/// Fee level of an account.
#[derive(Clone, Copy, Debug, Eq, PartialEq, Ord, PartialOrd, Hash, Structural)]
pub enum Level {
    Unset,
    Lv1,
    Lv2,
    Lv3,
    Lv4,
    Lv5,
    Lv6,
    Lv7,
    Lv8,
}

/// What an API key is allowed to do.
#[derive(Clone, Copy, Debug, Eq, PartialEq, Ord, PartialOrd, Hash, Structural)]
pub enum ApiKeyPermission {
    ReadOnly,
    Trade,
    Withdraw,
}

/// The uniform envelope every REST answer arrives in.
#[derive(Debug, Clone)]
pub struct RestApi<T> {
    pub code: i32,
    pub msg: String,
    pub data: Vec<T>,
}

impl<T> RestApi<T> {
    /// A zero code means success.
    pub fn is_success(&self) -> (r: bool)
        ensures
            r == (self.code == 0),
    {
        self.code == 0
    }

    /// The data rows on success, the remote error otherwise.
    pub fn to_result(self) -> (r: Result<Vec<T>, OkxError>)
        ensures
            match r {
                Ok(v) => self.code == 0 && v@ == self.data@,
                Err(e) => self.code != 0 && e == (OkxError::RemoteError {
                    code: self.code,
                    message: self.msg,
                }),
            },
    {
        if self.code == 0 {
            Ok(self.data)
        } else {
            Err(OkxError::RemoteError { code: self.code, message: self.msg })
        }
    }

    /// The first data row; success with no rows is out of contract.
    pub fn to_result_one(self) -> (r: Result<T, OkxError>)
        requires
            self.code == 0 ==> self.data@.len() >= 1,
        ensures
            match r {
                Ok(v) => self.code == 0 && v == self.data@[0],
                Err(e) => self.code != 0 && e == (OkxError::RemoteError {
                    code: self.code,
                    message: self.msg,
                }),
            },
    {
        if self.code == 0 {
            let mut data = self.data;
            Ok(data.remove(0))
        } else {
            Err(OkxError::RemoteError { code: self.code, message: self.msg })
        }
    }

    /// The first data row if any, `None` when success came with no rows.
    pub fn to_result_one_opt(self) -> (r: Result<Option<T>, OkxError>)
        ensures
            match r {
                Ok(v) => self.code == 0 && (match v {
                    Some(x) => self.data@.len() >= 1 && x == self.data@[0],
                    None => self.data@.len() == 0,
                }),
                Err(e) => self.code != 0 && e == (OkxError::RemoteError {
                    code: self.code,
                    message: self.msg,
                }),
            },
    {
        if self.code == 0 {
            let mut data = self.data;
            if data.len() == 0 {
                Ok(None)
            } else {
                Ok(Some(data.remove(0)))
            }
        } else {
            Err(OkxError::RemoteError { code: self.code, message: self.msg })
        }
    }
}

/// One tradable product as the instrument list reports it.
#[derive(Debug, Clone)]
pub struct Instrument {
    pub inst_type: InstType,
    pub inst_id: String,
    pub uly: String,
    pub inst_family: String,
    pub base_ccy: String,
    pub quote_ccy: String,
    pub settle_ccy: String,
    pub ct_val: String,
    pub ct_mult: String,
    pub ct_val_ccy: String,
    pub opt_type: String,
    pub stk: String,
    pub list_time: Option<i64>,
    pub exp_time: Option<i64>,
    pub lever: String,
    pub tick_sz: String,
    pub lot_sz: String,
    pub min_sz: String,
    pub ct_type: String,
    pub alias: String,
    pub state: InstrumentState,
    pub max_lmt_sz: String,
    pub max_mkt_sz: String,
    pub max_twap_sz: String,
    pub max_iceberg_sz: String,
    pub max_trigger_sz: String,
    pub max_stop_sz: String,
}

/// One public trade tick.
#[derive(Debug, Clone)]
pub struct Trade {
    pub inst_id: String,
    pub trade_id: i64,
    pub px: String,
    pub sz: String,
    pub side: String,
    pub ts: i64,
}

/// One pending order row.
#[derive(Debug, Clone)]
pub struct TradeOrdersPending {
    pub inst_type: InstType,
    pub inst_id: String,
    pub tgt_ccy: String,
    pub ccy: String,
    pub ord_id: String,
    pub cl_ord_id: String,
    pub tag: String,
    pub px: String,
    pub sz: String,
    pub pnl: String,
    pub ord_type: OrderType,
    pub side: TradeSide,
    pub pos_side: PositionSide,
    pub td_mode: TradeMode,
    pub acc_fill_sz: String,
    pub fill_px: String,
    pub trade_id: i64,
    pub fill_sz: String,
    pub fill_time: i64,
    pub avg_px: String,
    pub state: OrderState,
    pub lever: String,
    pub tp_trigger_px: String,
    pub tp_trigger_px_type: TpTriggerPxType,
    pub sl_trigger_px: String,
    pub sl_trigger_px_type: TpTriggerPxType,
    pub sl_ord_px: String,
    pub tp_ord_px: String,
    pub fee_ccy: String,
    pub fee: String,
    pub rebate_ccy: String,
    pub source: String,
    pub rebate: String,
    pub category: String,
    pub stp_id: String,
    pub stp_mode: StopMode,
    pub reduce_only: bool,
    pub quick_mgn_type: String,
    pub u_time: i64,
    pub c_time: i64,
}

/// One row of a batch-cancel answer.
#[derive(Debug, Clone)]
pub struct TradeCancelBatchOrders {
    pub ord_id: String,
    pub cl_ord_id: String,
    pub s_code: String,
    pub s_msg: String,
}

/// One row of a place-order answer.
#[derive(Debug, Clone)]
pub struct TradeOrder {
    pub ord_id: String,
    pub cl_ord_id: String,
    pub s_code: String,
    pub tag: String,
    pub s_msg: String,
}

/// One row of an amend-order answer.
#[derive(Debug, Clone)]
pub struct TradeAmendOrder {
    pub ord_id: String,
    pub cl_ord_id: String,
    pub req_id: String,
    pub s_code: String,
    pub s_msg: String,
}

/// One row of a get-order answer.
#[derive(Debug, Clone)]
pub struct TradeOrderGet {
    pub state: String,
}

/// One row of a set-leverage answer.
#[derive(Debug, Clone)]
pub struct AccountSetLeverage {
    pub lever: String,
    pub mgn_mode: String,
    pub inst_id: String,
    pub pos_side: String,
}

/// Per-currency balance detail.
#[derive(Debug, Clone)]
pub struct BalanceDetailItem {
    pub ccy: String,
    pub eq: String,
    pub cash_bal: String,
    pub u_time: i64,
    pub iso_eq: String,
    pub avail_eq: String,
    pub dis_eq: String,
    pub avail_bal: String,
    pub frozen_bal: String,
    pub ord_frozen: String,
    pub liab: String,
    pub upl: String,
    pub upl_liab: String,
    pub cross_liab: String,
    pub iso_liab: String,
    pub mgn_ratio: String,
    pub eq_usd: String,
    pub interest: String,
    pub twap: i32,
    pub max_loan: String,
    pub notional_lever: String,
    pub stgy_eq: String,
    pub iso_upl: String,
    pub spot_in_use_amt: String,
}

/// One account balance row.
#[derive(Debug, Clone)]
pub struct AccountBalance {
    pub adj_eq: String,
    pub details: Vec<BalanceDetailItem>,
    pub imr: String,
    pub iso_eq: String,
    pub mgn_ratio: String,
    pub mmr: String,
    pub notional_usd: String,
    pub ord_froz: String,
    pub total_eq: String,
    pub u_time: i64,
}

/// Account configuration as the server reports it.
#[derive(Debug, Clone)]
pub struct AccountConfig {
    pub uid: String,
    pub main_uid: String,
    pub acct_lv: u32,
    pub pos_mode: String,
    pub auto_loan: bool,
    pub greeks_type: GreeksType,
    pub level: Level,
    pub level_tmp: Level,
    pub ct_iso_mode: String,
    pub mgn_iso_mode: String,
    pub spot_offset_type: String,
    pub role_type: String,
    pub trader_insts: Vec<String>,
    pub op_auth: String,
    pub kyc_lv: String,
    pub label: String,
    pub ip: String,
    pub perm: String,
}

/// Permissions named by one comma-separated segment.
pub open spec fn spec_permission_of(seg: Seq<char>) -> Seq<ApiKeyPermission> {
    if seg == "read_only"@ {
        seq![ApiKeyPermission::ReadOnly]
    } else if seg == "trade"@ {
        seq![ApiKeyPermission::Trade]
    } else if seg == "withdraw"@ {
        seq![ApiKeyPermission::Withdraw]
    } else {
        Seq::empty()
    }
}

/// Permissions named by a whole comma-separated permission string.
pub open spec fn spec_permissions(s: Seq<char>) -> Seq<ApiKeyPermission>
    decreases s.len(),
{
    let k = char_index(s, ',');
    if 0 <= k && k < s.len() {
        spec_permission_of(s.take(k)) + spec_permissions(s.skip(k + 1))
    } else {
        spec_permission_of(s)
    }
}

/// Maps one permission segment to its tag, if it names one.
fn classify_permission(seg: &str) -> (r: Option<ApiKeyPermission>)
    ensures
        match r {
            Some(p) => spec_permission_of(seg@) == seq![p],
            None => spec_permission_of(seg@) == Seq::<ApiKeyPermission>::empty(),
        },
{
    let s = seg.to_owned();
    if s == "read_only".to_owned() {
        Some(ApiKeyPermission::ReadOnly)
    } else if s == "trade".to_owned() {
        Some(ApiKeyPermission::Trade)
    } else if s == "withdraw".to_owned() {
        Some(ApiKeyPermission::Withdraw)
    } else {
        None
    }
}

impl AccountConfig {
    /// The key's permissions, read out of the comma-separated `perm` field.
    pub fn permission(&self) -> (r: Vec<ApiKeyPermission>)
        ensures
            r@ == spec_permissions(self.perm@),
    {
        let s = self.perm.as_str();
        let n = s.unicode_len();
        let ghost gs = s@;
        let mut result: Vec<ApiKeyPermission> = Vec::new();
        let mut seg_start: usize = 0;
        let mut i: usize = 0;
        proof {
            assert(gs.skip(0) =~= gs);
            assert(result@ + spec_permissions(gs) =~= spec_permissions(gs));
        }
        while i < n
            invariant
                0 <= seg_start <= i <= n,
                n == gs.len(),
                gs == s@,
                forall|j: int| seg_start <= j < i ==> gs[j] != ',',
                spec_permissions(gs) == result@ + spec_permissions(gs.skip(seg_start as int)),
            decreases n - i,
        {
            let c = s.get_char(i);
            if c == ',' {
                let seg = s.substring_char(seg_start, i);
                proof {
                    let t = gs.skip(seg_start as int);
                    assert forall|j: int| 0 <= j < i - seg_start implies t[j] != ',' by {
                        assert(t[j] == gs[seg_start + j]);
                    }
                    lemma_char_index_at(t, ',', i - seg_start);
                    assert(t.take(i - seg_start) =~= gs.subrange(seg_start as int, i as int));
                    assert(t.skip(i - seg_start + 1) =~= gs.skip(i + 1));
                    assert(seg@ =~= t.take(i - seg_start));
                }
                if let Some(p) = classify_permission(seg) {
                    result.push(p);
                }
                seg_start = i + 1;
            }
            i = i + 1;
        }
        let seg = s.substring_char(seg_start, n);
        proof {
            let t = gs.skip(seg_start as int);
            assert forall|j: int| 0 <= j < t.len() implies t[j] != ',' by {
                assert(t[j] == gs[seg_start + j]);
            }
            lemma_char_index_none(t, ',');
            assert(seg@ =~= t);
        }
        if let Some(p) = classify_permission(seg) {
            result.push(p);
        }
        result
    }

    /// Whether this key belongs to the main account.
    pub fn is_main_account(&self) -> (r: bool)
        ensures
            r == (self.main_uid@ == self.uid@),
    {
        self.main_uid == self.uid
    }
}

/// A new-order request body.
#[derive(Debug, Clone)]
pub struct OrderRequestInfo {
    pub inst_id: String,
    pub td_mode: TradeMode,
    pub ccy: Option<String>,
    pub cl_ord_id: Option<String>,
    pub tag: Option<String>,
    pub side: TradeSide,
    pub pos_side: Option<PositionSide>,
    pub order_type: OrderType,
    pub sz: String,
    pub px: Option<String>,
    pub reduce_only: Option<bool>,
    pub tgt_ccy: Option<String>,
    pub ban_amend: Option<bool>,
    pub attach_algo_cl_ord_id: Option<String>,
    pub tp_trigger_px: Option<String>,
    pub tp_ord_px: Option<String>,
    pub sl_trigger_px: Option<String>,
    pub sl_ord_px: Option<String>,
    pub stp_id: Option<String>,
    pub stp_mode: Option<StopMode>,
    pub tp_trigger_px_type: Option<TpTriggerPxType>,
    pub sl_trigger_px_type: Option<TpTriggerPxType>,
    pub quick_mgn_type: Option<QuickMgnType>,
}

impl OrderRequestInfo {
    /// A plain spot limit order: cash trade mode, limit type, given price and size.
    pub fn new_spot_limit_order(
        inst_id: &str,
        side: TradeSide,
        sz: String,
        px: String,
        cl_ord_id: Option<String>,
        tag: Option<String>,
    ) -> (r: Self)
        ensures
            r.inst_id@ == inst_id@,
            r.td_mode == TradeMode::Cash,
            r.ccy is None,
            r.cl_ord_id == cl_ord_id,
            r.tag == tag,
            r.side == side,
            r.pos_side is None,
            r.order_type == OrderType::Limit,
            r.sz == sz,
            r.px == Some(px),
            r.reduce_only is None,
            r.tgt_ccy is None,
            r.ban_amend is None,
            r.attach_algo_cl_ord_id is None,
            r.tp_trigger_px is None,
            r.tp_ord_px is None,
            r.sl_trigger_px is None,
            r.sl_ord_px is None,
            r.stp_id is None,
            r.stp_mode is None,
            r.tp_trigger_px_type is None,
            r.sl_trigger_px_type is None,
            r.quick_mgn_type is None,
    {
        OrderRequestInfo {
            inst_id: inst_id.to_owned(),
            td_mode: TradeMode::Cash,
            ccy: None,
            cl_ord_id,
            tag,
            side,
            pos_side: None,
            order_type: OrderType::Limit,
            sz,
            px: Some(px),
            reduce_only: None,
            tgt_ccy: None,
            ban_amend: None,
            attach_algo_cl_ord_id: None,
            tp_trigger_px: None,
            tp_ord_px: None,
            sl_trigger_px: None,
            sl_ord_px: None,
            stp_id: None,
            stp_mode: None,
            tp_trigger_px_type: None,
            sl_trigger_px_type: None,
            quick_mgn_type: None,
        }
    }
}

} // verus!
