//! The REST endpoints: each call's rate-limit admission, canonical
//! parameters and prepared, signed request.
//!
//! The transport layer serialises POST bodies, executes the prepared
//! requests and decodes the envelopes; everything decided before the wire is
//! here.

use vstd::prelude::*;

use crate::apikey::OkxAccountClient;
use crate::apikey::OkxPublicClient;
use crate::models::InstType;
use crate::models::OrderRequestInfo;
use crate::models::OrderState;
use crate::models::OrderType;
use crate::rate_limit::spec_checked_map;
use crate::sign::pair_views;
use crate::sign::spec_account_headers;
use crate::sign::spec_get_message;
use crate::sign::spec_get_path;
use crate::sign::spec_sign;
use crate::sign::PreparedRequest;
use crate::strutil::comma_join;
use crate::strutil::spec_comma_join;
use crate::strutil::string_views;
use crate::OkxError;

verus! {

/// Stable ids of the rate-limited calls.
pub const API_ACCOUNT_BALANCE: u32 = 0;

pub const API_ACCOUNT_POSITIONS: u32 = 1;

pub const API_ACCOUNT_SET_LEVERAGE: u32 = 2;

pub const API_ACCOUNT_POSITIONS_HISTORY: u32 = 3;

pub const API_TRADE_ORDERS_PENDING: u32 = 4;

pub const API_TRADE_ORDERS_HISTORY: u32 = 5;

pub const API_TRADE_CANCEL_BATCH_ORDERS: u32 = 6;

pub const API_TRADE_PLACE_ORDER: u32 = 7;

pub const API_TRADE_PLACE_BATCH_ORDERS: u32 = 8;

pub const API_TRADE_GET_ORDER: u32 = 9;

pub const API_TRADE_AMEND_ORDER: u32 = 10;

pub const API_PUBLIC_INSTRUMENTS: u32 = 11;

/// One key/value parameter.
pub open spec fn one_param(k: Seq<char>, v: Seq<char>) -> Seq<(Seq<char>, Seq<char>)> {
    seq![(k, v)]
}

/// A parameter present only when its value is.
pub open spec fn opt_param(k: Seq<char>, v: Option<Seq<char>>) -> Seq<(Seq<char>, Seq<char>)> {
    match v {
        Some(x) => seq![(k, x)],
        None => Seq::<(Seq<char>, Seq<char>)>::empty(),
    }
}

/// The view of an optional string argument.
pub open spec fn opt_view(v: Option<&str>) -> Option<Seq<char>> {
    match v {
        Some(s) => Some(s@),
        None => None,
    }
}

/// Pushes a parameter if its value is present.
fn push_opt(params: &mut Vec<(String, String)>, k: &str, v: Option<&str>)
    ensures
        pair_views(final(params)@) == pair_views(old(params)@) + opt_param(k@, opt_view(v)),
{
    let ghost p0 = pair_views(params@);
    match v {
        Some(s) => {
            params.push((k.to_owned(), s.to_owned()));
            proof {
                assert(pair_views(params@) =~= p0 + opt_param(k@, opt_view(v)));
            }
        },
        None => {
            proof {
                assert(pair_views(params@) =~= p0 + opt_param(k@, opt_view(v)));
            }
        },
    }
}

/// Pushes a parameter.
fn push_param(params: &mut Vec<(String, String)>, k: &str, v: String)
    ensures
        pair_views(final(params)@) == pair_views(old(params)@) + one_param(k@, v@),
{
    let ghost p0 = pair_views(params@);
    let ghost gv = v@;
    params.push((k.to_owned(), v));
    proof {
        assert(pair_views(params@) =~= p0 + one_param(k@, gv));
    }
}

/// The parameters of a balance query.
pub open spec fn spec_account_balance_params(ccy_list: Option<Seq<Seq<char>>>) -> Seq<
    (Seq<char>, Seq<char>),
> {
    match ccy_list {
        Some(l) => one_param("ccy"@, spec_comma_join(l)),
        None => Seq::<(Seq<char>, Seq<char>)>::empty(),
    }
}

impl OkxAccountClient {
    /// The signed balance query; currencies are joined with commas.
    pub fn account_balance_request(&self, ccy_list: Option<&Vec<String>>, timestamp: &str) -> (r:
        PreparedRequest)
        ensures
            ({
                let params = spec_account_balance_params(
                    match ccy_list {
                        Some(l) => Some(string_views(l@)),
                        None => None,
                    },
                );
                let path = spec_get_path("/api/v5/account/balance"@, params);
                &&& r.method@ == "GET"@
                &&& r.path@ == path
                &&& r.body is None
                &&& pair_views(r.headers@) == spec_account_headers(
                    self.api_key@,
                    spec_sign(self.secret_key@, spec_get_message(timestamp@, path)),
                    timestamp@,
                    self.passphrase@,
                    self.base_config.testnet,
                )
            }),
    {
        let mut params: Vec<(String, String)> = Vec::new();
        match ccy_list {
            Some(l) => {
                let joined = comma_join(l);
                push_param(&mut params, "ccy", joined);
                proof {
                    assert(pair_views(params@) =~= spec_account_balance_params(
                        Some(string_views(l@)),
                    ));
                }
            },
            None => {
                proof {
                    assert(pair_views(params@) =~= Seq::<(Seq<char>, Seq<char>)>::empty());
                }
            },
        }
        self.prepare_get("/api/v5/account/balance", &params, timestamp)
    }

    /// The signed positions query.
    pub fn account_positions_request(
        &self,
        inst_type: Option<InstType>,
        inst_id: Option<&str>,
        pos_id: Option<&str>,
        timestamp: &str,
    ) -> (r: PreparedRequest)
        ensures
            ({
                let params = opt_param("instId"@, opt_view(inst_id)) + opt_param(
                    "instType"@,
                    match inst_type {
                        Some(t) => Some(t.spec_wire_name()),
                        None => None,
                    },
                ) + opt_param("posId"@, opt_view(pos_id));
                let path = spec_get_path("/api/v5/account/positions"@, params);
                &&& r.method@ == "GET"@
                &&& r.path@ == path
                &&& r.body is None
                &&& pair_views(r.headers@) == spec_account_headers(
                    self.api_key@,
                    spec_sign(self.secret_key@, spec_get_message(timestamp@, path)),
                    timestamp@,
                    self.passphrase@,
                    self.base_config.testnet,
                )
            }),
    {
        let mut params: Vec<(String, String)> = Vec::new();
        push_opt(&mut params, "instId", inst_id);
        match inst_type {
            Some(t) => {
                push_param(&mut params, "instType", t.wire_name());
            },
            None => {},
        }
        push_opt(&mut params, "posId", pos_id);
        proof {
            assert(pair_views(params@) =~= opt_param("instId"@, opt_view(inst_id)) + opt_param(
                "instType"@,
                match inst_type {
                    Some(t) => Some(t.spec_wire_name()),
                    None => None,
                },
            ) + opt_param("posId"@, opt_view(pos_id)));
        }
        self.prepare_get("/api/v5/account/positions", &params, timestamp)
    }
}


/// A correctly signed GET of an authenticated client.
pub open spec fn spec_signed_get(
    c: OkxAccountClient,
    path: Seq<char>,
    params: Seq<(Seq<char>, Seq<char>)>,
    timestamp: Seq<char>,
    p: PreparedRequest,
) -> bool {
    &&& p.method@ == "GET"@
    &&& p.path@ == spec_get_path(path, params)
    &&& p.body is None
    &&& pair_views(p.headers@) == spec_account_headers(
        c.api_key@,
        spec_sign(c.secret_key@, spec_get_message(timestamp, spec_get_path(path, params))),
        timestamp,
        c.passphrase@,
        c.base_config.testnet,
    )
}

/// A correctly signed POST of an authenticated client.
pub open spec fn spec_signed_post(
    c: OkxAccountClient,
    path: Seq<char>,
    body: Seq<char>,
    timestamp: Seq<char>,
    p: PreparedRequest,
) -> bool {
    &&& p.method@ == "POST"@
    &&& p.path@ == path
    &&& match p.body {
        Some(b) => b@ == body,
        None => false,
    }
    &&& pair_views(p.headers@) == spec_account_headers(
        c.api_key@,
        spec_sign(c.secret_key@, crate::sign::spec_post_message(timestamp, path, body)),
        timestamp,
        c.passphrase@,
        c.base_config.testnet,
    )
}

/// The client's keys and profile, untouched.
pub open spec fn client_keys_unchanged(a: OkxAccountClient, b: OkxAccountClient) -> bool {
    &&& b.api_key == a.api_key
    &&& b.secret_key == a.secret_key
    &&& b.passphrase == a.passphrase
    &&& b.base_config == a.base_config
}

/// An admission against the plain table, all other tables untouched.
pub open spec fn spec_plain_admission(
    a: OkxAccountClient,
    b: OkxAccountClient,
    api_id: u32,
    weight: u32,
    total_weight: u32,
    refresh_seconds: u32,
    now_s: u32,
) -> bool {
    let s = spec_checked_map(
        a.limit_mgr.plain_map(),
        api_id,
        weight,
        total_weight,
        refresh_seconds,
        now_s,
    );
    &&& b.limit_mgr.plain_map() == s.0
    &&& b.limit_mgr.inst_id_map() == a.limit_mgr.inst_id_map()
    &&& b.limit_mgr.inst_type_map() == a.limit_mgr.inst_type_map()
    &&& b.limit_mgr.inst_family_map() == a.limit_mgr.inst_family_map()
}

/// Whether the plain admission succeeds.
pub open spec fn spec_plain_admitted(
    a: OkxAccountClient,
    api_id: u32,
    weight: u32,
    total_weight: u32,
    refresh_seconds: u32,
    now_s: u32,
) -> bool {
    spec_checked_map(a.limit_mgr.plain_map(), api_id, weight, total_weight, refresh_seconds, now_s).1
}

/// An admission against the per-instrument table, all other tables untouched.
pub open spec fn spec_inst_id_admission(
    a: OkxAccountClient,
    b: OkxAccountClient,
    api_id: u32,
    inst_id: Seq<char>,
    weight: u32,
    total_weight: u32,
    refresh_seconds: u32,
    now_s: u32,
) -> bool {
    let s = spec_checked_map(
        a.limit_mgr.inst_id_map(),
        (api_id, inst_id),
        weight,
        total_weight,
        refresh_seconds,
        now_s,
    );
    &&& b.limit_mgr.inst_id_map() == s.0
    &&& b.limit_mgr.plain_map() == a.limit_mgr.plain_map()
    &&& b.limit_mgr.inst_type_map() == a.limit_mgr.inst_type_map()
    &&& b.limit_mgr.inst_family_map() == a.limit_mgr.inst_family_map()
}

/// Whether the per-instrument admission succeeds.
pub open spec fn spec_inst_id_admitted(
    a: OkxAccountClient,
    api_id: u32,
    inst_id: Seq<char>,
    weight: u32,
    total_weight: u32,
    refresh_seconds: u32,
    now_s: u32,
) -> bool {
    spec_checked_map(
        a.limit_mgr.inst_id_map(),
        (api_id, inst_id),
        weight,
        total_weight,
        refresh_seconds,
        now_s,
    ).1
}

/// The parameters of a set-leverage call.
pub open spec fn spec_set_leverage_params(
    inst_id: Option<Seq<char>>,
    ccy: Option<Seq<char>>,
    lever: Seq<char>,
    mgn_mode: Seq<char>,
    pos_side: Option<Seq<char>>,
) -> Seq<(Seq<char>, Seq<char>)> {
    opt_param("ccy"@, ccy) + opt_param("instId"@, inst_id) + one_param("lever"@, lever) + one_param(
        "mgnMode"@,
        mgn_mode,
    ) + opt_param("posSide"@, pos_side)
}

impl OkxAccountClient {
    /// The canonical parameters of a set-leverage call; the transport
    /// serialises them as the POST body.
    pub fn account_set_leverage_params(
        &self,
        inst_id: Option<&str>,
        ccy: Option<&str>,
        lever: &str,
        mgn_mode: &str,
        pos_side: Option<&str>,
    ) -> (r: Vec<(String, String)>)
        ensures
            pair_views(r@) == spec_set_leverage_params(
                opt_view(inst_id),
                opt_view(ccy),
                lever@,
                mgn_mode@,
                opt_view(pos_side),
            ),
    {
        let mut params: Vec<(String, String)> = Vec::new();
        push_opt(&mut params, "ccy", ccy);
        push_opt(&mut params, "instId", inst_id);
        push_param(&mut params, "lever", lever.to_owned());
        push_param(&mut params, "mgnMode", mgn_mode.to_owned());
        push_opt(&mut params, "posSide", pos_side);
        proof {
            assert(pair_views(params@) =~= spec_set_leverage_params(
                opt_view(inst_id),
                opt_view(ccy),
                lever@,
                mgn_mode@,
                opt_view(pos_side),
            ));
        }
        params
    }

    /// The signed set-leverage POST around its serialised body.
    pub fn account_set_leverage_request(&self, body: &str, timestamp: &str) -> (r: PreparedRequest)
        ensures
            spec_signed_post(*self, "/api/v5/account/set-leverage"@, body@, timestamp@, r),
    {
        self.prepare_post("/api/v5/account/set-leverage", body, timestamp)
    }

    /// The signed positions-history query.
    pub fn account_positions_history_request(
        &self,
        inst_type: Option<&str>,
        inst_id: Option<&str>,
        mgn_mode: Option<&str>,
        ptype: Option<&str>,
        pos_id: Option<&str>,
        after: Option<&str>,
        before: Option<&str>,
        limit: Option<&str>,
        timestamp: &str,
    ) -> (r: PreparedRequest)
        ensures
            spec_signed_get(
                *self,
                "/api/v5/account/positions-history"@,
                opt_param("after"@, opt_view(after)) + opt_param("before"@, opt_view(before))
                    + opt_param("instId"@, opt_view(inst_id)) + opt_param(
                    "instType"@,
                    opt_view(inst_type),
                ) + opt_param("limit"@, opt_view(limit)) + opt_param(
                    "mgnMode"@,
                    opt_view(mgn_mode),
                ) + opt_param("posId"@, opt_view(pos_id)) + opt_param("type"@, opt_view(ptype)),
                timestamp@,
                r,
            ),
    {
        let mut params: Vec<(String, String)> = Vec::new();
        push_opt(&mut params, "after", after);
        push_opt(&mut params, "before", before);
        push_opt(&mut params, "instId", inst_id);
        push_opt(&mut params, "instType", inst_type);
        push_opt(&mut params, "limit", limit);
        push_opt(&mut params, "mgnMode", mgn_mode);
        push_opt(&mut params, "posId", pos_id);
        push_opt(&mut params, "type", ptype);
        proof {
            assert(pair_views(params@) =~= opt_param("after"@, opt_view(after)) + opt_param(
                "before"@,
                opt_view(before),
            ) + opt_param("instId"@, opt_view(inst_id)) + opt_param(
                "instType"@,
                opt_view(inst_type),
            ) + opt_param("limit"@, opt_view(limit)) + opt_param("mgnMode"@, opt_view(mgn_mode))
                + opt_param("posId"@, opt_view(pos_id)) + opt_param("type"@, opt_view(ptype)));
        }
        self.prepare_get("/api/v5/account/positions-history", &params, timestamp)
    }
}

/// The parameters of a pending-orders query.
pub open spec fn spec_orders_pending_params(f: OrdersPendingFilter) -> Seq<(Seq<char>, Seq<char>)> {
    opt_param(
        "after"@,
        match f.after {
            Some(v) => Some(v@),
            None => None,
        },
    ) + opt_param(
        "before"@,
        match f.before {
            Some(v) => Some(v@),
            None => None,
        },
    ) + opt_param(
        "instFamily"@,
        match f.inst_family {
            Some(v) => Some(v@),
            None => None,
        },
    ) + opt_param(
        "instId"@,
        match f.inst_id {
            Some(v) => Some(v@),
            None => None,
        },
    ) + opt_param(
        "instType"@,
        match f.inst_type {
            Some(t) => Some(t.spec_wire_name()),
            None => None,
        },
    ) + opt_param(
        "limit"@,
        match f.limit {
            Some(v) => Some(v@),
            None => None,
        },
    ) + opt_param(
        "ordType"@,
        match f.ord_type {
            Some(l) => Some(spec_comma_join(l@.map_values(|t: OrderType| t.spec_wire_name()))),
            None => None,
        },
    ) + opt_param(
        "state"@,
        match f.state {
            Some(t) => Some(t.spec_wire_name()),
            None => None,
        },
    ) + opt_param(
        "uly"@,
        match f.uly {
            Some(v) => Some(v@),
            None => None,
        },
    )
}

/// Filter of a pending-orders query.
#[derive(Debug, Clone)]
pub struct OrdersPendingFilter {
    pub inst_type: Option<InstType>,
    pub uly: Option<String>,
    pub inst_family: Option<String>,
    pub inst_id: Option<String>,
    pub ord_type: Option<Vec<OrderType>>,
    pub state: Option<OrderState>,
    pub after: Option<String>,
    pub before: Option<String>,
    pub limit: Option<String>,
}

impl OkxAccountClient {
    /// The pending-orders query: one unit against its window, then the
    /// signed GET.  A refused admission sends nothing.
    #[verifier::rlimit(60)]
    pub fn trade_orders_pending_request(
        &mut self,
        filter: &OrdersPendingFilter,
        timestamp: &str,
        now_s: u32,
    ) -> (r: Result<PreparedRequest, OkxError>)
        requires
            old(self).limit_mgr.wf(),
        ensures
            final(self).limit_mgr.wf(),
            client_keys_unchanged(*old(self), *final(self)),
            spec_plain_admission(
                *old(self),
                *final(self),
                API_TRADE_ORDERS_PENDING,
                1,
                60,
                2,
                now_s,
            ),
            if spec_plain_admitted(*old(self), API_TRADE_ORDERS_PENDING, 1, 60, 2, now_s) {
                match r {
                    Ok(p) => spec_signed_get(
                        *old(self),
                        "/api/v5/trade/orders-pending"@,
                        spec_orders_pending_params(*filter),
                        timestamp@,
                        p,
                    ),
                    Err(_) => false,
                }
            } else {
                r == Err::<PreparedRequest, OkxError>(OkxError::RateLimit)
            },
    {
        self.limit_mgr.check_limit(API_TRADE_ORDERS_PENDING, 1, 60, 2, now_s)?;
        let mut params: Vec<(String, String)> = Vec::new();
        push_opt(&mut params, "after", match &filter.after {
            Some(v) => Some(v.as_str()),
            None => None,
        });
        push_opt(&mut params, "before", match &filter.before {
            Some(v) => Some(v.as_str()),
            None => None,
        });
        push_opt(&mut params, "instFamily", match &filter.inst_family {
            Some(v) => Some(v.as_str()),
            None => None,
        });
        push_opt(&mut params, "instId", match &filter.inst_id {
            Some(v) => Some(v.as_str()),
            None => None,
        });
        match &filter.inst_type {
            Some(t) => {
                push_param(&mut params, "instType", t.wire_name());
            },
            None => {},
        }
        push_opt(&mut params, "limit", match &filter.limit {
            Some(v) => Some(v.as_str()),
            None => None,
        });
        match &filter.ord_type {
            Some(l) => {
                let ghost mapped = l@.map_values(|t: OrderType| t.spec_wire_name());
                let mut names: Vec<String> = Vec::new();
                let n = l.len();
                let mut i: usize = 0;
                proof {
                    assert(string_views(names@) =~= mapped.take(0));
                }
                while i < n
                    invariant
                        0 <= i <= n,
                        n == l@.len(),
                        mapped == l@.map_values(|t: OrderType| t.spec_wire_name()),
                        string_views(names@) == mapped.take(i as int),
                    decreases n - i,
                {
                    names.push(l[i].wire_name());
                    proof {
                        assert(mapped[i as int] == l@[i as int].spec_wire_name());
                        assert(mapped.take(i + 1) =~= mapped.take(i as int).push(
                            mapped[i as int],
                        ));
                        assert(string_views(names@) =~= mapped.take(i as int).push(
                            l@[i as int].spec_wire_name(),
                        ));
                    }
                    i = i + 1;
                }
                proof {
                    assert(mapped.take(n as int) =~= mapped);
                }
                let joined = comma_join(&names);
                push_param(&mut params, "ordType", joined);
            },
            None => {},
        }
        match &filter.state {
            Some(t) => {
                push_param(&mut params, "state", t.wire_name());
            },
            None => {},
        }
        push_opt(&mut params, "uly", match &filter.uly {
            Some(v) => Some(v.as_str()),
            None => None,
        });
        proof {
            assert(pair_views(params@) =~= spec_orders_pending_params(*filter));
        }
        Ok(self.prepare_get("/api/v5/trade/orders-pending", &params, timestamp))
    }
}


impl OkxAccountClient {
    /// The seven-day order-history query: one unit against its window, then
    /// the signed GET.
    pub fn trade_orders_history_request(
        &mut self,
        inst_type: InstType,
        uly: Option<&str>,
        inst_family: Option<&str>,
        inst_id: Option<&str>,
        ord_type: Option<&str>,
        state: Option<&str>,
        category: Option<&str>,
        after: Option<&str>,
        before: Option<&str>,
        begin: Option<&str>,
        end: Option<&str>,
        limit: Option<&str>,
        timestamp: &str,
        now_s: u32,
    ) -> (r: Result<PreparedRequest, OkxError>)
        requires
            old(self).limit_mgr.wf(),
        ensures
            final(self).limit_mgr.wf(),
            client_keys_unchanged(*old(self), *final(self)),
            spec_plain_admission(
                *old(self),
                *final(self),
                API_TRADE_ORDERS_HISTORY,
                1,
                40,
                2,
                now_s,
            ),
            if spec_plain_admitted(*old(self), API_TRADE_ORDERS_HISTORY, 1, 40, 2, now_s) {
                match r {
                    Ok(p) => spec_signed_get(
                        *old(self),
                        "/api/v5/trade/orders-history"@,
                        opt_param("after"@, opt_view(after)) + opt_param(
                            "before"@,
                            opt_view(before),
                        ) + opt_param("begin"@, opt_view(begin)) + opt_param(
                            "category"@,
                            opt_view(category),
                        ) + opt_param("end"@, opt_view(end)) + opt_param(
                            "instFamily"@,
                            opt_view(inst_family),
                        ) + opt_param("instId"@, opt_view(inst_id)) + one_param(
                            "instType"@,
                            inst_type.spec_wire_name(),
                        ) + opt_param("limit"@, opt_view(limit)) + opt_param(
                            "ordType"@,
                            opt_view(ord_type),
                        ) + opt_param("state"@, opt_view(state)) + opt_param(
                            "uly"@,
                            opt_view(uly),
                        ),
                        timestamp@,
                        p,
                    ),
                    Err(_) => false,
                }
            } else {
                r == Err::<PreparedRequest, OkxError>(OkxError::RateLimit)
            },
    {
        self.limit_mgr.check_limit(API_TRADE_ORDERS_HISTORY, 1, 40, 2, now_s)?;
        let mut params: Vec<(String, String)> = Vec::new();
        push_opt(&mut params, "after", after);
        push_opt(&mut params, "before", before);
        push_opt(&mut params, "begin", begin);
        push_opt(&mut params, "category", category);
        push_opt(&mut params, "end", end);
        push_opt(&mut params, "instFamily", inst_family);
        push_opt(&mut params, "instId", inst_id);
        push_param(&mut params, "instType", inst_type.wire_name());
        push_opt(&mut params, "limit", limit);
        push_opt(&mut params, "ordType", ord_type);
        push_opt(&mut params, "state", state);
        push_opt(&mut params, "uly", uly);
        proof {
            assert(pair_views(params@) =~= opt_param("after"@, opt_view(after)) + opt_param(
                "before"@,
                opt_view(before),
            ) + opt_param("begin"@, opt_view(begin)) + opt_param("category"@, opt_view(category))
                + opt_param("end"@, opt_view(end)) + opt_param(
                "instFamily"@,
                opt_view(inst_family),
            ) + opt_param("instId"@, opt_view(inst_id)) + one_param(
                "instType"@,
                inst_type.spec_wire_name(),
            ) + opt_param("limit"@, opt_view(limit)) + opt_param("ordType"@, opt_view(ord_type))
                + opt_param("state"@, opt_view(state)) + opt_param("uly"@, opt_view(uly)));
        }
        Ok(self.prepare_get("/api/v5/trade/orders-history", &params, timestamp))
    }

    /// One new order: one unit against the instrument's place-order window,
    /// then the signed POST around the serialised order.
    pub fn trade_order_request(
        &mut self,
        order_obj: &OrderRequestInfo,
        body: &str,
        timestamp: &str,
        now_s: u32,
    ) -> (r: Result<PreparedRequest, OkxError>)
        requires
            old(self).limit_mgr.wf(),
        ensures
            final(self).limit_mgr.wf(),
            client_keys_unchanged(*old(self), *final(self)),
            spec_inst_id_admission(
                *old(self),
                *final(self),
                API_TRADE_PLACE_ORDER,
                order_obj.inst_id@,
                1,
                60,
                2,
                now_s,
            ),
            if spec_inst_id_admitted(
                *old(self),
                API_TRADE_PLACE_ORDER,
                order_obj.inst_id@,
                1,
                60,
                2,
                now_s,
            ) {
                match r {
                    Ok(p) => spec_signed_post(
                        *old(self),
                        "/api/v5/trade/order"@,
                        body@,
                        timestamp@,
                        p,
                    ),
                    Err(_) => false,
                }
            } else {
                r == Err::<PreparedRequest, OkxError>(OkxError::RateLimit)
            },
    {
        self.limit_mgr.check_limit_with_inst_id(
            API_TRADE_PLACE_ORDER,
            order_obj.inst_id.as_str(),
            1,
            60,
            2,
            now_s,
        )?;
        Ok(self.prepare_post("/api/v5/trade/order", body, timestamp))
    }

    /// A batch of orders: at most twenty, all on the one instrument, and the
    /// admitted weight is the number of orders, not the number of calls.  A
    /// single-order batch counts against the place-order window instead.
    pub fn trade_batch_order_request(
        &mut self,
        inst_id: &str,
        order_obj: &Vec<OrderRequestInfo>,
        body: &str,
        timestamp: &str,
        now_s: u32,
    ) -> (r: Result<PreparedRequest, OkxError>)
        requires
            old(self).limit_mgr.wf(),
        ensures
            final(self).limit_mgr.wf(),
            client_keys_unchanged(*old(self), *final(self)),
            ({
                let too_many = order_obj@.len() > 20;
                let mismatched = exists|i: int|
                    0 <= i < order_obj@.len() && (#[trigger] order_obj@[i]).inst_id@ != inst_id@;
                let single = order_obj@.len() == 1;
                &&& too_many ==> r == Err::<PreparedRequest, OkxError>(OkxError::OutOfMaxOrderSize)
                    && *final(self) == *old(self)
                &&& !too_many && mismatched ==> r == Err::<PreparedRequest, OkxError>(
                    OkxError::MustHaveSameInstId,
                ) && *final(self) == *old(self)
                &&& !too_many && !mismatched ==> {
                    let api_id = if single {
                        API_TRADE_PLACE_ORDER
                    } else {
                        API_TRADE_PLACE_BATCH_ORDERS
                    };
                    let weight: u32 = if single {
                        1u32
                    } else {
                        order_obj@.len() as u32
                    };
                    let total: u32 = if single {
                        60u32
                    } else {
                        300u32
                    };
                    &&& spec_inst_id_admission(
                        *old(self),
                        *final(self),
                        api_id,
                        inst_id@,
                        weight,
                        total,
                        2,
                        now_s,
                    )
                    &&& if spec_inst_id_admitted(
                        *old(self),
                        api_id,
                        inst_id@,
                        weight,
                        total,
                        2,
                        now_s,
                    ) {
                        match r {
                            Ok(p) => spec_signed_post(
                                *old(self),
                                "/api/v5/trade/batch-orders"@,
                                body@,
                                timestamp@,
                                p,
                            ),
                            Err(_) => false,
                        }
                    } else {
                        r == Err::<PreparedRequest, OkxError>(OkxError::RateLimit)
                    }
                }
            }),
    {
        if order_obj.len() > 20 {
            return Err(OkxError::OutOfMaxOrderSize);
        }
        let n = order_obj.len();
        let mut i: usize = 0;
        while i < n
            invariant
                0 <= i <= n,
                n == order_obj@.len(),
                n <= 20,
                *self == *old(self),
                old(self).limit_mgr.wf(),
                forall|j: int| 0 <= j < i ==> (#[trigger] order_obj@[j]).inst_id@ == inst_id@,
            decreases n - i,
        {
            if !crate::strutil::str_eq(order_obj[i].inst_id.as_str(), inst_id) {
                proof {
                    assert(*self == *old(self));
                    assert((#[trigger] order_obj@[i as int]).inst_id@ != inst_id@);
                }
                return Err(OkxError::MustHaveSameInstId);
            }
            i = i + 1;
        }
        if order_obj.len() == 1 {
            self.limit_mgr.check_limit_with_inst_id(
                API_TRADE_PLACE_ORDER,
                inst_id,
                1,
                60,
                2,
                now_s,
            )?;
        } else {
            #[verifier::truncate]
            let weight = order_obj.len() as u32;
            self.limit_mgr.check_limit_with_inst_id(
                API_TRADE_PLACE_BATCH_ORDERS,
                inst_id,
                weight,
                300,
                2,
                now_s,
            )?;
        }
        Ok(self.prepare_post("/api/v5/trade/batch-orders", body, timestamp))
    }

    /// One order lookup: one unit against the instrument's window, then the
    /// signed GET.
    pub fn get_trade_order_request(
        &mut self,
        inst_id: &str,
        ord_id: Option<&str>,
        cl_ord_id: Option<&str>,
        timestamp: &str,
        now_s: u32,
    ) -> (r: Result<PreparedRequest, OkxError>)
        requires
            old(self).limit_mgr.wf(),
        ensures
            final(self).limit_mgr.wf(),
            client_keys_unchanged(*old(self), *final(self)),
            spec_inst_id_admission(
                *old(self),
                *final(self),
                API_TRADE_GET_ORDER,
                inst_id@,
                1,
                60,
                2,
                now_s,
            ),
            if spec_inst_id_admitted(*old(self), API_TRADE_GET_ORDER, inst_id@, 1, 60, 2, now_s) {
                match r {
                    Ok(p) => spec_signed_get(
                        *old(self),
                        "/api/v5/trade/order"@,
                        opt_param("clOrdId"@, opt_view(cl_ord_id)) + one_param("instId"@, inst_id@)
                            + opt_param("ordId"@, opt_view(ord_id)),
                        timestamp@,
                        p,
                    ),
                    Err(_) => false,
                }
            } else {
                r == Err::<PreparedRequest, OkxError>(OkxError::RateLimit)
            },
    {
        self.limit_mgr.check_limit_with_inst_id(API_TRADE_GET_ORDER, inst_id, 1, 60, 2, now_s)?;
        let mut params: Vec<(String, String)> = Vec::new();
        push_opt(&mut params, "clOrdId", cl_ord_id);
        push_param(&mut params, "instId", inst_id.to_owned());
        push_opt(&mut params, "ordId", ord_id);
        proof {
            assert(pair_views(params@) =~= opt_param("clOrdId"@, opt_view(cl_ord_id)) + one_param(
                "instId"@,
                inst_id@,
            ) + opt_param("ordId"@, opt_view(ord_id)));
        }
        Ok(self.prepare_get("/api/v5/trade/order", &params, timestamp))
    }

    /// The canonical parameters of an amend-order call; the transport
    /// serialises them as the POST body.
    pub fn trade_amend_order_params(
        &self,
        inst_id: &str,
        cxl_on_fail: Option<&str>,
        ord_id: Option<&str>,
        cl_ord_id: Option<&str>,
        req_id: Option<&str>,
        new_sz: Option<&str>,
        new_px: Option<&str>,
    ) -> (r: Vec<(String, String)>)
        ensures
            pair_views(r@) == opt_param("clOrdId"@, opt_view(cl_ord_id)) + opt_param(
                "cxlOnFail"@,
                opt_view(cxl_on_fail),
            ) + one_param("instId"@, inst_id@) + opt_param("newPx"@, opt_view(new_px)) + opt_param(
                "newSz"@,
                opt_view(new_sz),
            ) + opt_param("ordId"@, opt_view(ord_id)) + opt_param("reqId"@, opt_view(req_id)),
    {
        let mut params: Vec<(String, String)> = Vec::new();
        push_opt(&mut params, "clOrdId", cl_ord_id);
        push_opt(&mut params, "cxlOnFail", cxl_on_fail);
        push_param(&mut params, "instId", inst_id.to_owned());
        push_opt(&mut params, "newPx", new_px);
        push_opt(&mut params, "newSz", new_sz);
        push_opt(&mut params, "ordId", ord_id);
        push_opt(&mut params, "reqId", req_id);
        proof {
            assert(pair_views(params@) =~= opt_param("clOrdId"@, opt_view(cl_ord_id)) + opt_param(
                "cxlOnFail"@,
                opt_view(cxl_on_fail),
            ) + one_param("instId"@, inst_id@) + opt_param("newPx"@, opt_view(new_px)) + opt_param(
                "newSz"@,
                opt_view(new_sz),
            ) + opt_param("ordId"@, opt_view(ord_id)) + opt_param("reqId"@, opt_view(req_id)));
        }
        params
    }

    /// An order amendment: one unit against the instrument's window, then
    /// the signed POST around the serialised parameters.
    pub fn trade_amend_order_request(
        &mut self,
        inst_id: &str,
        body: &str,
        timestamp: &str,
        now_s: u32,
    ) -> (r: Result<PreparedRequest, OkxError>)
        requires
            old(self).limit_mgr.wf(),
        ensures
            final(self).limit_mgr.wf(),
            client_keys_unchanged(*old(self), *final(self)),
            spec_inst_id_admission(
                *old(self),
                *final(self),
                API_TRADE_AMEND_ORDER,
                inst_id@,
                1,
                60,
                2,
                now_s,
            ),
            if spec_inst_id_admitted(*old(self), API_TRADE_AMEND_ORDER, inst_id@, 1, 60, 2, now_s) {
                match r {
                    Ok(p) => spec_signed_post(
                        *old(self),
                        "/api/v5/trade/amend-order"@,
                        body@,
                        timestamp@,
                        p,
                    ),
                    Err(_) => false,
                }
            } else {
                r == Err::<PreparedRequest, OkxError>(OkxError::RateLimit)
            },
    {
        self.limit_mgr.check_limit_with_inst_id(API_TRADE_AMEND_ORDER, inst_id, 1, 60, 2, now_s)?;
        Ok(self.prepare_post("/api/v5/trade/amend-order", body, timestamp))
    }

    /// The canonical rows of a batch-cancel call: one row per exchange order
    /// id, then one per client order id; the transport serialises the rows
    /// as the POST body.
    pub fn trade_cancel_batch_orders_params(
        &self,
        inst_id: &str,
        order_ids: &Vec<String>,
        cl_ord_ids: &Vec<String>,
    ) -> (r: Vec<Vec<(String, String)>>)
        ensures
            r@.len() == order_ids@.len() + cl_ord_ids@.len(),
            forall|i: int|
                0 <= i < order_ids@.len() ==> pair_views(#[trigger] r@[i]@) == one_param(
                    "instId"@,
                    inst_id@,
                ) + one_param("ordId"@, order_ids@[i]@),
            forall|i: int|
                0 <= i < cl_ord_ids@.len() ==> pair_views(
                    #[trigger] r@[order_ids@.len() + i]@,
                ) == one_param("clOrdId"@, cl_ord_ids@[i]@) + one_param("instId"@, inst_id@),
    {
        let mut rows: Vec<Vec<(String, String)>> = Vec::new();
        let n = order_ids.len();
        let mut i: usize = 0;
        while i < n
            invariant
                0 <= i <= n,
                n == order_ids@.len(),
                rows@.len() == i,
                forall|j: int|
                    0 <= j < i ==> pair_views(#[trigger] rows@[j]@) == one_param(
                        "instId"@,
                        inst_id@,
                    ) + one_param("ordId"@, order_ids@[j]@),
            decreases n - i,
        {
            let mut row: Vec<(String, String)> = Vec::new();
            push_param(&mut row, "instId", inst_id.to_owned());
            push_param(&mut row, "ordId", order_ids[i].clone());
            proof {
                assert(pair_views(row@) =~= one_param("instId"@, inst_id@) + one_param(
                    "ordId"@,
                    order_ids@[i as int]@,
                ));
            }
            rows.push(row);
            i = i + 1;
        }
        let m = cl_ord_ids.len();
        let mut k: usize = 0;
        while k < m
            invariant
                0 <= k <= m,
                m == cl_ord_ids@.len(),
                n == order_ids@.len(),
                rows@.len() == n + k,
                forall|j: int|
                    0 <= j < n ==> pair_views(#[trigger] rows@[j]@) == one_param(
                        "instId"@,
                        inst_id@,
                    ) + one_param("ordId"@, order_ids@[j]@),
                forall|j: int|
                    0 <= j < k ==> pair_views(#[trigger] rows@[n + j]@) == one_param(
                        "clOrdId"@,
                        cl_ord_ids@[j]@,
                    ) + one_param("instId"@, inst_id@),
            decreases m - k,
        {
            let mut row: Vec<(String, String)> = Vec::new();
            push_param(&mut row, "clOrdId", cl_ord_ids[k].clone());
            push_param(&mut row, "instId", inst_id.to_owned());
            proof {
                assert(pair_views(row@) =~= one_param("clOrdId"@, cl_ord_ids@[k as int]@)
                    + one_param("instId"@, inst_id@));
            }
            rows.push(row);
            k = k + 1;
        }
        rows
    }

    /// A batch cancel: the admitted weight is the total number of ids named,
    /// then the signed POST around the serialised rows.
    pub fn trade_cancel_batch_orders_request(
        &mut self,
        inst_id: &str,
        order_ids: &Vec<String>,
        cl_ord_ids: &Vec<String>,
        body: &str,
        timestamp: &str,
        now_s: u32,
    ) -> (r: Result<PreparedRequest, OkxError>)
        requires
            old(self).limit_mgr.wf(),
            order_ids@.len() + cl_ord_ids@.len() <= u32::MAX,
        ensures
            final(self).limit_mgr.wf(),
            client_keys_unchanged(*old(self), *final(self)),
            ({
                let weight = (order_ids@.len() + cl_ord_ids@.len()) as u32;
                &&& spec_inst_id_admission(
                    *old(self),
                    *final(self),
                    API_TRADE_CANCEL_BATCH_ORDERS,
                    inst_id@,
                    weight,
                    300,
                    2,
                    now_s,
                )
                &&& if spec_inst_id_admitted(
                    *old(self),
                    API_TRADE_CANCEL_BATCH_ORDERS,
                    inst_id@,
                    weight,
                    300,
                    2,
                    now_s,
                ) {
                    match r {
                        Ok(p) => spec_signed_post(
                            *old(self),
                            "/api/v5/trade/cancel-batch-orders"@,
                            body@,
                            timestamp@,
                            p,
                        ),
                        Err(_) => false,
                    }
                } else {
                    r == Err::<PreparedRequest, OkxError>(OkxError::RateLimit)
                }
            }),
    {
        let weight = ((order_ids.len() as u64) + (cl_ord_ids.len() as u64)) as u32;
        self.limit_mgr.check_limit_with_inst_id(
            API_TRADE_CANCEL_BATCH_ORDERS,
            inst_id,
            weight,
            300,
            2,
            now_s,
        )?;
        Ok(self.prepare_post("/api/v5/trade/cancel-batch-orders", body, timestamp))
    }
}

/// A correct GET of the public client.
pub open spec fn spec_public_get(
    c: OkxPublicClient,
    path: Seq<char>,
    params: Seq<(Seq<char>, Seq<char>)>,
    timestamp: Seq<char>,
    p: PreparedRequest,
) -> bool {
    &&& p.method@ == "GET"@
    &&& p.path@ == spec_get_path(path, params)
    &&& p.body is None
    &&& pair_views(p.headers@) == crate::sign::spec_public_headers(
        timestamp,
        c.base_config.testnet,
    )
}

impl OkxPublicClient {
    /// The all-tickers query.
    pub fn market_tickers_request(
        &self,
        inst_type: &str,
        uly: Option<&str>,
        inst_family: Option<&str>,
        timestamp: &str,
    ) -> (r: PreparedRequest)
        ensures
            spec_public_get(
                *self,
                "/api/v5/market/tickers"@,
                opt_param("instFamily"@, opt_view(inst_family)) + one_param(
                    "instType"@,
                    inst_type@,
                ) + opt_param("uly"@, opt_view(uly)),
                timestamp@,
                r,
            ),
    {
        let mut params: Vec<(String, String)> = Vec::new();
        push_opt(&mut params, "instFamily", inst_family);
        push_param(&mut params, "instType", inst_type.to_owned());
        push_opt(&mut params, "uly", uly);
        proof {
            assert(pair_views(params@) =~= opt_param("instFamily"@, opt_view(inst_family))
                + one_param("instType"@, inst_type@) + opt_param("uly"@, opt_view(uly)));
        }
        self.prepare_get("/api/v5/market/tickers", &params, timestamp)
    }

    /// The single-ticker query.
    pub fn market_ticker_request(&self, inst_id: &str, timestamp: &str) -> (r: PreparedRequest)
        ensures
            spec_public_get(
                *self,
                "/api/v5/market/ticker"@,
                one_param("instId"@, inst_id@),
                timestamp@,
                r,
            ),
    {
        let mut params: Vec<(String, String)> = Vec::new();
        push_param(&mut params, "instId", inst_id.to_owned());
        proof {
            assert(pair_views(params@) =~= one_param("instId"@, inst_id@));
        }
        self.prepare_get("/api/v5/market/ticker", &params, timestamp)
    }

    /// The public-trades query.
    pub fn market_trades_request(&self, inst_id: &str, limit: usize, timestamp: &str) -> (r:
        PreparedRequest)
        ensures
            spec_public_get(
                *self,
                "/api/v5/market/trades"@,
                one_param("instId"@, inst_id@) + one_param(
                    "limit"@,
                    crate::strutil::spec_u64_digits(limit as u64),
                ),
                timestamp@,
                r,
            ),
    {
        let mut params: Vec<(String, String)> = Vec::new();
        push_param(&mut params, "instId", inst_id.to_owned());
        let limit_str = crate::strutil::format_u64(limit as u64);
        push_param(&mut params, "limit", limit_str);
        proof {
            assert(pair_views(params@) =~= one_param("instId"@, inst_id@) + one_param(
                "limit"@,
                crate::strutil::spec_u64_digits(limit as u64),
            ));
        }
        self.prepare_get("/api/v5/market/trades", &params, timestamp)
    }

    /// The order-book depth query.
    pub fn market_books_request(&self, inst_id: &str, sz: Option<&str>, timestamp: &str) -> (r:
        PreparedRequest)
        ensures
            spec_public_get(
                *self,
                "/api/v5/market/books"@,
                one_param("instId"@, inst_id@) + opt_param("sz"@, opt_view(sz)),
                timestamp@,
                r,
            ),
    {
        let mut params: Vec<(String, String)> = Vec::new();
        push_param(&mut params, "instId", inst_id.to_owned());
        push_opt(&mut params, "sz", sz);
        proof {
            assert(pair_views(params@) =~= one_param("instId"@, inst_id@) + opt_param(
                "sz"@,
                opt_view(sz),
            ));
        }
        self.prepare_get("/api/v5/market/books", &params, timestamp)
    }

    /// The instrument-list query: one unit against the per-type window,
    /// then the GET.
    pub fn public_instruments_request(
        &mut self,
        inst_type: InstType,
        uly: Option<&str>,
        inst_family: Option<&str>,
        inst_id: Option<&str>,
        timestamp: &str,
        now_s: u32,
    ) -> (r: Result<PreparedRequest, OkxError>)
        requires
            old(self).limit_mgr.wf(),
        ensures
            final(self).limit_mgr.wf(),
            final(self).base_config == old(self).base_config,
            ({
                let s = spec_checked_map(
                    old(self).limit_mgr.inst_type_map(),
                    (API_PUBLIC_INSTRUMENTS, inst_type),
                    1,
                    20,
                    2,
                    now_s,
                );
                &&& final(self).limit_mgr.inst_type_map() == s.0
                &&& final(self).limit_mgr.plain_map() == old(self).limit_mgr.plain_map()
                &&& final(self).limit_mgr.inst_id_map() == old(self).limit_mgr.inst_id_map()
                &&& final(self).limit_mgr.inst_family_map() == old(
                    self,
                ).limit_mgr.inst_family_map()
                &&& if s.1 {
                    match r {
                        Ok(p) => spec_public_get(
                            *old(self),
                            "/api/v5/public/instruments"@,
                            opt_param("instFamily"@, opt_view(inst_family)) + opt_param(
                                "instId"@,
                                opt_view(inst_id),
                            ) + one_param("instType"@, inst_type.spec_wire_name()) + opt_param(
                                "uly"@,
                                opt_view(uly),
                            ),
                            timestamp@,
                            p,
                        ),
                        Err(_) => false,
                    }
                } else {
                    r == Err::<PreparedRequest, OkxError>(OkxError::RateLimit)
                }
            }),
    {
        self.limit_mgr.check_limit_with_inst_type(
            API_PUBLIC_INSTRUMENTS,
            inst_type,
            1,
            20,
            2,
            now_s,
        )?;
        let mut params: Vec<(String, String)> = Vec::new();
        push_opt(&mut params, "instFamily", inst_family);
        push_opt(&mut params, "instId", inst_id);
        push_param(&mut params, "instType", inst_type.wire_name());
        push_opt(&mut params, "uly", uly);
        proof {
            assert(pair_views(params@) =~= opt_param("instFamily"@, opt_view(inst_family))
                + opt_param("instId"@, opt_view(inst_id)) + one_param(
                "instType"@,
                inst_type.spec_wire_name(),
            ) + opt_param("uly"@, opt_view(uly)));
        }
        Ok(self.prepare_get("/api/v5/public/instruments", &params, timestamp))
    }
}

} // verus!
