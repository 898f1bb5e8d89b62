//! The private session core: login handshake, auth state, desired account
//! and order subscriptions, and the replay that follows a successful login.

use vstd::prelude::*;

use crate::conn::is_account_frame;
use crate::conn::is_login_frame;
use crate::conn::is_order_channel_frame;
use crate::conn::EnvelopeHeader;
use crate::conn::LoginArg;
use crate::conn::WebsocketRequest;
use crate::conn::WsArg;
use crate::models::InstType;
use crate::sign::sign_message;
use crate::sign::spec_sign;
use crate::strutil::format_u64;
use crate::strutil::spec_u64_digits;
use crate::strutil::str_eq;
use crate::ws_events::OrderSubscribeArg;

verus! {

/// The private session's authentication state.
#[derive(Clone, Copy, Debug, Eq, PartialEq, Structural)]
pub enum AuthState {
    Unauth,
    AuthInFlight,
    Authed,
}

/// Where an inbound private envelope goes.
#[derive(Clone, Copy, Debug, Eq, PartialEq, Structural)]
pub enum AccountRoute {
    /// A login answer with code zero: replay the private subscriptions.
    LoginSuccess,
    /// A login answer with a non-zero code: stay unauthenticated.
    LoginFailure,
    /// Non-zero code outside a login answer.
    RemoteErr,
    Account,
    Orders,
    Ignore,
}

/// The routing rule for private envelopes.
pub open spec fn spec_route_account(h: EnvelopeHeader) -> AccountRoute {
    if h.event@ == "login"@ {
        if h.code@ == "0"@ {
            AccountRoute::LoginSuccess
        } else {
            AccountRoute::LoginFailure
        }
    } else if h.code@ != "0"@ {
        AccountRoute::RemoteErr
    } else {
        match h.channel {
            Option::None => AccountRoute::Ignore,
            Option::Some(c) => {
                if c@ == "account"@ {
                    AccountRoute::Account
                } else if c@ == "orders"@ {
                    AccountRoute::Orders
                } else {
                    AccountRoute::Ignore
                }
            },
        }
    }
}

/// Routes one inbound private envelope.
pub fn route_account(h: &EnvelopeHeader) -> (r: AccountRoute)
    ensures
        r == spec_route_account(*h),
{
    if str_eq(h.event.as_str(), "login") {
        if str_eq(h.code.as_str(), "0") {
            AccountRoute::LoginSuccess
        } else {
            AccountRoute::LoginFailure
        }
    } else if !str_eq(h.code.as_str(), "0") {
        AccountRoute::RemoteErr
    } else {
        match &h.channel {
            Option::None => AccountRoute::Ignore,
            Option::Some(c) => {
                if str_eq(c.as_str(), "account") {
                    AccountRoute::Account
                } else if str_eq(c.as_str(), "orders") {
                    AccountRoute::Orders
                } else {
                    AccountRoute::Ignore
                }
            },
        }
    }
}

/// The path the login handshake signs.
pub open spec fn spec_login_path() -> Seq<char> {
    "/users/self/verify"@
}

/// The message the login handshake signs: timestamp, GET, verify path.
pub open spec fn spec_login_message(timestamp: Seq<char>) -> Seq<char> {
    timestamp + "GET"@ + spec_login_path()
}

/// The private session core.
pub struct AccountSessionCore {
    api_key: String,
    secret_key: String,
    passphrase: String,
    auth_state: AuthState,
    is_account_subscribed: bool,
    order_subscribed: Vec<InstType>,
}

impl AccountSessionCore {
    /// The authentication state.
    pub closed spec fn auth(&self) -> AuthState {
        self.auth_state
    }

    /// The API key.
    pub closed spec fn key_view(&self) -> Seq<char> {
        self.api_key@
    }

    /// The signing secret.
    pub closed spec fn secret_view(&self) -> Seq<char> {
        self.secret_key@
    }

    /// The passphrase.
    pub closed spec fn passphrase_view(&self) -> Seq<char> {
        self.passphrase@
    }

    /// Whether the account stream is desired.
    pub closed spec fn account_desired(&self) -> bool {
        self.is_account_subscribed
    }

    /// The desired order streams by instrument type.
    pub closed spec fn orders(&self) -> Seq<InstType> {
        self.order_subscribed@
    }

    pub closed spec fn wf(&self) -> bool {
        crate::kvtable::distinct_keys(self.orders())
    }

    /// The authentication state, for callers.
    pub fn auth_state(&self) -> (r: AuthState)
        ensures
            r == self.auth(),
    {
        self.auth_state
    }

    pub fn new(api_key: &str, secret_key: &str, passphrase: &str) -> (r: Self)
        ensures
            r.wf(),
            r.key_view() == api_key@,
            r.secret_view() == secret_key@,
            r.passphrase_view() == passphrase@,
            r.auth() == AuthState::Unauth,
            !r.account_desired(),
            r.orders().len() == 0,
    {
        Self {
            api_key: api_key.to_owned(),
            secret_key: secret_key.to_owned(),
            passphrase: passphrase.to_owned(),
            auth_state: AuthState::Unauth,
            is_account_subscribed: false,
            order_subscribed: Vec::new(),
        }
    }

    /// The login frame the session sends right after a transport connect:
    /// key, passphrase, whole-second timestamp, and the signature of
    /// `timestamp GET /users/self/verify` under the secret.  Sending it puts
    /// the handshake in flight.
    pub fn login_request(&mut self, timestamp_s: i64) -> (r: WebsocketRequest)
        requires
            timestamp_s >= 0,
        ensures
            final(self).auth() == AuthState::AuthInFlight,
            final(self).account_desired() == old(self).account_desired(),
            final(self).orders() == old(self).orders(),
            final(self).key_view() == old(self).key_view(),
            final(self).secret_view() == old(self).secret_view(),
            final(self).passphrase_view() == old(self).passphrase_view(),
            final(self).wf() == old(self).wf(),
            is_login_frame(
                r,
                old(self).key_view(),
                old(self).passphrase_view(),
                spec_u64_digits(timestamp_s as u64),
                spec_sign(
                    old(self).secret_view(),
                    spec_login_message(spec_u64_digits(timestamp_s as u64)),
                ),
            ),
    {
        let timestamp = format_u64(timestamp_s as u64);
        let mut message = timestamp.clone();
        message.append("GET");
        message.append("/users/self/verify");
        let sign = sign_message(self.secret_key.as_str(), message.as_str());
        self.auth_state = AuthState::AuthInFlight;
        WebsocketRequest {
            op: "login".to_owned(),
            args: vec![
                WsArg::Login(
                    LoginArg {
                        api_key: self.api_key.clone(),
                        passphrase: self.passphrase.clone(),
                        timestamp,
                        sign,
                    },
                ),
            ],
        }
    }

    /// Records the wish for the account stream; a repeated wish is absorbed.
    pub fn account_subscribe(&mut self) -> (r: Option<WebsocketRequest>)
        ensures
            final(self).wf() == old(self).wf(),
            final(self).auth() == old(self).auth(),
            final(self).orders() == old(self).orders(),
            final(self).account_desired(),
            match r {
                Some(req) => !old(self).account_desired() && is_account_frame(
                    req,
                    "subscribe"@,
                    Some("{\"updateInterval\":0}"@),
                ),
                None => old(self).account_desired(),
            },
    {
        if self.is_account_subscribed {
            return None;
        }
        self.is_account_subscribed = true;
        Some(account_subscribe_frame())
    }

    /// Withdraws the wish for the account stream; nothing goes out if it was
    /// not desired.
    pub fn account_unsubscribe(&mut self) -> (r: Option<WebsocketRequest>)
        ensures
            final(self).wf() == old(self).wf(),
            final(self).auth() == old(self).auth(),
            final(self).orders() == old(self).orders(),
            !final(self).account_desired(),
            match r {
                Some(req) => old(self).account_desired() && is_account_frame(
                    req,
                    "unsubscribe"@,
                    None,
                ),
                None => !old(self).account_desired(),
            },
    {
        if !self.is_account_subscribed {
            return None;
        }
        self.is_account_subscribed = false;
        Some(
            WebsocketRequest {
                op: "unsubscribe".to_owned(),
                args: vec![
                    WsArg::Account(
                        crate::conn::AccountChannelArg {
                            channel: "account".to_owned(),
                            extra_params: None,
                        },
                    ),
                ],
            },
        )
    }

    fn find_order(&self, inst_type: InstType) -> (r: Option<usize>)
        ensures
            match r {
                Some(i) => i < self.orders().len() && self.orders()[i as int] == inst_type,
                None => forall|j: int| 0 <= j < self.orders().len() ==> self.orders()[j] != inst_type,
            },
    {
        let n = self.order_subscribed.len();
        let mut i: usize = 0;
        while i < n
            invariant
                0 <= i <= n,
                n == self.orders().len(),
                forall|j: int| 0 <= j < i ==> self.orders()[j] != inst_type,
            decreases n - i,
        {
            if self.order_subscribed[i] == inst_type {
                return Some(i);
            }
            i = i + 1;
        }
        None
    }

    /// Records the wish for an order stream of one instrument type.
    pub fn order_subscribe(&mut self, inst_type: InstType) -> (r: Option<WebsocketRequest>)
        requires
            old(self).wf(),
        ensures
            final(self).wf(),
            final(self).auth() == old(self).auth(),
            final(self).account_desired() == old(self).account_desired(),
            match r {
                Some(req) => {
                    &&& !old(self).orders().contains(inst_type)
                    &&& final(self).orders() == old(self).orders().push(inst_type)
                    &&& is_order_channel_frame(req, "subscribe"@, inst_type)
                },
                None => old(self).orders().contains(inst_type) && final(self).orders() == old(
                    self,
                ).orders(),
            },
    {
        let found = self.find_order(inst_type);
        match found {
            Some(_) => {
                proof {
                    assert(old(self).orders().contains(inst_type));
                }
                None
            },
            None => {
                proof {
                    if old(self).orders().contains(inst_type) {
                        let j = choose|j: int|
                            0 <= j < old(self).orders().len() && old(self).orders()[j] == inst_type;
                        assert(false);
                    }
                }
                self.order_subscribed.push(inst_type);
                Some(order_channel_frame(true, inst_type))
            },
        }
    }

    /// Withdraws the wish for an order stream; the unsubscribe frame goes
    /// out either way.
    pub fn order_unsubscribe(&mut self, inst_type: InstType) -> (r: WebsocketRequest)
        requires
            old(self).wf(),
        ensures
            final(self).wf(),
            final(self).auth() == old(self).auth(),
            final(self).account_desired() == old(self).account_desired(),
            !final(self).orders().contains(inst_type),
            if old(self).orders().contains(inst_type) {
                exists|i: int|
                    0 <= i < old(self).orders().len() && old(self).orders()[i] == inst_type
                        && final(self).orders() == old(self).orders().remove(i)
            } else {
                final(self).orders() == old(self).orders()
            },
            is_order_channel_frame(r, "unsubscribe"@, inst_type),
    {
        let found = self.find_order(inst_type);
        match found {
            Some(i) => {
                let ghost g = self.orders();
                self.order_subscribed.remove(i);
                proof {
                    assert(self.orders() =~= g.remove(i as int));
                    assert forall|j: int|
                        0 <= j < self.orders().len() implies self.orders()[j] != inst_type by {
                        if j < i {
                            assert(g[j] != g[i as int]);
                        } else {
                            assert(g[j + 1] != g[i as int]);
                        }
                    }
                }
            },
            None => {},
        }
        order_channel_frame(false, inst_type)
    }

    /// Applies a login answer.  Success authenticates the session and
    /// yields the private replay — the account stream first if desired,
    /// then one order stream per desired instrument type.  Failure leaves
    /// the session unauthenticated and replays nothing.
    pub fn handle_login(&mut self, code: &str) -> (r: Vec<WebsocketRequest>)
        requires
            old(self).wf(),
        ensures
            final(self).wf(),
            final(self).account_desired() == old(self).account_desired(),
            final(self).orders() == old(self).orders(),
            if code@ == "0"@ {
                let base: int = if old(self).account_desired() {
                    1
                } else {
                    0
                };
                &&& final(self).auth() == AuthState::Authed
                &&& r@.len() == base + old(self).orders().len()
                &&& (old(self).account_desired() ==> is_account_frame(
                    r@[0],
                    "subscribe"@,
                    Some("{\"updateInterval\":0}"@),
                ))
                &&& forall|i: int|
                    0 <= i < old(self).orders().len() ==> is_order_channel_frame(
                        #[trigger] r@[base + i],
                        "subscribe"@,
                        old(self).orders()[i],
                    )
            } else {
                final(self).auth() == AuthState::Unauth && r@.len() == 0
            },
    {
        let mut out: Vec<WebsocketRequest> = Vec::new();
        if !str_eq(code, "0") {
            self.auth_state = AuthState::Unauth;
            return out;
        }
        self.auth_state = AuthState::Authed;
        let ghost base: int = if self.is_account_subscribed {
            1int
        } else {
            0int
        };
        if self.is_account_subscribed {
            out.push(account_subscribe_frame());
        }
        let n = self.order_subscribed.len();
        let mut i: usize = 0;
        while i < n
            invariant
                0 <= i <= n,
                n == self.orders().len(),
                base == (if self.account_desired() {
                    1int
                } else {
                    0int
                }),
                out@.len() == base + i,
                self.account_desired() ==> is_account_frame(
                    out@[0],
                    "subscribe"@,
                    Some("{\"updateInterval\":0}"@),
                ),
                forall|j: int|
                    0 <= j < i ==> is_order_channel_frame(
                        #[trigger] out@[base + j],
                        "subscribe"@,
                        self.orders()[j],
                    ),
            decreases n - i,
        {
            out.push(order_channel_frame(true, self.order_subscribed[i]));
            i = i + 1;
        }
        out
    }

    /// A transport disconnect voids the authentication.
    pub fn on_disconnected(&mut self)
        ensures
            final(self).auth() == AuthState::Unauth,
            final(self).account_desired() == old(self).account_desired(),
            final(self).orders() == old(self).orders(),
            final(self).wf() == old(self).wf(),
    {
        self.auth_state = AuthState::Unauth;
    }
}

/// The account channel's subscribe frame, with its update-interval extra.
fn account_subscribe_frame() -> (r: WebsocketRequest)
    ensures
        is_account_frame(r, "subscribe"@, Some("{\"updateInterval\":0}"@)),
{
    WebsocketRequest {
        op: "subscribe".to_owned(),
        args: vec![
            WsArg::Account(
                crate::conn::AccountChannelArg {
                    channel: "account".to_owned(),
                    extra_params: Some("{\"updateInterval\":0}".to_owned()),
                },
            ),
        ],
    }
}

/// An order-channel frame for one instrument type.
fn order_channel_frame(subscribe: bool, inst_type: InstType) -> (r: WebsocketRequest)
    ensures
        is_order_channel_frame(
            r,
            if subscribe {
                "subscribe"@
            } else {
                "unsubscribe"@
            },
            inst_type,
        ),
{
    let op = if subscribe {
        "subscribe".to_owned()
    } else {
        "unsubscribe".to_owned()
    };
    WebsocketRequest {
        op,
        args: vec![
            WsArg::Order(
                OrderSubscribeArg {
                    channel: "orders".to_owned(),
                    inst_type,
                    inst_family: None,
                    inst_id: None,
                },
            ),
        ],
    }
}

} // verus!
