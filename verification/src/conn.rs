//! The connection core of a WebSocket session: its state machine, outbox,
//! heartbeat clock and error classification.  The transport drives this
//! state from its I/O loops and obeys the decisions it returns.

use vstd::prelude::*;

use crate::strutil::str_eq;
use crate::OkxError;

verus! {

/// Lifecycle states of a session.
#[derive(Clone, Copy, Debug, Eq, PartialEq, Ord, PartialOrd, Structural)]
pub enum ConnState {
    Connecting,
    Connected,
    Closing,
    Closed,
}

/// One queued outbound item: a text frame, or the user's close sentinel.
#[derive(Debug, Clone)]
pub enum WsOutMessage {
    Text(String),
    Close,
}

/// Transport error classes, one per error the frame layer can report.
#[derive(Clone, Copy, Debug, Eq, PartialEq, Structural)]
pub enum WsErrorKind {
    ConnectionClosed,
    AlreadyClosed,
    Io,
    Tls,
    Capacity,
    ProtocolSendAfterClosing,
    ProtocolReceivedAfterClosing,
    ProtocolOther,
    WriteBufferFull,
    Utf8,
    AttackAttempt,
    Url,
    Http,
    HttpFormat,
}

/// Whether an error ends this connection epoch (and so re-enters the
/// reconnect loop); the rest are logged and the epoch carries on.
pub open spec fn spec_reconnectable(kind: WsErrorKind) -> bool {
    match kind {
        WsErrorKind::ConnectionClosed => true,
        WsErrorKind::AlreadyClosed => true,
        WsErrorKind::Io => true,
        WsErrorKind::ProtocolSendAfterClosing => true,
        WsErrorKind::ProtocolReceivedAfterClosing => true,
        _ => false,
    }
}

/// Classifies a transport error.
pub fn handle_err(kind: &WsErrorKind) -> (reconnect: bool)
    ensures
        reconnect == spec_reconnectable(*kind),
{
    match kind {
        WsErrorKind::ConnectionClosed => true,
        WsErrorKind::AlreadyClosed => true,
        WsErrorKind::Io => true,
        WsErrorKind::ProtocolSendAfterClosing => true,
        WsErrorKind::ProtocolReceivedAfterClosing => true,
        _ => false,
    }
}

/// What an inbound text frame is: the liveness answer, or a payload for the
/// demultiplexer.
#[derive(Clone, Copy, Debug, Eq, PartialEq, Structural)]
pub enum FrameClass {
    Pong,
    Payload,
}

/// Classifies an inbound text frame; the literal text `pong` is liveness,
/// everything else carries an envelope.
pub fn classify_frame(text: &str) -> (r: FrameClass)
    ensures
        r == (if text@ == "pong"@ {
            FrameClass::Pong
        } else {
            FrameClass::Payload
        }),
{
    if str_eq(text, "pong") {
        FrameClass::Pong
    } else {
        FrameClass::Payload
    }
}

/// Milliseconds without a pong after which the peer counts as dead.
pub open spec fn pong_timeout_millis() -> int {
    30_000
}

/// The connection core: state, outbox and heartbeat bookkeeping.
#[derive(Debug)]
pub struct ConnCore {
    pub state: ConnState,
    pub outbox: Vec<WsOutMessage>,
    pub last_pong_ms: i64,
}

impl ConnCore {
    /// A session starts connecting, with nothing queued.
    pub fn new() -> (r: Self)
        ensures
            r.state == ConnState::Connecting,
            r.outbox@.len() == 0,
            r.last_pong_ms == 0,
    {
        Self { state: ConnState::Connecting, outbox: Vec::new(), last_pong_ms: 0 }
    }

    pub fn state(&self) -> (r: ConnState)
        ensures
            r == self.state,
    {
        self.state
    }

    pub fn set_state(&mut self, state: ConnState)
        ensures
            final(self).state == state,
            final(self).outbox == old(self).outbox,
            final(self).last_pong_ms == old(self).last_pong_ms,
    {
        self.state = state;
    }

    /// Queues a payload, but only on a connected session.
    pub fn send(&mut self, payload: String) -> (r: Result<(), OkxError>)
        ensures
            if old(self).state == ConnState::Connected {
                &&& r is Ok
                &&& final(self).outbox@ == old(self).outbox@.push(WsOutMessage::Text(payload))
            } else {
                &&& r == Err::<(), OkxError>(OkxError::NotConnect)
                &&& final(self).outbox == old(self).outbox
            },
            final(self).state == old(self).state,
            final(self).last_pong_ms == old(self).last_pong_ms,
    {
        if !matches!(self.state, ConnState::Connected) {
            return Err(OkxError::NotConnect);
        }
        self.outbox.push(WsOutMessage::Text(payload));
        Ok(())
    }

    /// Queues the close sentinel; the sender exits the reconnect loop when
    /// it reads it.
    pub fn close(&mut self)
        ensures
            final(self).outbox@ == old(self).outbox@.push(WsOutMessage::Close),
            final(self).state == old(self).state,
            final(self).last_pong_ms == old(self).last_pong_ms,
    {
        self.outbox.push(WsOutMessage::Close);
    }

    /// The sender's next item, oldest first.
    pub fn next_outbound(&mut self) -> (r: Option<WsOutMessage>)
        ensures
            match r {
                Some(m) => old(self).outbox@.len() > 0 && m == old(self).outbox@[0]
                    && final(self).outbox@ == old(self).outbox@.drop_first(),
                None => old(self).outbox@.len() == 0 && final(self).outbox == old(self).outbox,
            },
            final(self).state == old(self).state,
            final(self).last_pong_ms == old(self).last_pong_ms,
    {
        if self.outbox.len() == 0 {
            return None;
        }
        let m = self.outbox.remove(0);
        proof {
            assert(self.outbox@ =~= old(self).outbox@.drop_first());
        }
        Some(m)
    }

    /// A fresh handshake: anything queued while disconnected referred to the
    /// old connection and is dropped, the heartbeat clock restarts, and the
    /// session is connected.
    pub fn on_handshake_success(&mut self, now_ms: i64)
        ensures
            final(self).state == ConnState::Connected,
            final(self).outbox@.len() == 0,
            final(self).last_pong_ms == now_ms,
    {
        self.outbox.clear();
        self.last_pong_ms = now_ms;
        self.state = ConnState::Connected;
    }

    /// An inbound pong restarts the heartbeat clock.
    pub fn on_pong(&mut self, now_ms: i64)
        ensures
            final(self).last_pong_ms == now_ms,
            final(self).state == old(self).state,
            final(self).outbox == old(self).outbox,
    {
        self.last_pong_ms = now_ms;
    }

    /// One heartbeat tick on a connected session.  The caller sends the
    /// `ping` frame; if the last pong is more than thirty seconds old the
    /// peer counts as dead and the session goes back to connecting.
    pub fn on_tick(&mut self, now_ms: i64) -> (timed_out: bool)
        requires
            old(self).state == ConnState::Connected,
        ensures
            timed_out == (now_ms > old(self).last_pong_ms + pong_timeout_millis()),
            final(self).state == (if timed_out {
                ConnState::Connecting
            } else {
                ConnState::Connected
            }),
            final(self).outbox == old(self).outbox,
            final(self).last_pong_ms == old(self).last_pong_ms,
    {
        if (now_ms as i128) > (self.last_pong_ms as i128) + 30_000i128 {
            self.state = ConnState::Connecting;
            true
        } else {
            false
        }
    }

    /// The sender returned: a user-requested close ends the session for
    /// good, anything else re-enters the reconnect loop.
    pub fn on_sender_exit(&mut self, close_by_user: bool)
        ensures
            final(self).state == (if close_by_user {
                ConnState::Closed
            } else {
                ConnState::Connecting
            }),
            final(self).outbox == old(self).outbox,
            final(self).last_pong_ms == old(self).last_pong_ms,
    {
        if close_by_user {
            self.state = ConnState::Closed;
        } else {
            self.state = ConnState::Connecting;
        }
    }
}


/// Argument of the account channel's subscribe/unsubscribe frames.
#[derive(Debug, Clone)]
pub struct AccountChannelArg {
    pub channel: String,
    pub extra_params: Option<String>,
}

/// Argument of the login frame.
#[derive(Debug, Clone)]
pub struct LoginArg {
    pub api_key: String,
    pub passphrase: String,
    pub timestamp: String,
    pub sign: String,
}

/// One argument object of an outbound request frame.
#[derive(Debug, Clone)]
pub enum WsArg {
    Ticker(crate::ws_events::TickerEventArg),
    Order(crate::ws_events::OrderSubscribeArg),
    Symbol(crate::ws_events::TradeSymbolChangeSubscribeInfo),
    Account(AccountChannelArg),
    Login(LoginArg),
}

/// An outbound request frame: `{op, args: [...]}` on the wire.
#[derive(Debug, Clone)]
pub struct WebsocketRequest {
    pub op: String,
    pub args: Vec<WsArg>,
}

/// A one-argument frame on a per-instrument channel.
pub open spec fn is_channel_inst_frame(
    r: WebsocketRequest,
    op: Seq<char>,
    channel: Seq<char>,
    inst_id: Seq<char>,
) -> bool {
    &&& r.op@ == op
    &&& r.args@.len() == 1
    &&& match r.args@[0] {
        WsArg::Ticker(a) => a.channel@ == channel && a.inst_id@ == inst_id,
        _ => false,
    }
}

/// A one-argument frame on the instrument-list channel.
pub open spec fn is_symbol_frame(
    r: WebsocketRequest,
    op: Seq<char>,
    inst_type: crate::models::InstType,
) -> bool {
    &&& r.op@ == op
    &&& r.args@.len() == 1
    &&& match r.args@[0] {
        WsArg::Symbol(a) => a.channel@ == "instruments"@ && a.inst_type == inst_type,
        _ => false,
    }
}

/// A one-argument frame on the private order-lifecycle channel.
pub open spec fn is_order_channel_frame(
    r: WebsocketRequest,
    op: Seq<char>,
    inst_type: crate::models::InstType,
) -> bool {
    &&& r.op@ == op
    &&& r.args@.len() == 1
    &&& match r.args@[0] {
        WsArg::Order(a) => a.channel@ == "orders"@ && a.inst_type == inst_type && a.inst_family
            is None && a.inst_id is None,
        _ => false,
    }
}

/// A one-argument frame on the account channel.
pub open spec fn is_account_frame(
    r: WebsocketRequest,
    op: Seq<char>,
    extra_params: Option<Seq<char>>,
) -> bool {
    &&& r.op@ == op
    &&& r.args@.len() == 1
    &&& match r.args@[0] {
        WsArg::Account(a) => a.channel@ == "account"@ && (match (a.extra_params, extra_params) {
            (Some(x), Some(y)) => x@ == y,
            (None, None) => true,
            _ => false,
        }),
        _ => false,
    }
}

/// The login frame with the given credentials and signature.
pub open spec fn is_login_frame(
    r: WebsocketRequest,
    api_key: Seq<char>,
    passphrase: Seq<char>,
    timestamp: Seq<char>,
    sign: Seq<char>,
) -> bool {
    &&& r.op@ == "login"@
    &&& r.args@.len() == 1
    &&& match r.args@[0] {
        WsArg::Login(a) => a.api_key@ == api_key && a.passphrase@ == passphrase && a.timestamp@
            == timestamp && a.sign@ == sign,
        _ => false,
    }
}

/// The fields of one decoded inbound envelope that routing reads.
#[derive(Debug, Clone)]
pub struct EnvelopeHeader {
    pub event: String,
    pub channel: Option<String>,
    pub inst_id: Option<String>,
    pub action: String,
    pub code: String,
    pub msg: String,
    pub has_data: bool,
}

} // verus!
