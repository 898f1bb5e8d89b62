//! A verified client library for a derivatives/spot exchange's REST and
//! WebSocket API.
//!
//! Three subsystems carry the weight and are verified in full: the
//! rate-limit governor ([`rate_limit`]), the signed-request pipeline
//! ([`sign`], [`rest`]) and the WebSocket session cores with the order-book
//! merge engine ([`conn`], [`public_ws`], [`account_ws`], [`book`]).  The
//! transport around them — HTTP, sockets, JSON codecs and the task runtime —
//! lives outside the library and drives these cores with plain values.

use vstd::prelude::*;

pub mod account_ws;
pub mod apikey;
pub mod book;
pub mod conn;
pub mod kvtable;
pub mod models;
pub mod numeric;
pub mod public_ws;
pub mod rate_limit;
pub mod rest;
pub mod sign;
pub mod strutil;
pub mod utils;
pub mod ws_events;

verus! {

/// Errors surfaced by the library.
#[derive(Debug, Clone, PartialEq, Eq)]
pub enum OkxError {
    /// The rate-limit governor refused the call.
    RateLimit,
    /// A JSON document could not be decoded; carries the decoder's message.
    SerdeError(String),
    /// The HTTP transport failed; carries the transport's message.
    ReqwestError(String),
    /// A decimal field could not be parsed from its wire string.
    DecimalError,
    /// An integer field could not be parsed from its wire string.
    ParseIntError,
    /// A send was attempted while the WebSocket was not connected.
    NotConnect,
    /// The server answered with a non-zero envelope code.
    RemoteError { code: i32, message: String },
    /// More than the maximum number of orders in one batch call.
    OutOfMaxOrderSize,
    /// Batch entries disagree on the instrument id.
    MustHaveSameInstId,
}

} // verus!
