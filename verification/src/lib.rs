//! Client-side model of the mirai-api-http bot gateway protocol.
//!
//! The heart of the crate is the wire-level model of the gateway's JSON
//! shapes: the tagged-union message elements ([`message::SingleMessage`],
//! [`message::MessageContent`]), the message chain with its metadata
//! ([`message::Message`]), and the encoders and decoders that relate them
//! to a plain JSON value tree ([`json::JsonValue`]). Around that sit the
//! session, channel and group-administration types, together with the
//! request bodies and response parsers for each gateway endpoint.
//!
//! HTTP transport itself stays outside this crate: every function here is
//! a total computation from plain values to plain values.

pub mod codec;
pub mod common;
pub mod config;
pub mod error;
pub mod group;
pub mod image;
pub mod json;
pub mod member_list;
pub mod message;
pub mod mock;
pub mod session;
pub mod text;

use vstd::prelude::*;

verus! {

/// A QQ account or group number.
pub type Target = u64;

/// A status code returned by the gateway.
pub type Code = u16;

/// The message-cache size setting of the gateway.
pub type CacheSize = u16;

} // verus!
