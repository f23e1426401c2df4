//! The metadata elements of a message chain.
//!
//! A chain received from the gateway opens with a [`MessageSource`] giving
//! the message's id and timestamp, and may carry a quote reference to an
//! earlier message. Both are metadata, not content.

use vstd::prelude::*;

use crate::message::message::{MessageID, TimeStamp};

verus! {

/// The id and timestamp the gateway stamps on a message.
#[derive(Debug, Clone, Copy, PartialEq, Eq, Structural)]
pub struct MessageSource {
    pub id: MessageID,
    pub time: TimeStamp,
}

/// A metadata element: the message's source stamp or a quote reference.
#[derive(Debug, Clone, Copy, PartialEq, Eq, Structural)]
pub enum MessageMeta {
    Source(MessageSource),
    Quote { id: MessageID },
}

} // verus!
