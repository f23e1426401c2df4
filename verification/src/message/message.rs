//! A message: an ordered chain of content with its metadata.
//!
//! A [`Message`] freezes a source stamp, an optional quote reference and a
//! content chain. Client code accumulates content in a [`MessageBuilder`]
//! and then validates and freezes it: building demands a non-empty chain
//! and otherwise fails with the message-building kind of
//! [`MiraiError`](crate::error::MiraiError).

use vstd::prelude::*;

use crate::error::MiraiError;
use crate::message::content::{ContentV, MessageContent};
use crate::message::meta_msg::MessageSource;

verus! {

/// The elements of a message, in order.
pub type MessageChain = Vec<MessageContent>;

/// A message id handed out by the gateway.
pub type MessageID = i64;

/// Seconds since the epoch, as the gateway stamps them.
pub type TimeStamp = u64;

/// The source stamp a locally built message carries before the gateway
/// assigns a real one.
pub open spec fn spec_local_source() -> MessageSource {
    MessageSource { id: LOCAL_SOURCE_ID, time: LOCAL_SOURCE_TIME }
}

pub const LOCAL_SOURCE_ID: MessageID = -114514;

pub const LOCAL_SOURCE_TIME: TimeStamp = 1919810;

/// The model of a chain, elementwise.
pub open spec fn chain_view(s: Seq<MessageContent>) -> Seq<ContentV> {
    s.map_values(|m: MessageContent| m@)
}

/// Model of a [`Message`].
#[verifier::ext_equal]
pub struct MessageV {
    pub source: MessageSource,
    pub quote: Option<MessageID>,
    pub message_chain: Seq<ContentV>,
}

/// A frozen message: source stamp, optional quote, content chain.
#[derive(Debug, Clone, PartialEq, Eq)]
pub struct Message {
    pub source: MessageSource,
    pub quote: Option<MessageID>,
    pub message_chain: MessageChain,
}

impl View for Message {
    type V = MessageV;

    open spec fn view(&self) -> MessageV {
        MessageV {
            source: self.source,
            quote: self.quote,
            message_chain: chain_view(self.message_chain@),
        }
    }
}

impl Message {
    /// A locally built message around the given non-empty chain, with the
    /// local source stamp and no quote.
    pub fn new(message_chain: MessageChain) -> (r: Message)
        requires
            message_chain@.len() > 0,
        ensures
            r@ == (MessageV {
                source: spec_local_source(),
                quote: None,
                message_chain: chain_view(message_chain@),
            }),
    {
        Message { source: MessageSource { id: LOCAL_SOURCE_ID, time: LOCAL_SOURCE_TIME }, quote: None, message_chain }
    }

    /// Marks the message as a reply to the given message id.
    pub fn quote(&mut self, quote: MessageID)
        ensures
            final(self)@ == (MessageV { quote: Some(quote), ..old(self)@ }),
    {
        self.quote = Some(quote);
    }

    /// The source stamp.
    pub fn source(&self) -> (r: &MessageSource)
        ensures
            *r == self@.source,
    {
        &self.source
    }

    /// The quoted message id, if the message replies to one.
    pub fn quoted(&self) -> (r: Option<MessageID>)
        ensures
            r == self@.quote,
    {
        self.quote
    }

    /// The content chain.
    pub fn message_chain(&self) -> (r: &MessageChain)
        ensures
            chain_view(r@) == self@.message_chain,
    {
        &self.message_chain
    }
}

impl From<MessageContent> for Message {
    /// A one-element message around a single content element.
    fn from(single: MessageContent) -> (r: Message) {
        let mut chain: MessageChain = Vec::new();
        chain.push(single);
        Message::new(chain)
    }
}

impl vstd::std_specs::convert::FromSpecImpl<MessageContent> for Message {
    open spec fn obeys_from_spec() -> bool {
        false
    }

    open spec fn from_spec(single: MessageContent) -> Message {
        vstd::pervasive::arbitrary()
    }
}

/// Model of a [`MessageBuilder`].
#[verifier::ext_equal]
pub struct MessageBuilderV {
    pub quote: Option<MessageID>,
    pub message_chain: Seq<ContentV>,
}

/// Accumulates content and an optional quote, then freezes a [`Message`].
#[derive(Debug, Clone)]
pub struct MessageBuilder {
    quote: Option<MessageID>,
    message_chain: MessageChain,
}

impl View for MessageBuilder {
    type V = MessageBuilderV;

    closed spec fn view(&self) -> MessageBuilderV {
        MessageBuilderV { quote: self.quote, message_chain: chain_view(self.message_chain@) }
    }
}

impl MessageBuilder {
    /// An empty builder: no quote, no content.
    pub fn new() -> (r: MessageBuilder)
        ensures
            r@ == (MessageBuilderV { quote: None, message_chain: Seq::<ContentV>::empty() }),
    {
        MessageBuilder { quote: None, message_chain: Vec::new() }
    }

    /// Appends one content element to the chain.
    pub fn append_message(self, msg: MessageContent) -> (r: MessageBuilder)
        ensures
            r@ == (MessageBuilderV {
                quote: self@.quote,
                message_chain: self@.message_chain.push(msg@),
            }),
    {
        let mut this = self;
        this.message_chain.push(msg);
        this
    }

    /// Sets the quoted message id.
    pub fn quote(self, quote: MessageID) -> (r: MessageBuilder)
        ensures
            r@ == (MessageBuilderV { quote: Some(quote), message_chain: self@.message_chain }),
    {
        let mut this = self;
        this.quote = Some(quote);
        this
    }

    /// Validates and freezes the message: the chain must not be empty.
    pub fn build(self) -> (r: Result<Message, MiraiError>)
        ensures
            r is Ok <==> self@.message_chain.len() > 0,
            r is Ok ==> r->Ok_0@.message_chain.len() > 0,
            r is Ok ==> r->Ok_0@ == (MessageV {
                source: spec_local_source(),
                quote: self@.quote,
                message_chain: self@.message_chain,
            }),
            r is Err ==> r->Err_0 matches MiraiError::MessageBuildingError(_),
    {
        if self.message_chain.len() == 0 {
            Err(MiraiError::MessageBuildingError("message chain is empty"))
        } else {
            Ok(
                Message {
                    source: MessageSource { id: LOCAL_SOURCE_ID, time: LOCAL_SOURCE_TIME },
                    quote: self.quote,
                    message_chain: self.message_chain,
                },
            )
        }
    }
}

} // verus!
