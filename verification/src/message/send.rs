//! Sending a message: the request's path and body, and the answer.

use vstd::prelude::*;
use vstd::string::StringExecFns;

use crate::codec::{
    encode_chain, encode_opt_i64, encode_opt_u64, kv, spec_encode_chain, spec_encode_opt_i64,
    spec_encode_opt_u64,
};
use crate::error::{spec_client_error, spec_code_error, Error, SUCCESS};
use crate::json::{spec_field_i64, spec_field_u16, field_i64, field_u16, JVal, JsonValue};
use crate::message::channel::MessageChannel;
use crate::message::content::ContentV;
use crate::message::message::{Message, MessageID};
use crate::session::Session;

verus! {

/// The endpoint a channel's messages go to.
pub open spec fn spec_send_path(channel: MessageChannel) -> Seq<char> {
    match channel {
        MessageChannel::Group(_) => "/sendGroupMessage"@,
        MessageChannel::Friend(_) => "/sendFriendMessage"@,
        MessageChannel::Temp { .. } => "/sendTempMessage"@,
    }
}

/// The account and group a channel addresses, as the request carries them.
pub open spec fn spec_channel_qq(channel: MessageChannel) -> Option<u64> {
    match channel {
        MessageChannel::Group(_) => None,
        MessageChannel::Friend(friend) => Some(friend),
        MessageChannel::Temp { qq, .. } => Some(qq),
    }
}

/// The group a channel addresses, as the request carries it.
pub open spec fn spec_channel_group(channel: MessageChannel) -> Option<u64> {
    match channel {
        MessageChannel::Group(group) => Some(group),
        MessageChannel::Friend(_) => None,
        MessageChannel::Temp { group, .. } => Some(group),
    }
}

/// How a send request encodes: the session key, the channel's account and
/// group (null where the channel has none), the quote reference, and the
/// chain.
pub open spec fn spec_send_body(
    key: Seq<char>,
    channel: MessageChannel,
    quote: Option<MessageID>,
    chain: Seq<ContentV>,
) -> JVal {
    JVal::Obj(
        seq![
            ("sessionKey"@, JVal::Str(key)),
            ("qq"@, spec_encode_opt_u64(spec_channel_qq(channel))),
            ("group"@, spec_encode_opt_u64(spec_channel_group(channel))),
            ("quote"@, spec_encode_opt_i64(quote)),
            ("messageChain"@, JVal::Arr(spec_encode_chain(chain))),
        ],
    )
}

impl Session {
    /// The path and body of sending a message to a channel.
    pub fn send_message_request(&self, channel: MessageChannel, message: &Message) -> (r: (
        String,
        JsonValue,
    ))
        ensures
            r.0@ == spec_send_path(channel),
            r.1@ == spec_send_body(
                self@.key,
                channel,
                message@.quote,
                message@.message_chain,
            ),
    {
        let path: String = match channel {
            MessageChannel::Group(_) => String::from_str("/sendGroupMessage"),
            MessageChannel::Friend(_) => String::from_str("/sendFriendMessage"),
            MessageChannel::Temp { .. } => String::from_str("/sendTempMessage"),
        };
        let qq: Option<u64> = match channel {
            MessageChannel::Group(_) => None,
            MessageChannel::Friend(friend) => Some(friend),
            MessageChannel::Temp { qq, .. } => Some(qq),
        };
        let group: Option<u64> = match channel {
            MessageChannel::Group(group) => Some(group),
            MessageChannel::Friend(_) => None,
            MessageChannel::Temp { group, .. } => Some(group),
        };
        let chain_items = encode_chain(&message.message_chain);
        let fields: Vec<(String, JsonValue)> = vec![
            kv("sessionKey", JsonValue::Str(self.key.clone())),
            kv("qq", encode_opt_u64(qq)),
            kv("group", encode_opt_u64(group)),
            kv("quote", encode_opt_i64(message.quote)),
            kv("messageChain", JsonValue::Arr(chain_items)),
        ];
        let body = JsonValue::Obj(fields);
        proof {
            crate::json::lemma_jobj_of(fields@);
            assert(body@ matches JVal::Obj(o) && o =~~= spec_send_body(
                self@.key,
                channel,
                message@.quote,
                message@.message_chain,
            )->Obj_0);
        }
        (path, body)
    }
}

/// How a send answer reads: a required status code; when it is zero the
/// answer must carry the new message's id.
pub open spec fn spec_parse_send(v: JVal) -> Result<MessageID, crate::error::ErrorV> {
    match v {
        JVal::Obj(o) => match spec_field_u16(o, "code"@) {
            Some(code) => if code != SUCCESS {
                Err(spec_code_error(code))
            } else {
                match spec_field_i64(o, "messageId"@) {
                    Some(id) => Ok(id),
                    None => Err(spec_client_error("messageId is None"@)),
                }
            },
            None => Err(spec_client_error("malformed response"@)),
        },
        _ => Err(spec_client_error("malformed response"@)),
    }
}

/// Reads a send answer, as [`spec_parse_send`] reads it.
pub fn parse_send_response(v: &JsonValue) -> (r: Result<MessageID, Error>)
    ensures
        match r {
            Ok(id) => spec_parse_send(v@) == Ok::<MessageID, crate::error::ErrorV>(id),
            Err(e) => spec_parse_send(v@) is Err && e@ == spec_parse_send(v@)->Err_0,
        },
{
    let fields = match v.as_obj() {
        Some(f) => f,
        None => {
            return Err(crate::error::client_error("malformed response"));
        },
    };
    let code = match field_u16(fields, "code") {
        Some(c) => c,
        None => {
            return Err(crate::error::client_error("malformed response"));
        },
    };
    if let Err(e) = crate::error::check_code(code, "Sending") {
        return Err(e);
    }
    match field_i64(fields, "messageId") {
        Some(id) => Ok(id),
        None => Err(crate::error::client_error("messageId is None")),
    }
}

} // verus!
