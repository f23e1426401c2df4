//! Commands that fit no other family: recalling a sent message.

use vstd::prelude::*;
use vstd::string::StringExecFns;

use crate::codec::{json_int, kv};
use crate::json::{JVal, JsonValue};
use crate::message::message::MessageID;
use crate::session::Session;

verus! {

/// How a recall request encodes.
pub open spec fn spec_recall_body(key: Seq<char>, message_id: MessageID) -> JVal {
    JVal::Obj(
        seq![("sessionKey"@, JVal::Str(key)), ("target"@, JVal::Int(message_id as int))],
    )
}

impl Session {
    /// The path and body of a recall request for a sent message.
    pub fn recall_request(&self, message_id: MessageID) -> (r: (String, JsonValue))
        ensures
            r.0@ == "/recall"@,
            r.1@ == spec_recall_body(self@.key, message_id),
    {
        let fields: Vec<(String, JsonValue)> = vec![
            kv("sessionKey", JsonValue::Str(self.key.clone())),
            kv("target", json_int(message_id)),
        ];
        let body = JsonValue::Obj(fields);
        proof {
            crate::json::lemma_jobj_of(fields@);
            assert(body@ matches JVal::Obj(o) && o =~~= spec_recall_body(
                self@.key,
                message_id,
            )->Obj_0);
        }
        (String::from_str("/recall"), body)
    }
}

} // verus!
