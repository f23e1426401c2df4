//! Fetching messages and events: the query paths and the answer.

use vstd::prelude::*;
use vstd::string::StringExecFns;

use crate::codec::{decode_event, spec_decode_event};
use crate::error::{spec_client_error, spec_code_error, Error, SUCCESS};
use crate::json::{
    get_field, jseq_of, jval_of, lemma_jseq_of, obj_get, spec_field_u16, field_u16, JVal,
    JsonValue,
};
use crate::message::event::{EventPacket, EventPacketV};
use crate::session::Session;
use crate::text::{spec_u64_text, u64_to_string};

verus! {

/// The models of a list of packets.
pub open spec fn events_view(s: Seq<EventPacket>) -> Seq<EventPacketV> {
    s.map_values(|p: EventPacket| p@)
}

/// The fetch path for the four fetch/peek flavours: fetching consumes,
/// peeking leaves the queue alone; the newest flavours read from the
/// queue's young end.
pub open spec fn spec_get_message_path(
    key: Seq<char>,
    is_fetch: bool,
    is_newest: bool,
    count: int,
) -> Seq<char> {
    "/"@ + (if is_fetch {
        "fetch"@
    } else {
        "peek"@
    }) + (if is_newest {
        "Latest"@
    } else {
        Seq::<char>::empty()
    }) + "Message?sessionKey="@ + key + "&count="@ + spec_u64_text(count)
}

impl Session {
    /// The path of one fetch query.
    pub fn get_message_path(&self, is_fetch: bool, is_newest: bool, count: usize) -> (r: String)
        ensures
            r@ == spec_get_message_path(self@.key, is_fetch, is_newest, count as int),
    {
        let mut s = String::from_str("/");
        if is_fetch {
            s.append("fetch");
        } else {
            s.append("peek");
        }
        if is_newest {
            s.append("Latest");
        }
        s.append("Message?sessionKey=");
        s.append(self.key.as_str());
        s.append("&count=");
        let num = u64_to_string(count as u64);
        s.append(num.as_str());
        proof {
            assert(s@ =~= spec_get_message_path(self@.key, is_fetch, is_newest, count as int));
        }
        s
    }

    /// The path that takes up to `count` packets off the young end.
    pub fn fetch_newest_message_path(&self, count: usize) -> (r: String)
        ensures
            r@ == spec_get_message_path(self@.key, true, true, count as int),
    {
        self.get_message_path(true, true, count)
    }

    /// The path that takes up to `count` packets off the old end.
    pub fn fetch_message_path(&self, count: usize) -> (r: String)
        ensures
            r@ == spec_get_message_path(self@.key, true, false, count as int),
    {
        self.get_message_path(true, false, count)
    }

    /// The path that reads up to `count` packets from the young end.
    pub fn peek_newest_message_path(&self, count: usize) -> (r: String)
        ensures
            r@ == spec_get_message_path(self@.key, false, true, count as int),
    {
        self.get_message_path(false, true, count)
    }

    /// The path that reads up to `count` packets from the old end.
    pub fn peek_message_path(&self, count: usize) -> (r: String)
        ensures
            r@ == spec_get_message_path(self@.key, false, false, count as int),
    {
        self.get_message_path(false, false, count)
    }
}

/// How a fetch answer reads: a required status code, which must be zero,
/// then every packet under `data`, each decoded as
/// [`spec_decode_event`] reads it.
pub open spec fn spec_parse_events(v: JVal) -> Result<Seq<EventPacketV>, crate::error::ErrorV> {
    match v {
        JVal::Obj(o) => match spec_field_u16(o, "code"@) {
            Some(code) => if code != SUCCESS {
                Err(spec_code_error(code))
            } else {
                match obj_get(o, "data"@) {
                    Some(JVal::Arr(items)) => Ok(
                        items.map_values(|item: JVal| spec_decode_event(item)),
                    ),
                    _ => Err(spec_client_error("malformed response"@)),
                }
            },
            None => Err(spec_client_error("malformed response"@)),
        },
        _ => Err(spec_client_error("malformed response"@)),
    }
}

/// Reads a fetch answer, as [`spec_parse_events`] reads it.
pub fn parse_event_list(v: &JsonValue) -> (r: Result<Vec<EventPacket>, Error>)
    ensures
        match r {
            Ok(packets) => spec_parse_events(v@) == Ok::<Seq<EventPacketV>, crate::error::ErrorV>(
                events_view(packets@),
            ),
            Err(e) => spec_parse_events(v@) is Err && e@ == spec_parse_events(v@)->Err_0,
        },
{
    let fields = match v.as_obj() {
        Some(f) => f,
        None => {
            return Err(crate::error::client_error("malformed response"));
        },
    };
    let code = match field_u16(fields, "code") {
        Some(c) => c,
        None => {
            return Err(crate::error::client_error("malformed response"));
        },
    };
    if let Err(e) = crate::error::check_code(code, "Fetching") {
        return Err(e);
    }
    let items = match get_field(fields, "data") {
        Some(d) => match d {
            JsonValue::Arr(items) => items,
            _ => {
                return Err(crate::error::client_error("malformed response"));
            },
        },
        None => {
            return Err(crate::error::client_error("malformed response"));
        },
    };
    proof {
        lemma_jseq_of(items@);
    }
    let ghost model = jseq_of(items@);
    let ghost target = model.map_values(|item: JVal| spec_decode_event(item));
    let mut packets: Vec<EventPacket> = Vec::new();
    let mut i: usize = 0;
    while i < items.len()
        invariant
            0 <= i <= items.len(),
            model.len() == items@.len(),
            target.len() == model.len(),
            packets@.len() == i,
            forall|j: int| 0 <= j < items@.len() ==> model[j] == jval_of(#[trigger] items@[j]),
            forall|j: int| 0 <= j < model.len() ==> target[j] == spec_decode_event(
                #[trigger] model[j],
            ),
            forall|j: int| 0 <= j < i ==> (#[trigger] packets@[j])@ == target[j],
        decreases items.len() - i,
    {
        let item = items[i].clone();
        proof {
            assert(jval_of(items@[i as int]) == model[i as int]);
        }
        packets.push(decode_event(item));
        i = i + 1;
    }
    proof {
        assert forall|j: int| 0 <= j < events_view(packets@).len() implies events_view(packets@)[j]
            == target[j] by {
            assert(packets@[j]@ == target[j]);
        }
        assert(events_view(packets@) =~= target);
    }
    Ok(packets)
}

} // verus!
