//! The wire codec: between message values and JSON trees.
//!
//! Encoding follows the gateway's tagged-union convention: every element is
//! an object whose `type` field names its shape. Decoding is its tolerant
//! inverse: an unknown tag yields `Unsupported` instead of failing, while a
//! known tag with missing or ill-shaped fields is an error. The round-trip
//! laws at the end state that decoding inverts encoding exactly.

use vstd::prelude::*;
use vstd::string::StringExecFns;

use crate::json::{
    get_field, jobj_of, jseq_of, jval_of, lemma_jobj_of, lemma_jseq_of, obj_get, spec_field_bool,
    spec_field_i64, spec_field_opt_i32, spec_field_opt_str, spec_field_str, spec_field_u32,
    spec_field_u64, field_bool, field_i64, field_opt_i32, field_opt_string, field_string,
    field_u32, field_u64, string_eq_str, JVal, JsonValue,
};
use crate::message::content::{opt_str_view, ContentV, MessageContent};
use crate::message::message::{chain_view, Message, MessageID, MessageV};
use crate::message::meta_msg::{MessageMeta, MessageSource};
use crate::message::element::{
    FriendMember, FriendMemberV, Group, GroupMember, GroupMemberV, GroupV, Permission,
};
use crate::message::event::{
    BotLoginEvent, BotLoginEventKind, BotMuteEvent, BotMuteEventV, ChangeType, ChangeTypeV,
    EventPacket, EventPacketV, GroupChangeEvent, GroupChangeEventKind, GroupChangeEventV,
    MessageEvent, MessageEventV, MessagePackage, MessagePackageV, RecallEvent, RecallEventV,
};
use crate::message::single::{single_view, singles_view, SingleMessage, SingleV};

verus! {

/// One key/value pair of a JSON object under construction.
pub(crate) fn kv(key: &str, v: JsonValue) -> (r: (String, JsonValue))
    ensures
        r.0@ == key@,
        r.1 == v,
{
    (key.to_owned(), v)
}

/// A JSON number from a signed integer, canonically unsigned when it can be.
pub(crate) fn json_int(n: i64) -> (r: JsonValue)
    ensures
        r@ == JVal::Int(n as int),
{
    if n >= 0 {
        JsonValue::UInt(n as u64)
    } else {
        JsonValue::Int(n)
    }
}

/// A JSON number from an unsigned integer.
pub(crate) fn json_uint(n: u64) -> (r: JsonValue)
    ensures
        r@ == JVal::Int(n as int),
{
    JsonValue::UInt(n)
}

/// How an optional string encodes: the string, or null.
pub open spec fn spec_encode_opt_str(o: Option<Seq<char>>) -> JVal {
    match o {
        Some(s) => JVal::Str(s),
        None => JVal::Null,
    }
}

pub(crate) fn encode_opt_str(o: &Option<String>) -> (r: JsonValue)
    ensures
        r@ == spec_encode_opt_str(opt_str_view(*o)),
{
    match o {
        Some(s) => JsonValue::Str(s.clone()),
        None => JsonValue::Null,
    }
}

/// How an optional 32-bit integer encodes: the number, or null.
pub open spec fn spec_encode_opt_i32(o: Option<i32>) -> JVal {
    match o {
        Some(n) => JVal::Int(n as int),
        None => JVal::Null,
    }
}

pub(crate) fn encode_opt_i32(o: &Option<i32>) -> (r: JsonValue)
    ensures
        r@ == spec_encode_opt_i32(*o),
{
    match o {
        Some(n) => json_int(*n as i64),
        None => JsonValue::Null,
    }
}

/// How an optional unsigned integer encodes: the number, or null.
pub open spec fn spec_encode_opt_u64(o: Option<u64>) -> JVal {
    match o {
        Some(n) => JVal::Int(n as int),
        None => JVal::Null,
    }
}

pub(crate) fn encode_opt_u64(o: Option<u64>) -> (r: JsonValue)
    ensures
        r@ == spec_encode_opt_u64(o),
{
    match o {
        Some(n) => JsonValue::UInt(n),
        None => JsonValue::Null,
    }
}

/// How an optional signed integer encodes: the number, or null.
pub open spec fn spec_encode_opt_i64(o: Option<i64>) -> JVal {
    match o {
        Some(n) => JVal::Int(n as int),
        None => JVal::Null,
    }
}

pub(crate) fn encode_opt_i64(o: Option<i64>) -> (r: JsonValue)
    ensures
        r@ == spec_encode_opt_i64(o),
{
    match o {
        Some(n) => json_int(n),
        None => JsonValue::Null,
    }
}

/// How a content element encodes: one object per shape, tagged by `type`.
pub open spec fn spec_encode_content(m: ContentV) -> JVal {
    match m {
        ContentV::Plain { text } => JVal::Obj(
            seq![("type"@, JVal::Str("Plain"@)), ("text"@, JVal::Str(text))],
        ),
        ContentV::At { target, display } => JVal::Obj(
            seq![
                ("type"@, JVal::Str("At"@)),
                ("target"@, JVal::Int(target as int)),
                ("display"@, JVal::Str(display)),
            ],
        ),
        ContentV::AtAll => JVal::Obj(seq![("type"@, JVal::Str("AtAll"@))]),
        ContentV::Face { face_id, name } => JVal::Obj(
            seq![
                ("type"@, JVal::Str("Face"@)),
                ("faceId"@, spec_encode_opt_i32(face_id)),
                ("name"@, spec_encode_opt_str(name)),
            ],
        ),
        ContentV::Image { image_id, url, path } => JVal::Obj(
            seq![
                ("type"@, JVal::Str("Image"@)),
                ("imageId"@, spec_encode_opt_str(image_id)),
                ("url"@, spec_encode_opt_str(url)),
                ("path"@, spec_encode_opt_str(path)),
            ],
        ),
        ContentV::FlashImage { image_id, url, path } => JVal::Obj(
            seq![
                ("type"@, JVal::Str("FlashImage"@)),
                ("imageId"@, spec_encode_opt_str(image_id)),
                ("url"@, spec_encode_opt_str(url)),
                ("path"@, spec_encode_opt_str(path)),
            ],
        ),
        ContentV::Xml { xml } => JVal::Obj(
            seq![("type"@, JVal::Str("Xml"@)), ("xml"@, JVal::Str(xml))],
        ),
        ContentV::Json { json } => JVal::Obj(
            seq![("type"@, JVal::Str("Json"@)), ("json"@, JVal::Str(json))],
        ),
        ContentV::App { content } => JVal::Obj(
            seq![("type"@, JVal::Str("App"@)), ("content"@, JVal::Str(content))],
        ),
        ContentV::Poke { name } => JVal::Obj(
            seq![("type"@, JVal::Str("Poke"@)), ("name"@, JVal::Str(name))],
        ),
        ContentV::Unsupported => JVal::Obj(seq![("type"@, JVal::Str("Unsupported"@))]),
    }
}

/// Encodes one content element.
pub fn encode_content(m: &MessageContent) -> (r: JsonValue)
    ensures
        r@ == spec_encode_content(m@),
{
    let fields: Vec<(String, JsonValue)> = match m {
        MessageContent::Plain { text } => vec![
            kv("type", JsonValue::Str(String::from_str("Plain"))),
            kv("text", JsonValue::Str(text.clone())),
        ],
        MessageContent::At { target, display } => vec![
            kv("type", JsonValue::Str(String::from_str("At"))),
            kv("target", json_uint(*target)),
            kv("display", JsonValue::Str(display.clone())),
        ],
        MessageContent::AtAll => vec![kv("type", JsonValue::Str(String::from_str("AtAll")))],
        MessageContent::Face { face_id, name } => vec![
            kv("type", JsonValue::Str(String::from_str("Face"))),
            kv("faceId", encode_opt_i32(face_id)),
            kv("name", encode_opt_str(name)),
        ],
        MessageContent::Image { image_id, url, path } => vec![
            kv("type", JsonValue::Str(String::from_str("Image"))),
            kv("imageId", encode_opt_str(image_id)),
            kv("url", encode_opt_str(url)),
            kv("path", encode_opt_str(path)),
        ],
        MessageContent::FlashImage { image_id, url, path } => vec![
            kv("type", JsonValue::Str(String::from_str("FlashImage"))),
            kv("imageId", encode_opt_str(image_id)),
            kv("url", encode_opt_str(url)),
            kv("path", encode_opt_str(path)),
        ],
        MessageContent::Xml { xml } => vec![
            kv("type", JsonValue::Str(String::from_str("Xml"))),
            kv("xml", JsonValue::Str(xml.clone())),
        ],
        MessageContent::Json { json } => vec![
            kv("type", JsonValue::Str(String::from_str("Json"))),
            kv("json", JsonValue::Str(json.clone())),
        ],
        MessageContent::App { content } => vec![
            kv("type", JsonValue::Str(String::from_str("App"))),
            kv("content", JsonValue::Str(content.clone())),
        ],
        MessageContent::Poke { name } => vec![
            kv("type", JsonValue::Str(String::from_str("Poke"))),
            kv("name", JsonValue::Str(name.clone())),
        ],
        MessageContent::Unsupported => vec![
            kv("type", JsonValue::Str(String::from_str("Unsupported"))),
        ],
    };
    let r = JsonValue::Obj(fields);
    proof {
        lemma_jobj_of(fields@);
        assert(r@ matches JVal::Obj(o) && o =~~= spec_encode_content(m@)->Obj_0);
    }
    r
}

/// How a metadata element encodes.
pub open spec fn spec_encode_meta(m: MessageMeta) -> JVal {
    match m {
        MessageMeta::Source(src) => JVal::Obj(
            seq![
                ("type"@, JVal::Str("Source"@)),
                ("id"@, JVal::Int(src.id as int)),
                ("time"@, JVal::Int(src.time as int)),
            ],
        ),
        MessageMeta::Quote { id } => JVal::Obj(
            seq![("type"@, JVal::Str("Quote"@)), ("id"@, JVal::Int(id as int))],
        ),
    }
}

/// Encodes one metadata element.
pub fn encode_meta(m: &MessageMeta) -> (r: JsonValue)
    ensures
        r@ == spec_encode_meta(*m),
{
    let fields: Vec<(String, JsonValue)> = match m {
        MessageMeta::Source(src) => vec![
            kv("type", JsonValue::Str(String::from_str("Source"))),
            kv("id", json_int(src.id)),
            kv("time", json_uint(src.time)),
        ],
        MessageMeta::Quote { id } => vec![
            kv("type", JsonValue::Str(String::from_str("Quote"))),
            kv("id", json_int(*id)),
        ],
    };
    let r = JsonValue::Obj(fields);
    proof {
        lemma_jobj_of(fields@);
        assert(r@ matches JVal::Obj(o) && o =~~= spec_encode_meta(*m)->Obj_0);
    }
    r
}

/// How a value decodes as a content element: an object with a string tag;
/// a known tag demands its fields, an unknown one is `Unsupported`.
pub open spec fn spec_decode_content(v: JVal) -> Option<ContentV> {
    match v {
        JVal::Obj(o) => match spec_field_str(o, "type"@) {
            Some(tag) => if tag == "Plain"@ {
                match spec_field_str(o, "text"@) {
                    Some(text) => Some(ContentV::Plain { text }),
                    None => None,
                }
            } else if tag == "At"@ {
                match (spec_field_u64(o, "target"@), spec_field_str(o, "display"@)) {
                    (Some(target), Some(display)) => Some(ContentV::At { target, display }),
                    _ => None,
                }
            } else if tag == "AtAll"@ {
                Some(ContentV::AtAll)
            } else if tag == "Face"@ {
                match (spec_field_opt_i32(o, "faceId"@), spec_field_opt_str(o, "name"@)) {
                    (Some(face_id), Some(name)) => Some(ContentV::Face { face_id, name }),
                    _ => None,
                }
            } else if tag == "Image"@ {
                match (
                    spec_field_opt_str(o, "imageId"@),
                    spec_field_opt_str(o, "url"@),
                    spec_field_opt_str(o, "path"@),
                ) {
                    (Some(image_id), Some(url), Some(path)) => Some(
                        ContentV::Image { image_id, url, path },
                    ),
                    _ => None,
                }
            } else if tag == "FlashImage"@ {
                match (
                    spec_field_opt_str(o, "imageId"@),
                    spec_field_opt_str(o, "url"@),
                    spec_field_opt_str(o, "path"@),
                ) {
                    (Some(image_id), Some(url), Some(path)) => Some(
                        ContentV::FlashImage { image_id, url, path },
                    ),
                    _ => None,
                }
            } else if tag == "Xml"@ {
                match spec_field_str(o, "xml"@) {
                    Some(xml) => Some(ContentV::Xml { xml }),
                    None => None,
                }
            } else if tag == "Json"@ {
                match spec_field_str(o, "json"@) {
                    Some(json) => Some(ContentV::Json { json }),
                    None => None,
                }
            } else if tag == "App"@ {
                match spec_field_str(o, "content"@) {
                    Some(content) => Some(ContentV::App { content }),
                    None => None,
                }
            } else if tag == "Poke"@ {
                match spec_field_str(o, "name"@) {
                    Some(name) => Some(ContentV::Poke { name }),
                    None => None,
                }
            } else {
                Some(ContentV::Unsupported)
            },
            None => None,
        },
        _ => None,
    }
}

/// Decodes one content element, as [`spec_decode_content`] reads it.
pub fn decode_content(v: &JsonValue) -> (r: Option<MessageContent>)
    ensures
        match r {
            Some(m) => spec_decode_content(v@) == Some(m@),
            None => spec_decode_content(v@) is None,
        },
{
    let fields = match v.as_obj() {
        Some(f) => f,
        None => {
            return None;
        },
    };
    let tag = match field_string(fields, "type") {
        Some(t) => t,
        None => {
            return None;
        },
    };
    if string_eq_str(&tag, "Plain") {
        match field_string(fields, "text") {
            Some(text) => Some(MessageContent::Plain { text }),
            None => None,
        }
    } else if string_eq_str(&tag, "At") {
        match (field_u64(fields, "target"), field_string(fields, "display")) {
            (Some(target), Some(display)) => Some(MessageContent::At { target, display }),
            _ => None,
        }
    } else if string_eq_str(&tag, "AtAll") {
        Some(MessageContent::AtAll)
    } else if string_eq_str(&tag, "Face") {
        match (field_opt_i32(fields, "faceId"), field_opt_string(fields, "name")) {
            (Some(face_id), Some(name)) => Some(MessageContent::Face { face_id, name }),
            _ => None,
        }
    } else if string_eq_str(&tag, "Image") {
        match (
            field_opt_string(fields, "imageId"),
            field_opt_string(fields, "url"),
            field_opt_string(fields, "path"),
        ) {
            (Some(image_id), Some(url), Some(path)) => Some(
                MessageContent::Image { image_id, url, path },
            ),
            _ => None,
        }
    } else if string_eq_str(&tag, "FlashImage") {
        match (
            field_opt_string(fields, "imageId"),
            field_opt_string(fields, "url"),
            field_opt_string(fields, "path"),
        ) {
            (Some(image_id), Some(url), Some(path)) => Some(
                MessageContent::FlashImage { image_id, url, path },
            ),
            _ => None,
        }
    } else if string_eq_str(&tag, "Xml") {
        match field_string(fields, "xml") {
            Some(xml) => Some(MessageContent::Xml { xml }),
            None => None,
        }
    } else if string_eq_str(&tag, "Json") {
        match field_string(fields, "json") {
            Some(json) => Some(MessageContent::Json { json }),
            None => None,
        }
    } else if string_eq_str(&tag, "App") {
        match field_string(fields, "content") {
            Some(content) => Some(MessageContent::App { content }),
            None => None,
        }
    } else if string_eq_str(&tag, "Poke") {
        match field_string(fields, "name") {
            Some(name) => Some(MessageContent::Poke { name }),
            None => None,
        }
    } else {
        Some(MessageContent::Unsupported)
    }
}

/// How a value decodes as a metadata element: only the `Source` and
/// `Quote` tags, with their required fields.
pub open spec fn spec_decode_meta(v: JVal) -> Option<MessageMeta> {
    match v {
        JVal::Obj(o) => match spec_field_str(o, "type"@) {
            Some(tag) => if tag == "Source"@ {
                match (spec_field_i64(o, "id"@), spec_field_u64(o, "time"@)) {
                    (Some(id), Some(time)) => Some(
                        MessageMeta::Source(MessageSource { id, time }),
                    ),
                    _ => None,
                }
            } else if tag == "Quote"@ {
                match spec_field_i64(o, "id"@) {
                    Some(id) => Some(MessageMeta::Quote { id }),
                    None => None,
                }
            } else {
                None
            },
            None => None,
        },
        _ => None,
    }
}

/// Decodes one metadata element, as [`spec_decode_meta`] reads it.
pub fn decode_meta(v: &JsonValue) -> (r: Option<MessageMeta>)
    ensures
        r == spec_decode_meta(v@),
{
    let fields = match v.as_obj() {
        Some(f) => f,
        None => {
            return None;
        },
    };
    let tag = match field_string(fields, "type") {
        Some(t) => t,
        None => {
            return None;
        },
    };
    if string_eq_str(&tag, "Source") {
        match (field_i64(fields, "id"), field_u64(fields, "time")) {
            (Some(id), Some(time)) => Some(MessageMeta::Source(MessageSource { id, time })),
            _ => None,
        }
    } else if string_eq_str(&tag, "Quote") {
        match field_i64(fields, "id") {
            Some(id) => Some(MessageMeta::Quote { id }),
            None => None,
        }
    } else {
        None
    }
}

/// How a chain encodes, elementwise.
pub open spec fn spec_encode_chain(chain: Seq<ContentV>) -> Seq<JVal> {
    chain.map_values(|c: ContentV| spec_encode_content(c))
}

/// How a whole message encodes: an array opening with the source stamp,
/// then the quote reference if there is one, then the chain in order.
pub open spec fn spec_encode_message(m: MessageV) -> JVal {
    JVal::Arr(
        seq![spec_encode_meta(MessageMeta::Source(m.source))] + (match m.quote {
            Some(id) => seq![spec_encode_meta(MessageMeta::Quote { id })],
            None => Seq::<JVal>::empty(),
        }) + spec_encode_chain(m.message_chain),
    )
}

/// Encodes a whole message.
pub fn encode_message(m: &Message) -> (r: JsonValue)
    ensures
        r@ == spec_encode_message(m@),
{
    let ghost target: Seq<JVal> = spec_encode_message(m@)->Arr_0;
    let mut items: Vec<JsonValue> = Vec::new();
    items.push(encode_meta(&MessageMeta::Source(m.source)));
    if let Some(id) = m.quote {
        items.push(encode_meta(&MessageMeta::Quote { id }));
    }
    let base = items.len();
    let ghost enc_chain = spec_encode_chain(m@.message_chain);
    proof {
        assert(forall|j: int| 0 <= j < base ==> jval_of(#[trigger] items@[j]) == target[j]);
    }
    let mut i: usize = 0;
    while i < m.message_chain.len()
        invariant
            0 <= i <= m.message_chain.len(),
            base == 1 + (if m@.quote is Some { 1int } else { 0int }),
            items@.len() == base + i,
            target.len() == base + m.message_chain@.len(),
            enc_chain == spec_encode_chain(m@.message_chain),
            m@.message_chain == chain_view(m.message_chain@),
            forall|j: int| 0 <= j < base + i ==> jval_of(#[trigger] items@[j]) == target[j],
            forall|j: int| 0 <= j < m.message_chain@.len() ==> target[base + j] == enc_chain[j],
        decreases m.message_chain.len() - i,
    {
        let enc = encode_content(&m.message_chain[i]);
        items.push(enc);
        proof {
            assert(m@.message_chain[i as int] == m.message_chain@[i as int]@);
            assert(enc_chain[i as int] == spec_encode_content(m@.message_chain[i as int]));
            assert(target[base + i] == spec_encode_content(m.message_chain@[i as int]@));
        }
        i = i + 1;
    }
    let r = JsonValue::Arr(items);
    proof {
        lemma_jseq_of(items@);
        assert forall|j: int| 0 <= j < jseq_of(items@).len() implies jseq_of(items@)[j]
            == target[j] by {
            assert(jval_of(items@[j]) == target[j]);
        }
        assert(jseq_of(items@) =~= target);
    }
    r
}

/// Encodes a chain of content elements, in order.
pub fn encode_chain(chain: &Vec<MessageContent>) -> (r: Vec<JsonValue>)
    ensures
        jseq_of(r@) == spec_encode_chain(chain_view(chain@)),
{
    let ghost target = spec_encode_chain(chain_view(chain@));
    let mut items: Vec<JsonValue> = Vec::new();
    let mut i: usize = 0;
    while i < chain.len()
        invariant
            0 <= i <= chain.len(),
            target == spec_encode_chain(chain_view(chain@)),
            target.len() == chain@.len(),
            items@.len() == i,
            forall|j: int| 0 <= j < chain@.len() ==> target[j] == spec_encode_content(
                (#[trigger] chain@[j])@,
            ),
            forall|j: int| 0 <= j < i ==> jval_of(#[trigger] items@[j]) == target[j],
        decreases chain.len() - i,
    {
        let enc = encode_content(&chain[i]);
        items.push(enc);
        i = i + 1;
    }
    proof {
        lemma_jseq_of(items@);
        assert forall|j: int| 0 <= j < jseq_of(items@).len() implies jseq_of(items@)[j]
            == target[j] by {
            assert(jval_of(items@[j]) == target[j]);
        }
        assert(jseq_of(items@) =~= target);
    }
    items
}

/// How an item list folds into a message: metadata updates the source and
/// quote (the last of each wins), content is appended in order, anything
/// that is neither is an error, and a message without a source is too.
pub open spec fn spec_decode_items(
    items: Seq<JVal>,
    source: Option<MessageSource>,
    quote: Option<MessageID>,
    chain: Seq<ContentV>,
) -> Option<MessageV>
    decreases items.len(),
{
    if items.len() == 0 {
        match source {
            Some(src) => Some(MessageV { source: src, quote, message_chain: chain }),
            None => None,
        }
    } else {
        match spec_decode_meta(items[0]) {
            Some(MessageMeta::Source(src)) => spec_decode_items(
                items.subrange(1, items.len() as int),
                Some(src),
                quote,
                chain,
            ),
            Some(MessageMeta::Quote { id }) => spec_decode_items(
                items.subrange(1, items.len() as int),
                source,
                Some(id),
                chain,
            ),
            None => match spec_decode_content(items[0]) {
                Some(c) => spec_decode_items(
                    items.subrange(1, items.len() as int),
                    source,
                    quote,
                    chain.push(c),
                ),
                None => None,
            },
        }
    }
}

/// How a value decodes as a whole message: an array folded by
/// [`spec_decode_items`] from an empty state.
pub open spec fn spec_decode_message(v: JVal) -> Option<MessageV> {
    match v {
        JVal::Arr(items) => spec_decode_items(items, None, None, Seq::empty()),
        _ => None,
    }
}

/// Decodes a whole message, as [`spec_decode_message`] reads it.
pub fn decode_message(v: &JsonValue) -> (r: Option<Message>)
    ensures
        match r {
            Some(m) => spec_decode_message(v@) == Some(m@),
            None => spec_decode_message(v@) is None,
        },
{
    let items = match v.as_arr() {
        Some(a) => a,
        None => {
            return None;
        },
    };
    proof {
        lemma_jseq_of(items@);
    }
    let ghost model = jseq_of(items@);
    let ghost whole = spec_decode_items(model, None, None, Seq::empty());
    proof {
        assert(model.subrange(0, model.len() as int) =~= model);
    }
    let mut source: Option<MessageSource> = None;
    proof {
        assert(chain_view(Seq::<MessageContent>::empty()) =~= Seq::<ContentV>::empty());
    }
    let mut quote: Option<MessageID> = None;
    let mut chain: Vec<MessageContent> = Vec::new();
    let mut i: usize = 0;
    while i < items.len()
        invariant
            0 <= i <= items.len(),
            model == jseq_of(items@),
            model.len() == items@.len(),
            v@ == JVal::Arr(model),
            whole == spec_decode_items(model, None, None, Seq::empty()),
            forall|j: int| 0 <= j < items@.len() ==> model[j] == jval_of(#[trigger] items@[j]),
            whole == spec_decode_items(
                model.subrange(i as int, model.len() as int),
                source,
                quote,
                chain_view(chain@),
            ),
        decreases items.len() - i,
    {
        let ghost rest = model.subrange(i as int, model.len() as int);
        proof {
            assert(rest[0] == model[i as int]);
            assert(model[i as int] == jval_of(items@[i as int]));
            assert(rest.subrange(1, rest.len() as int) =~= model.subrange(
                i as int + 1,
                model.len() as int,
            ));
        }
        let ghost chain_before = chain_view(chain@);
        match decode_meta(&items[i]) {
            Some(MessageMeta::Source(src)) => {
                source = Some(src);
            },
            Some(MessageMeta::Quote { id }) => {
                quote = Some(id);
            },
            None => {
                match decode_content(&items[i]) {
                    Some(c) => {
                        chain.push(c);
                        proof {
                            assert(chain_view(chain@) =~= chain_before.push(c@));
                        }
                    },
                    None => {
                        proof {
                            assert(spec_decode_items(rest, source, quote, chain_before) is None);
                            assert(whole is None);
                            assert(v@ == JVal::Arr(model));
                            assert(spec_decode_message(v@) == whole);
                        }
                        return None;
                    },
                }
            },
        }
        i = i + 1;
    }
    proof {
        assert(model.subrange(i as int, model.len() as int) =~= Seq::empty());
    }
    match source {
        Some(src) => Some(Message { source: src, quote, message_chain: chain }),
        None => None,
    }
}

/// Looking a key up in an object finds the first pair that carries it.
pub proof fn lemma_obj_get_at(o: Seq<(Seq<char>, JVal)>, k: Seq<char>, idx: int)
    requires
        0 <= idx < o.len(),
        o[idx].0 == k,
        forall|j: int| 0 <= j < idx ==> (#[trigger] o[j]).0 != k,
    ensures
        obj_get(o, k) == Some(o[idx].1),
    decreases idx,
{
    if idx > 0 {
        let sub = o.subrange(1, o.len() as int);
        assert(forall|j: int| 0 <= j < idx - 1 ==> (#[trigger] sub[j]).0 != k);
        lemma_obj_get_at(sub, k, idx - 1);
    }
}

/// Decoding inverts encoding for every content element.
pub proof fn lemma_content_round_trip(m: ContentV)
    ensures
        spec_decode_content(spec_encode_content(m)) == Some(m),
{
    reveal_strlit("type");
    reveal_strlit("text");
    reveal_strlit("target");
    reveal_strlit("display");
    reveal_strlit("faceId");
    reveal_strlit("name");
    reveal_strlit("imageId");
    reveal_strlit("url");
    reveal_strlit("path");
    reveal_strlit("xml");
    reveal_strlit("json");
    reveal_strlit("content");
    reveal_strlit("Plain");
    reveal_strlit("At");
    reveal_strlit("AtAll");
    reveal_strlit("Face");
    reveal_strlit("Image");
    reveal_strlit("FlashImage");
    reveal_strlit("Xml");
    reveal_strlit("Json");
    reveal_strlit("App");
    reveal_strlit("Poke");
    reveal_strlit("Unsupported");
    assert("type"@.len() == 4 && "type"@[0] == 't' && "type"@[1] == 'y');
    assert("text"@.len() == 4 && "text"@[1] == 'e');
    assert("target"@.len() == 6);
    assert("display"@.len() == 7);
    assert("faceId"@.len() == 6);
    assert("name"@.len() == 4 && "name"@[0] == 'n');
    assert("imageId"@.len() == 7);
    assert("url"@.len() == 3);
    assert("path"@.len() == 4 && "path"@[0] == 'p');
    assert("xml"@.len() == 3);
    assert("json"@.len() == 4 && "json"@[0] == 'j');
    assert("content"@.len() == 7);
    assert("Plain"@.len() == 5 && "Plain"@[0] == 'P');
    assert("At"@.len() == 2);
    assert("AtAll"@.len() == 5 && "AtAll"@[0] == 'A');
    assert("Face"@.len() == 4 && "Face"@[0] == 'F');
    assert("Image"@.len() == 5 && "Image"@[0] == 'I');
    assert("FlashImage"@.len() == 10);
    assert("Xml"@.len() == 3 && "Xml"@[0] == 'X');
    assert("Json"@.len() == 4 && "Json"@[0] == 'J');
    assert("App"@.len() == 3 && "App"@[0] == 'A');
    assert("Poke"@.len() == 4 && "Poke"@[0] == 'P');
    assert("Unsupported"@.len() == 11);
    let o = spec_encode_content(m)->Obj_0;
    lemma_obj_get_at(o, "type"@, 0);
    match m {
        ContentV::Plain { text } => {
            lemma_obj_get_at(o, "text"@, 1);
        },
        ContentV::At { target, display } => {
            lemma_obj_get_at(o, "target"@, 1);
            lemma_obj_get_at(o, "display"@, 2);
        },
        ContentV::AtAll => {},
        ContentV::Face { face_id, name } => {
            lemma_obj_get_at(o, "faceId"@, 1);
            lemma_obj_get_at(o, "name"@, 2);
        },
        ContentV::Image { image_id, url, path } => {
            lemma_obj_get_at(o, "imageId"@, 1);
            lemma_obj_get_at(o, "url"@, 2);
            lemma_obj_get_at(o, "path"@, 3);
        },
        ContentV::FlashImage { image_id, url, path } => {
            lemma_obj_get_at(o, "imageId"@, 1);
            lemma_obj_get_at(o, "url"@, 2);
            lemma_obj_get_at(o, "path"@, 3);
        },
        ContentV::Xml { xml } => {
            lemma_obj_get_at(o, "xml"@, 1);
        },
        ContentV::Json { json } => {
            lemma_obj_get_at(o, "json"@, 1);
        },
        ContentV::App { content } => {
            lemma_obj_get_at(o, "content"@, 1);
        },
        ContentV::Poke { name } => {
            lemma_obj_get_at(o, "name"@, 1);
        },
        ContentV::Unsupported => {},
    }
}

/// Decoding inverts encoding for every metadata element.
pub proof fn lemma_meta_round_trip(m: MessageMeta)
    ensures
        spec_decode_meta(spec_encode_meta(m)) == Some(m),
{
    reveal_strlit("type");
    reveal_strlit("id");
    reveal_strlit("time");
    reveal_strlit("Source");
    reveal_strlit("Quote");
    assert("type"@.len() == 4 && "type"@[1] == 'y');
    assert("id"@.len() == 2);
    assert("time"@.len() == 4 && "time"@[1] == 'i');
    assert("Source"@.len() == 6);
    assert("Quote"@.len() == 5);
    let o = spec_encode_meta(m)->Obj_0;
    lemma_obj_get_at(o, "type"@, 0);
    match m {
        MessageMeta::Source(src) => {
            lemma_obj_get_at(o, "id"@, 1);
            lemma_obj_get_at(o, "time"@, 2);
        },
        MessageMeta::Quote { id } => {
            lemma_obj_get_at(o, "id"@, 1);
        },
    }
}

/// An encoded content element never reads as metadata: its tag is neither
/// `Source` nor `Quote`.
pub proof fn lemma_encoded_content_not_meta(m: ContentV)
    ensures
        spec_decode_meta(spec_encode_content(m)) is None,
{
    reveal_strlit("type");
    reveal_strlit("Source");
    reveal_strlit("Quote");
    reveal_strlit("Plain");
    reveal_strlit("At");
    reveal_strlit("AtAll");
    reveal_strlit("Face");
    reveal_strlit("Image");
    reveal_strlit("FlashImage");
    reveal_strlit("Xml");
    reveal_strlit("Json");
    reveal_strlit("App");
    reveal_strlit("Poke");
    reveal_strlit("Unsupported");
    assert("Source"@.len() == 6);
    assert("Quote"@.len() == 5 && "Quote"@[0] == 'Q');
    assert("Plain"@.len() == 5 && "Plain"@[0] == 'P');
    assert("At"@.len() == 2);
    assert("AtAll"@.len() == 5 && "AtAll"@[0] == 'A');
    assert("Face"@.len() == 4);
    assert("Image"@.len() == 5 && "Image"@[0] == 'I');
    assert("FlashImage"@.len() == 10);
    assert("Xml"@.len() == 3);
    assert("Json"@.len() == 4);
    assert("App"@.len() == 3);
    assert("Poke"@.len() == 4);
    assert("Unsupported"@.len() == 11);
    let o = spec_encode_content(m)->Obj_0;
    lemma_obj_get_at(o, "type"@, 0);
}

/// Folding the encoded chain appends exactly its elements to the state.
proof fn lemma_decode_encoded_chain(
    chain: Seq<ContentV>,
    src: MessageSource,
    quote: Option<MessageID>,
    acc: Seq<ContentV>,
)
    ensures
        spec_decode_items(spec_encode_chain(chain), Some(src), quote, acc) == Some(
            MessageV { source: src, quote, message_chain: acc + chain },
        ),
    decreases chain.len(),
{
    let items = spec_encode_chain(chain);
    if chain.len() == 0 {
        assert(items.len() == 0);
        assert(acc + chain =~= acc);
    } else {
        assert(items[0] == spec_encode_content(chain[0]));
        lemma_encoded_content_not_meta(chain[0]);
        lemma_content_round_trip(chain[0]);
        let tail = chain.subrange(1, chain.len() as int);
        assert(items.subrange(1, items.len() as int) =~= spec_encode_chain(tail));
        lemma_decode_encoded_chain(tail, src, quote, acc.push(chain[0]));
        assert(acc.push(chain[0]) + tail =~= acc + chain);
    }
}

/// Decoding inverts encoding for every whole message: the source stamp,
/// the quote reference and the chain all come back unchanged.
pub proof fn lemma_message_round_trip(m: MessageV)
    ensures
        spec_decode_message(spec_encode_message(m)) == Some(m),
{
    reveal_with_fuel(spec_decode_items, 3);
    let items = spec_encode_message(m)->Arr_0;
    let enc_chain = spec_encode_chain(m.message_chain);
    lemma_meta_round_trip(MessageMeta::Source(m.source));
    assert(items[0] == spec_encode_meta(MessageMeta::Source(m.source)));
    match m.quote {
        Some(id) => {
            lemma_meta_round_trip(MessageMeta::Quote { id });
            assert(items[1] == spec_encode_meta(MessageMeta::Quote { id }));
            assert(items.subrange(1, items.len() as int).subrange(
                1,
                items.len() as int - 1,
            ) =~= enc_chain);
            assert(items.subrange(1, items.len() as int)[0] == items[1]);
            lemma_decode_encoded_chain(m.message_chain, m.source, Some(id), Seq::empty());
            assert(Seq::<ContentV>::empty() + m.message_chain =~= m.message_chain);
        },
        None => {
            assert(items.subrange(1, items.len() as int) =~= enc_chain);
            lemma_decode_encoded_chain(m.message_chain, m.source, None, Seq::empty());
            assert(Seq::<ContentV>::empty() + m.message_chain =~= m.message_chain);
        },
    }
}

/// A found key names some pair of the object.
pub proof fn lemma_obj_get_index(o: Seq<(Seq<char>, JVal)>, k: Seq<char>)
    requires
        obj_get(o, k) is Some,
    ensures
        exists|j: int|
            0 <= j < o.len() && (#[trigger] o[j]).0 == k && o[j].1 == obj_get(o, k)->0,
    decreases o.len(),
{
    if o.len() > 0 {
        if o[0].0 == k {
            assert(o[0].0 == k && o[0].1 == obj_get(o, k)->0);
        } else {
            let sub = o.subrange(1, o.len() as int);
            lemma_obj_get_index(sub, k);
            let j = choose|j: int|
                0 <= j < sub.len() && (#[trigger] sub[j]).0 == k && sub[j].1 == obj_get(
                    sub,
                    k,
                )->0;
            assert(o[j + 1] == sub[j]);
        }
    }
}

/// How a chain element encodes: as its content shape, with `Source` and
/// `Quote` carrying their metadata fields and the quoted original chain.
pub open spec fn spec_encode_single(m: SingleV) -> JVal
    decreases m,
{
    match m {
        SingleV::Source { id, time } => JVal::Obj(
            seq![
                ("type"@, JVal::Str("Source"@)),
                ("id"@, JVal::Int(id as int)),
                ("time"@, JVal::Int(time as int)),
            ],
        ),
        SingleV::Plain { text } => JVal::Obj(
            seq![("type"@, JVal::Str("Plain"@)), ("text"@, JVal::Str(text))],
        ),
        SingleV::Quote { id, group_id, sender_id, target_id, origin } => JVal::Obj(
            seq![
                ("type"@, JVal::Str("Quote"@)),
                ("id"@, JVal::Int(id as int)),
                ("groupId"@, JVal::Int(group_id as int)),
                ("senderId"@, JVal::Int(sender_id as int)),
                ("targetId"@, JVal::Int(target_id as int)),
                ("origin"@, JVal::Arr(spec_encode_singles(origin))),
            ],
        ),
        SingleV::At { target, display } => JVal::Obj(
            seq![
                ("type"@, JVal::Str("At"@)),
                ("target"@, JVal::Int(target as int)),
                ("display"@, JVal::Str(display)),
            ],
        ),
        SingleV::Image { image_id, url, path } => JVal::Obj(
            seq![
                ("type"@, JVal::Str("Image"@)),
                ("imageId"@, spec_encode_opt_str(image_id)),
                ("url"@, spec_encode_opt_str(url)),
                ("path"@, spec_encode_opt_str(path)),
            ],
        ),
        SingleV::FlashImage { image_id, url, path } => JVal::Obj(
            seq![
                ("type"@, JVal::Str("FlashImage"@)),
                ("imageId"@, spec_encode_opt_str(image_id)),
                ("url"@, spec_encode_opt_str(url)),
                ("path"@, spec_encode_opt_str(path)),
            ],
        ),
        SingleV::Xml { xml } => JVal::Obj(
            seq![("type"@, JVal::Str("Xml"@)), ("xml"@, JVal::Str(xml))],
        ),
        SingleV::Json { json } => JVal::Obj(
            seq![("type"@, JVal::Str("Json"@)), ("json"@, JVal::Str(json))],
        ),
        SingleV::App { content } => JVal::Obj(
            seq![("type"@, JVal::Str("App"@)), ("content"@, JVal::Str(content))],
        ),
        SingleV::Poke { name } => JVal::Obj(
            seq![("type"@, JVal::Str("Poke"@)), ("name"@, JVal::Str(name))],
        ),
        SingleV::Unsupported => JVal::Obj(seq![("type"@, JVal::Str("Unsupported"@))]),
    }
}

/// How a chain of elements encodes, elementwise.
pub open spec fn spec_encode_singles(s: Seq<SingleV>) -> Seq<JVal>
    decreases s,
{
    if s.len() == 0 {
        Seq::empty()
    } else {
        seq![spec_encode_single(s[0])] + spec_encode_singles(s.subrange(1, s.len() as int))
    }
}

/// An encoded chain has the same length and encodes each element.
pub proof fn lemma_spec_encode_singles(s: Seq<SingleV>)
    ensures
        spec_encode_singles(s).len() == s.len(),
        forall|i: int|
            0 <= i < s.len() ==> spec_encode_singles(s)[i] == spec_encode_single(
                #[trigger] s[i],
            ),
    decreases s,
{
    if s.len() > 0 {
        let sub = s.subrange(1, s.len() as int);
        lemma_spec_encode_singles(sub);
        assert forall|i: int|
            0 <= i < s.len() implies spec_encode_singles(s)[i] == spec_encode_single(
            #[trigger] s[i],
        ) by {
            if i > 0 {
                assert(sub[i - 1] == s[i]);
                assert(spec_encode_singles(s)[i] == spec_encode_singles(sub)[i - 1]);
            }
        }
    }
}

/// How a value decodes as a chain element: the content shapes as in
/// [`spec_decode_content`], with `Source` and `Quote` understood too, and
/// the quoted original chain decoded recursively.
pub open spec fn spec_decode_single(v: JVal) -> Option<SingleV>
    decreases v,
{
    match v {
        JVal::Obj(o) => match spec_field_str(o, "type"@) {
            Some(tag) => if tag == "Source"@ {
                match (spec_field_i64(o, "id"@), spec_field_u64(o, "time"@)) {
                    (Some(id), Some(time)) => Some(SingleV::Source { id, time }),
                    _ => None,
                }
            } else if tag == "Quote"@ {
                match (
                    spec_field_i64(o, "id"@),
                    spec_field_u64(o, "groupId"@),
                    spec_field_u64(o, "senderId"@),
                    spec_field_u64(o, "targetId"@),
                ) {
                    (Some(id), Some(group_id), Some(sender_id), Some(target_id)) => match obj_get(
                        o,
                        "origin"@,
                    ) {
                        Some(JVal::Arr(items)) => {
                            proof {
                                lemma_obj_get_index(o, "origin"@);
                                let j = choose|j: int|
                                    0 <= j < o.len() && (#[trigger] o[j]).0 == "origin"@ && o[j].1
                                        == obj_get(o, "origin"@)->0;
                                assert(decreases_to!(o => o[j]));
                                assert(decreases_to!(o[j] => o[j].1));
                                assert(decreases_to!(o[j].1 => items));
                            }
                            match spec_decode_singles(items) {
                                Some(origin) => Some(
                                    SingleV::Quote { id, group_id, sender_id, target_id, origin },
                                ),
                                None => None,
                            }
                        },
                        _ => None,
                    },
                    _ => None,
                }
            } else if tag == "Plain"@ {
                match spec_field_str(o, "text"@) {
                    Some(text) => Some(SingleV::Plain { text }),
                    None => None,
                }
            } else if tag == "At"@ {
                match (spec_field_u64(o, "target"@), spec_field_str(o, "display"@)) {
                    (Some(target), Some(display)) => Some(SingleV::At { target, display }),
                    _ => None,
                }
            } else if tag == "Image"@ {
                match (
                    spec_field_opt_str(o, "imageId"@),
                    spec_field_opt_str(o, "url"@),
                    spec_field_opt_str(o, "path"@),
                ) {
                    (Some(image_id), Some(url), Some(path)) => Some(
                        SingleV::Image { image_id, url, path },
                    ),
                    _ => None,
                }
            } else if tag == "FlashImage"@ {
                match (
                    spec_field_opt_str(o, "imageId"@),
                    spec_field_opt_str(o, "url"@),
                    spec_field_opt_str(o, "path"@),
                ) {
                    (Some(image_id), Some(url), Some(path)) => Some(
                        SingleV::FlashImage { image_id, url, path },
                    ),
                    _ => None,
                }
            } else if tag == "Xml"@ {
                match spec_field_str(o, "xml"@) {
                    Some(xml) => Some(SingleV::Xml { xml }),
                    None => None,
                }
            } else if tag == "Json"@ {
                match spec_field_str(o, "json"@) {
                    Some(json) => Some(SingleV::Json { json }),
                    None => None,
                }
            } else if tag == "App"@ {
                match spec_field_str(o, "content"@) {
                    Some(content) => Some(SingleV::App { content }),
                    None => None,
                }
            } else if tag == "Poke"@ {
                match spec_field_str(o, "name"@) {
                    Some(name) => Some(SingleV::Poke { name }),
                    None => None,
                }
            } else {
                Some(SingleV::Unsupported)
            },
            None => None,
        },
        _ => None,
    }
}

/// How a value list decodes as a chain: every element must decode.
pub open spec fn spec_decode_singles(items: Seq<JVal>) -> Option<Seq<SingleV>>
    decreases items,
{
    if items.len() == 0 {
        Some(Seq::empty())
    } else {
        match spec_decode_single(items[0]) {
            Some(head) => match spec_decode_singles(items.subrange(1, items.len() as int)) {
                Some(tail) => Some(seq![head] + tail),
                None => None,
            },
            None => None,
        }
    }
}

/// Finds the position of the first pair carrying a key.
fn find_field_index(fields: &Vec<(String, JsonValue)>, key: &str) -> (r: Option<usize>)
    ensures
        match r {
            Some(j) => 0 <= j < fields@.len() && obj_get(jobj_of(fields@), key@) == Some(
                jval_of(fields@[j as int].1),
            ),
            None => obj_get(jobj_of(fields@), key@) is None,
        },
{
    proof {
        lemma_jobj_of(fields@);
    }
    let ghost m = jobj_of(fields@);
    proof {
        assert(m.subrange(0, m.len() as int) =~= m);
    }
    let mut i: usize = 0;
    while i < fields.len()
        invariant
            0 <= i <= fields.len(),
            m == jobj_of(fields@),
            m.len() == fields@.len(),
            forall|j: int| 0 <= j < fields@.len() ==> m[j] == ((#[trigger] fields@[j]).0@, jval_of(
                fields@[j].1,
            )),
            obj_get(m.subrange(i as int, m.len() as int), key@) == obj_get(m, key@),
        decreases fields.len() - i,
    {
        proof {
            assert(m.subrange(i as int, m.len() as int)[0] == m[i as int]);
        }
        if string_eq_str(&fields[i].0, key) {
            return Some(i);
        }
        proof {
            assert(m.subrange(i as int, m.len() as int).subrange(
                1,
                m.subrange(i as int, m.len() as int).len() as int,
            ) =~= m.subrange(i as int + 1, m.len() as int));
        }
        i = i + 1;
    }
    proof {
        assert(m.subrange(i as int, m.len() as int) =~= Seq::empty());
    }
    None
}

/// Encodes one chain element, recursively through a quote's original chain.
pub fn encode_single(m: &SingleMessage) -> (r: JsonValue)
    ensures
        r@ == spec_encode_single(m@),
    decreases *m,
{
    let fields: Vec<(String, JsonValue)> = match m {
        SingleMessage::Source { id, time } => vec![
            kv("type", JsonValue::Str(String::from_str("Source"))),
            kv("id", json_int(*id)),
            kv("time", json_uint(*time)),
        ],
        SingleMessage::Plain { text } => vec![
            kv("type", JsonValue::Str(String::from_str("Plain"))),
            kv("text", JsonValue::Str(text.clone())),
        ],
        SingleMessage::Quote { id, group_id, sender_id, target_id, origin } => {
            let origin_items = encode_singles(origin);
            vec![
                kv("type", JsonValue::Str(String::from_str("Quote"))),
                kv("id", json_int(*id)),
                kv("groupId", json_uint(*group_id)),
                kv("senderId", json_uint(*sender_id)),
                kv("targetId", json_uint(*target_id)),
                kv("origin", JsonValue::Arr(origin_items)),
            ]
        },
        SingleMessage::At { target, display } => vec![
            kv("type", JsonValue::Str(String::from_str("At"))),
            kv("target", json_uint(*target)),
            kv("display", JsonValue::Str(display.clone())),
        ],
        SingleMessage::Image { image_id, url, path } => vec![
            kv("type", JsonValue::Str(String::from_str("Image"))),
            kv("imageId", encode_opt_str(image_id)),
            kv("url", encode_opt_str(url)),
            kv("path", encode_opt_str(path)),
        ],
        SingleMessage::FlashImage { image_id, url, path } => vec![
            kv("type", JsonValue::Str(String::from_str("FlashImage"))),
            kv("imageId", encode_opt_str(image_id)),
            kv("url", encode_opt_str(url)),
            kv("path", encode_opt_str(path)),
        ],
        SingleMessage::Xml { xml } => vec![
            kv("type", JsonValue::Str(String::from_str("Xml"))),
            kv("xml", JsonValue::Str(xml.clone())),
        ],
        SingleMessage::Json { json } => vec![
            kv("type", JsonValue::Str(String::from_str("Json"))),
            kv("json", JsonValue::Str(json.clone())),
        ],
        SingleMessage::App { content } => vec![
            kv("type", JsonValue::Str(String::from_str("App"))),
            kv("content", JsonValue::Str(content.clone())),
        ],
        SingleMessage::Poke { name } => vec![
            kv("type", JsonValue::Str(String::from_str("Poke"))),
            kv("name", JsonValue::Str(name.clone())),
        ],
        SingleMessage::Unsupported => vec![
            kv("type", JsonValue::Str(String::from_str("Unsupported"))),
        ],
    };
    let r = JsonValue::Obj(fields);
    proof {
        lemma_jobj_of(fields@);
        assert(r@ matches JVal::Obj(o) && o =~~= spec_encode_single(m@)->Obj_0);
    }
    r
}

/// Encodes a chain of elements, in order.
pub fn encode_singles(chain: &Vec<SingleMessage>) -> (r: Vec<JsonValue>)
    ensures
        jseq_of(r@) == spec_encode_singles(singles_view(chain@)),
    decreases chain@,
{
    let ghost target = spec_encode_singles(singles_view(chain@));
    proof {
        crate::message::single::lemma_singles_view(chain@);
        lemma_spec_encode_singles(singles_view(chain@));
    }
    let mut items: Vec<JsonValue> = Vec::new();
    let mut i: usize = 0;
    while i < chain.len()
        invariant
            0 <= i <= chain.len(),
            target == spec_encode_singles(singles_view(chain@)),
            target.len() == chain@.len(),
            items@.len() == i,
            forall|j: int| 0 <= j < chain@.len() ==> target[j] == spec_encode_single(
                (#[trigger] chain@[j])@,
            ),
            forall|j: int| 0 <= j < i ==> jval_of(#[trigger] items@[j]) == target[j],
        decreases chain.len() - i,
    {
        let enc = encode_single(&chain[i]);
        items.push(enc);
        i = i + 1;
    }
    proof {
        lemma_jseq_of(items@);
        assert forall|j: int| 0 <= j < jseq_of(items@).len() implies jseq_of(items@)[j]
            == target[j] by {
            assert(jval_of(items@[j]) == target[j]);
        }
        assert(jseq_of(items@) =~= target);
    }
    items
}

/// Decodes one chain element, as [`spec_decode_single`] reads it.
pub fn decode_single(v: &JsonValue) -> (r: Option<SingleMessage>)
    ensures
        match r {
            Some(m) => spec_decode_single(v@) == Some(m@),
            None => spec_decode_single(v@) is None,
        },
    decreases *v,
{
    let fields = match v {
        JsonValue::Obj(fields) => fields,
        _ => {
            return None;
        },
    };
    let tag = match field_string(fields, "type") {
        Some(t) => t,
        None => {
            return None;
        },
    };
    if string_eq_str(&tag, "Source") {
        match (field_i64(fields, "id"), field_u64(fields, "time")) {
            (Some(id), Some(time)) => Some(SingleMessage::Source { id, time }),
            _ => None,
        }
    } else if string_eq_str(&tag, "Quote") {
        let id = match field_i64(fields, "id") {
            Some(n) => n,
            None => {
                return None;
            },
        };
        let group_id = match field_u64(fields, "groupId") {
            Some(n) => n,
            None => {
                return None;
            },
        };
        let sender_id = match field_u64(fields, "senderId") {
            Some(n) => n,
            None => {
                return None;
            },
        };
        let target_id = match field_u64(fields, "targetId") {
            Some(n) => n,
            None => {
                return None;
            },
        };
        let j = match find_field_index(fields, "origin") {
            Some(j) => j,
            None => {
                return None;
            },
        };
        match &fields[j].1 {
            JsonValue::Arr(items) => {
                proof {
                    assert(decreases_to!(*v => v->Obj_0));
                    assert(decreases_to!(v->Obj_0 => v->Obj_0@));
                    assert(decreases_to!(v->Obj_0@ => v->Obj_0@[j as int]));
                    assert(decreases_to!(v->Obj_0@[j as int] => v->Obj_0@[j as int].1));
                    assert(v->Obj_0@[j as int].1 matches JsonValue::Arr(arr) && arr == *items);
                    assert(decreases_to!(v->Obj_0@[j as int].1 => *items));
                    assert(decreases_to!(*items => items@));
                }
                match decode_singles(items) {
                    Some(origin) => Some(
                        SingleMessage::Quote { id, group_id, sender_id, target_id, origin },
                    ),
                    None => None,
                }
            },
            _ => None,
        }
    } else if string_eq_str(&tag, "Plain") {
        match field_string(fields, "text") {
            Some(text) => Some(SingleMessage::Plain { text }),
            None => None,
        }
    } else if string_eq_str(&tag, "At") {
        match (field_u64(fields, "target"), field_string(fields, "display")) {
            (Some(target), Some(display)) => Some(SingleMessage::At { target, display }),
            _ => None,
        }
    } else if string_eq_str(&tag, "Image") {
        match (
            field_opt_string(fields, "imageId"),
            field_opt_string(fields, "url"),
            field_opt_string(fields, "path"),
        ) {
            (Some(image_id), Some(url), Some(path)) => Some(
                SingleMessage::Image { image_id, url, path },
            ),
            _ => None,
        }
    } else if string_eq_str(&tag, "FlashImage") {
        match (
            field_opt_string(fields, "imageId"),
            field_opt_string(fields, "url"),
            field_opt_string(fields, "path"),
        ) {
            (Some(image_id), Some(url), Some(path)) => Some(
                SingleMessage::FlashImage { image_id, url, path },
            ),
            _ => None,
        }
    } else if string_eq_str(&tag, "Xml") {
        match field_string(fields, "xml") {
            Some(xml) => Some(SingleMessage::Xml { xml }),
            None => None,
        }
    } else if string_eq_str(&tag, "Json") {
        match field_string(fields, "json") {
            Some(json) => Some(SingleMessage::Json { json }),
            None => None,
        }
    } else if string_eq_str(&tag, "App") {
        match field_string(fields, "content") {
            Some(content) => Some(SingleMessage::App { content }),
            None => None,
        }
    } else if string_eq_str(&tag, "Poke") {
        match field_string(fields, "name") {
            Some(name) => Some(SingleMessage::Poke { name }),
            None => None,
        }
    } else {
        Some(SingleMessage::Unsupported)
    }
}

/// Decodes a chain of elements: every element must decode.
pub fn decode_singles(items: &Vec<JsonValue>) -> (r: Option<Vec<SingleMessage>>)
    ensures
        match r {
            Some(chain) => spec_decode_singles(jseq_of(items@)) == Some(singles_view(chain@)),
            None => spec_decode_singles(jseq_of(items@)) is None,
        },
    decreases items@,
{
    proof {
        lemma_jseq_of(items@);
    }
    let ghost model = jseq_of(items@);
    let ghost whole = spec_decode_singles(model);
    proof {
        assert(model.subrange(0, model.len() as int) =~= model);
        assert(singles_view(Seq::<SingleMessage>::empty()) =~= Seq::<SingleV>::empty());
    }
    let mut chain: Vec<SingleMessage> = Vec::new();
    let mut i: usize = 0;
    while i < items.len()
        invariant
            0 <= i <= items.len(),
            model == jseq_of(items@),
            model.len() == items@.len(),
            whole == spec_decode_singles(model),
            forall|j: int| 0 <= j < items@.len() ==> model[j] == jval_of(#[trigger] items@[j]),
            whole == (match spec_decode_singles(model.subrange(i as int, model.len() as int)) {
                Some(tail) => Some(singles_view(chain@) + tail),
                None => None::<Seq<SingleV>>,
            }),
        decreases items.len() - i,
    {
        let ghost rest = model.subrange(i as int, model.len() as int);
        proof {
            assert(rest[0] == model[i as int]);
            assert(model[i as int] == jval_of(items@[i as int]));
            assert(rest.subrange(1, rest.len() as int) =~= model.subrange(
                i as int + 1,
                model.len() as int,
            ));
        }
        let ghost old_chain = chain@;
        let ghost chain_before = singles_view(chain@);
        proof {
            crate::message::single::lemma_singles_view(old_chain);
        }
        match decode_single(&items[i]) {
            Some(m) => {
                let ghost mv = m@;
                chain.push(m);
                proof {
                    crate::message::single::lemma_singles_view(chain@);
                    assert forall|j: int|
                        0 <= j < chain@.len() implies singles_view(chain@)[j]
                        == chain_before.push(mv)[j] by {
                        assert(singles_view(chain@)[j] == single_view(chain@[j]));
                        if j < old_chain.len() {
                            assert(chain@[j] == old_chain[j]);
                            assert(chain_before[j] == single_view(old_chain[j]));
                        }
                    }
                    assert(singles_view(chain@) =~= chain_before.push(mv));
                    assert forall|tail: Seq<SingleV>|
                        chain_before + (seq![mv] + tail) =~= singles_view(chain@) + tail by {}
                }
            },
            None => {
                proof {
                    assert(spec_decode_singles(rest) is None);
                }
                return None;
            },
        }
        i = i + 1;
    }
    proof {
        assert(model.subrange(i as int, model.len() as int) =~= Seq::empty());
        assert(singles_view(chain@) + Seq::<SingleV>::empty() =~= singles_view(chain@));
    }
    Some(chain)
}

/// Decoding inverts encoding for every chain element, however deeply
/// quotes nest.
pub proof fn lemma_single_round_trip(m: SingleV)
    ensures
        spec_decode_single(spec_encode_single(m)) == Some(m),
    decreases m,
{
    reveal_strlit("type");
    reveal_strlit("text");
    reveal_strlit("id");
    reveal_strlit("time");
    reveal_strlit("groupId");
    reveal_strlit("senderId");
    reveal_strlit("targetId");
    reveal_strlit("origin");
    reveal_strlit("target");
    reveal_strlit("display");
    reveal_strlit("imageId");
    reveal_strlit("url");
    reveal_strlit("path");
    reveal_strlit("xml");
    reveal_strlit("json");
    reveal_strlit("content");
    reveal_strlit("name");
    reveal_strlit("Source");
    reveal_strlit("Quote");
    reveal_strlit("Plain");
    reveal_strlit("At");
    reveal_strlit("Image");
    reveal_strlit("FlashImage");
    reveal_strlit("Xml");
    reveal_strlit("Json");
    reveal_strlit("App");
    reveal_strlit("Poke");
    reveal_strlit("Unsupported");
    assert("type"@.len() == 4 && "type"@[0] == 't' && "type"@[1] == 'y');
    assert("text"@.len() == 4 && "text"@[1] == 'e');
    assert("id"@.len() == 2);
    assert("time"@.len() == 4 && "time"@[1] == 'i');
    assert("groupId"@.len() == 7);
    assert("senderId"@.len() == 8 && "senderId"@[0] == 's');
    assert("targetId"@.len() == 8 && "targetId"@[0] == 't');
    assert("origin"@.len() == 6);
    assert("target"@.len() == 6);
    assert("display"@.len() == 7);
    assert("imageId"@.len() == 7);
    assert("url"@.len() == 3);
    assert("path"@.len() == 4 && "path"@[0] == 'p');
    assert("xml"@.len() == 3);
    assert("json"@.len() == 4 && "json"@[0] == 'j');
    assert("content"@.len() == 7);
    assert("name"@.len() == 4 && "name"@[0] == 'n');
    assert("Source"@.len() == 6);
    assert("Quote"@.len() == 5 && "Quote"@[0] == 'Q');
    assert("Plain"@.len() == 5 && "Plain"@[0] == 'P');
    assert("At"@.len() == 2);
    assert("Image"@.len() == 5 && "Image"@[0] == 'I');
    assert("FlashImage"@.len() == 10);
    assert("Xml"@.len() == 3 && "Xml"@[0] == 'X');
    assert("Json"@.len() == 4 && "Json"@[0] == 'J');
    assert("App"@.len() == 3 && "App"@[0] == 'A');
    assert("Poke"@.len() == 4 && "Poke"@[0] == 'P');
    assert("Unsupported"@.len() == 11);
    let o = spec_encode_single(m)->Obj_0;
    lemma_obj_get_at(o, "type"@, 0);
    match m {
        SingleV::Source { id, time } => {
            lemma_obj_get_at(o, "id"@, 1);
            lemma_obj_get_at(o, "time"@, 2);
        },
        SingleV::Plain { text } => {
            lemma_obj_get_at(o, "text"@, 1);
        },
        SingleV::Quote { id, group_id, sender_id, target_id, origin } => {
            lemma_obj_get_at(o, "id"@, 1);
            lemma_obj_get_at(o, "groupId"@, 2);
            lemma_obj_get_at(o, "senderId"@, 3);
            lemma_obj_get_at(o, "targetId"@, 4);
            lemma_obj_get_at(o, "origin"@, 5);
            lemma_singles_round_trip(origin);
        },
        SingleV::At { target, display } => {
            lemma_obj_get_at(o, "target"@, 1);
            lemma_obj_get_at(o, "display"@, 2);
        },
        SingleV::Image { image_id, url, path } => {
            lemma_obj_get_at(o, "imageId"@, 1);
            lemma_obj_get_at(o, "url"@, 2);
            lemma_obj_get_at(o, "path"@, 3);
        },
        SingleV::FlashImage { image_id, url, path } => {
            lemma_obj_get_at(o, "imageId"@, 1);
            lemma_obj_get_at(o, "url"@, 2);
            lemma_obj_get_at(o, "path"@, 3);
        },
        SingleV::Xml { xml } => {
            lemma_obj_get_at(o, "xml"@, 1);
        },
        SingleV::Json { json } => {
            lemma_obj_get_at(o, "json"@, 1);
        },
        SingleV::App { content } => {
            lemma_obj_get_at(o, "content"@, 1);
        },
        SingleV::Poke { name } => {
            lemma_obj_get_at(o, "name"@, 1);
        },
        SingleV::Unsupported => {},
    }
}

/// Encoding is one-to-one: distinct content elements never encode alike,
/// so one tag and shape stand for exactly one element.
pub proof fn lemma_encode_content_injective(a: ContentV, b: ContentV)
    requires
        spec_encode_content(a) == spec_encode_content(b),
    ensures
        a == b,
{
    lemma_content_round_trip(a);
    lemma_content_round_trip(b);
}

/// Encoding is one-to-one for chain elements too, however deeply quotes
/// nest.
pub proof fn lemma_encode_single_injective(a: SingleV, b: SingleV)
    requires
        spec_encode_single(a) == spec_encode_single(b),
    ensures
        a == b,
{
    lemma_single_round_trip(a);
    lemma_single_round_trip(b);
}

/// An object whose tag names no known content shape decodes to
/// `Unsupported` rather than failing, whatever else it carries.
pub proof fn lemma_unknown_tag_is_unsupported(o: Seq<(Seq<char>, JVal)>, tag: Seq<char>)
    requires
        spec_field_str(o, "type"@) == Some(tag),
        tag != "Plain"@,
        tag != "At"@,
        tag != "AtAll"@,
        tag != "Face"@,
        tag != "Image"@,
        tag != "FlashImage"@,
        tag != "Xml"@,
        tag != "Json"@,
        tag != "App"@,
        tag != "Poke"@,
    ensures
        spec_decode_content(JVal::Obj(o)) == Some(ContentV::Unsupported),
{
}

/// A packet whose tag names no known event shape keeps its raw value
/// rather than failing.
pub proof fn lemma_unknown_event_is_kept(o: Seq<(Seq<char>, JVal)>, tag: Seq<char>)
    requires
        spec_field_str(o, "type"@) == Some(tag),
        tag != "GroupMessage"@,
        tag != "FriendMessage"@,
        tag != "BotOnlineEvent"@,
        tag != "BotOfflineEventActive"@,
        tag != "BotOfflineEventForce"@,
        tag != "BotOfflineEventDropped"@,
        tag != "BotReloginEvent"@,
        tag != "BotMuteEvent"@,
        tag != "BotUnmuteEvent"@,
        tag != "GroupRecallEvent"@,
        tag != "FriendRecallEvent"@,
        tag != "GroupNameChangeEvent"@,
        tag != "GroupEntranceAnnouncementChangeEvent"@,
        tag != "GroupMuteAllEvent"@,
        tag != "GroupAllowAnonymousChatEvent"@,
        tag != "GroupAllowMemberInviteEvent"@,
    ensures
        spec_decode_event(JVal::Obj(o)) == EventPacketV::Unsupported(JVal::Obj(o)),
{
}

/// Decoding inverts encoding for every chain of elements.
pub proof fn lemma_singles_round_trip(s: Seq<SingleV>)
    ensures
        spec_decode_singles(spec_encode_singles(s)) == Some(s),
    decreases s,
{
    if s.len() > 0 {
        let items = spec_encode_singles(s);
        assert(items[0] == spec_encode_single(s[0]));
        lemma_single_round_trip(s[0]);
        let tail = s.subrange(1, s.len() as int);
        assert(items.subrange(1, items.len() as int) =~= spec_encode_singles(tail));
        lemma_singles_round_trip(tail);
        assert(seq![s[0]] + tail =~= s);
    }
}

/// How a standing decodes: from its upper-case wire name.
pub open spec fn spec_decode_permission(v: JVal) -> Option<Permission> {
    match v {
        JVal::Str(s) => if s == "ADMINISTRATOR"@ {
            Some(Permission::Administrator)
        } else if s == "OWNER"@ {
            Some(Permission::Owner)
        } else if s == "MEMBER"@ {
            Some(Permission::Member)
        } else {
            None
        },
        _ => None,
    }
}

/// Decodes a standing, as [`spec_decode_permission`] reads it.
pub fn decode_permission(v: &JsonValue) -> (r: Option<Permission>)
    ensures
        r == spec_decode_permission(v@),
{
    match v {
        JsonValue::Str(s) => {
            if string_eq_str(s, "ADMINISTRATOR") {
                Some(Permission::Administrator)
            } else if string_eq_str(s, "OWNER") {
                Some(Permission::Owner)
            } else if string_eq_str(s, "MEMBER") {
                Some(Permission::Member)
            } else {
                None
            }
        },
        _ => None,
    }
}

/// The standing under a key, if present and well-formed.
pub open spec fn spec_field_permission(o: Seq<(Seq<char>, JVal)>, k: Seq<char>) -> Option<
    Permission,
> {
    match obj_get(o, k) {
        Some(v) => spec_decode_permission(v),
        None => None,
    }
}

fn field_permission(fields: &Vec<(String, JsonValue)>, key: &str) -> (r: Option<Permission>)
    ensures
        r == spec_field_permission(jobj_of(fields@), key@),
{
    match get_field(fields, key) {
        Some(v) => decode_permission(v),
        None => None,
    }
}

/// How a group decodes: id, name and the bot's standing.
pub open spec fn spec_decode_group(v: JVal) -> Option<GroupV> {
    match v {
        JVal::Obj(o) => match (
            spec_field_u64(o, "id"@),
            spec_field_str(o, "name"@),
            spec_field_permission(o, "permission"@),
        ) {
            (Some(id), Some(name), Some(permission)) => Some(GroupV { id, name, permission }),
            _ => None,
        },
        _ => None,
    }
}

/// Decodes a group, as [`spec_decode_group`] reads it.
pub fn decode_group(v: &JsonValue) -> (r: Option<Group>)
    ensures
        match r {
            Some(g) => spec_decode_group(v@) == Some(g@),
            None => spec_decode_group(v@) is None,
        },
{
    let fields = match v.as_obj() {
        Some(f) => f,
        None => {
            return None;
        },
    };
    match (
        field_u64(fields, "id"),
        field_string(fields, "name"),
        field_permission(fields, "permission"),
    ) {
        (Some(id), Some(name), Some(permission)) => Some(Group { id, name, permission }),
        _ => None,
    }
}

/// How a group member decodes: id, display name, standing, and group.
pub open spec fn spec_decode_group_member(v: JVal) -> Option<GroupMemberV> {
    match v {
        JVal::Obj(o) => match (
            spec_field_u64(o, "id"@),
            spec_field_str(o, "memberName"@),
            spec_field_permission(o, "permission"@),
            obj_get(o, "group"@),
        ) {
            (Some(id), Some(member_name), Some(permission), Some(g)) => match spec_decode_group(
                g,
            ) {
                Some(group) => Some(GroupMemberV { id, member_name, permission, group }),
                None => None,
            },
            _ => None,
        },
        _ => None,
    }
}

/// Decodes a group member, as [`spec_decode_group_member`] reads it.
pub fn decode_group_member(v: &JsonValue) -> (r: Option<GroupMember>)
    ensures
        match r {
            Some(m) => spec_decode_group_member(v@) == Some(m@),
            None => spec_decode_group_member(v@) is None,
        },
{
    let fields = match v.as_obj() {
        Some(f) => f,
        None => {
            return None;
        },
    };
    let group = match get_field(fields, "group") {
        Some(g) => match decode_group(g) {
            Some(group) => group,
            None => {
                return None;
            },
        },
        None => {
            return None;
        },
    };
    match (
        field_u64(fields, "id"),
        field_string(fields, "memberName"),
        field_permission(fields, "permission"),
    ) {
        (Some(id), Some(member_name), Some(permission)) => Some(
            GroupMember { id, member_name, permission, group },
        ),
        _ => None,
    }
}

/// How a friend decodes: id, nickname and remark.
pub open spec fn spec_decode_friend_member(v: JVal) -> Option<FriendMemberV> {
    match v {
        JVal::Obj(o) => match (
            spec_field_u64(o, "id"@),
            spec_field_str(o, "nickname"@),
            spec_field_str(o, "remark"@),
        ) {
            (Some(id), Some(nick_name), Some(remark)) => Some(
                FriendMemberV { id, nick_name, remark },
            ),
            _ => None,
        },
        _ => None,
    }
}

/// Decodes a friend, as [`spec_decode_friend_member`] reads it.
pub fn decode_friend_member(v: &JsonValue) -> (r: Option<FriendMember>)
    ensures
        match r {
            Some(m) => spec_decode_friend_member(v@) == Some(m@),
            None => spec_decode_friend_member(v@) is None,
        },
{
    let fields = match v.as_obj() {
        Some(f) => f,
        None => {
            return None;
        },
    };
    match (
        field_u64(fields, "id"),
        field_string(fields, "nickname"),
        field_string(fields, "remark"),
    ) {
        (Some(id), Some(nick_name), Some(remark)) => Some(
            FriendMember { id, nick_name, remark },
        ),
        _ => None,
    }
}

/// The message chain under `messageChain`, decoded.
pub open spec fn spec_field_chain(o: Seq<(Seq<char>, JVal)>) -> Option<Seq<SingleV>> {
    match obj_get(o, "messageChain"@) {
        Some(JVal::Arr(items)) => spec_decode_singles(items),
        _ => None,
    }
}

fn field_chain(fields: &Vec<(String, JsonValue)>) -> (r: Option<Vec<SingleMessage>>)
    ensures
        match r {
            Some(chain) => spec_field_chain(jobj_of(fields@)) == Some(singles_view(chain@)),
            None => spec_field_chain(jobj_of(fields@)) is None,
        },
{
    match get_field(fields, "messageChain") {
        Some(v) => match v {
            JsonValue::Arr(items) => decode_singles(items),
            _ => None,
        },
        None => None,
    }
}

/// The group member under a key, decoded.
pub open spec fn spec_field_member(o: Seq<(Seq<char>, JVal)>, k: Seq<char>) -> Option<
    GroupMemberV,
> {
    match obj_get(o, k) {
        Some(v) => spec_decode_group_member(v),
        None => None,
    }
}

fn field_member(fields: &Vec<(String, JsonValue)>, key: &str) -> (r: Option<GroupMember>)
    ensures
        match r {
            Some(m) => spec_field_member(jobj_of(fields@), key@) == Some(m@),
            None => spec_field_member(jobj_of(fields@), key@) is None,
        },
{
    match get_field(fields, key) {
        Some(v) => decode_group_member(v),
        None => None,
    }
}

/// An optional group member: absent or null means the bot itself acted.
pub open spec fn spec_field_opt_member(o: Seq<(Seq<char>, JVal)>, k: Seq<char>) -> Option<
    Option<GroupMemberV>,
> {
    match obj_get(o, k) {
        None => Some(None),
        Some(JVal::Null) => Some(None),
        Some(v) => match spec_decode_group_member(v) {
            Some(m) => Some(Some(m)),
            None => None,
        },
    }
}

fn field_opt_member(fields: &Vec<(String, JsonValue)>, key: &str) -> (r: Option<
    Option<GroupMember>,
>)
    ensures
        match r {
            Some(Some(m)) => spec_field_opt_member(jobj_of(fields@), key@) == Some(Some(m@)),
            Some(None) => spec_field_opt_member(jobj_of(fields@), key@) == Some(
                None::<GroupMemberV>,
            ),
            None => spec_field_opt_member(jobj_of(fields@), key@) is None,
        },
{
    match get_field(fields, key) {
        None => Some(None),
        Some(v) => match v {
            JsonValue::Null => Some(None),
            _ => match decode_group_member(v) {
                Some(m) => Some(Some(m)),
                None => None,
            },
        },
    }
}

/// A changed setting's old and new value: text, else a switch.
pub open spec fn spec_field_change(o: Seq<(Seq<char>, JVal)>) -> Option<ChangeTypeV> {
    match (spec_field_str(o, "origin"@), spec_field_str(o, "current"@)) {
        (Some(origin), Some(current)) => Some(ChangeTypeV::Text { origin, current }),
        _ => match (spec_field_bool(o, "origin"@), spec_field_bool(o, "current"@)) {
            (Some(origin), Some(current)) => Some(ChangeTypeV::Bool { origin, current }),
            _ => None,
        },
    }
}

fn field_change(fields: &Vec<(String, JsonValue)>) -> (r: Option<ChangeType>)
    ensures
        match r {
            Some(c) => spec_field_change(jobj_of(fields@)) == Some(c@),
            None => spec_field_change(jobj_of(fields@)) is None,
        },
{
    match (field_string(fields, "origin"), field_string(fields, "current")) {
        (Some(origin), Some(current)) => Some(ChangeType::Text { origin, current }),
        _ => match (field_bool(fields, "origin"), field_bool(fields, "current")) {
            (Some(origin), Some(current)) => Some(ChangeType::Bool { origin, current }),
            _ => None,
        },
    }
}

/// How a group-setting change decodes for a given kind.
pub open spec fn spec_decode_group_change(
    o: Seq<(Seq<char>, JVal)>,
    kind: GroupChangeEventKind,
) -> Option<GroupChangeEventV> {
    match (
        spec_field_change(o),
        obj_get(o, "group"@),
        spec_field_opt_member(o, "operator"@),
    ) {
        (Some(change), Some(g), Some(operator)) => match spec_decode_group(g) {
            Some(group) => Some(GroupChangeEventV { kind, change, group, operator }),
            None => None,
        },
        _ => None,
    }
}

fn decode_group_change(fields: &Vec<(String, JsonValue)>, kind: GroupChangeEventKind) -> (r:
    Option<GroupChangeEvent>)
    ensures
        match r {
            Some(e) => spec_decode_group_change(jobj_of(fields@), kind) == Some(e@),
            None => spec_decode_group_change(jobj_of(fields@), kind) is None,
        },
{
    let group = match get_field(fields, "group") {
        Some(g) => match decode_group(g) {
            Some(group) => group,
            None => {
                return None;
            },
        },
        None => {
            return None;
        },
    };
    match (field_change(fields), field_opt_member(fields, "operator")) {
        (Some(change), Some(operator)) => Some(GroupChangeEvent { kind, change, group, operator }),
        _ => None,
    }
}

/// How a fetched packet decodes. Known shapes become their events; an
/// object with any other tag, an ill-shaped known tag, or a non-object
/// keeps its raw value under `Unsupported`.
pub open spec fn spec_decode_event(v: JVal) -> EventPacketV {
    match v {
        JVal::Obj(o) => match spec_field_str(o, "type"@) {
            Some(tag) => if tag == "GroupMessage"@ {
                match (spec_field_chain(o), spec_field_member(o, "sender"@)) {
                    (Some(message_chain), Some(sender)) => EventPacketV::MessageEvent(
                        MessageEventV::GroupMessage { message_chain, sender },
                    ),
                    _ => EventPacketV::Unsupported(v),
                }
            } else if tag == "FriendMessage"@ {
                match (spec_field_chain(o), obj_get(o, "sender"@)) {
                    (Some(message_chain), Some(s)) => match spec_decode_friend_member(s) {
                        Some(sender) => EventPacketV::MessageEvent(
                            MessageEventV::FriendMessage { message_chain, sender },
                        ),
                        None => EventPacketV::Unsupported(v),
                    },
                    _ => EventPacketV::Unsupported(v),
                }
            } else if tag == "BotOnlineEvent"@ {
                spec_decode_login(o, BotLoginEventKind::BotOnlineEvent, v)
            } else if tag == "BotOfflineEventActive"@ {
                spec_decode_login(o, BotLoginEventKind::BotOfflineEventActive, v)
            } else if tag == "BotOfflineEventForce"@ {
                spec_decode_login(o, BotLoginEventKind::BotOfflineEventForce, v)
            } else if tag == "BotOfflineEventDropped"@ {
                spec_decode_login(o, BotLoginEventKind::BotOfflineEventDropped, v)
            } else if tag == "BotReloginEvent"@ {
                spec_decode_login(o, BotLoginEventKind::BotReloginEvent, v)
            } else if tag == "BotMuteEvent"@ {
                match (spec_field_u32(o, "durationSeconds"@), spec_field_member(o, "operator"@)) {
                    (Some(duration), Some(operator)) => EventPacketV::BotMuteEvent(
                        BotMuteEventV::BotMuteEvent { duration, operator },
                    ),
                    _ => EventPacketV::Unsupported(v),
                }
            } else if tag == "BotUnmuteEvent"@ {
                match spec_field_member(o, "operator"@) {
                    Some(operator) => EventPacketV::BotMuteEvent(
                        BotMuteEventV::BotUnmuteEvent { operator },
                    ),
                    None => EventPacketV::Unsupported(v),
                }
            } else if tag == "GroupRecallEvent"@ {
                match (
                    spec_field_u64(o, "authorId"@),
                    spec_field_i64(o, "messageId"@),
                    spec_field_u64(o, "time"@),
                    obj_get(o, "group"@),
                ) {
                    (Some(author_id), Some(message_id), Some(time), Some(g)) => match (
                        spec_decode_group(g),
                        spec_field_opt_member(o, "operator"@),
                    ) {
                        (Some(group), Some(operator)) => EventPacketV::RecallEvent(
                            RecallEventV::GroupRecallEvent {
                                author_id,
                                message_id,
                                time,
                                group,
                                operator,
                            },
                        ),
                        _ => EventPacketV::Unsupported(v),
                    },
                    _ => EventPacketV::Unsupported(v),
                }
            } else if tag == "FriendRecallEvent"@ {
                match (
                    spec_field_u64(o, "authorId"@),
                    spec_field_i64(o, "messageId"@),
                    spec_field_u64(o, "time"@),
                    spec_field_u64(o, "operator"@),
                ) {
                    (Some(author_id), Some(message_id), Some(time), Some(operator)) => {
                        EventPacketV::RecallEvent(
                            RecallEventV::FriendRecallEvent {
                                author_id,
                                message_id,
                                time,
                                operator,
                            },
                        )
                    },
                    _ => EventPacketV::Unsupported(v),
                }
            } else if tag == "GroupNameChangeEvent"@ {
                spec_decode_change(o, GroupChangeEventKind::GroupNameChangeEvent, v)
            } else if tag == "GroupEntranceAnnouncementChangeEvent"@ {
                spec_decode_change(
                    o,
                    GroupChangeEventKind::GroupEntranceAnnouncementChangeEvent,
                    v,
                )
            } else if tag == "GroupMuteAllEvent"@ {
                spec_decode_change(o, GroupChangeEventKind::GroupMuteAllEvent, v)
            } else if tag == "GroupAllowAnonymousChatEvent"@ {
                spec_decode_change(o, GroupChangeEventKind::GroupAllowAnonymousChatEvent, v)
            } else if tag == "GroupAllowMemberInviteEvent"@ {
                spec_decode_change(o, GroupChangeEventKind::GroupAllowMemberInviteEvent, v)
            } else {
                EventPacketV::Unsupported(v)
            },
            None => EventPacketV::Unsupported(v),
        },
        _ => EventPacketV::Unsupported(v),
    }
}

/// A connection event of the given kind, if the account is there.
pub open spec fn spec_decode_login(
    o: Seq<(Seq<char>, JVal)>,
    kind: BotLoginEventKind,
    v: JVal,
) -> EventPacketV {
    match spec_field_u64(o, "qq"@) {
        Some(qq) => EventPacketV::BotLoginEvent(BotLoginEvent { kind, qq }),
        None => EventPacketV::Unsupported(v),
    }
}

/// A group-setting change of the given kind, if its fields are there.
pub open spec fn spec_decode_change(
    o: Seq<(Seq<char>, JVal)>,
    kind: GroupChangeEventKind,
    v: JVal,
) -> EventPacketV {
    match spec_decode_group_change(o, kind) {
        Some(e) => EventPacketV::GroupChangeEvent(e),
        None => EventPacketV::Unsupported(v),
    }
}

/// Decodes a fetched packet, as [`spec_decode_event`] reads it. A packet
/// this crate does not understand keeps its raw value.
pub fn decode_event(v: JsonValue) -> (r: EventPacket)
    ensures
        r@ == spec_decode_event(jval_of(v)),
{
    let parsed = decode_event_inner(&v);
    match parsed {
        Some(e) => e,
        None => EventPacket::Unsupported(v),
    }
}

fn decode_event_inner(v: &JsonValue) -> (r: Option<EventPacket>)
    ensures
        match r {
            Some(e) => spec_decode_event(v@) == e@,
            None => spec_decode_event(v@) == EventPacketV::Unsupported(v@),
        },
{
    let fields = match v.as_obj() {
        Some(f) => f,
        None => {
            return None;
        },
    };
    let tag = match field_string(fields, "type") {
        Some(t) => t,
        None => {
            return None;
        },
    };
    if string_eq_str(&tag, "GroupMessage") {
        match (field_chain(fields), field_member(fields, "sender")) {
            (Some(message_chain), Some(sender)) => Some(
                EventPacket::MessageEvent(MessageEvent::GroupMessage { message_chain, sender }),
            ),
            _ => None,
        }
    } else if string_eq_str(&tag, "FriendMessage") {
        let sender = match get_field(fields, "sender") {
            Some(s) => match decode_friend_member(s) {
                Some(sender) => sender,
                None => {
                    return None;
                },
            },
            None => {
                return None;
            },
        };
        match field_chain(fields) {
            Some(message_chain) => Some(
                EventPacket::MessageEvent(MessageEvent::FriendMessage { message_chain, sender }),
            ),
            None => None,
        }
    } else if string_eq_str(&tag, "BotOnlineEvent") {
        decode_login(fields, BotLoginEventKind::BotOnlineEvent)
    } else if string_eq_str(&tag, "BotOfflineEventActive") {
        decode_login(fields, BotLoginEventKind::BotOfflineEventActive)
    } else if string_eq_str(&tag, "BotOfflineEventForce") {
        decode_login(fields, BotLoginEventKind::BotOfflineEventForce)
    } else if string_eq_str(&tag, "BotOfflineEventDropped") {
        decode_login(fields, BotLoginEventKind::BotOfflineEventDropped)
    } else if string_eq_str(&tag, "BotReloginEvent") {
        decode_login(fields, BotLoginEventKind::BotReloginEvent)
    } else if string_eq_str(&tag, "BotMuteEvent") {
        match (field_u32(fields, "durationSeconds"), field_member(fields, "operator")) {
            (Some(duration), Some(operator)) => Some(
                EventPacket::BotMuteEvent(BotMuteEvent::BotMuteEvent { duration, operator }),
            ),
            _ => None,
        }
    } else if string_eq_str(&tag, "BotUnmuteEvent") {
        match field_member(fields, "operator") {
            Some(operator) => Some(
                EventPacket::BotMuteEvent(BotMuteEvent::BotUnmuteEvent { operator }),
            ),
            None => None,
        }
    } else if string_eq_str(&tag, "GroupRecallEvent") {
        let group = match get_field(fields, "group") {
            Some(g) => match decode_group(g) {
                Some(group) => group,
                None => {
                    return None;
                },
            },
            None => {
                return None;
            },
        };
        match (
            field_u64(fields, "authorId"),
            field_i64(fields, "messageId"),
            field_u64(fields, "time"),
            field_opt_member(fields, "operator"),
        ) {
            (Some(author_id), Some(message_id), Some(time), Some(operator)) => Some(
                EventPacket::RecallEvent(
                    RecallEvent::GroupRecallEvent {
                        author_id,
                        message_id,
                        time,
                        group,
                        operator,
                    },
                ),
            ),
            _ => None,
        }
    } else if string_eq_str(&tag, "FriendRecallEvent") {
        match (
            field_u64(fields, "authorId"),
            field_i64(fields, "messageId"),
            field_u64(fields, "time"),
            field_u64(fields, "operator"),
        ) {
            (Some(author_id), Some(message_id), Some(time), Some(operator)) => Some(
                EventPacket::RecallEvent(
                    RecallEvent::FriendRecallEvent { author_id, message_id, time, operator },
                ),
            ),
            _ => None,
        }
    } else if string_eq_str(&tag, "GroupNameChangeEvent") {
        match decode_group_change(fields, GroupChangeEventKind::GroupNameChangeEvent) {
            Some(e) => Some(EventPacket::GroupChangeEvent(e)),
            None => None,
        }
    } else if string_eq_str(&tag, "GroupEntranceAnnouncementChangeEvent") {
        match decode_group_change(
            fields,
            GroupChangeEventKind::GroupEntranceAnnouncementChangeEvent,
        ) {
            Some(e) => Some(EventPacket::GroupChangeEvent(e)),
            None => None,
        }
    } else if string_eq_str(&tag, "GroupMuteAllEvent") {
        match decode_group_change(fields, GroupChangeEventKind::GroupMuteAllEvent) {
            Some(e) => Some(EventPacket::GroupChangeEvent(e)),
            None => None,
        }
    } else if string_eq_str(&tag, "GroupAllowAnonymousChatEvent") {
        match decode_group_change(fields, GroupChangeEventKind::GroupAllowAnonymousChatEvent) {
            Some(e) => Some(EventPacket::GroupChangeEvent(e)),
            None => None,
        }
    } else if string_eq_str(&tag, "GroupAllowMemberInviteEvent") {
        match decode_group_change(fields, GroupChangeEventKind::GroupAllowMemberInviteEvent) {
            Some(e) => Some(EventPacket::GroupChangeEvent(e)),
            None => None,
        }
    } else {
        None
    }
}

/// How a value decodes as the older flat packet: a tagged object; the two
/// message tags and the two recall tags demand their fields, any other tag
/// is `Unsupported` with nothing kept, and a missing tag is an error.
pub open spec fn spec_decode_package(v: JVal) -> Option<MessagePackageV> {
    match v {
        JVal::Obj(o) => match spec_field_str(o, "type"@) {
            Some(tag) => if tag == "GroupMessage"@ {
                match (spec_field_chain(o), spec_field_member(o, "sender"@)) {
                    (Some(message_chain), Some(sender)) => Some(
                        MessagePackageV::GroupMessage { message_chain, sender },
                    ),
                    _ => None,
                }
            } else if tag == "FriendMessage"@ {
                match (spec_field_chain(o), obj_get(o, "sender"@)) {
                    (Some(message_chain), Some(s)) => match spec_decode_friend_member(s) {
                        Some(sender) => Some(
                            MessagePackageV::FriendMessage { message_chain, sender },
                        ),
                        None => None,
                    },
                    _ => None,
                }
            } else if tag == "GroupRecallEvent"@ {
                match (
                    spec_field_u64(o, "authorId"@),
                    spec_field_i64(o, "messageId"@),
                    spec_field_u64(o, "time"@),
                    obj_get(o, "group"@),
                ) {
                    (Some(author_id), Some(message_id), Some(time), Some(g)) => match (
                        spec_decode_group(g),
                        spec_field_member(o, "operator"@),
                    ) {
                        (Some(group), Some(operator)) => Some(
                            MessagePackageV::GroupRecallEvent {
                                author_id,
                                message_id,
                                time,
                                group,
                                operator,
                            },
                        ),
                        _ => None,
                    },
                    _ => None,
                }
            } else if tag == "FriendRecallEvent"@ {
                match (
                    spec_field_u64(o, "authorId"@),
                    spec_field_i64(o, "messageId"@),
                    spec_field_u64(o, "time"@),
                    spec_field_u64(o, "operator"@),
                ) {
                    (Some(author_id), Some(message_id), Some(time), Some(operator)) => Some(
                        MessagePackageV::FriendRecallEvent {
                            author_id,
                            message_id,
                            time,
                            operator,
                        },
                    ),
                    _ => None,
                }
            } else {
                Some(MessagePackageV::Unsupported)
            },
            None => None,
        },
        _ => None,
    }
}

/// Decodes the older flat packet, as [`spec_decode_package`] reads it.
pub fn decode_package(v: &JsonValue) -> (r: Option<MessagePackage>)
    ensures
        match r {
            Some(p) => spec_decode_package(v@) == Some(p@),
            None => spec_decode_package(v@) is None,
        },
{
    let fields = match v.as_obj() {
        Some(f) => f,
        None => {
            return None;
        },
    };
    let tag = match field_string(fields, "type") {
        Some(t) => t,
        None => {
            return None;
        },
    };
    if string_eq_str(&tag, "GroupMessage") {
        match (field_chain(fields), field_member(fields, "sender")) {
            (Some(message_chain), Some(sender)) => Some(
                MessagePackage::GroupMessage { message_chain, sender },
            ),
            _ => None,
        }
    } else if string_eq_str(&tag, "FriendMessage") {
        let sender = match get_field(fields, "sender") {
            Some(s) => match decode_friend_member(s) {
                Some(sender) => sender,
                None => {
                    return None;
                },
            },
            None => {
                return None;
            },
        };
        match field_chain(fields) {
            Some(message_chain) => Some(MessagePackage::FriendMessage { message_chain, sender }),
            None => None,
        }
    } else if string_eq_str(&tag, "GroupRecallEvent") {
        let group = match get_field(fields, "group") {
            Some(g) => match decode_group(g) {
                Some(group) => group,
                None => {
                    return None;
                },
            },
            None => {
                return None;
            },
        };
        match (
            field_u64(fields, "authorId"),
            field_i64(fields, "messageId"),
            field_u64(fields, "time"),
            field_member(fields, "operator"),
        ) {
            (Some(author_id), Some(message_id), Some(time), Some(operator)) => Some(
                MessagePackage::GroupRecallEvent {
                    author_id,
                    message_id,
                    time,
                    group,
                    operator,
                },
            ),
            _ => None,
        }
    } else if string_eq_str(&tag, "FriendRecallEvent") {
        match (
            field_u64(fields, "authorId"),
            field_i64(fields, "messageId"),
            field_u64(fields, "time"),
            field_u64(fields, "operator"),
        ) {
            (Some(author_id), Some(message_id), Some(time), Some(operator)) => Some(
                MessagePackage::FriendRecallEvent { author_id, message_id, time, operator },
            ),
            _ => None,
        }
    } else {
        Some(MessagePackage::Unsupported)
    }
}

fn decode_login(fields: &Vec<(String, JsonValue)>, kind: BotLoginEventKind) -> (r: Option<
    EventPacket,
>)
    ensures
        match r {
            Some(e) => spec_field_u64(jobj_of(fields@), "qq"@) is Some && e@
                == EventPacketV::BotLoginEvent(
                BotLoginEvent { kind, qq: spec_field_u64(jobj_of(fields@), "qq"@)->0 },
            ),
            None => spec_field_u64(jobj_of(fields@), "qq"@) is None,
        },
{
    match field_u64(fields, "qq") {
        Some(qq) => Some(EventPacket::BotLoginEvent(BotLoginEvent::new(kind, qq))),
        None => None,
    }
}

} // verus!
