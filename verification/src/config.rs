//! The gateway's own settings: cache size and websocket switch.

use vstd::prelude::*;
use vstd::string::StringExecFns;

use crate::codec::kv;
use crate::error::{spec_client_error, Error};
use crate::json::{spec_field_bool, spec_field_u16, field_bool, field_u16, JVal, JsonValue};
use crate::session::Session;
use crate::CacheSize;

verus! {

/// The gateway's settings. Too small a cache breaks reply and recall.
#[derive(Debug, Clone, Copy, PartialEq, Eq, Structural)]
pub struct Config {
    pub cache_size: CacheSize,
    pub enable_websocket: bool,
}

/// How a settings answer reads: both fields are required.
pub open spec fn spec_parse_config(v: JVal) -> Result<Config, crate::error::ErrorV> {
    match v {
        JVal::Obj(o) => match (
            spec_field_u16(o, "cacheSize"@),
            spec_field_bool(o, "enableWebsocket"@),
        ) {
            (Some(cache_size), Some(enable_websocket)) => Ok(
                Config { cache_size, enable_websocket },
            ),
            _ => Err(spec_client_error("malformed response"@)),
        },
        _ => Err(spec_client_error("malformed response"@)),
    }
}

/// Reads a settings answer, as [`spec_parse_config`] reads it.
pub fn parse_config(v: &JsonValue) -> (r: Result<Config, Error>)
    ensures
        match r {
            Ok(c) => spec_parse_config(v@) == Ok::<Config, crate::error::ErrorV>(c),
            Err(e) => spec_parse_config(v@) is Err && e@ == spec_parse_config(v@)->Err_0,
        },
{
    let fields = match v.as_obj() {
        Some(f) => f,
        None => {
            return Err(crate::error::client_error("malformed response"));
        },
    };
    match (field_u16(fields, "cacheSize"), field_bool(fields, "enableWebsocket")) {
        (Some(cache_size), Some(enable_websocket)) => Ok(Config { cache_size, enable_websocket }),
        _ => Err(crate::error::client_error("malformed response")),
    }
}

/// How a settings change encodes.
pub open spec fn spec_modify_config_body(
    key: Seq<char>,
    cache_size: CacheSize,
    enable_websocket: bool,
) -> JVal {
    JVal::Obj(
        seq![
            ("sessionKey"@, JVal::Str(key)),
            ("cacheSize"@, JVal::Int(cache_size as int)),
            ("enableWebsocket"@, JVal::Bool(enable_websocket)),
        ],
    )
}

impl Session {
    /// The path of a settings query.
    pub fn get_config_path(&self) -> (r: String)
        ensures
            r@ == "/config?sessionKey="@ + self@.key,
    {
        let mut s = String::from_str("/config?sessionKey=");
        s.append(self.key.as_str());
        s
    }

    /// The path and body of a settings change.
    pub fn modify_config_request(&self, cache_size: CacheSize, enable_websocket: bool) -> (r: (
        String,
        JsonValue,
    ))
        ensures
            r.0@ == "/config"@,
            r.1@ == spec_modify_config_body(self@.key, cache_size, enable_websocket),
    {
        let fields: Vec<(String, JsonValue)> = vec![
            kv("sessionKey", JsonValue::Str(self.key.clone())),
            kv("cacheSize", JsonValue::UInt(cache_size as u64)),
            kv("enableWebsocket", JsonValue::Bool(enable_websocket)),
        ];
        let body = JsonValue::Obj(fields);
        proof {
            crate::json::lemma_jobj_of(fields@);
            assert(body@ matches JVal::Obj(o) && o =~~= spec_modify_config_body(
                self@.key,
                cache_size,
                enable_websocket,
            )->Obj_0);
        }
        (String::from_str("/config"), body)
    }
}

} // verus!
