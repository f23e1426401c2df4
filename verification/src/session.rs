//! Servers, sessions, and the session-lifecycle wire shapes.
//!
//! A [`MiraiServer`] is an address. Authenticating against it yields a
//! [`Session`]: the server plus the secret session key that every later
//! command carries. The functions here build the exact JSON bodies and
//! paths of the lifecycle endpoints and read their answers; carrying them
//! over HTTP is the caller's business.

use vstd::prelude::*;
use vstd::string::StringExecFns;

use crate::codec::kv;
use crate::error::{spec_client_error, spec_code_error, Error, SUCCESS};
use crate::json::{
    obj_get, spec_field_opt_str, spec_field_str, spec_field_u16, field_string, field_u16,
    get_field, JVal, JsonValue,
};
use crate::Code;
use crate::Target;

verus! {

/// Model of a [`MiraiServer`].
#[verifier::ext_equal]
pub struct MiraiServerV {
    pub base_url: Seq<char>,
}

/// The address of a gateway.
#[derive(Debug, Clone, PartialEq, Eq)]
pub struct MiraiServer {
    pub base_url: String,
}

impl View for MiraiServer {
    type V = MiraiServerV;

    open spec fn view(&self) -> MiraiServerV {
        MiraiServerV { base_url: self.base_url@ }
    }
}

impl MiraiServer {
    /// A server at the given address.
    pub fn new(base_url: &str) -> (r: MiraiServer)
        ensures
            r@ == (MiraiServerV { base_url: base_url@ }),
    {
        MiraiServer { base_url: base_url.to_owned() }
    }

    /// The address joined with a path; the path must bring its own leading
    /// separator.
    pub fn url(&self, path: &str) -> (r: String)
        ensures
            r@ == self@.base_url + path@,
    {
        let mut s = self.base_url.clone();
        s.append(path);
        s
    }

    /// The body of an authentication request.
    pub fn auth_body(auth_key: &str) -> (r: JsonValue)
        ensures
            r@ == spec_auth_body(auth_key@),
    {
        let fields: Vec<(String, JsonValue)> = vec![
            kv("authKey", JsonValue::Str(auth_key.to_owned())),
        ];
        let r = JsonValue::Obj(fields);
        proof {
            crate::json::lemma_jobj_of(fields@);
            assert(r@ matches JVal::Obj(o) && o =~~= spec_auth_body(auth_key@)->Obj_0);
        }
        r
    }

    /// The body of a console command request.
    pub fn run_command_body(auth_key: &str, name: &str, args: &Vec<String>) -> (r: JsonValue)
        ensures
            r@ == spec_run_command_body(auth_key@, name@, args.deep_view()),
    {
        let mut arg_items: Vec<JsonValue> = Vec::new();
        let mut i: usize = 0;
        while i < args.len()
            invariant
                0 <= i <= args@.len(),
                arg_items@.len() == i,
                forall|j: int| 0 <= j < i ==> crate::json::jval_of(#[trigger] arg_items@[j])
                    == JVal::Str(args@[j]@),
            decreases args.len() - i,
        {
            arg_items.push(JsonValue::Str(args[i].clone()));
            i = i + 1;
        }
        let fields: Vec<(String, JsonValue)> = vec![
            kv("authKey", JsonValue::Str(auth_key.to_owned())),
            kv("name", JsonValue::Str(name.to_owned())),
            kv("args", JsonValue::Arr(arg_items)),
        ];
        let r = JsonValue::Obj(fields);
        proof {
            crate::json::lemma_jobj_of(fields@);
            crate::json::lemma_jseq_of(arg_items@);
            assert forall|j: int| 0 <= j < arg_items@.len() implies crate::json::jseq_of(
                arg_items@,
            )[j] == JVal::Str(args.deep_view()[j]) by {
                assert(crate::json::jval_of(arg_items@[j]) == JVal::Str(args@[j]@));
            }
            assert(crate::json::jseq_of(arg_items@) =~= args.deep_view().map_values(
                |s: Seq<char>| JVal::Str(s),
            ));
            assert(r@ matches JVal::Obj(o) && o =~~= spec_run_command_body(
                auth_key@,
                name@,
                args.deep_view(),
            )->Obj_0);
        }
        r
    }
}

/// How an authentication request encodes.
pub open spec fn spec_auth_body(auth_key: Seq<char>) -> JVal {
    JVal::Obj(seq![("authKey"@, JVal::Str(auth_key))])
}

/// How a console command request encodes.
pub open spec fn spec_run_command_body(
    auth_key: Seq<char>,
    name: Seq<char>,
    args: Seq<Seq<char>>,
) -> JVal {
    JVal::Obj(
        seq![
            ("authKey"@, JVal::Str(auth_key)),
            ("name"@, JVal::Str(name)),
            ("args"@, JVal::Arr(args.map_values(|s: Seq<char>| JVal::Str(s)))),
        ],
    )
}

/// Model of a [`Session`].
#[verifier::ext_equal]
pub struct SessionV {
    pub server: MiraiServerV,
    pub key: Seq<char>,
    pub bound: Option<Target>,
}

/// An authenticated session: the server, the secret session key, and the
/// account the session is bound to once it has been verified.
#[derive(Debug, Clone, PartialEq, Eq)]
pub struct Session {
    pub server: MiraiServer,
    pub key: String,
    pub bound: Option<Target>,
}

impl View for Session {
    type V = SessionV;

    open spec fn view(&self) -> SessionV {
        SessionV { server: self.server@, key: self.key@, bound: self.bound }
    }
}

impl Session {
    /// A fresh, unbound session from a server and its key.
    pub fn new(server: MiraiServer, key: String) -> (r: Session)
        ensures
            r@ == (SessionV { server: server@, key: key@, bound: None }),
    {
        Session { server, key, bound: None }
    }

    /// The session key. It should be kept secret.
    pub fn key(&self) -> (r: &str)
        ensures
            r@ == self@.key,
    {
        self.key.as_str()
    }

    /// The server's address joined with a path.
    pub fn url(&self, path: &str) -> (r: String)
        ensures
            r@ == self@.server.base_url + path@,
    {
        self.server.url(path)
    }

    /// Remembers the account this session was verified against.
    pub fn bind(&mut self, qq: Target)
        ensures
            final(self)@ == (SessionV { bound: Some(qq), ..old(self)@ }),
    {
        self.bound = Some(qq);
    }

    /// The body of a verify request, binding the session to an account.
    pub fn verify_body(&self, qq: Target) -> (r: JsonValue)
        ensures
            r@ == spec_keyed_target_body(self@.key, "qq"@, qq),
    {
        let fields: Vec<(String, JsonValue)> = vec![
            kv("sessionKey", JsonValue::Str(self.key.clone())),
            kv("qq", JsonValue::UInt(qq)),
        ];
        let r = JsonValue::Obj(fields);
        proof {
            crate::json::lemma_jobj_of(fields@);
            assert(r@ matches JVal::Obj(o) && o =~~= spec_keyed_target_body(
                self@.key,
                "qq"@,
                qq,
            )->Obj_0);
        }
        r
    }

    /// The body of a release request, freeing the bound account.
    pub fn release_body(&self, qq: Target) -> (r: JsonValue)
        ensures
            r@ == spec_keyed_target_body(self@.key, "qq"@, qq),
    {
        self.verify_body(qq)
    }
}

/// A body of just the session key and one named account or group number.
pub open spec fn spec_keyed_target_body(key: Seq<char>, name: Seq<char>, n: Target) -> JVal {
    JVal::Obj(seq![("sessionKey"@, JVal::Str(key)), (name, JVal::Int(n as int))])
}

/// How an authentication answer reads: a status code, then the session
/// key, which a successful answer must carry.
pub open spec fn spec_parse_auth(v: JVal) -> Result<Seq<char>, crate::error::ErrorV> {
    match v {
        JVal::Obj(o) => match spec_field_u16(o, "code"@) {
            Some(code) => if code != SUCCESS {
                Err(spec_code_error(code))
            } else {
                match spec_field_opt_str(o, "session"@) {
                    Some(Some(key)) => Ok(key),
                    Some(None) => Err(spec_client_error("session is None"@)),
                    None => Err(spec_client_error("malformed response"@)),
                }
            },
            None => Err(spec_client_error("malformed response"@)),
        },
        _ => Err(spec_client_error("malformed response"@)),
    }
}

/// Reads an authentication answer into a session on the given server, as
/// [`spec_parse_auth`] reads it.
pub fn parse_auth_response(server: &MiraiServer, v: &JsonValue) -> (r: Result<Session, Error>)
    ensures
        match r {
            Ok(s) => spec_parse_auth(v@) is Ok && s@ == (SessionV {
                server: server@,
                key: spec_parse_auth(v@)->Ok_0,
                bound: None,
            }),
            Err(e) => spec_parse_auth(v@) is Err && e@ == spec_parse_auth(v@)->Err_0,
        },
{
    let fields = match v.as_obj() {
        Some(f) => f,
        None => {
            return Err(crate::error::client_error("malformed response"));
        },
    };
    let code = match field_u16(fields, "code") {
        Some(c) => c,
        None => {
            return Err(crate::error::client_error("malformed response"));
        },
    };
    if let Err(e) = crate::error::check_code(code, "Auth") {
        return Err(e);
    }
    match crate::json::field_opt_string(fields, "session") {
        Some(Some(key)) => Ok(
            Session {
                server: MiraiServer { base_url: server.base_url.clone() },
                key,
                bound: None,
            },
        ),
        Some(None) => Err(crate::error::client_error("session is None")),
        None => Err(crate::error::client_error("malformed response")),
    }
}

/// Model of a [`CommonResponse`].
#[verifier::ext_equal]
pub struct CommonResponseV {
    pub code: Code,
    pub msg: Seq<char>,
}

/// The gateway's plainest answer: a status code and a message.
#[derive(Debug, Clone, PartialEq, Eq)]
pub struct CommonResponse {
    code: Code,
    msg: String,
}

impl View for CommonResponse {
    type V = CommonResponseV;

    closed spec fn view(&self) -> CommonResponseV {
        CommonResponseV { code: self.code, msg: self.msg@ }
    }
}

impl CommonResponse {
    /// Packs a status code with its message.
    pub fn new(code: Code, msg: String) -> (r: CommonResponse)
        ensures
            r@ == (CommonResponseV { code, msg: msg@ }),
    {
        CommonResponse { code, msg }
    }

    /// The status code.
    pub fn code(&self) -> (r: Code)
        ensures
            r == self@.code,
    {
        self.code
    }

    /// The message.
    pub fn msg(&self) -> (r: &String)
        ensures
            r@ == self@.msg,
    {
        &self.msg
    }
}

/// How the plainest answer reads: both fields are required.
pub open spec fn spec_parse_common(v: JVal) -> Result<CommonResponseV, crate::error::ErrorV> {
    match v {
        JVal::Obj(o) => match (spec_field_u16(o, "code"@), spec_field_str(o, "msg"@)) {
            (Some(code), Some(msg)) => Ok(CommonResponseV { code, msg }),
            _ => Err(spec_client_error("malformed response"@)),
        },
        _ => Err(spec_client_error("malformed response"@)),
    }
}

/// Reads the plainest answer, as [`spec_parse_common`] reads it.
pub fn parse_common_response(v: &JsonValue) -> (r: Result<CommonResponse, Error>)
    ensures
        match r {
            Ok(resp) => spec_parse_common(v@) == Ok::<CommonResponseV, crate::error::ErrorV>(
                resp@,
            ),
            Err(e) => spec_parse_common(v@) is Err && e@ == spec_parse_common(v@)->Err_0,
        },
{
    let fields = match v.as_obj() {
        Some(f) => f,
        None => {
            return Err(crate::error::client_error("malformed response"));
        },
    };
    match (field_u16(fields, "code"), field_string(fields, "msg")) {
        (Some(code), Some(msg)) => Ok(CommonResponse { code, msg }),
        _ => Err(crate::error::client_error("malformed response")),
    }
}

/// Model of an [`AboutData`].
#[verifier::ext_equal]
pub struct AboutDataV {
    pub version: Seq<char>,
}

/// What the server says about itself: its version.
#[derive(Debug, Clone, PartialEq, Eq)]
pub struct AboutData {
    version: String,
}

impl View for AboutData {
    type V = AboutDataV;

    closed spec fn view(&self) -> AboutDataV {
        AboutDataV { version: self.version@ }
    }
}

impl AboutData {
    /// Packs a version string.
    pub fn new(version: String) -> (r: AboutData)
        ensures
            r@ == (AboutDataV { version: version@ }),
    {
        AboutData { version }
    }

    /// The server's version.
    pub fn version(&self) -> (r: &String)
        ensures
            r@ == self@.version,
    {
        &self.version
    }
}

/// Model of an [`AboutResponse`].
#[verifier::ext_equal]
pub struct AboutResponseV {
    pub code: Code,
    pub data: AboutDataV,
}

/// The answer to an about request.
#[derive(Debug, Clone, PartialEq, Eq)]
pub struct AboutResponse {
    code: Code,
    data: AboutData,
}

impl View for AboutResponse {
    type V = AboutResponseV;

    closed spec fn view(&self) -> AboutResponseV {
        AboutResponseV { code: self.code, data: self.data@ }
    }
}

impl AboutResponse {
    /// Packs a status code with the server's data.
    pub fn new(code: Code, data: AboutData) -> (r: AboutResponse)
        ensures
            r@ == (AboutResponseV { code, data: data@ }),
    {
        AboutResponse { code, data }
    }

    /// The status code.
    pub fn code(&self) -> (r: Code)
        ensures
            r == self@.code,
    {
        self.code
    }

    /// The server's data.
    pub fn data(&self) -> (r: &AboutData)
        ensures
            r@ == self@.data,
    {
        &self.data
    }
}

/// How an about answer reads: a code and a data object with a version.
pub open spec fn spec_parse_about(v: JVal) -> Result<AboutResponseV, crate::error::ErrorV> {
    match v {
        JVal::Obj(o) => match (spec_field_u16(o, "code"@), obj_get(o, "data"@)) {
            (Some(code), Some(JVal::Obj(data))) => match spec_field_str(data, "version"@) {
                Some(version) => Ok(AboutResponseV { code, data: AboutDataV { version } }),
                None => Err(spec_client_error("malformed response"@)),
            },
            _ => Err(spec_client_error("malformed response"@)),
        },
        _ => Err(spec_client_error("malformed response"@)),
    }
}

/// Reads an about answer, as [`spec_parse_about`] reads it.
pub fn parse_about_response(v: &JsonValue) -> (r: Result<AboutResponse, Error>)
    ensures
        match r {
            Ok(resp) => spec_parse_about(v@) == Ok::<AboutResponseV, crate::error::ErrorV>(resp@),
            Err(e) => spec_parse_about(v@) is Err && e@ == spec_parse_about(v@)->Err_0,
        },
{
    let fields = match v.as_obj() {
        Some(f) => f,
        None => {
            return Err(crate::error::client_error("malformed response"));
        },
    };
    let code = match field_u16(fields, "code") {
        Some(c) => c,
        None => {
            return Err(crate::error::client_error("malformed response"));
        },
    };
    let data_fields = match get_field(fields, "data") {
        Some(d) => match d.as_obj() {
            Some(df) => df,
            None => {
                return Err(crate::error::client_error("malformed response"));
            },
        },
        None => {
            return Err(crate::error::client_error("malformed response"));
        },
    };
    match field_string(data_fields, "version") {
        Some(version) => Ok(AboutResponse { code, data: AboutData { version } }),
        None => Err(crate::error::client_error("malformed response")),
    }
}

} // verus!
