//! The crate's error shapes.
//!
//! The gateway answers every command with a status code; [`check_code`]
//! turns a non-zero code into a server-side [`Error`] carrying the code's
//! meaning. Client-side failures carry a plain message. [`MiraiError`]
//! is the older combined shape, still used by the message builder, and
//! [`StatusCodeError`] renders a code/action pair as one line of text.

use vstd::prelude::*;
use vstd::string::StringExecFns;

use crate::Code;

verus! {

pub const SUCCESS: Code = 0;

pub const WRONG_AUTH_KEY: Code = 1;

pub const NO_SUCH_BOT: Code = 2;

pub const WRONG_SESSION: Code = 3;

pub const UNAUTHORIZED: Code = 4;

pub const NO_SUCH_TARGET: Code = 5;

pub const NO_SUCH_FILE: Code = 6;

pub const PERMISSION_DENIED: Code = 10;

pub const MUTED: Code = 20;

pub const MESSAGE_TOO_LONG: Code = 30;

pub const BAD_REQUEST: Code = 400;

/// The meaning of a non-zero gateway status code.
pub open spec fn spec_code_msg(code: Code) -> Seq<char> {
    if code == WRONG_AUTH_KEY {
        "Wrong auth key"@
    } else if code == NO_SUCH_BOT {
        "No such bot"@
    } else if code == WRONG_SESSION {
        "Wrong session"@
    } else if code == UNAUTHORIZED {
        "Session wasn't authorized"@
    } else if code == NO_SUCH_TARGET {
        "No such target"@
    } else if code == NO_SUCH_FILE {
        "No such file"@
    } else if code == PERMISSION_DENIED {
        "Bot permission denied"@
    } else if code == MUTED {
        "Bot was muted"@
    } else if code == MESSAGE_TOO_LONG {
        "Message is too long"@
    } else if code == BAD_REQUEST {
        "Bad request"@
    } else {
        "Unknown code"@
    }
}

/// Which side a failure came from.
#[derive(Debug, Clone, Copy, PartialEq, Eq, Structural)]
pub enum ErrorKind {
    Server,
    Client,
}

/// Model of a [`ServerError`].
#[verifier::ext_equal]
pub struct ServerErrorV {
    pub code: Code,
    pub msg: Seq<char>,
}

/// A non-zero status code together with its meaning.
#[derive(Debug, Clone, PartialEq)]
pub struct ServerError {
    code: Code,
    msg: String,
}

impl View for ServerError {
    type V = ServerErrorV;

    closed spec fn view(&self) -> ServerErrorV {
        ServerErrorV { code: self.code, msg: self.msg@ }
    }
}

impl ServerError {
    /// Packs a status code with its message.
    pub fn new(code: Code, msg: String) -> (r: Self)
        ensures
            r@ == (ServerErrorV { code, msg: msg@ }),
    {
        ServerError { code, msg }
    }

    /// The status code this error carries.
    pub fn code(&self) -> (r: Code)
        ensures
            r == self@.code,
    {
        self.code
    }

    /// The message this error carries.
    pub fn msg(&self) -> (r: &String)
        ensures
            r@ == self@.msg,
    {
        &self.msg
    }
}

/// A client-side failure message that borrows its text.
#[derive(Debug, Clone, Copy, PartialEq)]
pub struct ClientError<'m> {
    msg: &'m str,
}

impl<'m> ClientError<'m> {
    /// Wraps a message.
    pub fn new(msg: &'m str) -> (r: Self)
        ensures
            r@ == msg@,
    {
        ClientError { msg }
    }

    /// The message this error carries.
    pub fn msg(&self) -> (r: &'m str)
        ensures
            r@ == self@,
    {
        self.msg
    }
}

impl<'m> View for ClientError<'m> {
    type V = Seq<char>;

    closed spec fn view(&self) -> Seq<char> {
        self.msg@
    }
}

/// Model of an [`ErrorSource`].
#[verifier::ext_equal]
pub enum ErrorSourceV {
    Server(ServerErrorV),
    Client(Seq<char>),
}

/// What a failure wraps: a gateway status error or a client message.
#[derive(Debug, Clone, PartialEq)]
pub enum ErrorSource {
    Server(ServerError),
    Client(String),
}

impl View for ErrorSource {
    type V = ErrorSourceV;

    open spec fn view(&self) -> ErrorSourceV {
        match self {
            ErrorSource::Server(e) => ErrorSourceV::Server(e@),
            ErrorSource::Client(msg) => ErrorSourceV::Client(msg@),
        }
    }
}

/// Model of an [`Error`].
#[verifier::ext_equal]
pub struct ErrorV {
    pub kind: ErrorKind,
    pub source: ErrorSourceV,
}

/// A failure of a gateway call.
#[derive(Debug, Clone, PartialEq)]
pub struct Error {
    kind: ErrorKind,
    source: ErrorSource,
}

impl View for Error {
    type V = ErrorV;

    closed spec fn view(&self) -> ErrorV {
        ErrorV { kind: self.kind, source: self.source@ }
    }
}

impl Error {
    /// Packs a failure with the side it came from.
    pub fn new(kind: ErrorKind, source: ErrorSource) -> (r: Error)
        ensures
            r@ == (ErrorV { kind, source: source@ }),
    {
        Error { kind, source }
    }

    /// Which side this failure came from.
    pub fn kind(&self) -> (r: ErrorKind)
        ensures
            r == self@.kind,
    {
        self.kind
    }

    /// What this failure wraps.
    pub fn source(&self) -> (r: &ErrorSource)
        ensures
            r@ == self@.source,
    {
        &self.source
    }
}

/// The error a [`check_code`] failure carries for a given code.
pub open spec fn spec_code_error(code: Code) -> ErrorV {
    ErrorV {
        kind: ErrorKind::Server,
        source: ErrorSourceV::Server(ServerErrorV { code, msg: spec_code_msg(code) }),
    }
}

/// Accepts a zero status code and turns any other into a server error
/// carrying that code and its meaning.
pub fn check_code(code: Code, action: &str) -> (r: Result<(), Error>)
    ensures
        r is Ok <==> code == SUCCESS,
        r is Err ==> r->Err_0@ == spec_code_error(code),
{
    let msg: &str = if code == SUCCESS {
        return Ok(());
    } else if code == WRONG_AUTH_KEY {
        "Wrong auth key"
    } else if code == NO_SUCH_BOT {
        "No such bot"
    } else if code == WRONG_SESSION {
        "Wrong session"
    } else if code == UNAUTHORIZED {
        "Session wasn't authorized"
    } else if code == NO_SUCH_TARGET {
        "No such target"
    } else if code == NO_SUCH_FILE {
        "No such file"
    } else if code == PERMISSION_DENIED {
        "Bot permission denied"
    } else if code == MUTED {
        "Bot was muted"
    } else if code == MESSAGE_TOO_LONG {
        "Message is too long"
    } else if code == BAD_REQUEST {
        "Bad request"
    } else {
        "Unknown code"
    };
    Err(Error::new(ErrorKind::Server, ErrorSource::Server(ServerError::new(code, msg.to_owned()))))
}

/// The error a client-side failure carries for a given message.
pub open spec fn spec_client_error(msg: Seq<char>) -> ErrorV {
    ErrorV { kind: ErrorKind::Client, source: ErrorSourceV::Client(msg) }
}

/// A client-side failure from a fixed message.
pub fn client_error(msg: &'static str) -> (r: Error)
    ensures
        r@ == (ErrorV { kind: ErrorKind::Client, source: ErrorSourceV::Client(msg@) }),
{
    Error::new(ErrorKind::Client, ErrorSource::Client(msg.to_owned()))
}

/// Model of a [`MiraiError`].
#[verifier::ext_equal]
pub enum MiraiErrorV {
    CodeError(Code, Seq<char>),
    ImpossibleError(Seq<char>),
    HttpError(Seq<char>),
    MessageBuildingError(Seq<char>),
}

/// The combined error shape: a status code with text, an answer that broke
/// the protocol's promises, a transport failure's text, or a message that
/// could not be built.
#[derive(Debug, Clone, PartialEq)]
pub enum MiraiError {
    CodeError(Code, String),
    ImpossibleError(String),
    HttpError(String),
    MessageBuildingError(&'static str),
}

impl View for MiraiError {
    type V = MiraiErrorV;

    open spec fn view(&self) -> MiraiErrorV {
        match self {
            MiraiError::CodeError(code, msg) => MiraiErrorV::CodeError(*code, msg@),
            MiraiError::ImpossibleError(msg) => MiraiErrorV::ImpossibleError(msg@),
            MiraiError::HttpError(msg) => MiraiErrorV::HttpError(msg@),
            MiraiError::MessageBuildingError(msg) => MiraiErrorV::MessageBuildingError(msg@),
        }
    }
}

/// The display line of a [`MiraiError`]: a code error shows the code,
/// then a colon, then its text; the others show their text alone.
pub open spec fn spec_mirai_error_line(e: MiraiErrorV) -> Seq<char> {
    match e {
        MiraiErrorV::CodeError(code, msg) => crate::text::spec_u64_text(code as int) + ": "@ + msg,
        MiraiErrorV::ImpossibleError(msg) => msg,
        MiraiErrorV::HttpError(msg) => msg,
        MiraiErrorV::MessageBuildingError(msg) => msg,
    }
}

impl MiraiError {
    /// Renders the error as one line, as [`spec_mirai_error_line`] gives it.
    pub fn message(&self) -> (r: String)
        ensures
            r@ == spec_mirai_error_line(self@),
    {
        match self {
            MiraiError::CodeError(code, msg) => {
                let mut s = crate::text::u64_to_string(*code as u64);
                s.append(": ");
                s.append(msg.as_str());
                proof {
                    assert(s@ =~= spec_mirai_error_line(self@));
                }
                s
            },
            MiraiError::ImpossibleError(msg) => msg.clone(),
            MiraiError::HttpError(msg) => msg.clone(),
            MiraiError::MessageBuildingError(msg) => (*msg).to_owned(),
        }
    }
}

/// Model of a [`StatusCodeError`].
#[verifier::ext_equal]
pub struct StatusCodeErrorV {
    pub code: Code,
    pub action: Seq<char>,
}

/// A status code paired with the action that got it.
#[derive(Debug, Clone, PartialEq)]
pub struct StatusCodeError {
    code: Code,
    action: String,
}

impl View for StatusCodeError {
    type V = StatusCodeErrorV;

    closed spec fn view(&self) -> StatusCodeErrorV {
        StatusCodeErrorV { code: self.code, action: self.action@ }
    }
}

/// The display line of a [`StatusCodeError`]: nothing for a zero code,
/// else the action in brackets and the code's meaning.
pub open spec fn spec_status_line(e: StatusCodeErrorV) -> Seq<char> {
    if e.code == SUCCESS {
        Seq::empty()
    } else {
        "["@ + e.action + "] "@ + spec_code_msg(e.code)
    }
}

impl StatusCodeError {
    /// Packs a status code with the action that got it.
    pub fn new(code: Code, action: String) -> (r: Self)
        ensures
            r@ == (StatusCodeErrorV { code, action: action@ }),
    {
        StatusCodeError { code, action }
    }

    /// Renders the error as one line, as [`spec_status_line`] gives it.
    pub fn message(&self) -> (r: String)
        ensures
            r@ == spec_status_line(self@),
    {
        if self.code == SUCCESS {
            return String::new();
        }
        let mut s = String::from_str("[");
        s.append(self.action.as_str());
        s.append("] ");
        let meaning: &str = if self.code == WRONG_AUTH_KEY {
            "Wrong auth key"
        } else if self.code == NO_SUCH_BOT {
            "No such bot"
        } else if self.code == WRONG_SESSION {
            "Wrong session"
        } else if self.code == UNAUTHORIZED {
            "Session wasn't authorized"
        } else if self.code == NO_SUCH_TARGET {
            "No such target"
        } else if self.code == NO_SUCH_FILE {
            "No such file"
        } else if self.code == PERMISSION_DENIED {
            "Bot permission denied"
        } else if self.code == MUTED {
            "Bot was muted"
        } else if self.code == MESSAGE_TOO_LONG {
            "Message is too long"
        } else if self.code == BAD_REQUEST {
            "Bad request"
        } else {
            "Unknown code"
        };
        s.append(meaning);
        proof {
            assert(s@ =~= spec_status_line(self@));
        }
        s
    }
}

/// Model of an [`HttpError`].
#[verifier::ext_equal]
pub enum HttpErrorV {
    Reqwest(Seq<char>),
    StatusCode(StatusCodeErrorV),
}

/// What a transport call can fail with: the transport failure's own text,
/// or a bad status code.
#[derive(Debug, Clone, PartialEq)]
pub enum HttpError {
    Reqwest(String),
    StatusCode(StatusCodeError),
}

impl View for HttpError {
    type V = HttpErrorV;

    open spec fn view(&self) -> HttpErrorV {
        match self {
            HttpError::Reqwest(msg) => HttpErrorV::Reqwest(msg@),
            HttpError::StatusCode(e) => HttpErrorV::StatusCode(e@),
        }
    }
}

impl HttpError {
    /// Renders the failure as one line: the transport text, or the
    /// status line of [`StatusCodeError::message`].
    pub fn message(&self) -> (r: String)
        ensures
            r@ == (match self@ {
                HttpErrorV::Reqwest(msg) => msg,
                HttpErrorV::StatusCode(e) => spec_status_line(e),
            }),
    {
        match self {
            HttpError::Reqwest(msg) => msg.clone(),
            HttpError::StatusCode(e) => e.message(),
        }
    }
}

impl From<StatusCodeError> for HttpError {
    /// Wraps a status-code failure.
    fn from(e: StatusCodeError) -> (r: HttpError) {
        HttpError::StatusCode(e)
    }
}

impl vstd::std_specs::convert::FromSpecImpl<StatusCodeError> for HttpError {
    open spec fn obeys_from_spec() -> bool {
        true
    }

    open spec fn from_spec(e: StatusCodeError) -> HttpError {
        HttpError::StatusCode(e)
    }
}

} // verus!
