//! What can go wrong while a job is handled or a connection is made.

use crate::text::prefixed;
use vstd::prelude::*;
use vstd::std_specs::convert::FromSpec;

verus! {

/// How an error of another library reads: as `{}` and as `{:?}` print it.
#[derive(Debug, Clone)]
pub struct ErrText {
    pub display: String,
    pub debug: String,
}

/// The kinds of I/O failure that the client tells apart.
#[derive(Debug, Clone, Copy, PartialEq, Eq, Structural)]
pub enum IoErrorKind {
    NotFound,
    AlreadyExists,
    Other,
}

/// A failed file or directory operation.
#[derive(Debug, Clone)]
pub struct IoError {
    pub kind: IoErrorKind,
    pub text: ErrText,
}

/// A failed websocket operation. `io` holds the I/O error that caused it, where
/// one did; `text` is the text of the websocket error as a whole.
#[derive(Debug, Clone)]
pub struct WsError {
    pub io: Option<IoError>,
    pub text: ErrText,
}

/// A failed web request.
#[derive(Debug, Clone)]
pub struct RequestError(pub ErrText);

/// A value that could not be read from, or written as, JSON.
#[derive(Debug, Clone)]
pub struct JsonError(pub ErrText);

/// A value that could not be read from TOML.
#[derive(Debug, Clone)]
pub struct TomlError(pub ErrText);

/// A failure of the machinery that builds and runs tests.
#[derive(Debug, Clone)]
pub struct ExecError(pub ErrText);

/// Any other failure.
#[derive(Debug, Clone)]
pub struct AnyError(pub ErrText);

/// Why a job could not be carried out.
#[derive(Debug, Clone)]
pub enum JobExecErr {
    NoSuchFile(String),
    NoSuchConfig(String),
    Io(IoError),
    Request(RequestError),
    Ws(WsError),
    Json(JsonError),
    TomlDes(TomlError),
    Exec(ExecError),
    Cancelled,
    Any(AnyError),
}

/// Why the coordinator could not be connected to.
#[derive(Debug, Clone)]
pub enum ClientConnectionErr {
    Ws(WsError),
    BadAccessToken,
    BadRegisterToken,
}

impl JobExecErr {
    /// The one-line text of the error.
    pub open spec fn display_text(self) -> Seq<char> {
        match self {
            JobExecErr::NoSuchFile(f) => "No such file: "@ + f@,
            JobExecErr::NoSuchConfig(f) => "No such config: "@ + f@,
            JobExecErr::Io(e) => "IO error: "@ + e.text.display@,
            JobExecErr::Request(e) => "Web request error: "@ + e.0.display@,
            JobExecErr::Ws(e) => "Websocket error: "@ + e.text.display@,
            JobExecErr::Json(e) => "JSON error: "@ + e.0.display@,
            JobExecErr::TomlDes(e) => "TOML error: "@ + e.0.display@,
            JobExecErr::Exec(e) => "Execution error: "@ + e.0.display@,
            JobExecErr::Cancelled => "Job was cancelled"@,
            JobExecErr::Any(e) => "Other error: "@ + e.0.display@,
        }
    }

    /// The one-line text of the error.
    pub fn display(&self) -> (r: String)
        ensures
            r@ == self.display_text(),
    {
        match self {
            JobExecErr::NoSuchFile(f) => prefixed("No such file: ", f.as_str()),
            JobExecErr::NoSuchConfig(f) => prefixed("No such config: ", f.as_str()),
            JobExecErr::Io(e) => prefixed("IO error: ", e.text.display.as_str()),
            JobExecErr::Request(e) => prefixed("Web request error: ", e.0.display.as_str()),
            JobExecErr::Ws(e) => prefixed("Websocket error: ", e.text.display.as_str()),
            JobExecErr::Json(e) => prefixed("JSON error: ", e.0.display.as_str()),
            JobExecErr::TomlDes(e) => prefixed("TOML error: ", e.0.display.as_str()),
            JobExecErr::Exec(e) => prefixed("Execution error: ", e.0.display.as_str()),
            JobExecErr::Cancelled => "Job was cancelled".to_owned(),
            JobExecErr::Any(e) => prefixed("Other error: ", e.0.display.as_str()),
        }
    }
}

impl vstd::std_specs::convert::FromSpecImpl<WsError> for JobExecErr {
    open spec fn obeys_from_spec() -> bool {
        true
    }

    open spec fn from_spec(e: WsError) -> Self {
        match e.io {
            Some(io) => JobExecErr::Io(io),
            None => JobExecErr::Ws(e),
        }
    }
}

/// A websocket failure that an I/O error caused counts as that I/O error.
impl From<WsError> for JobExecErr {
    fn from(e: WsError) -> (r: Self) {
        match e.io {
            Some(io) => JobExecErr::Io(io),
            None => JobExecErr::Ws(e),
        }
    }
}

impl vstd::std_specs::convert::FromSpecImpl<IoError> for JobExecErr {
    open spec fn obeys_from_spec() -> bool {
        true
    }

    open spec fn from_spec(e: IoError) -> Self {
        JobExecErr::Io(e)
    }
}

impl From<IoError> for JobExecErr {
    fn from(e: IoError) -> (r: Self) {
        JobExecErr::Io(e)
    }
}

impl vstd::std_specs::convert::FromSpecImpl<RequestError> for JobExecErr {
    open spec fn obeys_from_spec() -> bool {
        true
    }

    open spec fn from_spec(e: RequestError) -> Self {
        JobExecErr::Request(e)
    }
}

impl From<RequestError> for JobExecErr {
    fn from(e: RequestError) -> (r: Self) {
        JobExecErr::Request(e)
    }
}

impl vstd::std_specs::convert::FromSpecImpl<JsonError> for JobExecErr {
    open spec fn obeys_from_spec() -> bool {
        true
    }

    open spec fn from_spec(e: JsonError) -> Self {
        JobExecErr::Json(e)
    }
}

impl From<JsonError> for JobExecErr {
    fn from(e: JsonError) -> (r: Self) {
        JobExecErr::Json(e)
    }
}

impl vstd::std_specs::convert::FromSpecImpl<TomlError> for JobExecErr {
    open spec fn obeys_from_spec() -> bool {
        true
    }

    open spec fn from_spec(e: TomlError) -> Self {
        JobExecErr::TomlDes(e)
    }
}

impl From<TomlError> for JobExecErr {
    fn from(e: TomlError) -> (r: Self) {
        JobExecErr::TomlDes(e)
    }
}

impl vstd::std_specs::convert::FromSpecImpl<ExecError> for JobExecErr {
    open spec fn obeys_from_spec() -> bool {
        true
    }

    open spec fn from_spec(e: ExecError) -> Self {
        JobExecErr::Exec(e)
    }
}

impl From<ExecError> for JobExecErr {
    fn from(e: ExecError) -> (r: Self) {
        JobExecErr::Exec(e)
    }
}

impl vstd::std_specs::convert::FromSpecImpl<AnyError> for JobExecErr {
    open spec fn obeys_from_spec() -> bool {
        true
    }

    open spec fn from_spec(e: AnyError) -> Self {
        JobExecErr::Any(e)
    }
}

impl From<AnyError> for JobExecErr {
    fn from(e: AnyError) -> (r: Self) {
        JobExecErr::Any(e)
    }
}

impl vstd::std_specs::convert::FromSpecImpl<WsError> for ClientConnectionErr {
    open spec fn obeys_from_spec() -> bool {
        true
    }

    open spec fn from_spec(e: WsError) -> Self {
        ClientConnectionErr::Ws(e)
    }
}

impl From<WsError> for ClientConnectionErr {
    fn from(e: WsError) -> (r: Self) {
        ClientConnectionErr::Ws(e)
    }
}

/// The one-line text of an error says what kind of error it is, and then what the error
/// itself says: nothing of that is lost, whatever it is.
pub proof fn law_display_text(e: JobExecErr)
    ensures
        e matches JobExecErr::NoSuchFile(f) ==> e.display_text() == "No such file: "@ + f@,
        e matches JobExecErr::NoSuchConfig(f) ==> e.display_text() == "No such config: "@ + f@,
        e matches JobExecErr::Io(x) ==> e.display_text() == "IO error: "@ + x.text.display@,
        e matches JobExecErr::Request(x) ==> e.display_text() == "Web request error: "@
            + x.0.display@,
        e matches JobExecErr::Ws(x) ==> e.display_text() == "Websocket error: "@ + x.text.display@,
        e matches JobExecErr::Json(x) ==> e.display_text() == "JSON error: "@ + x.0.display@,
        e matches JobExecErr::TomlDes(x) ==> e.display_text() == "TOML error: "@ + x.0.display@,
        e matches JobExecErr::Exec(x) ==> e.display_text() == "Execution error: "@ + x.0.display@,
        e is Cancelled ==> e.display_text() == "Job was cancelled"@,
        e matches JobExecErr::Any(x) ==> e.display_text() == "Other error: "@ + x.0.display@,
{
}

/// Every error becomes the variant that is named after it and is kept in it, but for a
/// websocket error that an I/O error caused: of that, the I/O error is kept.
pub proof fn law_conversions(
    ws: WsError,
    io: IoError,
    request: RequestError,
    json: JsonError,
    toml: TomlError,
    exec_error: ExecError,
    any: AnyError,
)
    ensures
        ws.io matches Some(cause) ==> <JobExecErr as FromSpec<WsError>>::from_spec(ws)
            == JobExecErr::Io(cause),
        ws.io is None ==> <JobExecErr as FromSpec<WsError>>::from_spec(ws) == JobExecErr::Ws(ws),
        <JobExecErr as FromSpec<IoError>>::from_spec(io) == JobExecErr::Io(io),
        <JobExecErr as FromSpec<RequestError>>::from_spec(request) == JobExecErr::Request(request),
        <JobExecErr as FromSpec<JsonError>>::from_spec(json) == JobExecErr::Json(json),
        <JobExecErr as FromSpec<TomlError>>::from_spec(toml) == JobExecErr::TomlDes(toml),
        <JobExecErr as FromSpec<ExecError>>::from_spec(exec_error) == JobExecErr::Exec(exec_error),
        <JobExecErr as FromSpec<AnyError>>::from_spec(any) == JobExecErr::Any(any),
        <ClientConnectionErr as FromSpec<WsError>>::from_spec(ws) == ClientConnectionErr::Ws(ws),
{
}

} // verus!
