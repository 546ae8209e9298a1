//! What a caller is told when a request fails: a status and a JSON body with
//! one field.

use vstd::prelude::*;
use vstd::string::*;

verus! {

/// Status of a request that was answered.
pub const OK: u16 = 200;

/// Status of a request that was answered with something it made, or found made.
pub const CREATED: u16 = 201;

/// Status of a request that the caller got wrong.
pub const BAD_REQUEST: u16 = 400;

/// Status of a request whose caller is not known.
pub const UNAUTHORIZED: u16 = 401;

/// Status of a request that failed on the server's side.
pub const INTERNAL_SERVER_ERROR: u16 = 500;

/// Where a request failed on the server's side. It stands for the cause in
/// the server's log and is never shown to the caller.
#[derive(Debug, Clone, Copy, PartialEq, Eq, Structural)]
pub enum Fault {
    FindUser,
    SpawnHashTask,
    HashPassword,
    InsertUser,
    GenerateToken,
    QueryUser,
    VerifyPassword,
    LoadPeer,
    QueryChat,
    InsertChat,
    /// An answer arrived that the step in progress had not asked for.
    UnexpectedEvent,
}

impl Fault {
    /// The line for the log.
    pub open spec fn text(self) -> Seq<char> {
        match self {
            Fault::FindUser => "Failed to find exist user"@,
            Fault::SpawnHashTask => "Failed to spawn password hash task"@,
            Fault::HashPassword => "Failed to hash password"@,
            Fault::InsertUser => "Failed to insert new user"@,
            Fault::GenerateToken => "Failed to generate token"@,
            Fault::QueryUser => "Failed to query user"@,
            Fault::VerifyPassword => "Failed to verify password"@,
            Fault::LoadPeer => "Failed to load peer user"@,
            Fault::QueryChat => "Failed to query exist chat"@,
            Fault::InsertChat => "Failed to insert chat entity"@,
            Fault::UnexpectedEvent => "Unexpected event"@,
        }
    }

    /// Says which step failed, for the log.
    pub fn context(&self) -> (msg: &'static str)
        ensures
            msg@ == self.text(),
    {
        match self {
            Fault::FindUser => "Failed to find exist user",
            Fault::SpawnHashTask => "Failed to spawn password hash task",
            Fault::HashPassword => "Failed to hash password",
            Fault::InsertUser => "Failed to insert new user",
            Fault::GenerateToken => "Failed to generate token",
            Fault::QueryUser => "Failed to query user",
            Fault::VerifyPassword => "Failed to verify password",
            Fault::LoadPeer => "Failed to load peer user",
            Fault::QueryChat => "Failed to query exist chat",
            Fault::InsertChat => "Failed to insert chat entity",
            Fault::UnexpectedEvent => "Unexpected event",
        }
    }
}

/// The text of an unexpected failure for the log: `Unknown error: ` and the
/// step that failed.
pub open spec fn unknown_error_text(fault: Fault) -> Seq<char> {
    "Unknown error: "@ + fault.text()
}

/// Writes the line of an unexpected failure for the log.
pub fn unknown_error_line(fault: Fault) -> (line: String)
    ensures
        line@ == unknown_error_text(fault),
{
    let mut line = "Unknown error: ".to_owned();
    line.append(fault.context());
    line
}

/// A failure as it goes out: the HTTP status and the text of the body.
#[derive(Debug, PartialEq, Eq)]
pub struct ErrorResponse {
    pub status: u16,
    pub body: String,
}

/// The JSON text of an object with the single field `error`, holding the
/// message as a JSON string: what `serde_json` writes for it, without spaces.
pub uninterp spec fn error_json(msg: Seq<char>) -> Seq<char>;

/// The body of every failure: `{"error": msg}`.
///
/// Builds a `serde_json::Map` with the one entry and writes it with
/// `serde_json::Value`'s `to_string`. The contract claims that the text is the
/// one named [`error_json`]; the escaping of the message is `serde_json`'s.
#[verifier::external_body]
pub fn create_error_json(msg: &str) -> (body: String)
    ensures
        body@ == error_json(msg@),
{
    let mut fields = serde_json::Map::new();
    fields.insert("error".to_string(), serde_json::Value::from(msg));
    serde_json::Value::Object(fields).to_string()
}

/// A failure with the given status and message.
pub fn response_error(status: u16, msg: &str) -> (response: ErrorResponse)
    ensures
        response.status == status,
        response.body@ == error_json(msg@),
{
    ErrorResponse { status, body: create_error_json(msg) }
}

} // verus!
