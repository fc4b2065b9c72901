//! The server API's payloads, and the decisions the client takes on what
//! comes back: which statuses count as success, how a failure reads, and how
//! a failed session creation is classified.
use vstd::prelude::*;

use crate::protocol::{Message, Mode, ModelId, ModelKind};

verus! {

/// Response payload of `GET /health`.
#[derive(Debug, Clone)]
pub struct HealthResponse {
    pub ok: bool,
    pub service: String,
    pub version: String,
}

/// One entry of the model registry returned by `GET /models`.
#[derive(Debug, Clone)]
pub struct ModelEntry {
    /// Provider-side model id.
    pub id: String,
    /// Human-friendly display name.
    pub display_name: String,
    /// Which API shape serves the model.
    pub kind: ModelKind,
}

/// A session without its history. Timestamps are milliseconds since the epoch.
#[derive(Debug, Clone)]
pub struct SessionSummary {
    pub id: u128,
    pub title: String,
    pub model: ModelId,
    pub mode: Mode,
    pub created_at: i64,
}

/// A session with its ordered message history. Timestamps are milliseconds
/// since the epoch.
#[derive(Debug)]
pub struct Session {
    pub id: u128,
    pub title: String,
    pub model: ModelId,
    pub mode: Mode,
    pub created_at: i64,
    pub updated_at: i64,
    pub messages: Vec<Message>,
}

/// The body of `POST /sessions`: only the title is required.
#[derive(Debug, Clone, PartialEq)]
pub struct CreateSessionRequest {
    pub title: String,
    pub model: Option<ModelId>,
    pub mode: Option<Mode>,
}

/// Errors raised at the network boundary.
#[derive(Debug, Clone, PartialEq)]
pub enum NetError {
    /// The request produced no response; carries the transport's message.
    Transport(String),
    /// A non-success status: its code and its rendered form (such as `404 Not Found`).
    Status(u16, String),
    /// A body or frame failed to decode; carries the decoder's message.
    Decode(String),
    /// The event stream broke mid-flight.
    Stream(String),
}

/// Whether an HTTP status code is a success (`2xx`).
pub open spec fn status_is_success(code: u16) -> bool {
    200 <= code <= 299
}

/// Whether a response with `code` is passed on for decoding.
pub fn ensure_success(code: u16) -> (ok: bool)
    ensures
        ok == status_is_success(code),
{
    200 <= code && code <= 299
}

/// How a network error reads.
pub open spec fn net_error_text(e: NetError) -> Seq<char> {
    match e {
        NetError::Transport(m) => "transport error: "@ + m@,
        NetError::Status(_, s) => "server returned status "@ + s@,
        NetError::Decode(m) => "decode error: "@ + m@,
        NetError::Stream(m) => "stream error: "@ + m@,
    }
}

/// `prefix` followed by `rest`.
pub fn concat_str(prefix: &str, rest: &str) -> (s: String)
    ensures
        s@ == prefix@ + rest@,
{
    let mut s = prefix.to_string();
    s.append(rest);
    s
}

impl NetError {
    /// The error's message.
    pub fn describe(&self) -> (s: String)
        ensures
            s@ == net_error_text(*self),
    {
        match self {
            NetError::Transport(m) => concat_str("transport error: ", m.as_str()),
            NetError::Status(_, s) => concat_str("server returned status ", s.as_str()),
            NetError::Decode(m) => concat_str("decode error: ", m.as_str()),
            NetError::Stream(m) => concat_str("stream error: ", m.as_str()),
        }
    }
}

/// Why a `POST /sessions` failed.
#[derive(Debug, Clone, PartialEq)]
pub enum CreateError {
    /// The server rejected the request because the title was empty.
    EmptyTitle(String),
    /// Any other failure.
    Other(String),
}

impl CreateError {
    /// The failure's message.
    pub fn message(&self) -> (s: &String)
        ensures
            *s == match *self {
                CreateError::EmptyTitle(m) => m,
                CreateError::Other(m) => m,
            },
    {
        match self {
            CreateError::EmptyTitle(m) => m,
            CreateError::Other(m) => m,
        }
    }
}

/// Classify a failed session creation: only `400 Bad Request` is the
/// empty-title rejection; every other failure keeps its own message.
pub fn create_error_from_net(e: NetError) -> (c: CreateError)
    ensures
        match e {
            NetError::Status(400, _) => c matches CreateError::EmptyTitle(m) && m@ == net_error_text(e),
            _ => c matches CreateError::Other(m) && m@ == net_error_text(e),
        },
{
    let text = e.describe();
    match e {
        NetError::Status(code, _) => {
            if code == 400 {
                CreateError::EmptyTitle(text)
            } else {
                CreateError::Other(text)
            }
        },
        _ => CreateError::Other(text),
    }
}

} // verus!
