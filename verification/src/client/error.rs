//! Why a request failed.
use vstd::prelude::*;

use crate::text::{decimal, signed_text};

verus! {

/// Why a request failed.
pub enum ClientError {
    /// The HTTP client could not be set up.
    Setup,
    /// The server's address is no URL.
    InvalidUrl(String),
    /// No response arrived in time.
    SendTimedOut,
    /// The request could not be sent or its response not be read, for the given reason.
    Transport(String),
    /// The session header of the response is not text.
    InvalidSession,
    /// The server answered with a status other than success.
    Status { status: String, body: String },
    /// The body of the response is not JSON.
    InvalidBody,
    /// The response is neither JSON nor an event stream.
    UnsupportedContentType(String),
    /// The event stream could not be read.
    InvalidEvent,
    /// An event of the stream carries no data.
    MissingData,
    /// The data of an event is not JSON.
    InvalidPayload,
    /// The server reported an error.
    Mcp { code: i64, message: String },
    /// The answer to the request holds no result.
    MissingResult,
    /// The body of the response is not the answer to this request.
    UnexpectedId(String),
    /// The event stream of the response did not finish in time.
    StreamTimedOut,
    /// The event stream of the response ended without an answer, and no other stream is open.
    StreamClosed,
    /// The background stream was given up before the answer arrived.
    BackgroundClosed,
    /// The answer did not arrive in time over the background stream.
    BackgroundTimedOut,
    /// The server gave no session identifier to listen with.
    MissingSession,
    /// The result has not the form that the caller expects.
    InvalidResult,
}

/// What a [`ClientError`] stands for.
pub enum Failure {
    Setup,
    InvalidUrl(Seq<char>),
    SendTimedOut,
    Transport(Seq<char>),
    InvalidSession,
    Status { status: Seq<char>, body: Seq<char> },
    InvalidBody,
    UnsupportedContentType(Seq<char>),
    InvalidEvent,
    MissingData,
    InvalidPayload,
    Mcp { code: i64, message: Seq<char> },
    MissingResult,
    UnexpectedId(Seq<char>),
    StreamTimedOut,
    StreamClosed,
    BackgroundClosed,
    BackgroundTimedOut,
    MissingSession,
    InvalidResult,
}

impl View for ClientError {
    type V = Failure;

    open spec fn view(&self) -> Failure {
        match self {
            ClientError::Setup => Failure::Setup,
            ClientError::InvalidUrl(url) => Failure::InvalidUrl(url@),
            ClientError::SendTimedOut => Failure::SendTimedOut,
            ClientError::Transport(reason) => Failure::Transport(reason@),
            ClientError::InvalidSession => Failure::InvalidSession,
            ClientError::Status { status, body } => Failure::Status {
                status: status@,
                body: body@,
            },
            ClientError::InvalidBody => Failure::InvalidBody,
            ClientError::UnsupportedContentType(content_type) => Failure::UnsupportedContentType(
                content_type@,
            ),
            ClientError::InvalidEvent => Failure::InvalidEvent,
            ClientError::MissingData => Failure::MissingData,
            ClientError::InvalidPayload => Failure::InvalidPayload,
            ClientError::Mcp { code, message } => Failure::Mcp { code: *code, message: message@ },
            ClientError::MissingResult => Failure::MissingResult,
            ClientError::UnexpectedId(id) => Failure::UnexpectedId(id@),
            ClientError::StreamTimedOut => Failure::StreamTimedOut,
            ClientError::StreamClosed => Failure::StreamClosed,
            ClientError::BackgroundClosed => Failure::BackgroundClosed,
            ClientError::BackgroundTimedOut => Failure::BackgroundTimedOut,
            ClientError::MissingSession => Failure::MissingSession,
            ClientError::InvalidResult => Failure::InvalidResult,
        }
    }
}

/// The message that describes a failure.
pub open spec fn failure_text(failure: Failure) -> Seq<char> {
    match failure {
        Failure::Setup => "failed to build HTTP client for streamable MCP"@,
        Failure::InvalidUrl(url) => "invalid MCP streamable HTTP URL `"@ + url + "`"@,
        Failure::SendTimedOut => "timed out awaiting streamable HTTP response"@,
        Failure::Transport(reason) => reason,
        Failure::InvalidSession => "invalid session header value"@,
        Failure::Status { status, body } => "streamable HTTP request failed with status "@ + status
            + ": "@ + body,
        Failure::InvalidBody => "error decoding response body"@,
        Failure::UnsupportedContentType(content_type) => "unsupported response content type `"@
            + content_type + "` from streamable HTTP server"@,
        Failure::InvalidEvent => "failed to parse SSE event"@,
        Failure::MissingData => "SSE event missing data payload"@,
        Failure::InvalidPayload => "failed to deserialize SSE JSON payload"@,
        Failure::Mcp { code, message } => "MCP error "@ + decimal(code as int) + ": "@ + message,
        Failure::MissingResult => "JSON-RPC response missing `result` field"@,
        Failure::UnexpectedId(id) =>
            "JSON response did not contain the expected result for id "@ + id,
        Failure::StreamTimedOut => "timed out awaiting streamable HTTP SSE response"@,
        Failure::StreamClosed => "stream closed before receiving response"@,
        Failure::BackgroundClosed => "event stream closed before delivering response"@,
        Failure::BackgroundTimedOut =>
            "timed out awaiting streamable HTTP response over event stream"@,
        Failure::MissingSession => "missing MCP session id for streamable HTTP listener"@,
        Failure::InvalidResult => "failed to deserialize JSON-RPC result payload"@,
    }
}

impl ClientError {
    /// The message that describes the failure.
    pub fn message(&self) -> (r: String)
        ensures
            r@ == failure_text(self@),
    {
        match self {
            ClientError::Setup => "failed to build HTTP client for streamable MCP".to_owned(),
            ClientError::InvalidUrl(url) => {
                "invalid MCP streamable HTTP URL `".to_owned().concat(url.as_str()).concat("`")
            },
            ClientError::SendTimedOut => "timed out awaiting streamable HTTP response".to_owned(),
            ClientError::Transport(reason) => reason.clone(),
            ClientError::InvalidSession => "invalid session header value".to_owned(),
            ClientError::Status { status, body } => {
                "streamable HTTP request failed with status ".to_owned().concat(
                    status.as_str(),
                ).concat(": ").concat(body.as_str())
            },
            ClientError::InvalidBody => "error decoding response body".to_owned(),
            ClientError::UnsupportedContentType(content_type) => {
                "unsupported response content type `".to_owned().concat(
                    content_type.as_str(),
                ).concat("` from streamable HTTP server")
            },
            ClientError::InvalidEvent => "failed to parse SSE event".to_owned(),
            ClientError::MissingData => "SSE event missing data payload".to_owned(),
            ClientError::InvalidPayload => "failed to deserialize SSE JSON payload".to_owned(),
            ClientError::Mcp { code, message } => {
                "MCP error ".to_owned().concat(signed_text(*code).as_str()).concat(": ").concat(
                    message.as_str(),
                )
            },
            ClientError::MissingResult => "JSON-RPC response missing `result` field".to_owned(),
            ClientError::UnexpectedId(id) => {
                "JSON response did not contain the expected result for id ".to_owned().concat(
                    id.as_str(),
                )
            },
            ClientError::StreamTimedOut => {
                "timed out awaiting streamable HTTP SSE response".to_owned()
            },
            ClientError::StreamClosed => "stream closed before receiving response".to_owned(),
            ClientError::BackgroundClosed => {
                "event stream closed before delivering response".to_owned()
            },
            ClientError::BackgroundTimedOut => {
                "timed out awaiting streamable HTTP response over event stream".to_owned()
            },
            ClientError::MissingSession => {
                "missing MCP session id for streamable HTTP listener".to_owned()
            },
            ClientError::InvalidResult => {
                "failed to deserialize JSON-RPC result payload".to_owned()
            },
        }
    }
}

/// Each error stands for the failure of its name, with the same parts.
pub proof fn law_error_stands_for_its_failure(text: String, body: String, code: i64)
    ensures
        ClientError::Setup@ == Failure::Setup,
        (ClientError::InvalidUrl(text))@ == Failure::InvalidUrl(text@),
        ClientError::SendTimedOut@ == Failure::SendTimedOut,
        (ClientError::Transport(text))@ == Failure::Transport(text@),
        ClientError::InvalidSession@ == Failure::InvalidSession,
        (ClientError::Status { status: text, body })@ == (Failure::Status {
            status: text@,
            body: body@,
        }),
        ClientError::InvalidBody@ == Failure::InvalidBody,
        (ClientError::UnsupportedContentType(text))@ == Failure::UnsupportedContentType(text@),
        ClientError::InvalidEvent@ == Failure::InvalidEvent,
        ClientError::MissingData@ == Failure::MissingData,
        ClientError::InvalidPayload@ == Failure::InvalidPayload,
        (ClientError::Mcp { code, message: text })@ == (Failure::Mcp { code, message: text@ }),
        ClientError::MissingResult@ == Failure::MissingResult,
        (ClientError::UnexpectedId(text))@ == Failure::UnexpectedId(text@),
        ClientError::StreamTimedOut@ == Failure::StreamTimedOut,
        ClientError::StreamClosed@ == Failure::StreamClosed,
        ClientError::BackgroundClosed@ == Failure::BackgroundClosed,
        ClientError::BackgroundTimedOut@ == Failure::BackgroundTimedOut,
        ClientError::MissingSession@ == Failure::MissingSession,
        ClientError::InvalidResult@ == Failure::InvalidResult,
{
}

/// What a user reads of a failure, with the parts of the failure in full.
pub proof fn law_failure_is_described(text: Seq<char>, body: Seq<char>, code: i64)
    ensures
        failure_text(Failure::Setup) == "failed to build HTTP client for streamable MCP"@,
        failure_text(Failure::InvalidUrl(text)) == "invalid MCP streamable HTTP URL `"@ + text
            + "`"@,
        failure_text(Failure::SendTimedOut) == "timed out awaiting streamable HTTP response"@,
        failure_text(Failure::Transport(text)) == text,
        failure_text(Failure::InvalidSession) == "invalid session header value"@,
        failure_text((Failure::Status { status: text, body }))
            == "streamable HTTP request failed with status "@ + text + ": "@ + body,
        failure_text(Failure::InvalidBody) == "error decoding response body"@,
        failure_text(Failure::UnsupportedContentType(text))
            == "unsupported response content type `"@ + text + "` from streamable HTTP server"@,
        failure_text(Failure::InvalidEvent) == "failed to parse SSE event"@,
        failure_text(Failure::MissingData) == "SSE event missing data payload"@,
        failure_text(Failure::InvalidPayload) == "failed to deserialize SSE JSON payload"@,
        failure_text((Failure::Mcp { code, message: text })) == "MCP error "@ + decimal(code as int)
            + ": "@ + text,
        failure_text(Failure::MissingResult) == "JSON-RPC response missing `result` field"@,
        failure_text(Failure::UnexpectedId(text))
            == "JSON response did not contain the expected result for id "@ + text,
        failure_text(Failure::StreamTimedOut) == "timed out awaiting streamable HTTP SSE response"@,
        failure_text(Failure::StreamClosed) == "stream closed before receiving response"@,
        failure_text(Failure::BackgroundClosed)
            == "event stream closed before delivering response"@,
        failure_text(Failure::BackgroundTimedOut)
            == "timed out awaiting streamable HTTP response over event stream"@,
        failure_text(Failure::MissingSession)
            == "missing MCP session id for streamable HTTP listener"@,
        failure_text(Failure::InvalidResult) == "failed to deserialize JSON-RPC result payload"@,
{
}

} // verus!
