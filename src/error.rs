//! The error taxonomy of the adapter.

use vstd::prelude::*;

use crate::upstream::UpstreamFailure;

verus! {

/// The machine-readable class of a failure.
#[derive(Clone, Copy, Debug, PartialEq, Eq, Structural)]
pub enum ErrorKind {
    /// Credentials are absent; raised before any upstream call.
    NotConfigured,
    /// A malformed URI, an empty identifier or a mistyped tool argument.
    InvalidParams,
    /// A lookup that addresses one record found none.
    NotFound,
    /// The upstream call failed for a reason other than not-found.
    UpstreamError,
    /// The upstream answer could not be read into the expected shape.
    DecodeError,
}

/// A failure of one operation, with the detail that identifies its cause.
#[derive(Clone, Debug, PartialEq, Eq)]
pub enum GongError {
    NotConfigured,
    /// A call URI whose identifier segment is empty.
    MissingCallId { uri: String },
    /// A URI that names no resource.
    UnknownResource { uri: String },
    /// A tool name that is not offered.
    UnknownTool { name: String },
    /// A tool argument of the wrong type.
    InvalidArgument { key: String },
    /// No call record came back for a single-call lookup.
    CallNotFound { call_id: String },
    /// No transcript came back for a transcript lookup.
    TranscriptNotFound { call_id: String },
    /// The upstream call failed; `status` is the HTTP status when one was received.
    Upstream { status: Option<u16>, message: String },
    /// The upstream answer could not be decoded.
    Decode { message: String },
}

/// The class of each error.
pub open spec fn kind_of(e: GongError) -> ErrorKind {
    match e {
        GongError::NotConfigured => ErrorKind::NotConfigured,
        GongError::MissingCallId { .. } => ErrorKind::InvalidParams,
        GongError::UnknownResource { .. } => ErrorKind::NotFound,
        GongError::UnknownTool { .. } => ErrorKind::InvalidParams,
        GongError::InvalidArgument { .. } => ErrorKind::InvalidParams,
        GongError::CallNotFound { .. } => ErrorKind::NotFound,
        GongError::TranscriptNotFound { .. } => ErrorKind::NotFound,
        GongError::Upstream { .. } => ErrorKind::UpstreamError,
        GongError::Decode { .. } => ErrorKind::DecodeError,
    }
}

/// The machine-readable code of each error.
pub open spec fn code_of(e: GongError) -> Seq<char> {
    match e {
        GongError::NotConfigured => "not_configured"@,
        GongError::MissingCallId { .. } => "missing_call_id"@,
        GongError::UnknownResource { .. } => "resource_not_found"@,
        GongError::UnknownTool { .. } => "unknown_tool"@,
        GongError::InvalidArgument { .. } => "invalid_argument"@,
        GongError::CallNotFound { .. } => "call_not_found"@,
        GongError::TranscriptNotFound { .. } => "transcript_not_found"@,
        GongError::Upstream { .. } => "api_error"@,
        GongError::Decode { .. } => "decode_error"@,
    }
}

/// What an error carries besides its code: the HTTP status where there is
/// one, and the offending URI, name, key, call id or message.
pub open spec fn error_detail(e: GongError) -> (Option<u16>, Seq<char>) {
    match e {
        GongError::NotConfigured => (None, Seq::empty()),
        GongError::MissingCallId { uri } => (None, uri@),
        GongError::UnknownResource { uri } => (None, uri@),
        GongError::UnknownTool { name } => (None, name@),
        GongError::InvalidArgument { key } => (None, key@),
        GongError::CallNotFound { call_id } => (None, call_id@),
        GongError::TranscriptNotFound { call_id } => (None, call_id@),
        GongError::Upstream { status, message } => (status, message@),
        GongError::Decode { message } => (None, message@),
    }
}

/// Two errors report the same thing.
pub open spec fn errors_agree(a: GongError, b: GongError) -> bool {
    code_of(a) == code_of(b) && error_detail(a) == error_detail(b)
}

impl GongError {
    /// The class of this error.
    pub fn kind(&self) -> (r: ErrorKind)
        ensures
            r == kind_of(*self),
    {
        match self {
            GongError::NotConfigured => ErrorKind::NotConfigured,
            GongError::MissingCallId { .. } => ErrorKind::InvalidParams,
            GongError::UnknownResource { .. } => ErrorKind::NotFound,
            GongError::UnknownTool { .. } => ErrorKind::InvalidParams,
            GongError::InvalidArgument { .. } => ErrorKind::InvalidParams,
            GongError::CallNotFound { .. } => ErrorKind::NotFound,
            GongError::TranscriptNotFound { .. } => ErrorKind::NotFound,
            GongError::Upstream { .. } => ErrorKind::UpstreamError,
            GongError::Decode { .. } => ErrorKind::DecodeError,
        }
    }

    /// The machine-readable code of this error.
    pub fn code(&self) -> (r: &'static str)
        ensures
            r@ == code_of(*self),
    {
        match self {
            GongError::NotConfigured => "not_configured",
            GongError::MissingCallId { .. } => "missing_call_id",
            GongError::UnknownResource { .. } => "resource_not_found",
            GongError::UnknownTool { .. } => "unknown_tool",
            GongError::InvalidArgument { .. } => "invalid_argument",
            GongError::CallNotFound { .. } => "call_not_found",
            GongError::TranscriptNotFound { .. } => "transcript_not_found",
            GongError::Upstream { .. } => "api_error",
            GongError::Decode { .. } => "decode_error",
        }
    }
}

/// The error an upstream failure becomes: a decode failure stays one, every
/// other failure is an upstream error carrying its status and message.
pub open spec fn failure_error(f: UpstreamFailure) -> GongError {
    match f {
        UpstreamFailure::Status { code, message } => GongError::Upstream {
            status: Some(code),
            message,
        },
        UpstreamFailure::Decode { message } => GongError::Decode { message },
        UpstreamFailure::Transport { message } => GongError::Upstream { status: None, message },
    }
}

/// The upstream reported that the addressed record does not exist.
pub open spec fn is_not_found(f: UpstreamFailure) -> bool {
    f matches UpstreamFailure::Status { code, .. } && code == 404
}

/// Maps an upstream failure to the error reported for it.
pub fn upstream_error(f: UpstreamFailure) -> (r: GongError)
    ensures
        r == failure_error(f),
{
    match f {
        UpstreamFailure::Status { code, message } => GongError::Upstream {
            status: Some(code),
            message,
        },
        UpstreamFailure::Decode { message } => GongError::Decode { message },
        UpstreamFailure::Transport { message } => GongError::Upstream { status: None, message },
    }
}

} // verus!
