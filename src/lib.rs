//! Resource routing and response shaping for a conversation-intelligence
//! service exposed as addressable resources and a call-search tool.
//!
//! The library decides, from a request, which upstream operation to run and
//! with which parameters, and turns upstream payloads (as plain values) into
//! stable output records. Transport, HTTP and JSON encoding live outside.

pub mod error;
pub mod query;
pub mod resources;
pub mod route;
pub mod search;
pub mod server;
pub mod shape;
pub mod text;
pub mod transcript;
pub mod upstream;

pub use error::{kind_of, upstream_error, ErrorKind, GongError};
pub use query::{
    calls_request, single_call_request, transcript_request, users_request, CallFilter,
    CallsRequest, ContentSelection, TranscriptRequest, UsersRequest,
};
pub use resources::{finish_search, read_call, read_participants, read_transcript, read_users};
pub use route::{classify, resolve, Route, RouteKind};
pub use search::{
    apply_limit, search_result, validate_search_args, ArgEntry, ArgItem, ArgValue, SearchArgs,
    SearchResult,
};
pub use server::{
    GongConfig, GongServer, ParamKind, ReadPlan, ResourceEntry, SearchPlan, StatusReport,
    TemplateEntry, ToolEntry, ToolParam,
};
pub use shape::{
    call_detail, participant_summary, participants_view, speaker_map, summarize_call, users_view,
    CallDetail, CallSummary, ParticipantSummary, ParticipantsView, SpeakerLabel, UserRecord,
    UsersView,
};
pub use text::{decimal_text, has_prefix, has_suffix, same_text};
pub use transcript::{shape_transcript, SentenceRow, TranscriptRecord};
pub use upstream::{
    Affiliation, CallMeta, CallPage, CallRecord, CallTranscript, CrmSystem, Direction, Media,
    Method, Monologue, Party, PartyContext, Scope, Sentence, TranscriptSet, UpstreamFailure,
    UserEntry, UserPage,
};
