//! The server: configuration gate and the entry operations.
//!
//! A read or a search is planned here, run against the upstream by the
//! caller, and completed by the functions of `resources`.

use vstd::prelude::*;

use crate::error::{errors_agree, GongError};
use crate::query::{
    calls_request, content_for, items_of, single_call_request, single_call_request_matches,
    transcript_request, transcript_request_matches, users_request, users_request_matches,
    CallsRequest, TranscriptRequest, UsersRequest,
};
use crate::route::{
    addresses_call, call_id_of, classify, resolve, route_kind_of, status_uri, Route, RouteKind,
};
use crate::search::{
    args_match, entries_of, first_invalid_key, validate_search_args, ArgEntry, SearchArgs,
};
use crate::text::same_text;

verus! {

/// The upstream endpoint and credentials; all three are needed together.
#[derive(Clone, Debug, PartialEq, Eq)]
pub struct GongConfig {
    pub endpoint: String,
    pub key_id: String,
    pub key_secret: String,
}

/// The adapter. Its configuration is fixed when it is made.
#[derive(Clone, Debug)]
pub struct GongServer {
    config: Option<GongConfig>,
}

/// What the status resource reports.
#[derive(Clone, Debug, PartialEq, Eq)]
pub struct StatusReport {
    pub configured: bool,
    pub base_url: Option<String>,
    pub message: String,
}

/// A listed resource.
#[derive(Clone, Debug, PartialEq, Eq)]
pub struct ResourceEntry {
    pub uri: String,
    pub name: String,
    pub description: String,
}

/// A listed resource template.
#[derive(Clone, Debug, PartialEq, Eq)]
pub struct TemplateEntry {
    pub uri_template: String,
    pub name: String,
    pub description: String,
    pub mime_type: String,
}

/// The declared type of a tool parameter.
#[derive(Clone, Copy, Debug, PartialEq, Eq, Structural)]
pub enum ParamKind {
    DateTime,
    Text,
    TextList,
    Number,
    Flag,
}

#[derive(Clone, Debug, PartialEq, Eq)]
pub struct ToolParam {
    pub name: String,
    pub kind: ParamKind,
    pub description: String,
}

/// A listed tool; its parameters are all optional and no others are accepted.
#[derive(Clone, Debug, PartialEq, Eq)]
pub struct ToolEntry {
    pub name: String,
    pub description: String,
    pub read_only: bool,
    pub params: Vec<ToolParam>,
}

/// What a resource read needs next.
#[derive(Clone, Debug, PartialEq, Eq)]
pub enum ReadPlan {
    /// Answer at once; no upstream call.
    Status(StatusReport),
    /// List users, then complete with `read_users`.
    Users(UsersRequest),
    /// List the one call, then complete with `read_call`.
    Call { call_id: String, request: CallsRequest },
    /// List the one call, then complete with `read_participants`.
    Participants { call_id: String, request: CallsRequest },
    /// Fetch the transcript, then complete with `read_transcript`.
    Transcript { call_id: String, request: TranscriptRequest },
}

/// A validated search: list calls with `request`, then complete with
/// `finish_search` and `args`.
#[derive(Clone, Debug, PartialEq, Eq)]
pub struct SearchPlan {
    pub args: SearchArgs,
    pub request: CallsRequest,
}

pub open spec fn configured_message() -> Seq<char> {
    "Gong API is configured and ready to use"@
}

pub open spec fn unconfigured_message() -> Seq<char> {
    "Gong API is not configured. Please set GONG_BASE_URL, GONG_ACCESS_KEY, and GONG_ACCESS_KEY_SECRET environment variables."@
}

/// The status report for a configuration.
pub open spec fn status_matches(cfg: Option<GongConfig>, r: StatusReport) -> bool {
    match cfg {
        Some(c) => {
            &&& r.configured
            &&& r.base_url matches Some(b) && b@ == c.endpoint@
            &&& r.message@ == configured_message()
        },
        None => {
            &&& !r.configured
            &&& r.base_url is None
            &&& r.message@ == unconfigured_message()
        },
    }
}

/// The resources listed: the status resource always, the user list when configured.
pub open spec fn resources_match(cfg: Option<GongConfig>, es: Seq<ResourceEntry>) -> bool {
    &&& es.len() == if cfg is Some {
        2nat
    } else {
        1nat
    }
    &&& es[0].uri@ == status_uri()
    &&& es[0].name@ == "Configuration Status"@
    &&& cfg is Some ==> es[1].uri@ == "gong://users"@ && es[1].name@ == "Gong Users"@
}

/// The templates listed: the three call resources when configured, none otherwise.
pub open spec fn templates_match(cfg: Option<GongConfig>, ts: Seq<TemplateEntry>) -> bool {
    if cfg is Some {
        &&& ts.len() == 3
        &&& ts[0].uri_template@ == "gong://calls/{callId}"@
        &&& ts[1].uri_template@ == "gong://calls/{callId}/participants"@
        &&& ts[2].uri_template@ == "gong://calls/{callId}/transcript"@
        &&& forall|i: int| 0 <= i < 3 ==> (#[trigger] ts[i]).mime_type@ == "application/json"@
    } else {
        ts.len() == 0
    }
}

/// The parameter of the search tool at position `i`, in schema order.
pub open spec fn search_param(i: int) -> (Seq<char>, ParamKind) {
    if i == 0 {
        ("from_date_time"@, ParamKind::DateTime)
    } else if i == 1 {
        ("to_date_time"@, ParamKind::DateTime)
    } else if i == 2 {
        ("workspace_id"@, ParamKind::Text)
    } else if i == 3 {
        ("call_ids"@, ParamKind::TextList)
    } else if i == 4 {
        ("primary_user_ids"@, ParamKind::TextList)
    } else if i == 5 {
        ("cursor"@, ParamKind::Text)
    } else if i == 6 {
        ("limit"@, ParamKind::Number)
    } else {
        ("include_structure"@, ParamKind::Flag)
    }
}

/// The tools listed: the read-only search tool when configured, none otherwise.
pub open spec fn tools_match(cfg: Option<GongConfig>, ts: Seq<ToolEntry>) -> bool {
    if cfg is Some {
        &&& ts.len() == 1
        &&& ts[0].name@ == "search_calls"@
        &&& ts[0].read_only
        &&& ts[0].params@.len() == 8
        &&& forall|i: int|
            0 <= i < 8 ==> (#[trigger] ts[0].params@[i]).name@ == search_param(i).0
                && ts[0].params@[i].kind == search_param(i).1
    } else {
        ts.len() == 0
    }
}

/// The plan of a read: status at once; with no configuration, nothing else;
/// else the route's error, or the one upstream request the route needs.
pub open spec fn read_plan_matches(
    cfg: Option<GongConfig>,
    uri: Seq<char>,
    r: Result<ReadPlan, GongError>,
) -> bool {
    let k = route_kind_of(uri);
    if k == RouteKind::Status {
        r matches Ok(ReadPlan::Status(s)) && status_matches(cfg, s)
    } else if cfg is None {
        r matches Err(GongError::NotConfigured)
    } else if k == RouteKind::Unrecognized {
        r matches Err(GongError::UnknownResource { uri: u }) && u@ == uri
    } else if addresses_call(k) && call_id_of(uri).len() == 0 {
        r matches Err(GongError::MissingCallId { uri: u }) && u@ == uri
    } else {
        match r {
            Ok(ReadPlan::Users(req)) => k == RouteKind::UserList && users_request_matches(req),
            Ok(ReadPlan::Call { call_id, request }) => k == RouteKind::CallDetail && call_id@
                == call_id_of(uri) && single_call_request_matches(call_id_of(uri), request),
            Ok(ReadPlan::Participants { call_id, request }) => k == RouteKind::Participants
                && call_id@ == call_id_of(uri) && single_call_request_matches(
                call_id_of(uri),
                request,
            ),
            Ok(ReadPlan::Transcript { call_id, request }) => k == RouteKind::Transcript && call_id@
                == call_id_of(uri) && transcript_request_matches(call_id_of(uri), request),
            _ => false,
        }
    }
}

/// The request a search with `a` sends.
pub open spec fn search_request_matches(a: SearchArgs, r: CallsRequest) -> bool {
    &&& r.filter.from_date_time == a.from_date_time
    &&& r.filter.to_date_time == a.to_date_time
    &&& r.filter.workspace_id == a.workspace_id
    &&& items_of(r.filter.call_ids) == items_of(a.call_ids)
    &&& items_of(r.filter.primary_user_ids) == items_of(a.primary_user_ids)
    &&& r.cursor == a.cursor
    &&& r.content == content_for(a.include_structure)
}

/// The plan of a tool call: with no configuration, nothing; else the
/// search tool alone, with well-typed arguments.
pub open spec fn search_plan_matches(
    cfg: Option<GongConfig>,
    tool: Seq<char>,
    args: Seq<ArgEntry>,
    r: Result<SearchPlan, GongError>,
) -> bool {
    if cfg is None {
        r matches Err(GongError::NotConfigured)
    } else if tool != "search_calls"@ {
        r matches Err(GongError::UnknownTool { name }) && name@ == tool
    } else {
        match first_invalid_key(args) {
            Some(k) => r matches Err(GongError::InvalidArgument { key }) && key@ == k,
            None => r matches Ok(p) && args_match(args, p.args) && search_request_matches(
                p.args,
                p.request,
            ),
        }
    }
}

/// An unconfigured server lists only the status resource, and answers every
/// other read and every tool call with NotConfigured, so no upstream request
/// is planned for them.
pub proof fn lemma_unconfigured_gate(
    cfg: Option<GongConfig>,
    listed: Seq<ResourceEntry>,
    uri: Seq<char>,
    read: Result<ReadPlan, GongError>,
    tool: Seq<char>,
    args: Seq<ArgEntry>,
    call: Result<SearchPlan, GongError>,
)
    requires
        cfg is None,
        resources_match(cfg, listed),
        read_plan_matches(cfg, uri, read),
        search_plan_matches(cfg, tool, args, call),
    ensures
        listed.len() == 1,
        listed[0].uri@ == status_uri(),
        uri != status_uri() ==> read matches Err(GongError::NotConfigured),
        call matches Err(GongError::NotConfigured),
{
}

/// Two plans of the same read agree: the same status report, the same
/// upstream operation for the same call id, or errors that report the same thing.
pub open spec fn plans_agree(a: Result<ReadPlan, GongError>, b: Result<ReadPlan, GongError>) -> bool {
    match (a, b) {
        (Ok(ReadPlan::Status(x)), Ok(ReadPlan::Status(y))) => {
            &&& x.configured == y.configured
            &&& x.message@ == y.message@
            &&& match (x.base_url, y.base_url) {
                (Some(u), Some(v)) => u@ == v@,
                (None, None) => true,
                _ => false,
            }
        },
        (Ok(ReadPlan::Users(x)), Ok(ReadPlan::Users(y))) => x == y,
        (Ok(ReadPlan::Call { call_id: i, .. }), Ok(ReadPlan::Call { call_id: j, .. })) => i@ == j@,
        (
            Ok(ReadPlan::Participants { call_id: i, .. }),
            Ok(ReadPlan::Participants { call_id: j, .. }),
        ) => i@ == j@,
        (
            Ok(ReadPlan::Transcript { call_id: i, .. }),
            Ok(ReadPlan::Transcript { call_id: j, .. }),
        ) => i@ == j@,
        (Err(e), Err(f)) => errors_agree(e, f),
        _ => false,
    }
}

/// Planning the same read twice under the same configuration gives the same
/// plan: the server keeps no state between requests.
pub proof fn lemma_read_plan_idempotent(
    cfg: Option<GongConfig>,
    uri: Seq<char>,
    r1: Result<ReadPlan, GongError>,
    r2: Result<ReadPlan, GongError>,
)
    requires
        read_plan_matches(cfg, uri, r1),
        read_plan_matches(cfg, uri, r2),
    ensures
        plans_agree(r1, r2),
{
}

fn resource_entry(uri: &str, name: &str, description: &str) -> (r: ResourceEntry)
    ensures
        r.uri@ == uri@,
        r.name@ == name@,
        r.description@ == description@,
{
    ResourceEntry {
        uri: String::from_str(uri),
        name: String::from_str(name),
        description: String::from_str(description),
    }
}

fn template_entry(uri_template: &str, name: &str, description: &str) -> (r: TemplateEntry)
    ensures
        r.uri_template@ == uri_template@,
        r.name@ == name@,
        r.description@ == description@,
        r.mime_type@ == "application/json"@,
{
    TemplateEntry {
        uri_template: String::from_str(uri_template),
        name: String::from_str(name),
        description: String::from_str(description),
        mime_type: String::from_str("application/json"),
    }
}

fn tool_param(name: &str, kind: ParamKind, description: &str) -> (r: ToolParam)
    ensures
        r.name@ == name@,
        r.kind == kind,
        r.description@ == description@,
{
    ToolParam {
        name: String::from_str(name),
        kind,
        description: String::from_str(description),
    }
}

impl GongServer {
    /// The configuration the server was made with.
    pub closed spec fn configuration(&self) -> Option<GongConfig> {
        self.config
    }

    /// A server configured only when all three values are present.
    pub fn new(endpoint: Option<String>, key_id: Option<String>, key_secret: Option<String>) -> (r:
        GongServer)
        ensures
            r.configuration() == match (endpoint, key_id, key_secret) {
                (Some(e), Some(k), Some(s)) => Some(GongConfig { endpoint: e, key_id: k, key_secret: s }),
                _ => None,
            },
    {
        let config = match (endpoint, key_id, key_secret) {
            (Some(endpoint), Some(key_id), Some(key_secret)) => Some(
                GongConfig { endpoint, key_id, key_secret },
            ),
            _ => None,
        };
        GongServer { config }
    }

    /// Whether the upstream can be reached.
    pub fn is_configured(&self) -> (r: bool)
        ensures
            r == self.configuration() is Some,
    {
        self.config.is_some()
    }

    /// The configuration, for the caller that talks to the upstream.
    pub fn config(&self) -> (r: &Option<GongConfig>)
        ensures
            *r == self.configuration(),
    {
        &self.config
    }

    /// The status resource.
    pub fn status(&self) -> (r: StatusReport)
        ensures
            status_matches(self.configuration(), r),
    {
        match &self.config {
            Some(c) => StatusReport {
                configured: true,
                base_url: Some(c.endpoint.clone()),
                message: String::from_str("Gong API is configured and ready to use"),
            },
            None => StatusReport {
                configured: false,
                base_url: None,
                message: String::from_str(
                    "Gong API is not configured. Please set GONG_BASE_URL, GONG_ACCESS_KEY, and GONG_ACCESS_KEY_SECRET environment variables.",
                ),
            },
        }
    }

    /// The resources on offer.
    pub fn list_resources(&self) -> (r: Vec<ResourceEntry>)
        ensures
            resources_match(self.configuration(), r@),
    {
        let mut out: Vec<ResourceEntry> = Vec::new();
        out.push(
            resource_entry(
                "gong://status",
                "Configuration Status",
                "Check if the Gong API is configured correctly",
            ),
        );
        if self.config.is_some() {
            out.push(
                resource_entry("gong://users", "Gong Users", "List of users in your Gong workspace"),
            );
        }
        out
    }

    /// The resource templates on offer.
    pub fn resource_templates(&self) -> (r: Vec<TemplateEntry>)
        ensures
            templates_match(self.configuration(), r@),
    {
        let mut out: Vec<TemplateEntry> = Vec::new();
        if self.config.is_some() {
            out.push(
                template_entry(
                    "gong://calls/{callId}",
                    "Call Metadata",
                    "Retrieve full metadata for a specific Gong call by ID",
                ),
            );
            out.push(
                template_entry(
                    "gong://calls/{callId}/participants",
                    "Call Participants",
                    "Retrieve detailed participant information for a specific call, including speaker mapping, affiliation, and external system links",
                ),
            );
            out.push(
                template_entry(
                    "gong://calls/{callId}/transcript",
                    "Call Transcript",
                    "Retrieve the transcript for a specific Gong call by ID",
                ),
            );
        }
        out
    }

    /// The tools on offer.
    pub fn tools(&self) -> (r: Vec<ToolEntry>)
        ensures
            tools_match(self.configuration(), r@),
    {
        let mut out: Vec<ToolEntry> = Vec::new();
        if self.config.is_some() {
            let mut params: Vec<ToolParam> = Vec::new();
            params.push(
                tool_param(
                    "from_date_time",
                    ParamKind::DateTime,
                    "Start of time range in ISO 8601 format (e.g., '2024-01-01T00:00:00Z' or '2024-01-01T02:30:00-07:00'). Returns calls that started on or after this time.",
                ),
            );
            params.push(
                tool_param(
                    "to_date_time",
                    ParamKind::DateTime,
                    "End of time range in ISO 8601 format. Returns calls that started before this time (exclusive).",
                ),
            );
            params.push(
                tool_param(
                    "workspace_id",
                    ParamKind::Text,
                    "Filter by workspace ID. Returns only calls belonging to this workspace.",
                ),
            );
            params.push(
                tool_param(
                    "call_ids",
                    ParamKind::TextList,
                    "List of specific call IDs to retrieve. If provided, only these calls are returned (within date range if specified).",
                ),
            );
            params.push(
                tool_param(
                    "primary_user_ids",
                    ParamKind::TextList,
                    "Filter by user IDs. Returns calls where these users are the primary participant/host.",
                ),
            );
            params.push(
                tool_param(
                    "cursor",
                    ParamKind::Text,
                    "Pagination cursor from a previous response. Use this to get the next page of results.",
                ),
            );
            params.push(
                tool_param(
                    "limit",
                    ParamKind::Number,
                    "Maximum number of calls to return from the current page. Without this, returns all calls from the API page (typically 100). Response includes 'truncated: true' if limited. Use this to reduce response size.",
                ),
            );
            params.push(
                tool_param(
                    "include_structure",
                    ParamKind::Flag,
                    "Include call agenda/structure data (segments and their durations). Default: false. Basic call metadata (id, title, started, duration, direction, parties, url) is always included. Increases response size moderately.",
                ),
            );
            let tool = ToolEntry {
                name: String::from_str("search_calls"),
                description: String::from_str(
                    "Search Gong calls with flexible filters. Returns basic call metadata (id, title, started, duration, direction, parties, url) by default. Use include_structure to add call agenda data. Supports pagination for large result sets - use limit to reduce response size. All parameters are optional - returns recent calls if no filters provided.",
                ),
                read_only: true,
                params,
            };
            out.push(tool);
            proof {
                assert forall|i: int| 0 <= i < 8 implies (#[trigger] out@[0].params@[i]).name@
                    == search_param(i).0 && out@[0].params@[i].kind == search_param(i).1 by {
                    if i == 0 {
                    } else if i == 1 {
                    } else if i == 2 {
                    } else if i == 3 {
                    } else if i == 4 {
                    } else if i == 5 {
                    } else if i == 6 {
                    } else {
                    }
                }
            }
        }
        out
    }

    /// Plans a resource read; the status resource needs no configuration.
    pub fn plan_read(&self, uri: &str) -> (r: Result<ReadPlan, GongError>)
        ensures
            read_plan_matches(self.configuration(), uri@, r),
    {
        let kind = classify(uri);
        if let RouteKind::Status = kind {
            return Ok(ReadPlan::Status(self.status()));
        }
        if self.config.is_none() {
            return Err(GongError::NotConfigured);
        }
        match resolve(uri) {
            Err(e) => Err(e),
            Ok(Route::Status) => Ok(ReadPlan::Status(self.status())),
            Ok(Route::UserList) => Ok(ReadPlan::Users(users_request())),
            Ok(Route::CallDetail(call_id)) => {
                let request = single_call_request(call_id.as_str());
                Ok(ReadPlan::Call { call_id, request })
            },
            Ok(Route::Participants(call_id)) => {
                let request = single_call_request(call_id.as_str());
                Ok(ReadPlan::Participants { call_id, request })
            },
            Ok(Route::Transcript(call_id)) => {
                let request = transcript_request(call_id.as_str());
                Ok(ReadPlan::Transcript { call_id, request })
            },
        }
    }

    /// Plans a tool call: the configuration, the tool name and the arguments
    /// are tested in that order.
    pub fn plan_search(&self, tool: &str, args: &Option<Vec<ArgEntry>>) -> (r: Result<
        SearchPlan,
        GongError,
    >)
        ensures
            search_plan_matches(self.configuration(), tool@, entries_of(*args), r),
    {
        if self.config.is_none() {
            return Err(GongError::NotConfigured);
        }
        if !same_text(tool, "search_calls") {
            return Err(GongError::UnknownTool { name: String::from_str(tool) });
        }
        match validate_search_args(args) {
            Err(e) => Err(e),
            Ok(a) => {
                let request = calls_request(
                    &a.from_date_time,
                    &a.to_date_time,
                    &a.workspace_id,
                    &a.call_ids,
                    &a.primary_user_ids,
                    &a.cursor,
                    a.include_structure,
                );
                Ok(SearchPlan { args: a, request })
            },
        }
    }
}

} // verus!
