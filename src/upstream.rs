//! The upstream service's payloads, as plain values.
//!
//! Every field the upstream may leave out is an `Option`; the shaping step
//! decides what each absence becomes.

use vstd::prelude::*;

verus! {

/// Declares `serde_json::Value`, so that the CRM objects attached to a
/// participant can be carried through unread; nothing is assumed of it.
#[verifier::external_type_specification]
#[verifier::external_body]
pub struct ExJsonValue(serde_json::Value);

/// Which side of the conversation a participant is on.
#[derive(Clone, Copy, Debug, PartialEq, Eq, Structural)]
pub enum Affiliation {
    Internal,
    External,
    Unknown,
}

#[derive(Clone, Copy, Debug, PartialEq, Eq, Structural)]
pub enum Direction {
    Inbound,
    Outbound,
    Conference,
    Unknown,
}

#[derive(Clone, Copy, Debug, PartialEq, Eq, Structural)]
pub enum Scope {
    Internal,
    External,
    Unknown,
}

#[derive(Clone, Copy, Debug, PartialEq, Eq, Structural)]
pub enum Media {
    Video,
    Audio,
}

/// How a participant took part.
#[derive(Clone, Copy, Debug, PartialEq, Eq, Structural)]
pub enum Method {
    Invitee,
    Attendee,
}

/// The CRM a participant context comes from.
#[derive(Clone, Copy, Debug, PartialEq, Eq, Structural)]
pub enum CrmSystem {
    Salesforce,
    HubSpot,
    MicrosoftDynamic,
    Generic,
}

pub open spec fn affiliation_tag(a: Affiliation) -> Seq<char> {
    match a {
        Affiliation::Internal => "Internal"@,
        Affiliation::External => "External"@,
        Affiliation::Unknown => "Unknown"@,
    }
}

pub open spec fn direction_tag(d: Direction) -> Seq<char> {
    match d {
        Direction::Inbound => "Inbound"@,
        Direction::Outbound => "Outbound"@,
        Direction::Conference => "Conference"@,
        Direction::Unknown => "Unknown"@,
    }
}

pub open spec fn scope_tag(s: Scope) -> Seq<char> {
    match s {
        Scope::Internal => "Internal"@,
        Scope::External => "External"@,
        Scope::Unknown => "Unknown"@,
    }
}

pub open spec fn media_tag(m: Media) -> Seq<char> {
    match m {
        Media::Video => "Video"@,
        Media::Audio => "Audio"@,
    }
}

pub open spec fn method_tag(m: Method) -> Seq<char> {
    match m {
        Method::Invitee => "Invitee"@,
        Method::Attendee => "Attendee"@,
    }
}

pub open spec fn system_tag(s: CrmSystem) -> Seq<char> {
    match s {
        CrmSystem::Salesforce => "Salesforce"@,
        CrmSystem::HubSpot => "HubSpot"@,
        CrmSystem::MicrosoftDynamic => "MicrosoftDynamic"@,
        CrmSystem::Generic => "Generic"@,
    }
}

impl Affiliation {
    /// The textual tag name.
    pub fn tag(&self) -> (r: &'static str)
        ensures
            r@ == affiliation_tag(*self),
    {
        match self {
            Affiliation::Internal => "Internal",
            Affiliation::External => "External",
            Affiliation::Unknown => "Unknown",
        }
    }
}

impl Direction {
    /// The textual tag name.
    pub fn tag(&self) -> (r: &'static str)
        ensures
            r@ == direction_tag(*self),
    {
        match self {
            Direction::Inbound => "Inbound",
            Direction::Outbound => "Outbound",
            Direction::Conference => "Conference",
            Direction::Unknown => "Unknown",
        }
    }
}

impl Scope {
    /// The textual tag name.
    pub fn tag(&self) -> (r: &'static str)
        ensures
            r@ == scope_tag(*self),
    {
        match self {
            Scope::Internal => "Internal",
            Scope::External => "External",
            Scope::Unknown => "Unknown",
        }
    }
}

impl Media {
    /// The textual tag name.
    pub fn tag(&self) -> (r: &'static str)
        ensures
            r@ == media_tag(*self),
    {
        match self {
            Media::Video => "Video",
            Media::Audio => "Audio",
        }
    }
}

impl Method {
    /// The textual tag name.
    pub fn tag(&self) -> (r: &'static str)
        ensures
            r@ == method_tag(*self),
    {
        match self {
            Method::Invitee => "Invitee",
            Method::Attendee => "Attendee",
        }
    }
}

impl CrmSystem {
    /// The textual tag name.
    pub fn tag(&self) -> (r: &'static str)
        ensures
            r@ == system_tag(*self),
    {
        match self {
            CrmSystem::Salesforce => "Salesforce",
            CrmSystem::HubSpot => "HubSpot",
            CrmSystem::MicrosoftDynamic => "MicrosoftDynamic",
            CrmSystem::Generic => "Generic",
        }
    }
}

/// A CRM link of a participant.
#[derive(Debug, PartialEq)]
pub struct PartyContext {
    pub system: Option<CrmSystem>,
    pub objects: serde_json::Value,
}

/// One participant of a call.
#[derive(Debug, PartialEq)]
pub struct Party {
    pub id: Option<String>,
    pub email_address: Option<String>,
    pub name: Option<String>,
    pub title: Option<String>,
    pub user_id: Option<String>,
    pub speaker_id: Option<String>,
    pub context: Option<Vec<PartyContext>>,
    pub affiliation: Option<Affiliation>,
    pub phone_number: Option<String>,
    pub methods: Option<Vec<Method>>,
}

/// The metadata of one call.
#[derive(Clone, Debug, PartialEq, Eq)]
pub struct CallMeta {
    pub id: Option<String>,
    pub url: Option<String>,
    pub title: Option<String>,
    pub scheduled: Option<String>,
    pub started: Option<String>,
    pub duration: Option<i64>,
    pub primary_user_id: Option<String>,
    pub direction: Option<Direction>,
    pub system: Option<String>,
    pub scope: Option<Scope>,
    pub media: Option<Media>,
    pub language: Option<String>,
    pub workspace_id: Option<String>,
    pub sdr_disposition: Option<String>,
    pub client_unique_id: Option<String>,
    pub custom_data: Option<String>,
    pub purpose: Option<String>,
    pub meeting_url: Option<String>,
    pub is_private: Option<bool>,
    pub calendar_event_id: Option<String>,
}

/// One call of a call-list answer.
#[derive(Debug, PartialEq)]
pub struct CallRecord {
    pub meta: Option<CallMeta>,
    pub parties: Option<Vec<Party>>,
}

/// One page of a call-list answer, with its continuation cursor.
#[derive(Debug, PartialEq)]
pub struct CallPage {
    pub calls: Option<Vec<CallRecord>>,
    pub cursor: Option<String>,
}

#[derive(Clone, Debug, PartialEq, Eq)]
pub struct Sentence {
    pub start: Option<i64>,
    pub end: Option<i64>,
    pub text: Option<String>,
}

/// An uninterrupted stretch of speech by one speaker.
#[derive(Clone, Debug, PartialEq, Eq)]
pub struct Monologue {
    pub speaker_id: Option<String>,
    pub topic: Option<String>,
    pub sentences: Option<Vec<Sentence>>,
}

#[derive(Clone, Debug, PartialEq, Eq)]
pub struct CallTranscript {
    pub call_id: Option<String>,
    pub monologues: Option<Vec<Monologue>>,
}

/// A transcript answer.
#[derive(Clone, Debug, PartialEq, Eq)]
pub struct TranscriptSet {
    pub transcripts: Option<Vec<CallTranscript>>,
}

#[derive(Clone, Debug, PartialEq, Eq)]
pub struct UserEntry {
    pub id: Option<String>,
    pub email_address: Option<String>,
    pub first_name: Option<String>,
    pub last_name: Option<String>,
    pub active: Option<bool>,
}

/// A user-list answer.
#[derive(Clone, Debug, PartialEq, Eq)]
pub struct UserPage {
    pub users: Option<Vec<UserEntry>>,
}

/// Why an upstream call did not produce an answer.
#[derive(Clone, Debug, PartialEq, Eq)]
pub enum UpstreamFailure {
    /// The service answered with a non-success HTTP status.
    Status { code: u16, message: String },
    /// The answer did not decode into the expected shape.
    Decode { message: String },
    /// The request did not complete.
    Transport { message: String },
}

} // verus!
