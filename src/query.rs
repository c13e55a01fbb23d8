//! Parameters of the upstream operations.

use vstd::prelude::*;

use crate::transcript::copy_text;

verus! {

/// The filter of a call-list request.
#[derive(Clone, Debug, PartialEq, Eq)]
pub struct CallFilter {
    pub from_date_time: Option<String>,
    pub to_date_time: Option<String>,
    pub workspace_id: Option<String>,
    pub call_ids: Option<Vec<String>>,
    pub primary_user_ids: Option<Vec<String>>,
}

/// Which optional content a call-list request asks for. Outcome, highlight
/// and tracker content is never requested.
#[derive(Clone, Copy, Debug, PartialEq, Eq, Structural)]
pub struct ContentSelection {
    pub parties: bool,
    pub structure: bool,
}

/// A call-list request.
#[derive(Clone, Debug, PartialEq, Eq)]
pub struct CallsRequest {
    pub filter: CallFilter,
    pub cursor: Option<String>,
    pub content: ContentSelection,
}

/// A transcript request: no date filter, no cursor.
#[derive(Clone, Debug, PartialEq, Eq)]
pub struct TranscriptRequest {
    pub call_ids: Vec<String>,
}

/// A user-list request.
#[derive(Clone, Debug, PartialEq, Eq)]
pub struct UsersRequest {
    pub cursor: Option<String>,
    pub include_avatars: bool,
}

/// The content a request for calls carries: participants always, structure on demand.
pub open spec fn content_for(include_structure: bool) -> ContentSelection {
    ContentSelection { parties: true, structure: include_structure }
}

/// A request for the one call `id`, without structure.
pub open spec fn single_call_request_matches(id: Seq<char>, r: CallsRequest) -> bool {
    &&& r.filter.from_date_time is None
    &&& r.filter.to_date_time is None
    &&& r.filter.workspace_id is None
    &&& r.filter.call_ids matches Some(ids) && ids@.len() == 1 && ids@[0]@ == id
    &&& r.filter.primary_user_ids is None
    &&& r.cursor is None
    &&& r.content == content_for(false)
}

pub open spec fn transcript_request_matches(id: Seq<char>, r: TranscriptRequest) -> bool {
    r.call_ids@.len() == 1 && r.call_ids@[0]@ == id
}

pub open spec fn users_request_matches(r: UsersRequest) -> bool {
    r.cursor is None && !r.include_avatars
}

/// The items of an optional list.
pub open spec fn items_of(o: Option<Vec<String>>) -> Option<Seq<String>> {
    match o {
        Some(v) => Some(v@),
        None => None,
    }
}

/// A copy of an optional list of texts.
pub fn copy_texts(o: &Option<Vec<String>>) -> (r: Option<Vec<String>>)
    ensures
        items_of(r) == items_of(*o),
{
    match o {
        Some(v) => {
            let n = v.len();
            let mut out: Vec<String> = Vec::new();
            let mut i: usize = 0;
            while i < n
                invariant
                    n == v@.len(),
                    i <= n,
                    out@ == v@.take(i as int),
                decreases n - i,
            {
                out.push(v[i].clone());
                proof {
                    assert(out@ =~= v@.take(i + 1));
                }
                i = i + 1;
            }
            assert(out@ =~= v@);
            Some(out)
        },
        None => None,
    }
}

/// The request for the one call `id`.
pub fn single_call_request(id: &str) -> (r: CallsRequest)
    ensures
        single_call_request_matches(id@, r),
{
    let mut ids: Vec<String> = Vec::new();
    ids.push(String::from_str(id));
    CallsRequest {
        filter: CallFilter {
            from_date_time: None,
            to_date_time: None,
            workspace_id: None,
            call_ids: Some(ids),
            primary_user_ids: None,
        },
        cursor: None,
        content: ContentSelection { parties: true, structure: false },
    }
}

/// The request for the transcript of call `id`.
pub fn transcript_request(id: &str) -> (r: TranscriptRequest)
    ensures
        transcript_request_matches(id@, r),
{
    let mut call_ids: Vec<String> = Vec::new();
    call_ids.push(String::from_str(id));
    TranscriptRequest { call_ids }
}

/// The request for the first page of users, without avatars.
pub fn users_request() -> (r: UsersRequest)
    ensures
        users_request_matches(r),
{
    UsersRequest { cursor: None, include_avatars: false }
}

/// A call-list request with the given filters.
pub fn calls_request(
    from_date_time: &Option<String>,
    to_date_time: &Option<String>,
    workspace_id: &Option<String>,
    call_ids: &Option<Vec<String>>,
    primary_user_ids: &Option<Vec<String>>,
    cursor: &Option<String>,
    include_structure: bool,
) -> (r: CallsRequest)
    ensures
        r.filter.from_date_time == *from_date_time,
        r.filter.to_date_time == *to_date_time,
        r.filter.workspace_id == *workspace_id,
        items_of(r.filter.call_ids) == items_of(*call_ids),
        items_of(r.filter.primary_user_ids) == items_of(*primary_user_ids),
        r.cursor == *cursor,
        r.content == content_for(include_structure),
{
    CallsRequest {
        filter: CallFilter {
            from_date_time: copy_text(from_date_time),
            to_date_time: copy_text(to_date_time),
            workspace_id: copy_text(workspace_id),
            call_ids: copy_texts(call_ids),
            primary_user_ids: copy_texts(primary_user_ids),
        },
        cursor: copy_text(cursor),
        content: ContentSelection { parties: true, structure: include_structure },
    }
}

} // verus!
