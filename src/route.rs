//! The resource URI grammar: classification and call-id extraction.

use vstd::prelude::*;

use crate::error::GongError;
use crate::text::{ends_with, has_prefix, has_suffix, same_text, starts_with};

verus! {

/// Which resource a URI addresses, without its identifier.
#[derive(Clone, Copy, Debug, PartialEq, Eq, Structural)]
pub enum RouteKind {
    Status,
    UserList,
    CallDetail,
    Participants,
    Transcript,
    Unrecognized,
}

/// A resolved resource address, carrying the non-empty call id where there is one.
#[derive(Clone, Debug, PartialEq, Eq)]
pub enum Route {
    Status,
    UserList,
    CallDetail(String),
    Participants(String),
    Transcript(String),
}

pub open spec fn status_uri() -> Seq<char> {
    "gong://status"@
}

pub open spec fn users_uri() -> Seq<char> {
    "gong://users"@
}

pub open spec fn calls_prefix() -> Seq<char> {
    "gong://calls/"@
}

pub open spec fn transcript_suffix() -> Seq<char> {
    "/transcript"@
}

pub open spec fn participants_suffix() -> Seq<char> {
    "/participants"@
}

/// Under the calls prefix and ending in the transcript segment.
pub open spec fn transcript_shape(s: Seq<char>) -> bool {
    starts_with(s, calls_prefix()) && ends_with(s, transcript_suffix())
}

/// Under the calls prefix and ending in the participants segment.
pub open spec fn participants_shape(s: Seq<char>) -> bool {
    starts_with(s, calls_prefix()) && ends_with(s, participants_suffix())
}

/// Under the calls prefix with neither sub-resource segment at its end.
pub open spec fn detail_shape(s: Seq<char>) -> bool {
    starts_with(s, calls_prefix()) && !ends_with(s, transcript_suffix()) && !ends_with(
        s,
        participants_suffix(),
    )
}

/// The grammar, checked in its fixed order.
pub open spec fn route_kind_of(s: Seq<char>) -> RouteKind {
    if s == status_uri() {
        RouteKind::Status
    } else if s == users_uri() {
        RouteKind::UserList
    } else if transcript_shape(s) {
        RouteKind::Transcript
    } else if participants_shape(s) {
        RouteKind::Participants
    } else if starts_with(s, calls_prefix()) {
        RouteKind::CallDetail
    } else {
        RouteKind::Unrecognized
    }
}

/// The text between the calls prefix and a trailing segment of `suffix_len`
/// characters; empty where the two overlap.
pub open spec fn id_between(s: Seq<char>, suffix_len: nat) -> Seq<char> {
    if calls_prefix().len() + suffix_len <= s.len() {
        s.subrange(calls_prefix().len() as int, s.len() - suffix_len)
    } else {
        Seq::empty()
    }
}

/// The call id that a URI of the given kind carries.
pub open spec fn call_id_of(s: Seq<char>) -> Seq<char> {
    match route_kind_of(s) {
        RouteKind::Transcript => id_between(s, transcript_suffix().len()),
        RouteKind::Participants => id_between(s, participants_suffix().len()),
        RouteKind::CallDetail => id_between(s, 0),
        _ => Seq::empty(),
    }
}

/// The kind carries a call id.
pub open spec fn addresses_call(k: RouteKind) -> bool {
    k == RouteKind::CallDetail || k == RouteKind::Participants || k == RouteKind::Transcript
}

/// What resolving `s` yields: the route of its kind with its call id, a
/// missing-identifier error where that id is empty, or an unknown-resource error.
pub open spec fn resolves_to(s: Seq<char>, r: Result<Route, GongError>) -> bool {
    let k = route_kind_of(s);
    if k == RouteKind::Unrecognized {
        r matches Err(GongError::UnknownResource { uri }) && uri@ == s
    } else if addresses_call(k) && call_id_of(s).len() == 0 {
        r matches Err(GongError::MissingCallId { uri }) && uri@ == s
    } else {
        match r {
            Ok(Route::Status) => k == RouteKind::Status,
            Ok(Route::UserList) => k == RouteKind::UserList,
            Ok(Route::CallDetail(id)) => k == RouteKind::CallDetail && id@ == call_id_of(s),
            Ok(Route::Participants(id)) => k == RouteKind::Participants && id@ == call_id_of(s),
            Ok(Route::Transcript(id)) => k == RouteKind::Transcript && id@ == call_id_of(s),
            Err(_) => false,
        }
    }
}

/// Outside the calls prefix and neither fixed URI.
pub open spec fn unrecognized_shape(s: Seq<char>) -> bool {
    s != status_uri() && s != users_uri() && !starts_with(s, calls_prefix())
}

/// Route classification is total and mutually exclusive: the shapes of the
/// grammar cover every string, no two of them hold together, and each string
/// is classified as the one shape it has.
pub proof fn lemma_route_partition(s: Seq<char>)
    ensures
        s == status_uri() || s == users_uri() || transcript_shape(s) || participants_shape(s)
            || detail_shape(s) || unrecognized_shape(s),
        !(s == status_uri() && s == users_uri()),
        !(s == status_uri() && starts_with(s, calls_prefix())),
        !(s == users_uri() && starts_with(s, calls_prefix())),
        !(transcript_shape(s) && participants_shape(s)),
        route_kind_of(s) == RouteKind::Status <==> s == status_uri(),
        route_kind_of(s) == RouteKind::UserList <==> s == users_uri(),
        route_kind_of(s) == RouteKind::Transcript <==> transcript_shape(s),
        route_kind_of(s) == RouteKind::Participants <==> participants_shape(s),
        route_kind_of(s) == RouteKind::CallDetail <==> detail_shape(s),
        route_kind_of(s) == RouteKind::Unrecognized <==> unrecognized_shape(s),
{
    reveal_strlit("gong://status");
    reveal_strlit("gong://users");
    reveal_strlit("gong://calls/");
    reveal_strlit("/transcript");
    reveal_strlit("/participants");
    if s == status_uri() {
        assert(s[7] != calls_prefix()[7]);
        assert(s.subrange(0, 13)[7] != calls_prefix()[7]);
    }
    if ends_with(s, transcript_suffix()) && ends_with(s, participants_suffix()) {
        let n = s.len() as int;
        assert(s.subrange(n - 11, n)[10] == s[n - 1]);
        assert(s.subrange(n - 13, n)[12] == s[n - 1]);
    }
}

/// A transcript URI with a non-empty id is routed to the transcript of
/// exactly that id.
pub proof fn lemma_transcript_id_extracted(id: Seq<char>)
    requires
        id.len() > 0,
    ensures
        route_kind_of(calls_prefix() + id + transcript_suffix()) == RouteKind::Transcript,
        call_id_of(calls_prefix() + id + transcript_suffix()) == id,
{
    reveal_strlit("gong://status");
    reveal_strlit("gong://users");
    reveal_strlit("gong://calls/");
    reveal_strlit("/transcript");
    let s = calls_prefix() + id + transcript_suffix();
    let n = s.len() as int;
    assert(s.subrange(0, 13) =~= calls_prefix());
    assert(s.subrange(n - 11, n) =~= transcript_suffix());
    assert(s != status_uri()) by {
        assert(s.len() != status_uri().len() || s[7] != status_uri()[7]);
    }
    assert(s != users_uri()) by {
        assert(s.len() != users_uri().len() || s[7] != users_uri()[7]);
    }
    assert(s.subrange(13, n - 11) =~= id);
}

/// Resolution never yields a call route whose id is empty.
pub proof fn lemma_resolved_ids_nonempty(s: Seq<char>, r: Result<Route, GongError>)
    requires
        resolves_to(s, r),
    ensures
        r matches Ok(Route::Transcript(id)) ==> id@.len() > 0,
        r matches Ok(Route::Participants(id)) ==> id@.len() > 0,
        r matches Ok(Route::CallDetail(id)) ==> id@.len() > 0,
{
}

/// Classifies a resource URI by the grammar.
pub fn classify(uri: &str) -> (r: RouteKind)
    ensures
        r == route_kind_of(uri@),
{
    if same_text(uri, "gong://status") {
        RouteKind::Status
    } else if same_text(uri, "gong://users") {
        RouteKind::UserList
    } else if has_prefix(uri, "gong://calls/") {
        if has_suffix(uri, "/transcript") {
            RouteKind::Transcript
        } else if has_suffix(uri, "/participants") {
            RouteKind::Participants
        } else {
            RouteKind::CallDetail
        }
    } else {
        RouteKind::Unrecognized
    }
}

/// The text between the calls prefix and the last `suffix_len` characters.
fn extract_id(uri: &str, suffix_len: usize) -> (r: String)
    requires
        suffix_len <= uri@.len(),
    ensures
        r@ == id_between(uri@, suffix_len as nat),
{
    let n = uri.unicode_len();
    let start = "gong://calls/".unicode_len();
    if start <= n - suffix_len {
        String::from_str(uri.substring_char(start, n - suffix_len))
    } else {
        String::new()
    }
}

/// Resolves a resource URI into a route with its call id.
pub fn resolve(uri: &str) -> (r: Result<Route, GongError>)
    ensures
        resolves_to(uri@, r),
{
    let kind = classify(uri);
    let suffix_len: usize = match kind {
        RouteKind::Transcript => "/transcript".unicode_len(),
        RouteKind::Participants => "/participants".unicode_len(),
        _ => 0,
    };
    match kind {
        RouteKind::Status => Ok(Route::Status),
        RouteKind::UserList => Ok(Route::UserList),
        RouteKind::Unrecognized => Err(GongError::UnknownResource { uri: String::from_str(uri) }),
        _ => {
            let id = extract_id(uri, suffix_len);
            if id.unicode_len() == 0 {
                Err(GongError::MissingCallId { uri: String::from_str(uri) })
            } else {
                match kind {
                    RouteKind::Transcript => Ok(Route::Transcript(id)),
                    RouteKind::Participants => Ok(Route::Participants(id)),
                    _ => Ok(Route::CallDetail(id)),
                }
            }
        }
    }
}

} // verus!
