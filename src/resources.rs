//! Completion of reads and searches from the upstream answer.

use vstd::prelude::*;

use crate::error::{errors_agree, failure_error, is_not_found, upstream_error, GongError};
use crate::search::{search_result, search_result_matches, SearchArgs, SearchResult};
use crate::shape::{
    call_detail, lemma_speaker_map_determined, parties_of, speaker_maps_agree, user_matches, call_detail_matches, participants_view, participants_view_matches, users_view,
    users_view_matches, CallDetail, ParticipantsView, UsersView,
};
use crate::transcript::{shape_transcript, transcript_matches, TranscriptRecord};
use crate::upstream::{CallPage, CallRecord, CallTranscript, TranscriptSet, UpstreamFailure, UserPage};

verus! {

/// The first item, where there is one.
pub open spec fn first_of<T>(o: Option<Vec<T>>) -> Option<T> {
    match o {
        Some(v) => if v@.len() > 0 {
            Some(v@[0])
        } else {
            None
        },
        None => None,
    }
}

fn take_first<T>(o: Option<Vec<T>>) -> (r: Option<T>)
    ensures
        r == first_of(o),
{
    match o {
        Some(v) => {
            let mut v = v;
            if v.len() > 0 {
                Some(v.remove(0))
            } else {
                None
            }
        },
        None => None,
    }
}

/// The error for a failed lookup of call `id`.
pub open spec fn call_lookup_error(f: UpstreamFailure, id: Seq<char>, e: GongError) -> bool {
    if is_not_found(f) {
        e matches GongError::CallNotFound { call_id } && call_id@ == id
    } else {
        e == failure_error(f)
    }
}

/// The error for a failed transcript lookup of call `id`.
pub open spec fn transcript_lookup_error(f: UpstreamFailure, id: Seq<char>, e: GongError) -> bool {
    if is_not_found(f) {
        e matches GongError::TranscriptNotFound { call_id } && call_id@ == id
    } else {
        e == failure_error(f)
    }
}

fn call_not_found(id: &str) -> (r: GongError)
    ensures
        r matches GongError::CallNotFound { call_id } && call_id@ == id@,
{
    GongError::CallNotFound { call_id: String::from_str(id) }
}

fn lookup_error(f: UpstreamFailure, id: &str, transcript: bool) -> (r: GongError)
    ensures
        transcript ==> transcript_lookup_error(f, id@, r),
        !transcript ==> call_lookup_error(f, id@, r),
{
    let not_found = match &f {
        UpstreamFailure::Status { code, .. } => *code == 404,
        _ => false,
    };
    if not_found {
        if transcript {
            GongError::TranscriptNotFound { call_id: String::from_str(id) }
        } else {
            call_not_found(id)
        }
    } else {
        upstream_error(f)
    }
}

/// The outcome of a single-call read: the lookup error, or not-found where
/// no call came back.
pub open spec fn call_read_failed<T>(
    id: Seq<char>,
    reply: Result<CallPage, UpstreamFailure>,
    r: Result<T, GongError>,
) -> bool {
    match reply {
        Err(f) => r matches Err(e) && call_lookup_error(f, id, e),
        Ok(page) => r matches Err(GongError::CallNotFound { call_id }) && call_id@ == id,
    }
}

/// The outcome of a read of `gong://calls/{id}`.
pub open spec fn detail_read_matches(
    id: Seq<char>,
    reply: Result<CallPage, UpstreamFailure>,
    r: Result<CallDetail, GongError>,
) -> bool {
    match reply {
        Ok(page) if first_of(page.calls) is Some => r matches Ok(d) && call_detail_matches(
            first_of(page.calls)->Some_0,
            d,
        ),
        _ => call_read_failed(id, reply, r),
    }
}

/// The outcome of a read of `gong://calls/{id}/participants`.
pub open spec fn participants_read_matches(
    id: Seq<char>,
    reply: Result<CallPage, UpstreamFailure>,
    r: Result<ParticipantsView, GongError>,
) -> bool {
    match reply {
        Ok(page) if first_of(page.calls) is Some => r matches Ok(v) && participants_view_matches(
            first_of(page.calls)->Some_0,
            id,
            v,
        ),
        _ => call_read_failed(id, reply, r),
    }
}

/// Completes a read of `gong://calls/{id}`.
pub fn read_call(id: &str, reply: Result<CallPage, UpstreamFailure>) -> (r: Result<
    CallDetail,
    GongError,
>)
    ensures
        detail_read_matches(id@, reply, r),
{
    match reply {
        Err(f) => Err(lookup_error(f, id, false)),
        Ok(page) => match take_first(page.calls) {
            Some(rec) => Ok(call_detail(rec)),
            None => Err(call_not_found(id)),
        },
    }
}

/// Completes a read of `gong://calls/{id}/participants`.
pub fn read_participants(id: &str, reply: Result<CallPage, UpstreamFailure>) -> (r: Result<
    ParticipantsView,
    GongError,
>)
    ensures
        participants_read_matches(id@, reply, r),
{
    match reply {
        Err(f) => Err(lookup_error(f, id, false)),
        Ok(page) => match take_first(page.calls) {
            Some(rec) => Ok(participants_view(rec, id)),
            None => Err(call_not_found(id)),
        },
    }
}

/// The outcome of a transcript read.
pub open spec fn transcript_read_matches(
    id: Seq<char>,
    reply: Result<TranscriptSet, UpstreamFailure>,
    r: Result<TranscriptRecord, GongError>,
) -> bool {
    match reply {
        Err(f) => r matches Err(e) && transcript_lookup_error(f, id, e),
        Ok(set) => match first_of(set.transcripts) {
            Some(t) => r matches Ok(x) && transcript_matches(t, x),
            None => r matches Err(GongError::TranscriptNotFound { call_id }) && call_id@ == id,
        },
    }
}

/// Completes a read of `gong://calls/{id}/transcript`.
pub fn read_transcript(id: &str, reply: Result<TranscriptSet, UpstreamFailure>) -> (r: Result<
    TranscriptRecord,
    GongError,
>)
    ensures
        transcript_read_matches(id@, reply, r),
{
    match reply {
        Err(f) => Err(lookup_error(f, id, true)),
        Ok(set) => match take_first::<CallTranscript>(set.transcripts) {
            Some(t) => Ok(shape_transcript(t)),
            None => Err(GongError::TranscriptNotFound { call_id: String::from_str(id) }),
        },
    }
}

/// The outcome of a read of `gong://users`.
pub open spec fn users_read_matches(
    reply: Result<UserPage, UpstreamFailure>,
    r: Result<UsersView, GongError>,
) -> bool {
    match reply {
        Err(f) => r == Err::<UsersView, GongError>(failure_error(f)),
        Ok(page) => r matches Ok(v) && users_view_matches(page, v),
    }
}

/// Completes a read of `gong://users`.
pub fn read_users(reply: Result<UserPage, UpstreamFailure>) -> (r: Result<UsersView, GongError>)
    ensures
        users_read_matches(reply, r),
{
    match reply {
        Err(f) => Err(upstream_error(f)),
        Ok(page) => Ok(users_view(page)),
    }
}

/// Completes a call search; a page without calls is an empty success.
pub fn finish_search(args: SearchArgs, reply: Result<CallPage, UpstreamFailure>) -> (r: Result<
    SearchResult,
    GongError,
>)
    ensures
        match reply {
            Err(f) => r == Err::<SearchResult, GongError>(failure_error(f)),
            Ok(page) => r matches Ok(x) && search_result_matches(args, page, x),
        },
{
    match reply {
        Err(f) => Err(upstream_error(f)),
        Ok(page) => Ok(search_result(args, page)),
    }
}

/// Two outcomes of the same read agree: both succeed with records that
/// `agree` relates, or both fail with errors that report the same thing.
pub open spec fn outcomes_agree<T>(
    a: Result<T, GongError>,
    b: Result<T, GongError>,
    agree: spec_fn(T, T) -> bool,
) -> bool {
    match (a, b) {
        (Ok(x), Ok(y)) => agree(x, y),
        (Err(e), Err(f)) => errors_agree(e, f),
        _ => false,
    }
}

pub open spec fn details_agree(a: CallDetail, b: CallDetail) -> bool {
    a.meta == b.meta && a.participant_count == b.participant_count && a.participant_summary
        == b.participant_summary
}

pub open spec fn participants_agree(a: ParticipantsView, b: ParticipantsView) -> bool {
    &&& a.call_id@ == b.call_id@
    &&& a.participants@ == b.participants@
    &&& a.summary == b.summary
    &&& speaker_maps_agree(a.speaker_map@, b.speaker_map@)
    &&& speaker_maps_agree(b.speaker_map@, a.speaker_map@)
}

pub open spec fn transcripts_agree(a: TranscriptRecord, b: TranscriptRecord) -> bool {
    &&& a.call_id@ == b.call_id@
    &&& a.monologues == b.monologues
    &&& a.sentences@ == b.sentences@
    &&& a.sentence_count == b.sentence_count
    &&& a.speaker_count == b.speaker_count
    &&& a.monologue_count == b.monologue_count
}

pub open spec fn users_agree(a: UsersView, b: UsersView) -> bool {
    &&& a.users@.len() == b.users@.len()
    &&& forall|i: int|
        0 <= i < a.users@.len() ==> {
            let (x, y) = (#[trigger] a.users@[i], b.users@[i]);
            x.id@ == y.id@ && x.email@ == y.email@ && x.first_name@ == y.first_name@
                && x.last_name@ == y.last_name@ && x.active == y.active
        }
    &&& a.count == b.count
    &&& a.message@ == b.message@
}

proof fn lemma_lookup_errors_agree(f: UpstreamFailure, id: Seq<char>, e1: GongError, e2: GongError, transcript: bool)
    requires
        transcript ==> transcript_lookup_error(f, id, e1) && transcript_lookup_error(f, id, e2),
        !transcript ==> call_lookup_error(f, id, e1) && call_lookup_error(f, id, e2),
    ensures
        errors_agree(e1, e2),
{
}

/// Reading `gong://calls/{id}` twice against the same upstream answer gives
/// the same call detail, or the same error.
pub proof fn lemma_detail_read_idempotent(
    id: Seq<char>,
    reply: Result<CallPage, UpstreamFailure>,
    r1: Result<CallDetail, GongError>,
    r2: Result<CallDetail, GongError>,
)
    requires
        detail_read_matches(id, reply, r1),
        detail_read_matches(id, reply, r2),
    ensures
        outcomes_agree(r1, r2, |a: CallDetail, b: CallDetail| details_agree(a, b)),
{
    if let Err(f) = reply {
        lemma_lookup_errors_agree(f, id, r1->Err_0, r2->Err_0, false);
    }
}

/// Reading `gong://calls/{id}/participants` twice against the same upstream
/// answer gives the same participants, counts and speaker map, or the same error.
pub proof fn lemma_participants_read_idempotent(
    id: Seq<char>,
    reply: Result<CallPage, UpstreamFailure>,
    r1: Result<ParticipantsView, GongError>,
    r2: Result<ParticipantsView, GongError>,
)
    requires
        participants_read_matches(id, reply, r1),
        participants_read_matches(id, reply, r2),
    ensures
        outcomes_agree(r1, r2, |a: ParticipantsView, b: ParticipantsView| participants_agree(a, b)),
{
    match reply {
        Err(f) => {
            lemma_lookup_errors_agree(f, id, r1->Err_0, r2->Err_0, false);
        },
        Ok(page) => {
            if let Some(rec) = first_of(page.calls) {
                lemma_speaker_map_determined(
                    parties_of(rec),
                    r1->Ok_0.speaker_map@,
                    r2->Ok_0.speaker_map@,
                );
            }
        },
    }
}

/// Reading `gong://calls/{id}/transcript` twice against the same upstream
/// answer gives the same transcript record, or the same error.
pub proof fn lemma_transcript_read_idempotent(
    id: Seq<char>,
    reply: Result<TranscriptSet, UpstreamFailure>,
    r1: Result<TranscriptRecord, GongError>,
    r2: Result<TranscriptRecord, GongError>,
)
    requires
        transcript_read_matches(id, reply, r1),
        transcript_read_matches(id, reply, r2),
    ensures
        outcomes_agree(r1, r2, |a: TranscriptRecord, b: TranscriptRecord| transcripts_agree(a, b)),
{
    if let Err(f) = reply {
        lemma_lookup_errors_agree(f, id, r1->Err_0, r2->Err_0, true);
    }
}

/// Reading `gong://users` twice against the same upstream answer gives the
/// same user list, or the same error.
pub proof fn lemma_users_read_idempotent(
    reply: Result<UserPage, UpstreamFailure>,
    r1: Result<UsersView, GongError>,
    r2: Result<UsersView, GongError>,
)
    requires
        users_read_matches(reply, r1),
        users_read_matches(reply, r2),
    ensures
        outcomes_agree(r1, r2, |a: UsersView, b: UsersView| users_agree(a, b)),
{
    if let Ok(page) = reply {
        let (a, b) = (r1->Ok_0, r2->Ok_0);
        if let Some(us) = page.users {
            assert forall|i: int| 0 <= i < a.users@.len() implies {
                let (x, y) = (#[trigger] a.users@[i], b.users@[i]);
                x.id@ == y.id@ && x.email@ == y.email@ && x.first_name@ == y.first_name@
                    && x.last_name@ == y.last_name@ && x.active == y.active
            } by {
                assert(user_matches(us@[i], a.users@[i]));
                assert(user_matches(us@[i], b.users@[i]));
            }
        }
    }
}

} // verus!
