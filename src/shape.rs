//! Shaping of upstream payloads into the adapter's output records.

use vstd::prelude::*;

use crate::text::{decimal, decimal_text};
use crate::upstream::{
    affiliation_tag, direction_tag, Affiliation, CallMeta, CallRecord, Party, UserEntry, UserPage,
};

verus! {

/// Participant counts, recomputed from the participant list on every read.
#[derive(Clone, Copy, Debug, PartialEq, Eq, Structural)]
pub struct ParticipantSummary {
    pub total: usize,
    pub internal: usize,
    pub external: usize,
    /// Participants that declare a speaker id.
    pub speakers: usize,
}

/// How many participants declare affiliation `a`.
pub open spec fn count_affiliated(ps: Seq<Party>, a: Affiliation) -> nat
    decreases ps.len(),
{
    if ps.len() == 0 {
        0
    } else {
        count_affiliated(ps.drop_last(), a) + if ps.last().affiliation == Some(a) {
            1nat
        } else {
            0nat
        }
    }
}

/// How many participants declare a speaker id.
pub open spec fn count_speakers(ps: Seq<Party>) -> nat
    decreases ps.len(),
{
    if ps.len() == 0 {
        0
    } else {
        count_speakers(ps.drop_last()) + if ps.last().speaker_id is Some {
            1nat
        } else {
            0nat
        }
    }
}

/// The summary that a participant list gives.
pub open spec fn summary_matches(ps: Seq<Party>, r: ParticipantSummary) -> bool {
    &&& r.total == ps.len()
    &&& r.internal == count_affiliated(ps, Affiliation::Internal)
    &&& r.external == count_affiliated(ps, Affiliation::External)
    &&& r.speakers == count_speakers(ps)
}

/// A participant whose affiliation is Internal or External.
pub open spec fn recognized(p: Party) -> bool {
    p.affiliation == Some(Affiliation::Internal) || p.affiliation == Some(Affiliation::External)
}

proof fn lemma_counts_bounded(ps: Seq<Party>)
    ensures
        count_affiliated(ps, Affiliation::Internal) <= ps.len(),
        count_affiliated(ps, Affiliation::External) <= ps.len(),
        count_speakers(ps) <= ps.len(),
    decreases ps.len(),
{
    if ps.len() > 0 {
        lemma_counts_bounded(ps.drop_last());
    }
}

/// Internal and external counts never exceed the total, and reach it exactly
/// when every participant has a recognized Internal or External affiliation.
pub proof fn lemma_summary_partition(ps: Seq<Party>)
    ensures
        count_affiliated(ps, Affiliation::Internal) + count_affiliated(ps, Affiliation::External)
            <= ps.len(),
        count_affiliated(ps, Affiliation::Internal) + count_affiliated(ps, Affiliation::External)
            == ps.len() <==> forall|i: int| 0 <= i < ps.len() ==> recognized(#[trigger] ps[i]),
    decreases ps.len(),
{
    if ps.len() > 0 {
        let init = ps.drop_last();
        lemma_summary_partition(init);
        assert forall|i: int| 0 <= i < init.len() implies init[i] == ps[i] by {}
        if forall|i: int| 0 <= i < ps.len() ==> recognized(#[trigger] ps[i]) {
            assert(recognized(ps[ps.len() - 1]));
        }
    }
}

/// Counts the participants of a call.
pub fn participant_summary(parties: &Vec<Party>) -> (r: ParticipantSummary)
    ensures
        summary_matches(parties@, r),
{
    let n = parties.len();
    let mut internal: usize = 0;
    let mut external: usize = 0;
    let mut speakers: usize = 0;
    let mut i: usize = 0;
    while i < n
        invariant
            n == parties@.len(),
            i <= n,
            internal == count_affiliated(parties@.take(i as int), Affiliation::Internal),
            external == count_affiliated(parties@.take(i as int), Affiliation::External),
            speakers == count_speakers(parties@.take(i as int)),
        decreases n - i,
    {
        proof {
            assert(parties@.take(i + 1).drop_last() =~= parties@.take(i as int));
            lemma_counts_bounded(parties@.take(i as int));
        }
        let p = &parties[i];
        match p.affiliation {
            Some(Affiliation::Internal) => internal = internal + 1,
            Some(Affiliation::External) => external = external + 1,
            _ => {},
        }
        if p.speaker_id.is_some() {
            speakers = speakers + 1;
        }
        i = i + 1;
    }
    assert(parties@.take(n as int) =~= parties@);
    ParticipantSummary { total: n, internal, external, speakers }
}

/// A display label for one speaker id.
#[derive(Clone, Debug, PartialEq, Eq)]
pub struct SpeakerLabel {
    pub speaker_id: String,
    pub label: String,
}

/// The text of `o`, or `d` where it is absent.
pub open spec fn text_or(o: Option<String>, d: Seq<char>) -> Seq<char> {
    match o {
        Some(s) => s@,
        None => d,
    }
}

/// `"<name> (<affiliation>)"`, each part `Unknown` where absent.
pub open spec fn speaker_label(p: Party) -> Seq<char> {
    text_or(p.name, "Unknown"@) + " ("@ + match p.affiliation {
        Some(a) => affiliation_tag(a),
        None => "Unknown"@,
    } + ")"@
}

pub open spec fn speaks_as(p: Party, k: Seq<char>) -> bool {
    p.speaker_id matches Some(s) && s@ == k
}

/// `j` is the last participant that declares speaker id `k`.
pub open spec fn last_speaking_as(ps: Seq<Party>, k: Seq<char>, j: int) -> bool {
    &&& 0 <= j < ps.len()
    &&& speaks_as(ps[j], k)
    &&& forall|l: int| j < l < ps.len() ==> !speaks_as(#[trigger] ps[l], k)
}

/// `e` is labelled from the last participant that declares its speaker id.
pub open spec fn labelled_from(ps: Seq<Party>, e: SpeakerLabel) -> bool {
    exists|j: int| #[trigger] last_speaking_as(ps, e.speaker_id@, j) && e.label@ == speaker_label(ps[j])
}

/// No speaker id appears twice.
#[verifier::opaque]
pub open spec fn speaker_ids_unique(es: Seq<SpeakerLabel>) -> bool {
    forall|a: int, b: int|
        0 <= a < b < es.len() ==> (#[trigger] es[a]).speaker_id@ != (#[trigger] es[b]).speaker_id@
}

/// Every entry is labelled from the last participant that declares its id.
#[verifier::opaque]
pub open spec fn all_labelled(ps: Seq<Party>, es: Seq<SpeakerLabel>) -> bool {
    forall|a: int| 0 <= a < es.len() ==> labelled_from(ps, #[trigger] es[a])
}

/// Every declared speaker id has an entry.
#[verifier::opaque]
pub open spec fn all_declared_listed(ps: Seq<Party>, es: Seq<SpeakerLabel>) -> bool {
    forall|j: int|
        0 <= j < ps.len() && (#[trigger] ps[j]).speaker_id is Some ==> exists|a: int|
            0 <= a < es.len() && (#[trigger] es[a]).speaker_id@ == ps[j].speaker_id->Some_0@
}

/// The speaker map of a participant list: one entry per declared speaker id,
/// labelled from the last participant that declares it.
pub open spec fn speaker_map_matches(ps: Seq<Party>, es: Seq<SpeakerLabel>) -> bool {
    &&& speaker_ids_unique(es)
    &&& all_labelled(ps, es)
    &&& all_declared_listed(ps, es)
}

proof fn lemma_last_speaker_exists(ps: Seq<Party>, k: Seq<char>, j: int)
    requires
        0 <= j < ps.len(),
        speaks_as(ps[j], k),
    ensures
        exists|l: int| last_speaking_as(ps, k, l),
    decreases ps.len() - j,
{
    if last_speaking_as(ps, k, j) {
    } else {
        let l = choose|l: int| j < l < ps.len() && speaks_as(#[trigger] ps[l], k);
        lemma_last_speaker_exists(ps, k, l);
    }
}

/// `es` has an entry with the speaker id and label of `e`.
pub open spec fn has_entry(es: Seq<SpeakerLabel>, e: SpeakerLabel) -> bool {
    exists|j: int|
        0 <= j < es.len() && (#[trigger] es[j]).speaker_id@ == e.speaker_id@ && es[j].label@
            == e.label@
}

/// Every entry of `a` is an entry of `b`.
pub open spec fn speaker_maps_agree(a: Seq<SpeakerLabel>, b: Seq<SpeakerLabel>) -> bool {
    forall|i: int| 0 <= i < a.len() ==> has_entry(b, #[trigger] a[i])
}

proof fn lemma_last_speaker_unique(ps: Seq<Party>, k: Seq<char>, j1: int, j2: int)
    requires
        last_speaking_as(ps, k, j1),
        last_speaking_as(ps, k, j2),
    ensures
        j1 == j2,
{
    if j1 < j2 {
        assert(speaks_as(ps[j2], k));
    } else if j2 < j1 {
        assert(speaks_as(ps[j1], k));
    }
}

proof fn lemma_entry_found(ps: Seq<Party>, a: Seq<SpeakerLabel>, b: Seq<SpeakerLabel>, i: int)
    requires
        all_labelled(ps, a),
        all_labelled(ps, b),
        all_declared_listed(ps, b),
        0 <= i < a.len(),
    ensures
        has_entry(b, a[i]),
{
    reveal(all_labelled);
    reveal(all_declared_listed);
    assert(labelled_from(ps, a[i]));
    let l = choose|l: int|
        #[trigger] last_speaking_as(ps, a[i].speaker_id@, l) && a[i].label@ == speaker_label(ps[l]);
    assert(ps[l].speaker_id is Some);
    let j = choose|j: int|
        0 <= j < b.len() && (#[trigger] b[j]).speaker_id@ == ps[l].speaker_id->Some_0@;
    assert(labelled_from(ps, b[j]));
    let m = choose|m: int|
        #[trigger] last_speaking_as(ps, b[j].speaker_id@, m) && b[j].label@ == speaker_label(ps[m]);
    lemma_last_speaker_unique(ps, a[i].speaker_id@, l, m);
}

/// Any two speaker maps of the same participants hold the same entries.
pub proof fn lemma_speaker_map_determined(ps: Seq<Party>, a: Seq<SpeakerLabel>, b: Seq<SpeakerLabel>)
    requires
        speaker_map_matches(ps, a),
        speaker_map_matches(ps, b),
    ensures
        speaker_maps_agree(a, b),
        speaker_maps_agree(b, a),
{
    assert forall|i: int| 0 <= i < a.len() implies has_entry(b, #[trigger] a[i]) by {
        lemma_entry_found(ps, a, b, i);
    }
    assert forall|i: int| 0 <= i < b.len() implies has_entry(a, #[trigger] b[i]) by {
        lemma_entry_found(ps, b, a, i);
    }
}

/// Whether a participant after `i` declares speaker id `s`.
fn spoken_later(parties: &Vec<Party>, i: usize, s: &String) -> (r: bool)
    requires
        i < parties@.len(),
    ensures
        r == exists|l: int| i < l < parties@.len() && speaks_as(#[trigger] parties@[l], s@),
{
    let n = parties.len();
    let mut l: usize = i + 1;
    while l < n
        invariant
            n == parties@.len(),
            i < l <= n,
            forall|m: int| i < m < l ==> !speaks_as(#[trigger] parties@[m], s@),
        decreases n - l,
    {
        match &parties[l] {
            Party { speaker_id: Some(t), .. } => {
                if *t == *s {
                    assert(speaks_as(parties@[l as int], s@));
                    return true;
                }
            },
            _ => {},
        }
        l = l + 1;
    }
    false
}

/// The label of one participant.
fn label_for(p: &Party) -> (r: String)
    ensures
        r@ == speaker_label(*p),
{
    let name: &str = match &p.name {
        Some(n) => n.as_str(),
        None => "Unknown",
    };
    let affiliation: &str = match &p.affiliation {
        Some(a) => a.tag(),
        None => "Unknown",
    };
    String::from_str(name).concat(" (").concat(affiliation).concat(")")
}

/// Maps each declared speaker id to the label of the last participant that
/// declares it.
pub fn speaker_map(parties: &Vec<Party>) -> (r: Vec<SpeakerLabel>)
    ensures
        speaker_map_matches(parties@, r@),
{
    let n = parties.len();
    let mut out: Vec<SpeakerLabel> = Vec::new();
    let ghost mut idx: Seq<int> = Seq::empty();
    let mut i: usize = 0;
    while i < n
        invariant
            n == parties@.len(),
            i <= n,
            out@.len() == idx.len(),
            forall|a: int|
                0 <= a < out@.len() ==> 0 <= #[trigger] idx[a] < i && last_speaking_as(
                    parties@,
                    out@[a].speaker_id@,
                    idx[a],
                ) && out@[a].label@ == speaker_label(parties@[idx[a]]),
            forall|a: int, b: int| 0 <= a < b < out@.len() ==> #[trigger] idx[a] < #[trigger] idx[b],
            forall|j: int|
                0 <= j < i && parties@[j].speaker_id is Some && #[trigger] last_speaking_as(
                    parties@,
                    parties@[j].speaker_id->Some_0@,
                    j,
                ) ==> exists|a: int| 0 <= a < out@.len() && #[trigger] idx[a] == j,
        decreases n - i,
    {
        let ghost before = idx;
        let p = &parties[i];
        if let Some(s) = &p.speaker_id {
            if !spoken_later(parties, i, s) {
                let entry = SpeakerLabel { speaker_id: s.clone(), label: label_for(p) };
                out.push(entry);
                proof {
                    idx = idx.push(i as int);
                    assert(last_speaking_as(parties@, s@, i as int));
                    assert(idx[idx.len() - 1] == i);
                }
            }
        }
        proof {
            assert forall|j: int|
                0 <= j < i + 1 && parties@[j].speaker_id is Some && #[trigger] last_speaking_as(
                    parties@,
                    parties@[j].speaker_id->Some_0@,
                    j,
                ) implies exists|a: int| 0 <= a < out@.len() && #[trigger] idx[a] == j by {
                if j < i {
                    let a = choose|a: int| 0 <= a < before.len() && #[trigger] before[a] == j;
                    assert(idx[a] == before[a]);
                } else {
                    assert(idx.len() > before.len());
                    assert(idx[idx.len() - 1] == j);
                }
            }
        }
        i = i + 1;
    }
    proof {
        let es = out@;
        let ps = parties@;
        reveal(speaker_ids_unique);
        reveal(all_labelled);
        reveal(all_declared_listed);
        assert forall|a: int, b: int| 0 <= a < b < es.len() implies (#[trigger] es[a]).speaker_id@
            != (#[trigger] es[b]).speaker_id@ by {
            assert(idx[a] < idx[b]);
            assert(last_speaking_as(ps, es[a].speaker_id@, idx[a]));
            assert(last_speaking_as(ps, es[b].speaker_id@, idx[b]));
            if es[a].speaker_id@ == es[b].speaker_id@ {
                assert(!speaks_as(ps[idx[b]], es[a].speaker_id@));
            }
        }
        assert forall|a: int| 0 <= a < es.len() implies labelled_from(ps, #[trigger] es[a]) by {
            assert(0 <= idx[a] < n);
            assert(last_speaking_as(ps, es[a].speaker_id@, idx[a]));
        }
        assert forall|j: int| 0 <= j < ps.len() && (#[trigger] ps[j]).speaker_id is Some implies exists|
            a: int,
        | 0 <= a < es.len() && (#[trigger] es[a]).speaker_id@ == ps[j].speaker_id->Some_0@ by {
            let k = ps[j].speaker_id->Some_0@;
            lemma_last_speaker_exists(ps, k, j);
            let l = choose|l: int| last_speaking_as(ps, k, l);
            assert(ps[l].speaker_id is Some);
            assert(ps[l].speaker_id->Some_0@ == k);
            let a = choose|a: int| 0 <= a < out@.len() && #[trigger] idx[a] == l;
            assert(last_speaking_as(ps, es[a].speaker_id@, idx[a]));
        }
    }
    out
}

/// A call in list and search results, with display defaults in place of
/// absent fields.
#[derive(Debug, PartialEq)]
pub struct CallSummary {
    pub id: String,
    pub title: String,
    pub started: String,
    pub duration: i64,
    pub direction: String,
    pub participants: Vec<Party>,
    pub participant_summary: ParticipantSummary,
    pub url: String,
}

/// A call's full metadata; absent fields stay absent.
#[derive(Debug, PartialEq)]
pub struct CallDetail {
    pub meta: CallMeta,
    pub participant_count: usize,
    pub participant_summary: ParticipantSummary,
}

/// The participants of one call, with counts and speaker labels.
#[derive(Debug, PartialEq)]
pub struct ParticipantsView {
    pub call_id: String,
    pub participants: Vec<Party>,
    pub summary: ParticipantSummary,
    pub speaker_map: Vec<SpeakerLabel>,
}

/// A user with display defaults in place of absent fields.
#[derive(Clone, Debug, PartialEq, Eq)]
pub struct UserRecord {
    pub id: String,
    pub email: String,
    pub first_name: String,
    pub last_name: String,
    pub active: bool,
}

/// The user list resource.
#[derive(Clone, Debug, PartialEq, Eq)]
pub struct UsersView {
    pub users: Vec<UserRecord>,
    pub count: usize,
    pub message: String,
}

/// Metadata with every field absent.
pub open spec fn no_meta() -> CallMeta {
    CallMeta {
        id: None,
        url: None,
        title: None,
        scheduled: None,
        started: None,
        duration: None,
        primary_user_id: None,
        direction: None,
        system: None,
        scope: None,
        media: None,
        language: None,
        workspace_id: None,
        sdr_disposition: None,
        client_unique_id: None,
        custom_data: None,
        purpose: None,
        meeting_url: None,
        is_private: None,
        calendar_event_id: None,
    }
}

pub open spec fn meta_or_none(m: Option<CallMeta>) -> CallMeta {
    match m {
        Some(x) => x,
        None => no_meta(),
    }
}

pub open spec fn parties_of(rec: CallRecord) -> Seq<Party> {
    match rec.parties {
        Some(v) => v@,
        None => Seq::empty(),
    }
}

/// The summary that a call record gives.
pub open spec fn call_summary_matches(rec: CallRecord, r: CallSummary) -> bool {
    let m = meta_or_none(rec.meta);
    &&& r.id@ == text_or(m.id, Seq::empty())
    &&& r.title@ == text_or(m.title, "Untitled"@)
    &&& r.started@ == text_or(m.started, Seq::empty())
    &&& r.duration == (match m.duration {
        Some(d) => d,
        None => 0,
    })
    &&& r.direction@ == (match m.direction {
        Some(d) => direction_tag(d),
        None => Seq::empty(),
    })
    &&& r.url@ == text_or(m.url, Seq::empty())
    &&& r.participants@ == parties_of(rec)
    &&& summary_matches(parties_of(rec), r.participant_summary)
}

/// The detail that a call record gives.
pub open spec fn call_detail_matches(rec: CallRecord, r: CallDetail) -> bool {
    &&& r.meta == meta_or_none(rec.meta)
    &&& r.participant_count == parties_of(rec).len()
    &&& summary_matches(parties_of(rec), r.participant_summary)
}

/// The participants view that a call record gives; `requested` is the id
/// used where the record carries none.
pub open spec fn participants_view_matches(
    rec: CallRecord,
    requested: Seq<char>,
    r: ParticipantsView,
) -> bool {
    &&& r.call_id@ == text_or(meta_or_none(rec.meta).id, requested)
    &&& r.participants@ == parties_of(rec)
    &&& summary_matches(parties_of(rec), r.summary)
    &&& speaker_map_matches(parties_of(rec), r.speaker_map@)
}

pub open spec fn user_matches(u: UserEntry, r: UserRecord) -> bool {
    &&& r.id@ == text_or(u.id, Seq::empty())
    &&& r.email@ == text_or(u.email_address, Seq::empty())
    &&& r.first_name@ == text_or(u.first_name, Seq::empty())
    &&& r.last_name@ == text_or(u.last_name, Seq::empty())
    &&& r.active == (u.active == Some(true))
}

/// The user list that a user page gives.
pub open spec fn users_view_matches(page: UserPage, r: UsersView) -> bool {
    match page.users {
        Some(us) => {
            &&& r.users@.len() == us@.len()
            &&& forall|i: int| 0 <= i < us@.len() ==> user_matches(us@[i], #[trigger] r.users@[i])
            &&& r.count == us@.len()
            &&& r.message@ == "Retrieved "@ + decimal(us@.len()) + " users"@
        },
        None => {
            &&& r.users@.len() == 0
            &&& r.count == 0
            &&& r.message@ == "No users found"@
        },
    }
}

fn take_parties(parties: Option<Vec<Party>>) -> (r: Vec<Party>)
    ensures
        r@ == match parties {
            Some(v) => v@,
            None => Seq::empty(),
        },
{
    match parties {
        Some(v) => v,
        None => Vec::new(),
    }
}

/// The text of `o`, or the empty text.
pub fn text_or_empty(o: &Option<String>) -> (r: String)
    ensures
        r@ == text_or(*o, Seq::empty()),
{
    match o {
        Some(s) => s.clone(),
        None => String::new(),
    }
}

/// Shapes a call for list and search results.
pub fn summarize_call(rec: CallRecord) -> (r: CallSummary)
    ensures
        call_summary_matches(rec, r),
{
    let participants = take_parties(rec.parties);
    let participant_summary = participant_summary(&participants);
    match rec.meta {
        Some(m) => {
            let direction = match &m.direction {
                Some(d) => String::from_str(d.tag()),
                None => String::new(),
            };
            let title = match m.title {
                Some(t) => t,
                None => String::from_str("Untitled"),
            };
            CallSummary {
                id: text_or_empty(&m.id),
                title,
                started: text_or_empty(&m.started),
                duration: match m.duration {
                    Some(d) => d,
                    None => 0,
                },
                direction,
                participants,
                participant_summary,
                url: text_or_empty(&m.url),
            }
        },
        None => CallSummary {
            id: String::new(),
            title: String::from_str("Untitled"),
            started: String::new(),
            duration: 0,
            direction: String::new(),
            participants,
            participant_summary,
            url: String::new(),
        },
    }
}

/// Shapes a call's full metadata.
pub fn call_detail(rec: CallRecord) -> (r: CallDetail)
    ensures
        call_detail_matches(rec, r),
{
    let participants = take_parties(rec.parties);
    let participant_summary = participant_summary(&participants);
    let meta = match rec.meta {
        Some(m) => m,
        None => CallMeta {
            id: None,
            url: None,
            title: None,
            scheduled: None,
            started: None,
            duration: None,
            primary_user_id: None,
            direction: None,
            system: None,
            scope: None,
            media: None,
            language: None,
            workspace_id: None,
            sdr_disposition: None,
            client_unique_id: None,
            custom_data: None,
            purpose: None,
            meeting_url: None,
            is_private: None,
            calendar_event_id: None,
        },
    };
    CallDetail { meta, participant_count: participants.len(), participant_summary }
}

/// Shapes the participants of a call looked up by `requested`.
pub fn participants_view(rec: CallRecord, requested: &str) -> (r: ParticipantsView)
    ensures
        participants_view_matches(rec, requested@, r),
{
    let call_id = match rec.meta {
        Some(CallMeta { id: Some(id), .. }) => id,
        _ => String::from_str(requested),
    };
    let participants = take_parties(rec.parties);
    let summary = participant_summary(&participants);
    let speaker_map = speaker_map(&participants);
    ParticipantsView { call_id, participants, summary, speaker_map }
}

fn user_record(u: &UserEntry) -> (r: UserRecord)
    ensures
        user_matches(*u, r),
{
    UserRecord {
        id: text_or_empty(&u.id),
        email: text_or_empty(&u.email_address),
        first_name: text_or_empty(&u.first_name),
        last_name: text_or_empty(&u.last_name),
        active: match u.active {
            Some(a) => a,
            None => false,
        },
    }
}

/// Shapes the user list.
pub fn users_view(page: UserPage) -> (r: UsersView)
    ensures
        users_view_matches(page, r),
{
    match &page.users {
        Some(us) => {
            let n = us.len();
            let mut users: Vec<UserRecord> = Vec::new();
            let mut i: usize = 0;
            while i < n
                invariant
                    n == us@.len(),
                    i <= n,
                    users@.len() == i,
                    forall|j: int| 0 <= j < i ==> user_matches(us@[j], #[trigger] users@[j]),
                decreases n - i,
            {
                users.push(user_record(&us[i]));
                i = i + 1;
            }
            let message = String::from_str("Retrieved ").concat(decimal_text(n).as_str()).concat(
                " users",
            );
            UsersView { users, count: n, message }
        },
        None => UsersView {
            users: Vec::new(),
            count: 0,
            message: String::from_str("No users found"),
        },
    }
}

} // verus!
