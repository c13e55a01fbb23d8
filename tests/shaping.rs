use gong_mcp::{
    call_detail, participant_summary, participants_view, read_call, read_participants,
    read_transcript, read_users, shape_transcript, speaker_map, summarize_call, upstream_error,
    users_view, Affiliation, CallMeta, CallPage, CallRecord, CallTranscript, Direction, ErrorKind,
    GongError, Media, Method, Monologue, Party, Scope, Sentence, SentenceRow, TranscriptSet,
    UpstreamFailure, UserEntry, UserPage,
};

fn party(name: Option<&str>, affiliation: Option<Affiliation>, speaker: Option<&str>) -> Party {
    Party {
        id: None,
        email_address: None,
        name: name.map(String::from),
        title: None,
        user_id: None,
        speaker_id: speaker.map(String::from),
        context: None,
        affiliation,
        phone_number: None,
        methods: None,
    }
}

fn empty_meta() -> CallMeta {
    CallMeta {
        id: None,
        url: None,
        title: None,
        scheduled: None,
        started: None,
        duration: None,
        primary_user_id: None,
        direction: None,
        system: None,
        scope: None,
        media: None,
        language: None,
        workspace_id: None,
        sdr_disposition: None,
        client_unique_id: None,
        custom_data: None,
        purpose: None,
        meeting_url: None,
        is_private: None,
        calendar_event_id: None,
    }
}

fn sentence(start: i64, text: &str) -> Sentence {
    Sentence { start: Some(start), end: Some(start + 1), text: Some(text.to_string()) }
}

fn monologue(speaker: Option<&str>, sentences: Vec<Sentence>) -> Monologue {
    Monologue { speaker_id: speaker.map(String::from), topic: None, sentences: Some(sentences) }
}

#[test]
fn test_participant_summary_calculation() {
    let participants = vec![
        party(None, Some(Affiliation::Internal), None),
        party(None, Some(Affiliation::Internal), None),
        party(None, Some(Affiliation::External), None),
        party(None, Some(Affiliation::External), None),
        party(None, Some(Affiliation::External), None),
        party(None, Some(Affiliation::Unknown), None),
    ];
    let summary = participant_summary(&participants);
    assert_eq!(summary.internal, 2, "Should have 2 internal participants");
    assert_eq!(summary.external, 3, "Should have 3 external participants");
    assert_eq!(summary.total, 6, "Should have 6 total participants");
}

#[test]
fn summary_counts_speakers_and_skips_absent_affiliation() {
    let participants = vec![
        party(None, Some(Affiliation::Internal), Some("s1")),
        party(None, None, Some("s2")),
        party(None, Some(Affiliation::External), None),
    ];
    let summary = participant_summary(&participants);
    assert_eq!((summary.total, summary.internal, summary.external, summary.speakers), (3, 1, 1, 2));
    let all_known = vec![
        party(None, Some(Affiliation::Internal), None),
        party(None, Some(Affiliation::External), None),
    ];
    let summary = participant_summary(&all_known);
    assert_eq!(summary.internal + summary.external, summary.total);
    let none = participant_summary(&Vec::new());
    assert_eq!((none.total, none.internal, none.external, none.speakers), (0, 0, 0, 0));
}

#[test]
fn speaker_labels_use_last_declaration() {
    let participants = vec![
        party(Some("Ann"), Some(Affiliation::Internal), Some("s1")),
        party(None, None, Some("s2")),
        party(Some("Bob"), Some(Affiliation::External), Some("s1")),
        party(Some("Cy"), Some(Affiliation::External), None),
    ];
    let mut map: Vec<(String, String)> =
        speaker_map(&participants).into_iter().map(|e| (e.speaker_id, e.label)).collect();
    map.sort();
    assert_eq!(
        map,
        vec![
            ("s1".to_string(), "Bob (External)".to_string()),
            ("s2".to_string(), "Unknown (Unknown)".to_string()),
        ]
    );
}

#[test]
fn transcript_sentences_are_flattened_in_order() {
    let t = CallTranscript {
        call_id: Some("c1".to_string()),
        monologues: Some(vec![
            monologue(Some("A"), vec![sentence(0, "s1"), sentence(1, "s2")]),
            monologue(Some("B"), vec![sentence(2, "s3")]),
        ]),
    };
    let r = shape_transcript(t);
    let texts: Vec<&str> = r.sentences.iter().map(|s| s.text.as_deref().unwrap()).collect();
    assert_eq!(texts, vec!["s1", "s2", "s3"]);
    assert_eq!(r.sentence_count, 3);
    assert_eq!(r.speaker_count, 2);
    assert_eq!(r.monologue_count, 2);
    assert_eq!(r.call_id, "c1");
    assert_eq!(
        r.sentences[2],
        SentenceRow {
            speaker_id: Some("B".to_string()),
            start: Some(2),
            end: Some(3),
            text: Some("s3".to_string())
        }
    );
}

#[test]
fn speaker_count_is_distinct_and_ignores_null() {
    let t = CallTranscript {
        call_id: None,
        monologues: Some(vec![
            monologue(Some("A"), vec![sentence(0, "x")]),
            monologue(None, vec![sentence(1, "y")]),
            monologue(Some("A"), vec![]),
            monologue(Some("C"), vec![]),
        ]),
    };
    let r = shape_transcript(t);
    assert_eq!(r.speaker_count, 2);
    assert_eq!(r.sentence_count, 2);
    assert_eq!(r.sentences[1].speaker_id, None);
    assert_eq!(r.call_id, "");
    let empty = shape_transcript(CallTranscript { call_id: None, monologues: None });
    assert_eq!((empty.sentence_count, empty.speaker_count, empty.monologue_count), (0, 0, 0));
    assert_eq!(empty.monologues, None);
}

#[test]
fn summary_view_fills_display_defaults() {
    let s = summarize_call(CallRecord { meta: None, parties: None });
    assert_eq!(s.id, "");
    assert_eq!(s.title, "Untitled");
    assert_eq!(s.started, "");
    assert_eq!(s.duration, 0);
    assert_eq!(s.direction, "");
    assert_eq!(s.url, "");
    assert!(s.participants.is_empty());

    let mut meta = empty_meta();
    meta.id = Some("42".to_string());
    meta.title = Some("Demo".to_string());
    meta.duration = Some(90);
    meta.direction = Some(Direction::Outbound);
    let s = summarize_call(CallRecord {
        meta: Some(meta),
        parties: Some(vec![party(None, Some(Affiliation::External), None)]),
    });
    assert_eq!((s.id.as_str(), s.title.as_str(), s.duration), ("42", "Demo", 90));
    assert_eq!(s.direction, "Outbound");
    assert_eq!(s.participant_summary.external, 1);
}

#[test]
fn detail_view_passes_absent_fields_through() {
    let d = call_detail(CallRecord { meta: None, parties: None });
    assert_eq!(d.meta, empty_meta());
    assert_eq!(d.participant_count, 0);
    let mut meta = empty_meta();
    meta.scope = Some(Scope::External);
    meta.media = Some(Media::Video);
    let d = call_detail(CallRecord {
        meta: Some(meta.clone()),
        parties: Some(vec![party(None, None, None), party(None, None, None)]),
    });
    assert_eq!(d.meta, meta);
    assert_eq!(d.participant_count, 2);
    assert_eq!(d.participant_summary.total, 2);
}

#[test]
fn tags_are_variant_names() {
    assert_eq!(Affiliation::Unknown.tag(), "Unknown");
    assert_eq!(Direction::Conference.tag(), "Conference");
    assert_eq!(Scope::Internal.tag(), "Internal");
    assert_eq!(Media::Audio.tag(), "Audio");
    assert_eq!(Method::Invitee.tag(), "Invitee");
}

#[test]
fn participants_view_falls_back_to_requested_id() {
    let v = participants_view(
        CallRecord { meta: None, parties: Some(vec![party(Some("Ann"), None, Some("7"))]) },
        "req",
    );
    assert_eq!(v.call_id, "req");
    assert_eq!(v.participants.len(), 1);
    assert_eq!(v.speaker_map[0].label, "Ann (Unknown)");
    let mut meta = empty_meta();
    meta.id = Some("real".to_string());
    let v = participants_view(CallRecord { meta: Some(meta), parties: None }, "req");
    assert_eq!(v.call_id, "real");
    assert!(v.speaker_map.is_empty());
}

#[test]
fn single_call_lookups_need_a_record() {
    let none = read_call("9", Ok(CallPage { calls: None, cursor: None }));
    assert_eq!(none, Err(GongError::CallNotFound { call_id: "9".to_string() }));
    let empty = read_participants("9", Ok(CallPage { calls: Some(vec![]), cursor: None }));
    assert_eq!(empty, Err(GongError::CallNotFound { call_id: "9".to_string() }));
    let missing = read_transcript("9", Ok(TranscriptSet { transcripts: Some(vec![]) }));
    assert_eq!(missing, Err(GongError::TranscriptNotFound { call_id: "9".to_string() }));
    let found = read_call("9", Ok(CallPage { calls: Some(vec![CallRecord { meta: None, parties: None }]), cursor: None }));
    assert!(found.is_ok());
}

#[test]
fn upstream_failures_map_to_error_kinds() {
    let not_found = || UpstreamFailure::Status { code: 404, message: "status code 404".to_string() };
    assert_eq!(
        read_transcript("7", Err(not_found())),
        Err(GongError::TranscriptNotFound { call_id: "7".to_string() })
    );
    assert_eq!(read_call("7", Err(not_found())), Err(GongError::CallNotFound { call_id: "7".to_string() }));
    let e = read_call("7", Err(UpstreamFailure::Status { code: 500, message: "boom".to_string() })).unwrap_err();
    assert_eq!(e, GongError::Upstream { status: Some(500), message: "boom".to_string() });
    assert_eq!(e.kind(), ErrorKind::UpstreamError);
    let e = read_users(Err(UpstreamFailure::Transport { message: "down".to_string() })).unwrap_err();
    assert_eq!(e, GongError::Upstream { status: None, message: "down".to_string() });
    let e = upstream_error(UpstreamFailure::Decode { message: "eof".to_string() });
    assert_eq!(e.kind(), ErrorKind::DecodeError);
    assert_eq!(GongError::NotConfigured.kind(), ErrorKind::NotConfigured);
    assert_eq!(GongError::MissingCallId { uri: String::new() }.kind(), ErrorKind::InvalidParams);
    assert_eq!(GongError::UnknownTool { name: String::new() }.kind(), ErrorKind::InvalidParams);
    assert_eq!(GongError::InvalidArgument { key: String::new() }.kind(), ErrorKind::InvalidParams);
    assert_eq!(GongError::UnknownResource { uri: String::new() }.kind(), ErrorKind::NotFound);
    assert_eq!(GongError::CallNotFound { call_id: String::new() }.kind(), ErrorKind::NotFound);
}

#[test]
fn users_get_defaults_and_a_count_message() {
    let page = UserPage {
        users: Some(vec![
            UserEntry {
                id: Some("u1".to_string()),
                email_address: Some("a@x.io".to_string()),
                first_name: None,
                last_name: Some("Lee".to_string()),
                active: None,
            },
            UserEntry { id: None, email_address: None, first_name: None, last_name: None, active: Some(true) },
        ]),
    };
    let v = users_view(page);
    assert_eq!(v.count, 2);
    assert_eq!(v.message, "Retrieved 2 users");
    assert_eq!(v.users[0].first_name, "");
    assert!(!v.users[0].active);
    assert!(v.users[1].active);
    let none = users_view(UserPage { users: None });
    assert_eq!(none.count, 0);
    assert_eq!(none.message, "No users found");
    let zero = users_view(UserPage { users: Some(vec![]) });
    assert_eq!(zero.message, "Retrieved 0 users");
}

#[test]
fn user_count_message_is_decimal() {
    let entry = UserEntry { id: None, email_address: None, first_name: None, last_name: None, active: None };
    let v = users_view(UserPage { users: Some(vec![entry; 120]) });
    assert_eq!(v.message, "Retrieved 120 users");
}

#[test]
fn reading_twice_gives_the_same_record() {
    let make = || {
        Ok(TranscriptSet {
            transcripts: Some(vec![CallTranscript {
                call_id: Some("c".to_string()),
                monologues: Some(vec![monologue(Some("A"), vec![sentence(0, "hi")])]),
            }]),
        })
    };
    assert_eq!(read_transcript("c", make()), read_transcript("c", make()));
}
