//! Transcript shaping: sentences flattened across monologues, with counts.

use vstd::prelude::*;

use crate::shape::text_or;
use crate::upstream::{CallTranscript, Monologue, Sentence};

verus! {

/// One sentence together with the speaker of its monologue.
#[derive(Clone, Debug, PartialEq, Eq)]
pub struct SentenceRow {
    pub speaker_id: Option<String>,
    pub start: Option<i64>,
    pub end: Option<i64>,
    pub text: Option<String>,
}

/// A call's transcript in output shape.
#[derive(Clone, Debug, PartialEq, Eq)]
pub struct TranscriptRecord {
    pub call_id: String,
    /// The monologues as the upstream sent them.
    pub monologues: Option<Vec<Monologue>>,
    pub sentences: Vec<SentenceRow>,
    pub sentence_count: usize,
    /// Distinct speaker ids across all monologues.
    pub speaker_count: usize,
    pub monologue_count: usize,
}

pub open spec fn sentences_of(m: Monologue) -> Seq<Sentence> {
    match m.sentences {
        Some(v) => v@,
        None => Seq::empty(),
    }
}

pub open spec fn row_of(speaker: Option<String>, s: Sentence) -> SentenceRow {
    SentenceRow { speaker_id: speaker, start: s.start, end: s.end, text: s.text }
}

/// The rows of one monologue, in sentence order.
pub open spec fn rows_of(m: Monologue) -> Seq<SentenceRow> {
    sentences_of(m).map_values(|s: Sentence| row_of(m.speaker_id, s))
}

/// All rows, monologue order first and sentence order within a monologue.
pub open spec fn flatten(ms: Seq<Monologue>) -> Seq<SentenceRow>
    decreases ms.len(),
{
    if ms.len() == 0 {
        Seq::empty()
    } else {
        flatten(ms.drop_last()) + rows_of(ms.last())
    }
}

pub open spec fn spoken_by(m: Monologue, k: Seq<char>) -> bool {
    m.speaker_id matches Some(s) && s@ == k
}

/// The non-null speaker ids of the monologues.
pub open spec fn speaker_ids(ms: Seq<Monologue>) -> Set<Seq<char>> {
    Set::new(|k: Seq<char>| exists|i: int| 0 <= i < ms.len() && spoken_by(#[trigger] ms[i], k))
}

pub open spec fn monologues_of(t: CallTranscript) -> Seq<Monologue> {
    match t.monologues {
        Some(v) => v@,
        None => Seq::empty(),
    }
}

/// The record that a transcript gives.
pub open spec fn transcript_matches(t: CallTranscript, r: TranscriptRecord) -> bool {
    &&& r.call_id@ == text_or(t.call_id, Seq::empty())
    &&& r.monologues == t.monologues
    &&& r.sentences@ == flatten(monologues_of(t))
    &&& r.sentence_count == r.sentences@.len()
    &&& r.speaker_count == speaker_ids(monologues_of(t)).len()
    &&& r.monologue_count == monologues_of(t).len()
}

/// A copy of an optional text.
pub fn copy_text(o: &Option<String>) -> (r: Option<String>)
    ensures
        r == *o,
{
    match o {
        Some(s) => Some(s.clone()),
        None => None,
    }
}

/// The sentence rows of all monologues, in order.
fn flatten_monologues(ms: &Vec<Monologue>) -> (r: Vec<SentenceRow>)
    ensures
        r@ == flatten(ms@),
{
    let n = ms.len();
    let mut rows: Vec<SentenceRow> = Vec::new();
    let mut i: usize = 0;
    while i < n
        invariant
            n == ms@.len(),
            i <= n,
            rows@ == flatten(ms@.take(i as int)),
        decreases n - i,
    {
        let m = &ms[i];
        proof {
            assert(ms@.take(i + 1).drop_last() =~= ms@.take(i as int));
        }
        if let Some(ss) = &m.sentences {
            let k = ss.len();
            let mut j: usize = 0;
            while j < k
                invariant
                    k == ss@.len(),
                    j <= k,
                    m.sentences == Some(*ss),
                    rows@ == flatten(ms@.take(i as int)) + rows_of(*m).take(j as int),
                decreases k - j,
            {
                let s = &ss[j];
                let row = SentenceRow {
                    speaker_id: copy_text(&m.speaker_id),
                    start: s.start,
                    end: s.end,
                    text: copy_text(&s.text),
                };
                rows.push(row);
                proof {
                    assert(rows_of(*m).take(j + 1) =~= rows_of(*m).take(j as int).push(row));
                }
                j = j + 1;
            }
            assert(rows_of(*m).take(k as int) =~= rows_of(*m));
        } else {
            assert(rows_of(*m) =~= Seq::empty());
        }
        i = i + 1;
    }
    assert(ms@.take(n as int) =~= ms@);
    rows
}

/// Whether `s` is among `seen`.
fn contains_text(seen: &Vec<String>, s: &String) -> (r: bool)
    ensures
        r == exists|a: int| 0 <= a < seen@.len() && (#[trigger] seen@[a])@ == s@,
{
    let n = seen.len();
    let mut a: usize = 0;
    while a < n
        invariant
            n == seen@.len(),
            a <= n,
            forall|b: int| 0 <= b < a ==> (#[trigger] seen@[b])@ != s@,
        decreases n - a,
    {
        if seen[a] == *s {
            return true;
        }
        a = a + 1;
    }
    false
}

/// How many distinct non-null speaker ids the monologues carry.
fn distinct_speakers(ms: &Vec<Monologue>) -> (r: usize)
    ensures
        r == speaker_ids(ms@).len(),
{
    let n = ms.len();
    let mut seen: Vec<String> = Vec::new();
    let ghost mut keys: Seq<Seq<char>> = Seq::empty();
    let mut i: usize = 0;
    while i < n
        invariant
            n == ms@.len(),
            i <= n,
            keys.len() == seen@.len(),
            forall|a: int| 0 <= a < keys.len() ==> #[trigger] keys[a] == seen@[a]@,
            keys.no_duplicates(),
            keys.to_set() == speaker_ids(ms@.take(i as int)),
        decreases n - i,
    {
        let ghost before = keys;
        let ghost seen_before = seen@;
        if let Some(s) = &ms[i].speaker_id {
            if !contains_text(&seen, s) {
                seen.push(s.clone());
                proof {
                    keys = keys.push(s@);
                    assert forall|a: int, b: int|
                        0 <= a < keys.len() && 0 <= b < keys.len() && a != b implies keys[a]
                        != keys[b] by {
                        if a < before.len() && b < before.len() {
                        } else if a < before.len() {
                            assert(seen@[a]@ == keys[a]);
                        } else {
                            assert(seen@[b]@ == keys[b]);
                        }
                    }
                }
            }
        }
        proof {
            let next = ms@.take(i + 1);
            assert(keys.to_set() =~= speaker_ids(next)) by {
                assert forall|k: Seq<char>| keys.to_set().contains(k) implies speaker_ids(
                    next,
                ).contains(k) by {
                    let a = choose|a: int| 0 <= a < keys.len() && keys[a] == k;
                    if a < before.len() {
                        assert(before.to_set().contains(k));
                        let w = choose|w: int|
                            0 <= w < i && spoken_by(#[trigger] ms@.take(i as int)[w], k);
                        assert(next[w] == ms@.take(i as int)[w]);
                    } else {
                        assert(spoken_by(next[i as int], k));
                    }
                }
                assert forall|k: Seq<char>| speaker_ids(next).contains(k) implies keys.to_set().contains(
                    k,
                ) by {
                    let w = choose|w: int| 0 <= w < i + 1 && spoken_by(#[trigger] next[w], k);
                    if w < i {
                        assert(spoken_by(ms@.take(i as int)[w], k));
                        assert(speaker_ids(ms@.take(i as int)).contains(k));
                        assert(before.to_set().contains(k));
                        let a = choose|a: int| 0 <= a < before.len() && before[a] == k;
                        assert(keys[a] == k);
                    } else {
                        if exists|a: int| 0 <= a < before.len() && before[a] == k {
                            let a = choose|a: int| 0 <= a < before.len() && before[a] == k;
                            assert(keys[a] == k);
                        } else {
                            let s = ms@[i as int].speaker_id->Some_0;
                            assert(next[i as int] == ms@[i as int]);
                            assert(s@ == k);
                            assert forall|a: int| 0 <= a < seen_before.len() implies (
                            #[trigger] seen_before[a])@ != s@ by {
                                assert(before[a] == seen_before[a]@);
                            }
                            assert(keys.len() == before.len() + 1);
                            assert(keys[keys.len() - 1] == k);
                        }
                    }
                }
            }
        }
        i = i + 1;
    }
    proof {
        assert(ms@.take(n as int) =~= ms@);
        keys.unique_seq_to_set();
    }
    seen.len()
}

/// Shapes one upstream transcript.
pub fn shape_transcript(t: CallTranscript) -> (r: TranscriptRecord)
    ensures
        transcript_matches(t, r),
{
    let (sentences, speaker_count, monologue_count) = match &t.monologues {
        Some(ms) => (flatten_monologues(ms), distinct_speakers(ms), ms.len()),
        None => {
            proof {
                assert(speaker_ids(Seq::<Monologue>::empty()) =~= Set::empty());
            }
            (Vec::new(), 0, 0)
        },
    };
    let call_id = match t.call_id {
        Some(id) => id,
        None => String::new(),
    };
    let sentence_count = sentences.len();
    TranscriptRecord {
        call_id,
        monologues: t.monologues,
        sentences,
        sentence_count,
        speaker_count,
        monologue_count,
    }
}

} // verus!
