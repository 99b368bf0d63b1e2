use chrono::{DateTime, Utc};
use vstd::prelude::*;
use crate::app::handlers::data_collection::{le_sample, pcm_samples};
use crate::names::names;
use crate::types::AudioData;

verus! {

/// The text that a pattern of date and time fields spells for a second of
/// UTC time, counted from the start of 1970; none where the calendar does
/// not reach that second or the pattern holds a field that cannot be
/// written.
pub uninterp spec fn utc_text(unix_seconds: i64, pattern: Seq<char>) -> Option<Seq<char>>;

/// `chrono::DateTime::from_timestamp`, `DateTime::format` and
/// `DelayedFormat::write_to`: the date and time of a second in UTC, written
/// as `pattern` asks; nothing for a second that the calendar does not reach
/// and nothing where the pattern cannot be written. The result depends on
/// the second and the pattern alone.
#[verifier::external_body]
fn format_utc(unix_seconds: i64, pattern: &str) -> (text: Option<String>)
    ensures
        match text {
            Some(t) => utc_text(unix_seconds, pattern@) == Some(t@),
            None => utc_text(unix_seconds, pattern@) is None,
        },
{
    let time = DateTime::from_timestamp(unix_seconds, 0)?;
    let mut text = String::new();
    match time.format(pattern).write_to(&mut text) {
        Ok(()) => Some(text),
        Err(_) => None,
    }
}

/// The text `YYYYMMDD_HHMMSS` of a second of UTC time, where the calendar
/// reaches that second.
pub open spec fn compact_utc_text(unix_seconds: i64) -> Option<Seq<char>> {
    utc_text(unix_seconds, "%Y%m%d_%H%M%S"@)
}

/// `chrono::Utc::now` and `DateTime::timestamp`: the current second of UTC
/// time. Which second that is is not claimed; it is one that the calendar
/// reaches and can spell, for `now` builds its result from that very
/// second. With a clock set before 1970 chrono does not return.
#[verifier::external_body]
fn current_unix_seconds() -> (now: i64)
    ensures
        compact_utc_text(now) is Some,
{
    Utc::now().timestamp()
}

/// The id of a session that starts with what `stamp` spells.
pub open spec fn session_id_of(stamp: Seq<char>) -> Seq<char> {
    "session_"@ + stamp
}

/// The id of a session that starts at the given second of UTC time; none
/// for a second that the calendar does not reach.
pub fn session_id_at(unix_seconds: i64) -> (id: Option<String>)
    ensures
        match compact_utc_text(unix_seconds) {
            Some(stamp) => id matches Some(text) && text@ == session_id_of(stamp),
            None => id is None,
        },
{
    match format_utc(unix_seconds, "%Y%m%d_%H%M%S") {
        Some(stamp) => {
            let mut id = String::from_str("session_");
            id.append(stamp.as_str());
            Some(id)
        },
        None => None,
    }
}

/// Whether a text is the id of a session that started at some second.
pub open spec fn is_generated_session_id(id: Seq<char>) -> bool {
    exists|second: i64| #[trigger] compact_utc_text(second) matches Some(stamp) && id
        == session_id_of(stamp)
}

/// The id of a session that starts now, with the second that it spells.
pub fn generate_session_stamp() -> (stamp: (String, i64))
    ensures
        compact_utc_text(stamp.1) matches Some(text) && stamp.0@ == session_id_of(text),
{
    let now = current_unix_seconds();
    match session_id_at(now) {
        Some(id) => (id, now),
        None => {
            proof {
                assert(false);
            }
            (String::new(), now)
        },
    }
}

/// The id of a session that starts now.
pub fn generate_session_id() -> (id: String)
    ensures
        is_generated_session_id(id@),
{
    generate_session_stamp().0
}

/// Whether `id` spells `second`, a second later than the one that the
/// session before was stamped with.
pub open spec fn stamped_later(previous_second: Option<i64>, id: Seq<char>, second: Option<i64>) -> bool {
    &&& second matches Some(s)
    &&& previous_second matches Some(p) ==> s > p
    &&& compact_utc_text(s) matches Some(stamp) && id == session_id_of(stamp)
}

/// Whether a session with `id`, stamped with `second`, can follow the one
/// with `previous_id`: the id is another one, and it spells a later second;
/// or, where the clock and the calendar offer no such id, it is the previous
/// id with a mark after it, under the same second.
pub open spec fn follows(
    previous_id: Seq<char>,
    previous_second: Option<i64>,
    id: Seq<char>,
    second: Option<i64>,
) -> bool {
    &&& id != previous_id
    &&& stamped_later(previous_second, id, second) || (id == previous_id + "_next"@ && second
        == previous_second)
}

/// The second with which the next session is stamped at second `now`: the
/// current one, or the one after the previous stamp where the clock has not
/// passed it.
pub open spec fn next_stamp(previous_second: Option<i64>, now: i64) -> i64 {
    match previous_second {
        Some(p) if p >= now && p < i64::MAX => (p + 1) as i64,
        _ => now,
    }
}

/// The id of the session that follows the one with `previous_id`, and the
/// second that it spells. A session that begins within the second of the
/// one before is stamped with the next second, so that no id comes twice.
pub fn next_session_id(previous_id: &String, previous_second: Option<i64>) -> (next: (
    String,
    Option<i64>,
))
    ensures
        follows(previous_id@, previous_second, next.0@, next.1),
{
    let now = current_unix_seconds();
    let second = match previous_second {
        Some(p) => if p >= now && p < i64::MAX {
            p + 1
        } else {
            now
        },
        None => now,
    };
    let later = match previous_second {
        Some(p) => second > p,
        None => true,
    };
    if later {
        if let Some(id) = session_id_at(second) {
            if !(id == *previous_id) {
                return (id, Some(second));
            }
        }
    }
    let mut id = previous_id.clone();
    id.append("_next");
    proof {
        reveal_strlit("_next");
        assert(id@.len() == previous_id@.len() + 5);
    }
    (id, previous_second)
}

/// The two bytes of a sample, low byte first.
pub open spec fn le_bytes(sample: i16) -> (u8, u8) {
    let unsigned = if sample < 0 {
        sample + 65536
    } else {
        sample as int
    };
    ((unsigned % 256) as u8, (unsigned / 256) as u8)
}

/// The bytes of a run of samples, two for each, low byte first.
pub open spec fn pcm_bytes(samples: Seq<i16>) -> Seq<u8> {
    Seq::new(
        2 * samples.len(),
        |i: int|
            if i % 2 == 0 {
                le_bytes(samples[i / 2]).0
            } else {
                le_bytes(samples[i / 2]).1
            },
    )
}

/// The bytes under which a run of samples is stored.
pub fn encode_pcm(samples: &[i16]) -> (bytes: Vec<u8>)
    ensures
        bytes@ == pcm_bytes(samples@),
{
    let mut bytes: Vec<u8> = Vec::new();
    let mut i: usize = 0;
    while i < samples.len()
        invariant
            i <= samples@.len(),
            bytes@ == pcm_bytes(samples@).subrange(0, 2 * i),
        decreases samples@.len() - i,
    {
        let sample = samples[i];
        let unsigned: i32 = if sample < 0 {
            sample as i32 + 65536
        } else {
            sample as i32
        };
        bytes.push((unsigned % 256) as u8);
        bytes.push((unsigned / 256) as u8);
        i += 1;
        assert(bytes@ =~= pcm_bytes(samples@).subrange(0, 2 * i));
    }
    assert(pcm_bytes(samples@).subrange(0, 2 * i) =~= pcm_bytes(samples@));
    bytes
}

/// Samples come back from their stored bytes as they were.
pub proof fn lemma_stored_samples_come_back(samples: Seq<i16>)
    ensures
        pcm_samples(pcm_bytes(samples)) == samples,
{
    let bytes = pcm_bytes(samples);
    assert(bytes.len() / 2 == samples.len());
    assert forall|i: int| 0 <= i < samples.len() implies pcm_samples(bytes)[i] == samples[i] by {
        let pair = le_bytes(samples[i]);
        assert((2 * i) % 2 == 0 && (2 * i) / 2 == i);
        assert((2 * i + 1) % 2 == 1 && (2 * i + 1) / 2 == i);
        assert(bytes[2 * i] == pair.0);
        assert(bytes[2 * i + 1] == pair.1);
        assert(le_sample(pair.0, pair.1) == samples[i]);
    }
    assert(pcm_samples(bytes) =~= samples);
}

/// What is stored of an audio save beside its samples.
#[derive(Debug)]
pub struct AudioRecord {
    pub start_timestamp_ms: i64,
    pub end_timestamp_ms: i64,
    pub sample_rate: i32,
    pub channels: i32,
    pub format: String,
    pub samples_count: i32,
}

/// The description under which audio is stored: the span that the save
/// names, and the encoding that the last audio record stated. Where the save
/// names no span, the timestamp of that record stands for it, or `now_ms`
/// when there was no record; without a record the encoding is mono 16-bit
/// PCM at 16 kHz. Counts beyond 32 bits are stored as the largest count.
pub fn audio_record(
    samples_count: usize,
    audio_metadata: Option<&AudioData>,
    start_timestamp_ms: Option<i64>,
    end_timestamp_ms: Option<i64>,
    now_ms: i64,
) -> (record: AudioRecord)
    ensures
        record.start_timestamp_ms == match (start_timestamp_ms, audio_metadata) {
            (Some(start), _) => start,
            (None, Some(metadata)) => metadata.timestamp,
            (None, None) => now_ms,
        },
        record.end_timestamp_ms == match (end_timestamp_ms, audio_metadata) {
            (Some(end), _) => end,
            (None, Some(metadata)) => metadata.timestamp,
            (None, None) => now_ms,
        },
        record.sample_rate == match audio_metadata {
            Some(metadata) => if metadata.sample_rate <= i32::MAX {
                metadata.sample_rate as i32
            } else {
                i32::MAX
            },
            None => 16000,
        },
        record.channels == match audio_metadata {
            Some(metadata) => metadata.channels as i32,
            None => 1,
        },
        record.format@ == match audio_metadata {
            Some(metadata) => metadata.format@,
            None => "PCM_16"@,
        },
        record.samples_count == if samples_count <= i32::MAX {
            samples_count as i32
        } else {
            i32::MAX
        },
{
    let default_timestamp = match audio_metadata {
        Some(metadata) => metadata.timestamp,
        None => now_ms,
    };
    let sample_rate: i32 = match audio_metadata {
        Some(metadata) => if metadata.sample_rate <= 0x7fff_ffff {
            metadata.sample_rate as i32
        } else {
            i32::MAX
        },
        None => 16000,
    };
    let channels: i32 = match audio_metadata {
        Some(metadata) => metadata.channels as i32,
        None => 1,
    };
    let format = match audio_metadata {
        Some(metadata) => metadata.format.clone(),
        None => String::from_str("PCM_16"),
    };
    AudioRecord {
        start_timestamp_ms: match start_timestamp_ms {
            Some(start) => start,
            None => default_timestamp,
        },
        end_timestamp_ms: match end_timestamp_ms {
            Some(end) => end,
            None => default_timestamp,
        },
        sample_rate,
        channels,
        format,
        samples_count: if samples_count <= 0x7fff_ffff {
            samples_count as i32
        } else {
            i32::MAX
        },
    }
}

/// The sessions of a list that are not exported, in their order.
pub open spec fn unexported(sessions: Seq<(String, bool)>) -> Seq<Seq<char>>
    decreases sessions.len(),
{
    if sessions.len() == 0 {
        Seq::empty()
    } else if sessions.last().1 {
        unexported(sessions.drop_last())
    } else {
        unexported(sessions.drop_last()).push(sessions.last().0@)
    }
}

/// The sessions that have no exported file yet.
pub fn get_unexported_sessions(sessions: &Vec<(String, bool)>) -> (ids: Vec<String>)
    ensures
        names(ids@) == unexported(sessions@),
{
    let mut ids: Vec<String> = Vec::new();
    let mut i: usize = 0;
    assert(sessions@.subrange(0, 0) =~= Seq::empty());
    assert(names(ids@) =~= Seq::empty());
    while i < sessions.len()
        invariant
            i <= sessions@.len(),
            names(ids@) == unexported(sessions@.subrange(0, i as int)),
        decreases sessions@.len() - i,
    {
        proof {
            let next = sessions@.subrange(0, i + 1);
            assert(next.drop_last() =~= sessions@.subrange(0, i as int));
        }
        let ghost before = names(ids@);
        if !sessions[i].1 {
            ids.push(sessions[i].0.clone());
            assert(names(ids@) =~= before.push(sessions@[i as int].0@));
        }
        i += 1;
    }
    assert(sessions@.subrange(0, i as int) =~= sessions@);
    ids
}

/// A list of names as the store gave it, or the one `fallback` name when the
/// store knows none.
pub fn names_or_default(listed: Vec<String>, fallback: &str) -> (list: Vec<String>)
    ensures
        names(list@) == if listed@.len() == 0 {
            seq![fallback@]
        } else {
            names(listed@)
        },
{
    if listed.len() == 0 {
        let mut list: Vec<String> = Vec::new();
        list.push(String::from_str(fallback));
        assert(names(list@) =~= seq![fallback@]);
        list
    } else {
        listed
    }
}

} // verus!
