use base64::engine::general_purpose::STANDARD;
use base64::DecodeError;
use base64::Engine;
use vstd::prelude::*;
use crate::plotter::{sample_timestamps, stampable, window, WaveformPlot, WaveformView};
use crate::app::state::AppState;
use crate::channel::drain;
use crate::types::{AudioData, DataPoint};

verus! {

/// `base64::DecodeError`, the fault that a decoder found. It is only told
/// apart from a success; nothing inside it is read.
#[verifier::external_type_specification]
#[verifier::external_body]
pub struct ExDecodeError(DecodeError);

/// The bytes that a text stands for in the standard base64 alphabet with
/// padding, where it stands for any.
pub uninterp spec fn standard_base64_decoding(text: Seq<char>) -> Option<Seq<u8>>;

/// `Engine::decode` of `base64::engine::general_purpose::STANDARD`: the
/// bytes that `text` encodes, or the fault found in it. The result depends
/// on the text alone.
#[verifier::external_body]
fn decode_standard(text: &str) -> (decoded: Result<Vec<u8>, DecodeError>)
    ensures
        match decoded {
            Ok(bytes) => standard_base64_decoding(text@) == Some(bytes@),
            Err(_) => standard_base64_decoding(text@) is None,
        },
{
    STANDARD.decode(text)
}

/// The live collection: it puts the readings and the audio records of each
/// frame into the sliding window.
pub struct DataCollectionHandler;

/// What became of an audio record.
#[derive(Clone, Copy, Debug, PartialEq, Eq, Structural)]
pub enum AudioIngest {
    /// This many samples went into the window.
    Added(usize),
    /// The record held no whole sample.
    Empty,
    /// The payload is no base64 text; the record was dropped.
    Undecodable,
    /// The record states no rate, or its timestamps leave the range of 64
    /// bits; the record was dropped.
    Unstampable,
}

/// The signed 16-bit sample whose little-endian bytes are `low` and `high`.
pub open spec fn le_sample(low: u8, high: u8) -> i16 {
    let unsigned = low + 256 * high;
    if unsigned >= 32768 {
        (unsigned - 65536) as i16
    } else {
        unsigned as i16
    }
}

/// The samples of a run of bytes, two bytes each; a last odd byte is left
/// out.
pub open spec fn pcm_samples(bytes: Seq<u8>) -> Seq<i16> {
    Seq::new(bytes.len() / 2, |i: int| le_sample(bytes[2 * i], bytes[2 * i + 1]))
}

/// The window after `samples` went in, and what is reported of it. Samples
/// that cannot be stamped, and no samples at all, leave the window as it is.
pub open spec fn after_ingest<V>(
    plot: WaveformView<V>,
    samples: Seq<i16>,
    base_timestamp: i64,
    sample_rate: u32,
) -> (AudioIngest, WaveformView<V>) {
    if samples.len() == 0 {
        (AudioIngest::Empty, plot)
    } else if !stampable(base_timestamp, samples.len(), sample_rate) {
        (AudioIngest::Unstampable, plot)
    } else {
        (
            AudioIngest::Added(samples.len() as usize),
            WaveformView {
                audio: window(plot.audio + samples, plot.audio_max_samples),
                audio_timestamps: window(
                    plot.audio_timestamps + sample_timestamps(
                        base_timestamp,
                        samples.len(),
                        sample_rate,
                    ),
                    plot.audio_max_samples,
                ),
                ..plot
            },
        )
    }
}

/// The window after one audio record was decoded and went in. A record
/// that cannot be decoded leaves the window as it is.
pub open spec fn after_record<V>(plot: WaveformView<V>, record: AudioData) -> WaveformView<V> {
    match standard_base64_decoding(record.audio_data@) {
        Some(bytes) => after_ingest(
            plot,
            pcm_samples(bytes),
            record.timestamp,
            record.sample_rate,
        ).1,
        None => plot,
    }
}

/// The window after a run of audio records went in, in their order.
pub open spec fn after_records<V>(plot: WaveformView<V>, records: Seq<AudioData>) -> WaveformView<
    V,
>
    decreases records.len(),
{
    if records.len() == 0 {
        plot
    } else {
        after_record(after_records(plot, records.drop_last()), records.last())
    }
}

/// The window after a run of readings went in, in their order.
pub open spec fn after_readings<V>(
    plot: WaveformView<V>,
    readings: Seq<DataPoint<V>>,
) -> WaveformView<V> {
    WaveformView { readings: window(plot.readings + readings, plot.max_samples), ..plot }
}

/// Whether `after` is the state `before` once these readings and then
/// these audio records were collected: they went into the window, the
/// description of the last record is kept for the next save, and nothing
/// else differs.
pub open spec fn collected<V, A>(
    before: AppState<V, A>,
    readings: Seq<DataPoint<V>>,
    records: Seq<AudioData>,
    after: AppState<V, A>,
) -> bool {
    &&& after.waveform_plot@ == after_records(
        after_readings(before.waveform_plot@, readings),
        records,
    )
    &&& after.database.last_audio_metadata == if records.len() > 0 {
        Some(records.last())
    } else {
        before.database.last_audio_metadata
    }
    &&& after.database.db_task_sender == before.database.db_task_sender
    &&& after.database.save_result_receiver == before.database.save_result_receiver
    &&& after == (AppState {
        waveform_plot: after.waveform_plot,
        database: after.database,
        ..before
    })
}

/// The samples that a run of bytes holds.
pub fn decode_pcm(bytes: &[u8]) -> (samples: Vec<i16>)
    ensures
        samples@ == pcm_samples(bytes@),
{
    let mut samples: Vec<i16> = Vec::new();
    let length = bytes.len();
    let count = length / 2;
    let mut i: usize = 0;
    while i < count
        invariant
            length == bytes@.len(),
            i <= count == length / 2,
            samples@ == pcm_samples(bytes@).subrange(0, i as int),
        decreases count - i,
    {
        let unsigned: i32 = bytes[2 * i] as i32 + 256 * (bytes[2 * i + 1] as i32);
        let sample: i16 = if unsigned >= 32768 {
            (unsigned - 65536) as i16
        } else {
            unsigned as i16
        };
        samples.push(sample);
        i += 1;
        assert(samples@ =~= pcm_samples(bytes@).subrange(0, i as int));
    }
    assert(pcm_samples(bytes@).subrange(0, i as int) =~= pcm_samples(bytes@));
    samples
}

fn can_stamp(base_timestamp: i64, count: usize, sample_rate: u32) -> (yes: bool)
    requires
        count > 0,
    ensures
        yes == stampable(base_timestamp, count as nat, sample_rate),
{
    if sample_rate == 0 {
        return false;
    }
    let offset: u128 = (((count - 1) as u128) * 1000) / (sample_rate as u128);
    base_timestamp as i128 + offset as i128 <= i64::MAX as i128
}

impl DataCollectionHandler {
    /// Puts the samples of one audio record into the window, if there are
    /// any and they can be stamped.
    pub fn ingest_samples<V: Copy>(
        plot: &mut WaveformPlot<V>,
        samples: &[i16],
        base_timestamp: i64,
        sample_rate: u32,
    ) -> (ingest: AudioIngest)
        requires
            old(plot)@.wf(),
        ensures
            final(plot)@.wf(),
            (ingest, final(plot)@) == after_ingest(
                old(plot)@,
                samples@,
                base_timestamp,
                sample_rate,
            ),
    {
        let count = samples.len();
        if count == 0 {
            return AudioIngest::Empty;
        }
        if !can_stamp(base_timestamp, count, sample_rate) {
            return AudioIngest::Unstampable;
        }
        plot.add_audio_samples(samples, base_timestamp, sample_rate);
        AudioIngest::Added(count)
    }

    /// Decodes the payload of one audio record and puts its samples into
    /// the window. A record that cannot be decoded is dropped.
    pub fn process_audio_data<V: Copy>(plot: &mut WaveformPlot<V>, audio_data: &AudioData) -> (ingest:
        AudioIngest)
        requires
            old(plot)@.wf(),
        ensures
            final(plot)@.wf(),
            match standard_base64_decoding(audio_data.audio_data@) {
                Some(bytes) => (ingest, final(plot)@) == after_ingest(
                    old(plot)@,
                    pcm_samples(bytes),
                    audio_data.timestamp,
                    audio_data.sample_rate,
                ),
                None => ingest == AudioIngest::Undecodable && final(plot)@ == old(plot)@,
            },
    {
        match decode_standard(audio_data.audio_data.as_str()) {
            Ok(bytes) => {
                let samples = decode_pcm(bytes.as_slice());
                Self::ingest_samples(
                    plot,
                    samples.as_slice(),
                    audio_data.timestamp,
                    audio_data.sample_rate,
                )
            },
            Err(_) => AudioIngest::Undecodable,
        }
    }

    /// Puts a run of readings into the window, in their order.
    pub fn add_readings<V: Copy>(plot: &mut WaveformPlot<V>, readings: &Vec<DataPoint<V>>)
        requires
            old(plot)@.wf(),
        ensures
            final(plot)@.wf(),
            final(plot)@ == (WaveformView {
                readings: window(old(plot)@.readings + readings@, old(plot)@.max_samples),
                ..old(plot)@
            }),
    {
        let mut i: usize = 0;
        assert(old(plot)@.readings + readings@.subrange(0, 0) =~= old(plot)@.readings);
        while i < readings.len()
            invariant
                i <= readings@.len(),
                plot@.wf(),
                old(plot)@.wf(),
                plot@ == (WaveformView {
                    readings: window(
                        old(plot)@.readings + readings@.subrange(0, i as int),
                        old(plot)@.max_samples,
                    ),
                    ..old(plot)@
                }),
            decreases readings@.len() - i,
        {
            let p = readings[i];
            let ghost before = old(plot)@.readings + readings@.subrange(0, i as int);
            plot.add_data(p.x, p.y, p.z, p.gx, p.gy, p.gz, p.timestamp);
            proof {
                let after = old(plot)@.readings + readings@.subrange(0, i + 1);
                assert(after =~= before.push(p));
                assert(window(window(before, old(plot)@.max_samples).push(p), old(plot)@.max_samples)
                    =~= window(after, old(plot)@.max_samples));
            }
            i += 1;
        }
        assert(readings@.subrange(0, i as int) =~= readings@);
    }

    /// Takes the readings and the audio records that wait, at most
    /// `data_limit` and `audio_limit` of them, and puts them into the
    /// window, the readings first. The description of the last audio record
    /// is kept for the next save. Nothing but the window and that
    /// description changes.
    pub fn handle_collection<V: Copy, A: Copy>(
        state: &mut AppState<V, A>,
        data_limit: usize,
        audio_limit: usize,
    )
        requires
            old(state).wf(),
        ensures
            final(state).wf(),
            exists|readings: Seq<DataPoint<V>>, records: Seq<AudioData>|
                readings.len() <= data_limit && records.len() <= audio_limit
                    && #[trigger] collected(*old(state), readings, records, *final(state)),
    {
        let readings = drain(&state.channels.data_receiver, data_limit);
        Self::add_readings(&mut state.waveform_plot, &readings);
        let records = drain(&state.channels.audio_receiver, audio_limit);
        let ghost filled = state.waveform_plot@;
        let mut i: usize = 0;
        assert(records@.subrange(0, 0) =~= Seq::<AudioData>::empty());
        while i < records.len()
            invariant
                i <= records@.len(),
                state.wf(),
                filled == after_readings(old(state).waveform_plot@, readings@),
                collected(*old(state), readings@, records@.subrange(0, i as int), *state),
            decreases records@.len() - i,
        {
            proof {
                let next = records@.subrange(0, i + 1);
                assert(next.drop_last() =~= records@.subrange(0, i as int));
                assert(next.last() == records@[i as int]);
            }
            state.database.last_audio_metadata = Some(records[i].duplicate());
            Self::process_audio_data(&mut state.waveform_plot, &records[i]);
            i += 1;
        }
        assert(records@.subrange(0, i as int) =~= records@);
    }
}

} // verus!
