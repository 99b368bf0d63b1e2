//! End-anchored alignment of a sensor stream with the audio stream of the
//! same session.
//!
//! The audio stream is the timing reference. The distance between the ends of
//! the two streams is turned into a number of sensor samples at the sensor
//! stream's own effective rate; the sensor stream is moved by that many
//! samples and padded with copies of its first or last reading. All rates are
//! exact ratios of samples to milliseconds.

use vstd::prelude::*;
use vstd::arithmetic::div_mod::{lemma_div_is_ordered, lemma_fundamental_div_mod_converse};
use vstd::arithmetic::mul::lemma_mul_inequality;
use crate::types::DataPoint;

verus! {

/// A stored run of audio samples with the timestamps of its first and last
/// sample and the description of its encoding.
#[derive(Debug)]
pub struct AudioChunk<A> {
    pub start_timestamp: i64,
    pub end_timestamp: i64,
    pub samples: Vec<A>,
    pub sample_rate: u32,
    pub channels: u8,
    pub format: String,
}

/// What an [`AudioChunk`] holds, as mathematical values.
pub ghost struct AudioChunkView<A> {
    pub start_timestamp: i64,
    pub end_timestamp: i64,
    pub samples: Seq<A>,
    pub sample_rate: u32,
    pub channels: u8,
    pub format: Seq<char>,
}

impl<A> View for AudioChunk<A> {
    type V = AudioChunkView<A>;

    open spec fn view(&self) -> AudioChunkView<A> {
        AudioChunkView {
            start_timestamp: self.start_timestamp,
            end_timestamp: self.end_timestamp,
            samples: self.samples@,
            sample_rate: self.sample_rate,
            channels: self.channels,
            format: self.format@,
        }
    }
}

/// The views of a run of chunks, in order.
pub open spec fn chunk_views<A>(chunks: Seq<AudioChunk<A>>) -> Seq<AudioChunkView<A>> {
    Seq::new(chunks.len(), |i: int| chunks[i]@)
}

/// All samples of a run of chunks as one contiguous sequence.
pub open spec fn flattened<A>(chunks: Seq<AudioChunkView<A>>) -> Seq<A>
    decreases chunks.len(),
{
    if chunks.len() == 0 {
        Seq::empty()
    } else {
        flattened(chunks.drop_last()) + chunks.last().samples
    }
}

/// Samples per millisecond assumed when a stream is too short to show its
/// own rate: 2 samples in 5 ms, that is 400 Hz.
pub const DEFAULT_RATE_SAMPLES: u64 = 2;

pub const DEFAULT_RATE_MILLIS: u64 = 5;

/// Largest forward shift, in samples.
pub const MAX_FORWARD_SHIFT: u64 = 0x7fff_ffff;

/// Largest backward shift, in samples.
pub const MAX_BACKWARD_SHIFT: u64 = 0x8000_0000;

/// The effective rate of a sensor stream as `(samples, milliseconds)`: the
/// number of sample intervals over the span of its timestamps. A stream of
/// fewer than two samples, or one whose span is not positive, has the default
/// rate.
pub open spec fn effective_rate<V>(acc: Seq<DataPoint<V>>) -> (int, int) {
    let span = acc.last().timestamp - acc.first().timestamp;
    if acc.len() > 1 && span > 0 {
        (acc.len() - 1, span)
    } else {
        (DEFAULT_RATE_SAMPLES as int, DEFAULT_RATE_MILLIS as int)
    }
}

/// `p / q` rounded to the nearest integer, halves upward, for `p >= 0` and
/// `q > 0`.
pub open spec fn rounded_quotient(p: int, q: int) -> int {
    if 2 * (p % q) >= q {
        p / q + 1
    } else {
        p / q
    }
}

/// The number of sensor samples that `diff_ms` milliseconds amount to at
/// `samples` per `millis`, rounded half away from zero and kept within the
/// largest shifts. Positive when the audio stream ends later.
pub open spec fn shift_samples(diff_ms: int, samples: int, millis: int) -> int {
    if diff_ms >= 0 {
        let m = rounded_quotient(diff_ms * samples, millis);
        if m > MAX_FORWARD_SHIFT {
            MAX_FORWARD_SHIFT as int
        } else {
            m
        }
    } else {
        let m = rounded_quotient(-diff_ms * samples, millis);
        if m > MAX_BACKWARD_SHIFT {
            -(MAX_BACKWARD_SHIFT as int)
        } else {
            -m
        }
    }
}

/// Whole milliseconds that `count` sample intervals take at `samples` per
/// `millis`.
pub open spec fn extrapolated_millis(count: int, samples: int, millis: int) -> int {
    (count * millis) / samples
}

/// Milliseconds by which the audio stream ends after the sensor stream.
pub open spec fn end_difference<V, A>(
    acc: Seq<DataPoint<V>>,
    audio: Seq<AudioChunkView<A>>,
) -> int {
    audio.last().end_timestamp - acc.last().timestamp
}

/// The shift, in samples, that alignment applies to a sensor stream.
pub open spec fn alignment_shift<V, A>(
    acc: Seq<DataPoint<V>>,
    audio: Seq<AudioChunkView<A>>,
) -> int {
    let rate = effective_rate(acc);
    shift_samples(end_difference(acc, audio), rate.0, rate.1)
}

/// The padding put before a stream that moves forward by `shift` samples:
/// copies of `first`, stamped backward from it at the nominal interval.
pub open spec fn leading_padding<V>(
    first: DataPoint<V>,
    shift: int,
    samples: int,
    millis: int,
) -> Seq<DataPoint<V>> {
    Seq::new(
        shift as nat,
        |i: int|
            DataPoint {
                timestamp: (first.timestamp - extrapolated_millis(
                    shift - i,
                    samples,
                    millis,
                )) as i64,
                ..first
            },
    )
}

/// The padding put after a stream that moves backward by `count` samples:
/// copies of `last`, stamped forward from it at the nominal interval.
pub open spec fn trailing_padding<V>(
    last: DataPoint<V>,
    count: int,
    samples: int,
    millis: int,
) -> Seq<DataPoint<V>> {
    Seq::new(
        count as nat,
        |i: int|
            DataPoint {
                timestamp: (last.timestamp + extrapolated_millis(i + 1, samples, millis)) as i64,
                ..last
            },
    )
}

/// A sensor stream moved by `shift` samples. A forward move drops `shift`
/// samples from the end and pads the start; a backward move drops from the
/// start and pads the end; no move leaves the stream as it is.
pub open spec fn shifted_stream<V>(
    acc: Seq<DataPoint<V>>,
    shift: int,
    samples: int,
    millis: int,
) -> Seq<DataPoint<V>> {
    if shift == 0 {
        acc
    } else if shift > 0 {
        let kept = if acc.len() > shift {
            acc.len() - shift
        } else {
            0
        };
        leading_padding(acc.first(), shift, samples, millis) + acc.subrange(0, kept)
    } else {
        let dropped = if acc.len() > -shift {
            -shift
        } else {
            acc.len() as int
        };
        acc.subrange(dropped, acc.len() as int) + trailing_padding(
            acc.last(),
            -shift,
            samples,
            millis,
        )
    }
}

/// The sensor stream that alignment returns.
pub open spec fn aligned_sensor<V, A>(
    acc: Seq<DataPoint<V>>,
    audio: Seq<AudioChunkView<A>>,
) -> Seq<DataPoint<V>> {
    if acc.len() == 0 || audio.len() == 0 {
        acc
    } else {
        let rate = effective_rate(acc);
        shifted_stream(acc, alignment_shift(acc, audio), rate.0, rate.1)
    }
}

/// All chunks merged into one that spans from the first start to the last
/// end and is described as the last chunk is; nothing when no chunk holds a
/// sample.
pub open spec fn merged_audio<A>(audio: Seq<AudioChunkView<A>>) -> Seq<AudioChunkView<A>> {
    if flattened(audio).len() == 0 {
        Seq::empty()
    } else {
        seq![
            AudioChunkView {
                start_timestamp: audio.first().start_timestamp,
                end_timestamp: audio.last().end_timestamp,
                samples: flattened(audio),
                sample_rate: audio.last().sample_rate,
                channels: audio.last().channels,
                format: audio.last().format,
            },
        ]
    }
}

/// The audio stream that alignment returns.
pub open spec fn aligned_audio<V, A>(
    acc: Seq<DataPoint<V>>,
    audio: Seq<AudioChunkView<A>>,
) -> Seq<AudioChunkView<A>> {
    if acc.len() == 0 || audio.len() == 0 {
        audio
    } else {
        merged_audio(audio)
    }
}

/// The alignment offset in milliseconds: the distance between the ends of the
/// two streams, zero when either is empty.
pub open spec fn alignment_offset<V, A>(
    acc: Seq<DataPoint<V>>,
    audio: Seq<AudioChunkView<A>>,
) -> int {
    if acc.len() == 0 || audio.len() == 0 {
        0
    } else if end_difference(acc, audio) < 0 {
        -end_difference(acc, audio)
    } else {
        end_difference(acc, audio)
    }
}

/// Whether every timestamp that alignment produces fits a signed 64-bit
/// millisecond count: the offset, the earliest stamp of a leading padding and
/// the latest stamp of a trailing padding.
pub open spec fn alignment_fits<V, A>(
    acc: Seq<DataPoint<V>>,
    audio: Seq<AudioChunkView<A>>,
) -> bool {
    acc.len() == 0 || audio.len() == 0 || {
        let rate = effective_rate(acc);
        let shift = alignment_shift(acc, audio);
        &&& alignment_offset(acc, audio) <= i64::MAX
        &&& shift > 0 ==> acc.first().timestamp - extrapolated_millis(shift, rate.0, rate.1)
            >= i64::MIN
        &&& shift < 0 ==> acc.last().timestamp + extrapolated_millis(-shift, rate.0, rate.1)
            <= i64::MAX
    }
}


proof fn lemma_extrapolation_grows(a: int, b: int, samples: int, millis: int)
    requires
        0 <= a <= b,
        samples > 0,
        millis >= 0,
    ensures
        0 <= extrapolated_millis(a, samples, millis) <= extrapolated_millis(b, samples, millis),
{
    lemma_mul_inequality(a, b, millis);
    lemma_mul_inequality(0, a, millis);
    lemma_div_is_ordered(a * millis, b * millis, samples);
    lemma_div_is_ordered(0, a * millis, samples);
}

fn rate_of<V: Copy>(acc: &[DataPoint<V>]) -> (r: (u64, u64))
    requires
        acc@.len() > 0,
    ensures
        (r.0 as int, r.1 as int) == effective_rate(acc@),
        r.0 >= 1,
        r.1 >= 1,
{
    let n = acc.len();
    let span: i128 = acc[n - 1].timestamp as i128 - acc[0].timestamp as i128;
    if n > 1 && span > 0 {
        ((n - 1) as u64, span as u64)
    } else {
        (DEFAULT_RATE_SAMPLES, DEFAULT_RATE_MILLIS)
    }
}

fn rounded_shift(diff_ms: i128, samples: u64, millis: u64) -> (shift: i64)
    requires
        -0x1_0000_0000_0000_0000 < diff_ms < 0x1_0000_0000_0000_0000,
        millis >= 1,
    ensures
        shift == shift_samples(diff_ms as int, samples as int, millis as int),
        -(MAX_BACKWARD_SHIFT as int) <= shift <= MAX_FORWARD_SHIFT,
{
    let forward = diff_ms >= 0;
    let magnitude: u128 = if forward {
        diff_ms as u128
    } else {
        (-diff_ms) as u128
    };
    assert(magnitude * samples <= 0xffff_ffff_ffff_ffff * 0xffff_ffff_ffff_ffff) by (nonlinear_arith)
        requires
            0 <= magnitude <= 0xffff_ffff_ffff_ffff,
            0 <= samples <= 0xffff_ffff_ffff_ffff,
    ;
    let p: u128 = magnitude * (samples as u128);
    let q: u128 = millis as u128;
    let whole: u128 = p / q;
    let rest: u128 = p % q;
    let rounded: u128 = if 2 * rest >= q {
        whole + 1
    } else {
        whole
    };
    assert(rounded == rounded_quotient(p as int, q as int));
    if forward {
        if rounded > MAX_FORWARD_SHIFT as u128 {
            MAX_FORWARD_SHIFT as i64
        } else {
            rounded as i64
        }
    } else {
        assert(p == -diff_ms * samples) by (nonlinear_arith)
            requires
                magnitude == -diff_ms,
                p == magnitude * samples,
        ;
        if rounded > MAX_BACKWARD_SHIFT as u128 {
            -(MAX_BACKWARD_SHIFT as i64)
        } else {
            -(rounded as i64)
        }
    }
}

fn extrapolate(count: u64, samples: u64, millis: u64) -> (ms: u128)
    requires
        count <= MAX_BACKWARD_SHIFT,
        samples >= 1,
    ensures
        ms == extrapolated_millis(count as int, samples as int, millis as int),
        ms <= 0x8000_0000 * 0xffff_ffff_ffff_ffff,
{
    assert(count * millis <= 0x8000_0000 * 0xffff_ffff_ffff_ffff) by (nonlinear_arith)
        requires
            0 <= count <= 0x8000_0000,
            0 <= millis <= 0xffff_ffff_ffff_ffff,
    ;
    let product: u128 = (count as u128) * (millis as u128);
    product / (samples as u128)
}

/// The distance between the ends of two non-empty streams.
fn end_distance<V: Copy, A>(acc: &[DataPoint<V>], audio: &[AudioChunk<A>]) -> (d: i128)
    requires
        acc@.len() > 0,
        audio@.len() > 0,
    ensures
        d == end_difference(acc@, chunk_views(audio@)),
        -0x1_0000_0000_0000_0000 < d < 0x1_0000_0000_0000_0000,
{
    audio[audio.len() - 1].end_timestamp as i128 - acc[acc.len() - 1].timestamp as i128
}

/// Whether alignment of these two streams stays within the timestamps that a
/// signed 64-bit millisecond count can hold.
pub fn alignment_in_range<V: Copy, A>(acc: &[DataPoint<V>], audio: &[AudioChunk<A>]) -> (ok:
    bool)
    ensures
        ok == alignment_fits(acc@, chunk_views(audio@)),
{
    if acc.len() == 0 || audio.len() == 0 {
        return true;
    }
    let diff = end_distance(acc, audio);
    let rate = rate_of(acc);
    let shift = rounded_shift(diff, rate.0, rate.1);
    if diff > i64::MAX as i128 || diff < -(i64::MAX as i128) {
        return false;
    }
    if shift > 0 {
        let back = extrapolate(shift as u64, rate.0, rate.1);
        acc[0].timestamp as i128 - back as i128 >= i64::MIN as i128
    } else if shift < 0 {
        let ahead = extrapolate((-shift) as u64, rate.0, rate.1);
        acc[acc.len() - 1].timestamp as i128 + ahead as i128 <= i64::MAX as i128
    } else {
        true
    }
}

fn copy_points<V: Copy>(acc: &[DataPoint<V>], from: usize, to: usize, out: &mut Vec<DataPoint<V>>)
    requires
        from <= to <= acc@.len(),
    ensures
        final(out)@ == old(out)@ + acc@.subrange(from as int, to as int),
{
    let mut i = from;
    while i < to
        invariant
            from <= i <= to <= acc@.len(),
            out@ == old(out)@ + acc@.subrange(from as int, i as int),
        decreases to - i,
    {
        out.push(acc[i]);
        i += 1;
        assert(out@ =~= old(out)@ + acc@.subrange(from as int, i as int));
    }
}

fn append_samples<A: Copy>(samples: &Vec<A>, out: &mut Vec<A>)
    ensures
        final(out)@ == old(out)@ + samples@,
{
    let mut i: usize = 0;
    while i < samples.len()
        invariant
            i <= samples@.len(),
            out@ == old(out)@ + samples@.subrange(0, i as int),
        decreases samples@.len() - i,
    {
        out.push(samples[i]);
        i += 1;
        assert(out@ =~= old(out)@ + samples@.subrange(0, i as int));
    }
    assert(samples@.subrange(0, samples@.len() as int) =~= samples@);
}

impl<A: Copy> AudioChunk<A> {
    /// A chunk that holds the same values as this one.
    pub fn duplicate(&self) -> (c: Self)
        ensures
            c@ == self@,
    {
        let mut samples: Vec<A> = Vec::new();
        append_samples(&self.samples, &mut samples);
        assert(samples@ =~= self.samples@);
        AudioChunk {
            start_timestamp: self.start_timestamp,
            end_timestamp: self.end_timestamp,
            samples,
            sample_rate: self.sample_rate,
            channels: self.channels,
            format: self.format.clone(),
        }
    }
}

fn copy_chunks<A: Copy>(audio: &[AudioChunk<A>]) -> (out: Vec<AudioChunk<A>>)
    ensures
        chunk_views(out@) == chunk_views(audio@),
{
    let mut out: Vec<AudioChunk<A>> = Vec::new();
    let mut i: usize = 0;
    while i < audio.len()
        invariant
            i <= audio@.len(),
            out@.len() == i,
            forall|j: int| 0 <= j < i ==> (#[trigger] out@[j])@ == audio@[j]@,
        decreases audio@.len() - i,
    {
        out.push(audio[i].duplicate());
        i += 1;
    }
    assert(chunk_views(out@) =~= chunk_views(audio@));
    out
}

/// All samples of `audio`, in order, in one vector.
pub fn flatten_audio<A: Copy>(audio: &[AudioChunk<A>]) -> (all: Vec<A>)
    ensures
        all@ == flattened(chunk_views(audio@)),
{
    let mut all: Vec<A> = Vec::new();
    let mut i: usize = 0;
    assert(chunk_views(audio@).subrange(0, 0) =~= Seq::empty());
    while i < audio.len()
        invariant
            i <= audio@.len(),
            all@ == flattened(chunk_views(audio@).subrange(0, i as int)),
        decreases audio@.len() - i,
    {
        append_samples(&audio[i].samples, &mut all);
        proof {
            let views = chunk_views(audio@);
            let next = views.subrange(0, i + 1);
            assert(next.drop_last() =~= views.subrange(0, i as int));
            assert(next.last().samples == audio@[i as int].samples@);
        }
        i += 1;
    }
    assert(chunk_views(audio@).subrange(0, i as int) =~= chunk_views(audio@));
    all
}

fn merge_audio<A: Copy>(audio: &[AudioChunk<A>]) -> (out: Vec<AudioChunk<A>>)
    requires
        audio@.len() > 0,
    ensures
        chunk_views(out@) == merged_audio(chunk_views(audio@)),
{
    let samples = flatten_audio(audio);
    let mut out: Vec<AudioChunk<A>> = Vec::new();
    if samples.len() > 0 {
        let last = &audio[audio.len() - 1];
        out.push(
            AudioChunk {
                start_timestamp: audio[0].start_timestamp,
                end_timestamp: last.end_timestamp,
                samples,
                sample_rate: last.sample_rate,
                channels: last.channels,
                format: last.format.clone(),
            },
        );
    }
    assert(chunk_views(out@) =~= merged_audio(chunk_views(audio@)));
    out
}

fn shift_forward<V: Copy>(acc: &[DataPoint<V>], shift: u64, samples: u64, millis: u64) -> (out:
    Vec<DataPoint<V>>)
    requires
        acc@.len() > 0,
        0 < shift <= MAX_FORWARD_SHIFT,
        samples >= 1,
        acc@.first().timestamp - extrapolated_millis(shift as int, samples as int, millis as int)
            >= i64::MIN,
    ensures
        out@ == shifted_stream(acc@, shift as int, samples as int, millis as int),
{
    let first = acc[0];
    let mut out: Vec<DataPoint<V>> = Vec::new();
    let ghost padding = leading_padding(first, shift as int, samples as int, millis as int);
    let mut i: u64 = 0;
    while i < shift
        invariant
            i <= shift <= MAX_FORWARD_SHIFT,
            samples >= 1,
            first.timestamp - extrapolated_millis(shift as int, samples as int, millis as int)
                >= i64::MIN,
            padding == leading_padding(first, shift as int, samples as int, millis as int),
            out@ == padding.subrange(0, i as int),
        decreases shift - i,
    {
        let back = extrapolate(shift - i, samples, millis);
        proof {
            lemma_extrapolation_grows(
                (shift - i) as int,
                shift as int,
                samples as int,
                millis as int,
            );
        }
        let stamp: i128 = first.timestamp as i128 - back as i128;
        out.push(first.with_timestamp(stamp as i64));
        i += 1;
        assert(out@ =~= padding.subrange(0, i as int));
    }
    assert(padding.subrange(0, shift as int) =~= padding);
    let n = acc.len();
    let kept: usize = if (n as u64) > shift {
        n - shift as usize
    } else {
        0
    };
    copy_points(acc, 0, kept, &mut out);
    out
}

fn shift_backward<V: Copy>(acc: &[DataPoint<V>], count: u64, samples: u64, millis: u64) -> (out:
    Vec<DataPoint<V>>)
    requires
        acc@.len() > 0,
        0 < count <= MAX_BACKWARD_SHIFT,
        samples >= 1,
        acc@.last().timestamp + extrapolated_millis(count as int, samples as int, millis as int)
            <= i64::MAX,
    ensures
        out@ == shifted_stream(acc@, -(count as int), samples as int, millis as int),
{
    let n = acc.len();
    let last = acc[n - 1];
    let dropped: usize = if (n as u64) > count {
        count as usize
    } else {
        n
    };
    let mut out: Vec<DataPoint<V>> = Vec::new();
    copy_points(acc, dropped, n, &mut out);
    let ghost kept = out@;
    let ghost padding = trailing_padding(last, count as int, samples as int, millis as int);
    let mut i: u64 = 0;
    while i < count
        invariant
            i <= count <= MAX_BACKWARD_SHIFT,
            samples >= 1,
            last.timestamp + extrapolated_millis(count as int, samples as int, millis as int)
                <= i64::MAX,
            padding == trailing_padding(last, count as int, samples as int, millis as int),
            out@ == kept + padding.subrange(0, i as int),
        decreases count - i,
    {
        let ahead = extrapolate(i + 1, samples, millis);
        proof {
            lemma_extrapolation_grows(
                (i + 1) as int,
                count as int,
                samples as int,
                millis as int,
            );
        }
        let stamp: i128 = last.timestamp as i128 + ahead as i128;
        out.push(last.with_timestamp(stamp as i64));
        i += 1;
        assert(out@ =~= kept + padding.subrange(0, i as int));
    }
    assert(padding.subrange(0, count as int) =~= padding);
    out
}

/// Aligns the sensor stream of a session with its audio stream.
///
/// Returns the moved sensor stream, the audio stream merged into one chunk,
/// and the alignment offset in milliseconds. When either stream is empty
/// both come back as they are, with offset zero.
pub fn align_session_data_internal<V: Copy, A: Copy>(
    acc_data: &[DataPoint<V>],
    audio_data: &[AudioChunk<A>],
) -> (aligned: (Vec<DataPoint<V>>, Vec<AudioChunk<A>>, i64))
    requires
        alignment_fits(acc_data@, chunk_views(audio_data@)),
    ensures
        aligned.0@ == aligned_sensor(acc_data@, chunk_views(audio_data@)),
        chunk_views(aligned.1@) == aligned_audio(acc_data@, chunk_views(audio_data@)),
        aligned.2 == alignment_offset(acc_data@, chunk_views(audio_data@)),
{
    if acc_data.len() == 0 || audio_data.len() == 0 {
        let mut same: Vec<DataPoint<V>> = Vec::new();
        copy_points(acc_data, 0, acc_data.len(), &mut same);
        assert(same@ =~= acc_data@);
        return (same, copy_chunks(audio_data), 0);
    }
    let diff = end_distance(acc_data, audio_data);
    let rate = rate_of(acc_data);
    let shift = rounded_shift(diff, rate.0, rate.1);
    let moved = if shift == 0 {
        let mut same: Vec<DataPoint<V>> = Vec::new();
        copy_points(acc_data, 0, acc_data.len(), &mut same);
        assert(same@ =~= acc_data@);
        same
    } else if shift > 0 {
        shift_forward(acc_data, shift as u64, rate.0, rate.1)
    } else {
        shift_backward(acc_data, (-shift) as u64, rate.0, rate.1)
    };
    let merged = merge_audio(audio_data);
    let offset: i64 = if diff < 0 {
        (-diff) as i64
    } else {
        diff as i64
    };
    (moved, merged, offset)
}

/// Aligns two streams where that stays within 64-bit timestamps, and returns
/// nothing where it does not.
pub fn align_session_data<V: Copy, A: Copy>(
    acc_data: &[DataPoint<V>],
    audio_data: &[AudioChunk<A>],
) -> (aligned: Option<(Vec<DataPoint<V>>, Vec<AudioChunk<A>>, i64)>)
    ensures
        aligned is Some <==> alignment_fits(acc_data@, chunk_views(audio_data@)),
        aligned matches Some(a) ==> {
            &&& a.0@ == aligned_sensor(acc_data@, chunk_views(audio_data@))
            &&& chunk_views(a.1@) == aligned_audio(acc_data@, chunk_views(audio_data@))
            &&& a.2 == alignment_offset(acc_data@, chunk_views(audio_data@))
        },
{
    if alignment_in_range(acc_data, audio_data) {
        Some(align_session_data_internal(acc_data, audio_data))
    } else {
        None
    }
}


/// Streams whose ends already coincide, and streams of which one is empty,
/// come back unchanged: the sensor stream as it was, the audio stream with
/// the same samples, and offset zero.
pub proof fn lemma_coinciding_ends_are_left_alone<V, A>(
    acc: Seq<DataPoint<V>>,
    audio: Seq<AudioChunkView<A>>,
)
    requires
        acc.len() == 0 || audio.len() == 0 || acc.last().timestamp == audio.last().end_timestamp,
    ensures
        alignment_fits(acc, audio),
        aligned_sensor(acc, audio) == acc,
        flattened(aligned_audio(acc, audio)) == flattened(audio),
        alignment_offset(acc, audio) == 0,
{
    if acc.len() > 0 && audio.len() > 0 {
        let rate = effective_rate(acc);
        assert(0int * rate.0 == 0);
        assert(0int % rate.1 == 0 && 0int / rate.1 == 0) by {
            lemma_fundamental_div_mod_converse(0, rate.1, 0, 0);
        }
        assert(alignment_shift(acc, audio) == 0);
        let merged = merged_audio(audio);
        if flattened(audio).len() > 0 {
            assert(merged.len() == 1);
            assert(merged.drop_last() =~= Seq::<AudioChunkView<A>>::empty());
            assert(flattened(merged.drop_last()) =~= Seq::<A>::empty());
            assert(merged.last().samples == flattened(audio));
            assert(flattened(merged) =~= flattened(audio));
        } else {
            assert(flattened(merged) =~= flattened(audio));
        }
    }
}

/// On an evenly paced sensor stream, an audio stream that ends `count`
/// sample intervals later moves the sensor stream forward by exactly `count`
/// samples: `count` copies of the first reading come first, each one interval
/// before the next and the last of them one interval before the first
/// reading's own timestamp, and the readings that stay follow in their order.
pub proof fn lemma_forward_shift_on_even_stream<V, A>(
    acc: Seq<DataPoint<V>>,
    audio: Seq<AudioChunkView<A>>,
    spacing: int,
    count: int,
)
    requires
        acc.len() >= 2,
        audio.len() > 0,
        spacing > 0,
        acc.last().timestamp - acc.first().timestamp == (acc.len() - 1) * spacing,
        0 < count <= MAX_FORWARD_SHIFT,
        end_difference(acc, audio) == count * spacing,
        acc.first().timestamp - count * spacing >= i64::MIN,
    ensures
        alignment_fits(acc, audio),
        alignment_shift(acc, audio) == count,
        alignment_offset(acc, audio) == count * spacing,
        aligned_sensor(acc, audio).len() == if acc.len() > count {
            acc.len() as int
        } else {
            count
        },
        forall|i: int|
            0 <= i < count ==> #[trigger] aligned_sensor(acc, audio)[i] == (DataPoint {
                timestamp: (acc.first().timestamp - (count - i) * spacing) as i64,
                ..acc.first()
            }),
        forall|i: int|
            count <= i < acc.len() ==> #[trigger] aligned_sensor(acc, audio)[i] == acc[i - count],
{
    let n = acc.len() - 1;
    let span = n * spacing;
    assert(span > 0) by (nonlinear_arith)
        requires
            n >= 1,
            spacing > 0,
            span == n * spacing,
    ;
    assert(effective_rate(acc) == (n, span));
    assert(count * spacing * n == count * span) by (nonlinear_arith)
        requires
            span == n * spacing,
    ;
    lemma_fundamental_div_mod_converse(count * span, span, count, 0);
    assert(alignment_shift(acc, audio) == count);
    assert(count * spacing >= 0) by (nonlinear_arith)
        requires
            count > 0,
            spacing > 0,
    ;
    assert forall|k: int| 0 <= k <= count implies #[trigger] extrapolated_millis(k, n, span) == k
        * spacing by {
        assert(k * span == (k * spacing) * n) by (nonlinear_arith)
            requires
                span == n * spacing,
        ;
        lemma_fundamental_div_mod_converse(k * span, n, k * spacing, 0);
    }
    assert(extrapolated_millis(count, n, span) == count * spacing);
    let out = aligned_sensor(acc, audio);
    assert forall|i: int| 0 <= i < count implies #[trigger] out[i] == (DataPoint {
        timestamp: (acc.first().timestamp - (count - i) * spacing) as i64,
        ..acc.first()
    }) by {
        assert(extrapolated_millis(count - i, n, span) == (count - i) * spacing);
    }
}

} // verus!
