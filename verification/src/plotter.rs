//! The sliding window over the live streams: the most recent sensor readings
//! and audio samples, each kept up to a capacity that the window's duration
//! and the stream's rate give.

use std::collections::VecDeque;
use vstd::prelude::*;
use vstd::arithmetic::div_mod::lemma_div_is_ordered;
use crate::config::PlotConfig;
use crate::types::DataPoint;

verus! {

/// Samples per second of the audio stream, fixed by the ingest format.
pub const AUDIO_SAMPLE_RATE: u64 = 16000;

/// The last `capacity` items of `items`, in their order; all of them when
/// there are no more than that.
pub open spec fn window<T>(items: Seq<T>, capacity: nat) -> Seq<T> {
    if items.len() > capacity {
        items.subrange(items.len() - capacity, items.len() as int)
    } else {
        items
    }
}

/// What a window holds after `items` were pushed into it one by one.
pub open spec fn after_pushes<T>(held: Seq<T>, items: Seq<T>, capacity: nat) -> Seq<T>
    decreases items.len(),
{
    if items.len() == 0 {
        held
    } else {
        after_pushes(window(held.push(items.first()), capacity), items.drop_first(), capacity)
    }
}

/// Samples that a window of `window_ms` milliseconds holds at `samples` per
/// `millis`: their product rounded up, and no more than a `usize` can count.
pub open spec fn window_capacity(window_ms: nat, samples: nat, millis: nat) -> nat {
    let exact = (window_ms * samples + millis - 1) / (millis as int);
    if exact > usize::MAX {
        usize::MAX as nat
    } else {
        exact as nat
    }
}

/// The timestamp of sample `index` of a record that starts at `base` and
/// runs at `sample_rate` samples per second.
pub open spec fn sample_timestamp(base: i64, index: int, sample_rate: u32) -> int {
    base + (index * 1000) / (sample_rate as int)
}

/// The timestamps of the first `count` samples of such a record.
pub open spec fn sample_timestamps(base: i64, count: nat, sample_rate: u32) -> Seq<i64> {
    Seq::new(count, |i: int| sample_timestamp(base, i, sample_rate) as i64)
}

/// Whether a record of `count` samples can be stamped: its rate is positive
/// and its last sample's timestamp fits 64 bits.
pub open spec fn stampable(base: i64, count: nat, sample_rate: u32) -> bool {
    &&& sample_rate > 0
    &&& count > 0 ==> sample_timestamp(base, count - 1, sample_rate) <= i64::MAX
}

/// The live window over the sensor stream and the audio stream.
#[derive(Debug)]
pub struct WaveformPlot<V> {
    readings: VecDeque<DataPoint<V>>,
    audio_buffer: VecDeque<i16>,
    audio_timestamps: VecDeque<i64>,
    max_samples: usize,
    audio_max_samples: usize,
}

/// The contents of a [`WaveformPlot`], oldest first.
pub ghost struct WaveformView<V> {
    pub readings: Seq<DataPoint<V>>,
    pub audio: Seq<i16>,
    pub audio_timestamps: Seq<i64>,
    pub max_samples: nat,
    pub audio_max_samples: nat,
}

impl<V> WaveformView<V> {
    /// No stream holds more than its capacity, and every audio sample has
    /// its timestamp.
    pub open spec fn wf(self) -> bool {
        &&& self.readings.len() <= self.max_samples
        &&& self.audio.len() <= self.audio_max_samples
        &&& self.audio_timestamps.len() == self.audio.len()
    }
}

impl<V> View for WaveformPlot<V> {
    type V = WaveformView<V>;

    closed spec fn view(&self) -> WaveformView<V> {
        WaveformView {
            readings: self.readings@,
            audio: self.audio_buffer@,
            audio_timestamps: self.audio_timestamps@,
            max_samples: self.max_samples as nat,
            audio_max_samples: self.audio_max_samples as nat,
        }
    }
}

/// The capacity of a window, computed.
pub fn capacity_for(window_ms: u64, samples: u64, millis: u64) -> (capacity: usize)
    requires
        millis > 0,
    ensures
        capacity == window_capacity(window_ms as nat, samples as nat, millis as nat),
{
    assert(window_ms * samples <= 0xffff_ffff_ffff_ffff * 0xffff_ffff_ffff_ffff)
        by (nonlinear_arith)
        requires
            0 <= window_ms <= 0xffff_ffff_ffff_ffff,
            0 <= samples <= 0xffff_ffff_ffff_ffff,
    ;
    let product: u128 = (window_ms as u128) * (samples as u128);
    let exact: u128 = (product + (millis as u128) - 1) / (millis as u128);
    if exact > usize::MAX as u128 {
        usize::MAX
    } else {
        exact as usize
    }
}

proof fn lemma_stamps_grow(base: i64, a: int, b: int, sample_rate: u32)
    requires
        0 <= a <= b,
        sample_rate > 0,
    ensures
        base <= sample_timestamp(base, a, sample_rate) <= sample_timestamp(base, b, sample_rate),
{
    lemma_div_is_ordered(a * 1000, b * 1000, sample_rate as int);
    lemma_div_is_ordered(0, a * 1000, sample_rate as int);
}

impl<V: Copy> WaveformPlot<V> {
    /// An empty window for a sensor stream of `sample_rate` samples per
    /// second.
    pub fn new(sample_rate: usize, config: &PlotConfig) -> (plot: Self)
        ensures
            plot@.wf(),
            plot@.readings.len() == 0,
            plot@.audio.len() == 0,
            plot@.max_samples == window_capacity(
                config.window_duration_ms as nat,
                sample_rate as nat,
                1000,
            ),
            plot@.audio_max_samples == window_capacity(
                config.window_duration_ms as nat,
                AUDIO_SAMPLE_RATE as nat,
                1000,
            ),
    {
        Self::with_rate(sample_rate as u64, 1000, config)
    }

    /// An empty window for a sensor stream of `samples` samples per `millis`
    /// milliseconds.
    pub fn with_rate(samples: u64, millis: u64, config: &PlotConfig) -> (plot: Self)
        requires
            millis > 0,
        ensures
            plot@.wf(),
            plot@.readings.len() == 0,
            plot@.audio.len() == 0,
            plot@.max_samples == window_capacity(
                config.window_duration_ms as nat,
                samples as nat,
                millis as nat,
            ),
            plot@.audio_max_samples == window_capacity(
                config.window_duration_ms as nat,
                AUDIO_SAMPLE_RATE as nat,
                1000,
            ),
    {
        WaveformPlot {
            readings: VecDeque::new(),
            audio_buffer: VecDeque::new(),
            audio_timestamps: VecDeque::new(),
            max_samples: capacity_for(config.window_duration_ms, samples, millis),
            audio_max_samples: capacity_for(config.window_duration_ms, AUDIO_SAMPLE_RATE, 1000),
        }
    }

    /// Pushes one reading; the oldest leaves when the window is full.
    pub fn add_data(&mut self, x: V, y: V, z: V, gx: V, gy: V, gz: V, timestamp: i64)
        requires
            old(self)@.wf(),
        ensures
            final(self)@.wf(),
            final(self)@.readings == window(
                old(self)@.readings.push(DataPoint { x, y, z, gx, gy, gz, timestamp }),
                old(self)@.max_samples,
            ),
            final(self)@ == (WaveformView { readings: final(self)@.readings, ..old(self)@ }),
    {
        self.readings.push_back(DataPoint { x, y, z, gx, gy, gz, timestamp });
        if self.readings.len() > self.max_samples {
            self.readings.pop_front();
        }
        assert(self.readings@ =~= window(
            old(self)@.readings.push(DataPoint { x, y, z, gx, gy, gz, timestamp }),
            old(self)@.max_samples,
        ));
    }

    /// Pushes the samples of one audio record, each with its timestamp; the
    /// oldest leave while the window holds more than its capacity.
    pub fn add_audio_samples(&mut self, samples: &[i16], base_timestamp: i64, sample_rate: u32)
        requires
            old(self)@.wf(),
            stampable(base_timestamp, samples@.len(), sample_rate),
        ensures
            final(self)@.wf(),
            final(self)@.audio == window(
                old(self)@.audio + samples@,
                old(self)@.audio_max_samples,
            ),
            final(self)@.audio_timestamps == window(
                old(self)@.audio_timestamps + sample_timestamps(
                    base_timestamp,
                    samples@.len(),
                    sample_rate,
                ),
                old(self)@.audio_max_samples,
            ),
            final(self)@ == (WaveformView {
                audio: final(self)@.audio,
                audio_timestamps: final(self)@.audio_timestamps,
                ..old(self)@
            }),
    {
        let n = samples.len();
        let ghost stamps = sample_timestamps(base_timestamp, n as nat, sample_rate);
        let mut i: usize = 0;
        while i < n
            invariant
                i <= n == samples@.len(),
                stampable(base_timestamp, n as nat, sample_rate),
                stamps == sample_timestamps(base_timestamp, n as nat, sample_rate),
                self.audio_buffer@ == old(self)@.audio + samples@.subrange(0, i as int),
                self.audio_timestamps@ == old(self)@.audio_timestamps + stamps.subrange(
                    0,
                    i as int,
                ),
                self.readings == old(self).readings,
                self.max_samples == old(self).max_samples,
                self.audio_max_samples == old(self).audio_max_samples,
            decreases n - i,
        {
            proof {
                lemma_stamps_grow(base_timestamp, i as int, n - 1, sample_rate);
            }
            let offset: u128 = ((i as u128) * 1000) / (sample_rate as u128);
            let stamp: i128 = base_timestamp as i128 + offset as i128;
            self.audio_buffer.push_back(samples[i]);
            self.audio_timestamps.push_back(stamp as i64);
            i += 1;
            assert(self.audio_buffer@ =~= old(self)@.audio + samples@.subrange(0, i as int));
            assert(self.audio_timestamps@ =~= old(self)@.audio_timestamps + stamps.subrange(
                0,
                i as int,
            ));
        }
        assert(samples@.subrange(0, n as int) =~= samples@);
        assert(stamps.subrange(0, n as int) =~= stamps);
        let ghost all_audio = old(self)@.audio + samples@;
        let ghost all_stamps = old(self)@.audio_timestamps + stamps;
        let ghost total = all_audio.len();
        while self.audio_buffer.len() > self.audio_max_samples
            invariant
                all_audio.len() == total == all_stamps.len(),
                self.audio_buffer@.len() == self.audio_timestamps@.len() <= total,
                total <= self.audio_max_samples ==> self.audio_buffer@.len() == total,
                total > self.audio_max_samples ==> self.audio_buffer@.len()
                    >= self.audio_max_samples,
                self.audio_buffer@ == all_audio.subrange(
                    total - self.audio_buffer@.len(),
                    total as int,
                ),
                self.audio_timestamps@ == all_stamps.subrange(
                    total - self.audio_buffer@.len(),
                    total as int,
                ),
                self.readings == old(self).readings,
                self.max_samples == old(self).max_samples,
                self.audio_max_samples == old(self).audio_max_samples,
            decreases self.audio_buffer@.len(),
        {
            let ghost before = self.audio_buffer@.len();
            self.audio_buffer.pop_front();
            self.audio_timestamps.pop_front();
            assert(self.audio_buffer@ =~= all_audio.subrange(total - (before - 1), total as int));
            assert(self.audio_timestamps@ =~= all_stamps.subrange(
                total - (before - 1),
                total as int,
            ));
        }
        proof {
            let capacity = old(self)@.audio_max_samples;
            if total <= capacity {
                assert(self.audio_buffer@.len() == total);
                assert(self.audio_buffer@ =~= all_audio);
                assert(self.audio_timestamps@ =~= all_stamps);
            } else {
                assert(self.audio_buffer@.len() == capacity);
            }
        }
    }

    /// How many readings the window holds.
    pub fn reading_count(&self) -> (count: usize)
        ensures
            count == self@.readings.len(),
    {
        self.readings.len()
    }

    /// How many audio samples the window holds.
    pub fn audio_sample_count(&self) -> (count: usize)
        ensures
            count == self@.audio.len(),
    {
        self.audio_buffer.len()
    }

    /// The readings in the window, oldest first, each as its six channel
    /// values and its timestamp.
    pub fn get_current_accelerometer_data(&self) -> (data: Vec<(V, V, V, V, V, V, i64)>)
        ensures
            data@.len() == self@.readings.len(),
            forall|i: int|
                0 <= i < data@.len() ==> {
                    let p = #[trigger] self@.readings[i];
                    data@[i] == (p.x, p.y, p.z, p.gx, p.gy, p.gz, p.timestamp)
                },
    {
        let mut data: Vec<(V, V, V, V, V, V, i64)> = Vec::new();
        let mut i: usize = 0;
        while i < self.readings.len()
            invariant
                i <= self.readings@.len(),
                data@.len() == i,
                forall|j: int|
                    0 <= j < i ==> {
                        let p = #[trigger] self.readings@[j];
                        data@[j] == (p.x, p.y, p.z, p.gx, p.gy, p.gz, p.timestamp)
                    },
            decreases self.readings@.len() - i,
        {
            let p = self.readings[i];
            data.push((p.x, p.y, p.z, p.gx, p.gy, p.gz, p.timestamp));
            i += 1;
        }
        data
    }

    /// The readings in the window, oldest first.
    pub fn current_readings(&self) -> (data: Vec<DataPoint<V>>)
        ensures
            data@ == self@.readings,
    {
        let mut data: Vec<DataPoint<V>> = Vec::new();
        let mut i: usize = 0;
        while i < self.readings.len()
            invariant
                i <= self.readings@.len(),
                data@ == self.readings@.subrange(0, i as int),
            decreases self.readings@.len() - i,
        {
            data.push(self.readings[i]);
            i += 1;
            assert(data@ =~= self.readings@.subrange(0, i as int));
        }
        assert(self.readings@.subrange(0, i as int) =~= self.readings@);
        data
    }

    /// The audio samples in the window, oldest first.
    pub fn get_current_audio_data(&self) -> (data: Vec<i16>)
        ensures
            data@ == self@.audio,
    {
        let mut data: Vec<i16> = Vec::new();
        let mut i: usize = 0;
        while i < self.audio_buffer.len()
            invariant
                i <= self.audio_buffer@.len(),
                data@ == self.audio_buffer@.subrange(0, i as int),
            decreases self.audio_buffer@.len() - i,
        {
            data.push(self.audio_buffer[i]);
            i += 1;
            assert(data@ =~= self.audio_buffer@.subrange(0, i as int));
        }
        assert(self.audio_buffer@.subrange(0, i as int) =~= self.audio_buffer@);
        data
    }

    /// The audio samples in the window with their timestamps, oldest first.
    pub fn get_current_audio_data_with_timestamps(&self) -> (data: Vec<(i16, i64)>)
        requires
            self@.wf(),
        ensures
            data@.len() == self@.audio.len(),
            forall|i: int|
                0 <= i < data@.len() ==> #[trigger] data@[i] == (
                    self@.audio[i],
                    self@.audio_timestamps[i],
                ),
    {
        let mut data: Vec<(i16, i64)> = Vec::new();
        let mut i: usize = 0;
        while i < self.audio_buffer.len()
            invariant
                i <= self.audio_buffer@.len() == self.audio_timestamps@.len(),
                data@.len() == i,
                forall|j: int|
                    0 <= j < i ==> #[trigger] data@[j] == (
                        self.audio_buffer@[j],
                        self.audio_timestamps@[j],
                    ),
            decreases self.audio_buffer@.len() - i,
        {
            data.push((self.audio_buffer[i], self.audio_timestamps[i]));
            i += 1;
        }
        data
    }

    /// The timestamp of the oldest audio sample in the window.
    pub fn get_current_audio_first_timestamp(&self) -> (stamp: Option<i64>)
        ensures
            stamp == if self@.audio_timestamps.len() > 0 {
                Some(self@.audio_timestamps.first())
            } else {
                None
            },
    {
        if self.audio_timestamps.len() > 0 {
            Some(self.audio_timestamps[0])
        } else {
            None
        }
    }

    /// The timestamp of the newest audio sample in the window.
    pub fn get_current_audio_last_timestamp(&self) -> (stamp: Option<i64>)
        ensures
            stamp == if self@.audio_timestamps.len() > 0 {
                Some(self@.audio_timestamps.last())
            } else {
                None
            },
    {
        let n = self.audio_timestamps.len();
        if n > 0 {
            Some(self.audio_timestamps[n - 1])
        } else {
            None
        }
    }
}

/// Pushing into an empty window leaves the last `capacity` items pushed, in
/// the order in which they came.
pub proof fn lemma_window_keeps_latest<T>(items: Seq<T>, capacity: nat)
    ensures
        after_pushes(Seq::<T>::empty(), items, capacity) == window(items, capacity),
        after_pushes(Seq::<T>::empty(), items, capacity).len() == if items.len() > capacity {
            capacity
        } else {
            items.len()
        },
{
    lemma_pushes_extend_window(Seq::<T>::empty(), items, capacity);
    assert(Seq::<T>::empty() + items =~= items);
}

proof fn lemma_pushes_extend_window<T>(held: Seq<T>, items: Seq<T>, capacity: nat)
    requires
        held.len() <= capacity,
    ensures
        after_pushes(held, items, capacity) == window(held + items, capacity),
    decreases items.len(),
{
    if items.len() == 0 {
        assert(held + items =~= held);
    } else {
        let next = window(held.push(items.first()), capacity);
        lemma_pushes_extend_window(next, items.drop_first(), capacity);
        assert(window(next + items.drop_first(), capacity) =~= window(held + items, capacity));
    }
}

} // verus!
