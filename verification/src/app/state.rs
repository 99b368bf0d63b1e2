use crossbeam_channel::{Receiver, Sender};
use vstd::prelude::*;
use crate::app::export_state::ExportState;
use crate::app::history::HistoryVisualizationState;
use crate::audio::player::{AudioStatus, PlaybackState};
use crate::config::{AppConfig, PlotConfig};
use crate::database::manager::{follows, next_session_id};
use crate::names::name_of;
use crate::plotter::{window_capacity, WaveformPlot, AUDIO_SAMPLE_RATE};
use crate::types::{AudioData, DatabaseTask, SaveResult};
use crate::text::{decimal, push_decimal};
use crate::types::DataPoint;

verus! {

/// Where the collection of live data stands, and the labels and the
/// automatic saving of the session being captured.
#[derive(Debug)]
pub struct CollectionState {
    pub is_collecting: bool,
    pub is_paused: bool,
    pub current_session_id: String,
    /// The second of UTC time that the current session id spells, once an
    /// id was made from the clock.
    pub session_second: Option<i64>,
    pub save_status: String,
    pub username: String,
    pub scenario: String,
    pub auto_save_enabled: bool,
    /// The instant of the last automatic save, in milliseconds of the
    /// driver's clock.
    pub auto_save_last_time: Option<u64>,
    pub auto_save_interval_ms: u64,
    pub auto_save_count: u32,
}

impl Default for CollectionState {
    fn default() -> (state: Self)
        ensures
            !state.is_collecting,
            !state.is_paused,
            state.current_session_id@.len() == 0,
            state.session_second is None,
            state.save_status@.len() == 0,
            state.username@ == "test"@,
            state.scenario@ == "standard"@,
            !state.auto_save_enabled,
            state.auto_save_last_time is None,
            state.auto_save_interval_ms == 10000,
            state.auto_save_count == 0,
    {
        CollectionState {
            is_collecting: false,
            is_paused: false,
            current_session_id: String::new(),
            session_second: None,
            save_status: String::new(),
            username: String::from_str("test"),
            scenario: String::from_str("standard"),
            auto_save_enabled: false,
            auto_save_last_time: None,
            auto_save_interval_ms: 10000,
            auto_save_count: 0,
        }
    }
}

/// What an automatic-save check asks of the driver.
#[derive(Clone, Copy, Debug, PartialEq, Eq, Structural)]
pub enum AutoSave {
    /// Nothing is due.
    Wait,
    /// The interval has passed: the window is to be saved now.
    SaveNow,
}

impl CollectionState {
    /// Whether data is being collected and not held back.
    pub open spec fn actively_collecting(self) -> bool {
        self.is_collecting && !self.is_paused
    }

    pub fn start_collection(&mut self)
        ensures
            *final(self) == (CollectionState {
                is_collecting: true,
                is_paused: false,
                ..*old(self)
            }),
    {
        self.is_collecting = true;
        self.is_paused = false;
    }

    pub fn stop_collection(&mut self)
        ensures
            *final(self) == (CollectionState {
                is_collecting: false,
                is_paused: false,
                ..*old(self)
            }),
    {
        self.is_collecting = false;
        self.is_paused = false;
    }

    /// Holds collection back; without effect when nothing is collected.
    pub fn pause_collection(&mut self)
        ensures
            *final(self) == (CollectionState {
                is_paused: old(self).is_collecting || old(self).is_paused,
                ..*old(self)
            }),
    {
        if self.is_collecting {
            self.is_paused = true;
        }
    }

    /// Takes collection up again; without effect when nothing is collected.
    pub fn resume_collection(&mut self)
        ensures
            *final(self) == (CollectionState {
                is_paused: !old(self).is_collecting && old(self).is_paused,
                ..*old(self)
            }),
    {
        if self.is_collecting {
            self.is_paused = false;
        }
    }

    pub fn is_actively_collecting(&self) -> (active: bool)
        ensures
            active == self.actively_collecting(),
    {
        self.is_collecting && !self.is_paused
    }

    /// Switches automatic saving on or off at instant `now_ms`. Switching on
    /// starts the interval and the count anew.
    pub fn toggle_auto_save(&mut self, now_ms: u64)
        ensures
            *final(self) == if old(self).auto_save_enabled {
                CollectionState { auto_save_enabled: false, auto_save_last_time: None, ..*old(self) }
            } else {
                CollectionState {
                    auto_save_enabled: true,
                    auto_save_last_time: Some(now_ms),
                    auto_save_count: 0,
                    ..*old(self)
                }
            },
    {
        self.auto_save_enabled = !self.auto_save_enabled;
        if self.auto_save_enabled {
            self.auto_save_last_time = Some(now_ms);
            self.auto_save_count = 0;
        } else {
            self.auto_save_last_time = None;
        }
    }

    /// Whether an automatic save is due at instant `now_ms`: automatic
    /// saving is on, an interval was started, and it has passed.
    pub open spec fn auto_save_due(self, now_ms: u64) -> bool {
        &&& self.auto_save_enabled
        &&& self.auto_save_last_time matches Some(last)
        &&& now_ms >= last
        &&& now_ms - last >= self.auto_save_interval_ms
    }

    /// Checks at instant `now_ms` whether an automatic save is due. The
    /// first check after automatic saving was switched on without an instant
    /// starts the interval. A save that is due is counted and starts the
    /// next interval; the count stays at its largest value once reached.
    pub fn check_auto_save(&mut self, now_ms: u64) -> (action: AutoSave)
        ensures
            action == if old(self).auto_save_due(now_ms) {
                AutoSave::SaveNow
            } else {
                AutoSave::Wait
            },
            *final(self) == if !old(self).auto_save_enabled {
                *old(self)
            } else if old(self).auto_save_last_time is None {
                CollectionState { auto_save_last_time: Some(now_ms), ..*old(self) }
            } else if old(self).auto_save_due(now_ms) {
                CollectionState {
                    auto_save_last_time: Some(now_ms),
                    auto_save_count: if old(self).auto_save_count < u32::MAX {
                        (old(self).auto_save_count + 1) as u32
                    } else {
                        u32::MAX
                    },
                    ..*old(self)
                }
            } else {
                *old(self)
            },
    {
        if !self.auto_save_enabled {
            return AutoSave::Wait;
        }
        match self.auto_save_last_time {
            None => {
                self.auto_save_last_time = Some(now_ms);
                AutoSave::Wait
            },
            Some(last) => {
                if now_ms >= last && now_ms - last >= self.auto_save_interval_ms {
                    if self.auto_save_count < u32::MAX {
                        self.auto_save_count += 1;
                    }
                    self.auto_save_last_time = Some(now_ms);
                    AutoSave::SaveNow
                } else {
                    AutoSave::Wait
                }
            },
        }
    }
}

/// The line that tells what a save wrote.
pub open spec fn saved_text(acc_saved: nat, audio_saved: nat) -> Seq<char> {
    "Saved: "@ + decimal(acc_saved) + " ACC points, "@ + decimal(audio_saved)
        + " audio records"@
}

/// Whether a save wrote anything.
pub open spec fn wrote(result: SaveResult) -> bool {
    result.error is None && (result.acc_saved > 0 || result.audio_saved > 0)
}

/// The status that tells of the result of a save: the failure as it is
/// worded, or what was written, or that nothing was.
pub open spec fn result_status(result: SaveResult) -> Seq<char> {
    match result.error {
        Some(error) => error@,
        None => if wrote(result) {
            saved_text(result.acc_saved as nat, result.audio_saved as nat)
        } else {
            "No data saved"@
        },
    }
}

impl CollectionState {
    /// Whether `after` is this state once the result of a save was taken. A
    /// failure becomes the status as it is worded. A save that wrote
    /// something is reported with its counts, and the session ends: the
    /// next save goes to a session with another id, which follows this one.
    /// A save that wrote nothing is reported as such. Nothing else differs.
    pub open spec fn save_result_applied(self, result: SaveResult, after: Self) -> bool {
        &&& match result.error {
            Some(error) => after.save_status == error,
            None => after.save_status@ == result_status(result),
        }
        &&& if wrote(result) {
            &&& after.current_session_id@ != self.current_session_id@
            &&& follows(
                self.current_session_id@,
                self.session_second,
                after.current_session_id@,
                after.session_second,
            )
        } else {
            &&& after.current_session_id == self.current_session_id
            &&& after.session_second == self.session_second
        }
        &&& after == (CollectionState {
            save_status: after.save_status,
            current_session_id: after.current_session_id,
            session_second: after.session_second,
            ..self
        })
    }

    /// Whether `after` is this state once the results of a run of saves
    /// were taken one after the other.
    pub open spec fn save_results_applied(self, results: Seq<SaveResult>, after: Self) -> bool
        decreases results.len(),
    {
        if results.len() == 0 {
            after == self
        } else {
            exists|between: Self|
                #![trigger between.save_result_applied(results.last(), after)]
                self.save_results_applied(results.drop_last(), between)
                    && between.save_result_applied(results.last(), after)
        }
    }

    /// One more result taken extends a run of results taken.
    pub proof fn lemma_one_more_result(
        self,
        results: Seq<SaveResult>,
        between: Self,
        after: Self,
    )
        requires
            results.len() > 0,
            self.save_results_applied(results.drop_last(), between),
            between.save_result_applied(results.last(), after),
        ensures
            self.save_results_applied(results, after),
    {
    }

    /// Takes the result of a save. A failure becomes the status as it is
    /// worded. A save that wrote something is reported with its counts, and
    /// the next save goes to a new session, whose id differs from this
    /// one's. A save that wrote nothing is reported as such.
    pub fn apply_save_result(&mut self, result: SaveResult)
        ensures
            old(self).save_result_applied(result, *final(self)),
    {
        match result.error {
            Some(error) => {
                self.save_status = error;
            },
            None => {
                if result.acc_saved > 0 || result.audio_saved > 0 {
                    let mut status = String::from_str("Saved: ");
                    push_decimal(&mut status, result.acc_saved as u64);
                    status.append(" ACC points, ");
                    push_decimal(&mut status, result.audio_saved as u64);
                    status.append(" audio records");
                    self.save_status = status;
                    let next = next_session_id(&self.current_session_id, self.session_second);
                    self.current_session_id = next.0;
                    self.session_second = next.1;
                } else {
                    self.save_status = String::from_str("No data saved");
                }
            },
        }
    }
}

/// Which series of a loaded session are drawn.
#[derive(Debug, Clone, Copy)]
pub struct HistoryDisplayOptions {
    pub show_x_axis: bool,
    pub show_y_axis: bool,
    pub show_z_axis: bool,
    pub show_gx_axis: bool,
    pub show_gy_axis: bool,
    pub show_gz_axis: bool,
    pub show_audio: bool,
}

impl Default for HistoryDisplayOptions {
    /// The three acceleration axes and the audio are drawn, the gyroscope
    /// axes are not.
    fn default() -> (options: Self)
        ensures
            options == (HistoryDisplayOptions {
                show_x_axis: true,
                show_y_axis: true,
                show_z_axis: true,
                show_gx_axis: false,
                show_gy_axis: false,
                show_gz_axis: false,
                show_audio: true,
            }),
    {
        HistoryDisplayOptions {
            show_x_axis: true,
            show_y_axis: true,
            show_z_axis: true,
            show_gx_axis: false,
            show_gy_axis: false,
            show_gz_axis: false,
            show_audio: true,
        }
    }
}

/// What the driver knows of the audio output.
#[derive(Debug, Clone, Copy)]
pub struct AudioPlaybackState {
    pub is_available: bool,
    pub is_playing: bool,
    pub is_paused: bool,
    /// Samples per second at which loaded audio is played.
    pub sample_rate: u32,
}

impl Default for AudioPlaybackState {
    fn default() -> (state: Self)
        ensures
            state == (AudioPlaybackState {
                is_available: false,
                is_playing: false,
                is_paused: false,
                sample_rate: 16000,
            }),
    {
        AudioPlaybackState {
            is_available: false,
            is_playing: false,
            is_paused: false,
            sample_rate: 16000,
        }
    }
}

impl AudioPlaybackState {
    /// After the driver asked for playback: playing if the audio output
    /// took the request, unavailable if it did not.
    pub fn play_requested(&mut self, started: bool)
        ensures
            *final(self) == if started {
                AudioPlaybackState {
                    is_playing: true,
                    is_paused: false,
                    is_available: true,
                    ..*old(self)
                }
            } else {
                AudioPlaybackState { is_available: false, ..*old(self) }
            },
    {
        if started {
            self.is_playing = true;
            self.is_paused = false;
            self.is_available = true;
        } else {
            self.is_available = false;
        }
    }

    /// After the driver asked for a pause.
    pub fn pause_requested(&mut self)
        ensures
            *final(self) == (AudioPlaybackState { is_playing: false, is_paused: true, ..*old(self) }),
    {
        self.is_playing = false;
        self.is_paused = true;
    }

    /// After the driver asked for a stop.
    pub fn stop_requested(&mut self)
        ensures
            *final(self) == (AudioPlaybackState {
                is_playing: false,
                is_paused: false,
                ..*old(self)
            }),
    {
        self.is_playing = false;
        self.is_paused = false;
    }

    /// Takes what the audio output reports of itself.
    pub fn update(&mut self, status: AudioStatus)
        ensures
            *final(self) == (AudioPlaybackState {
                is_available: status.is_available,
                is_playing: status.state == PlaybackState::Playing,
                is_paused: status.state == PlaybackState::Paused,
                ..*old(self)
            }),
    {
        self.is_available = status.is_available;
        match status.state {
            PlaybackState::Playing => {
                self.is_playing = true;
                self.is_paused = false;
            },
            PlaybackState::Paused => {
                self.is_playing = false;
                self.is_paused = true;
            },
            PlaybackState::Stopped => {
                self.is_playing = false;
                self.is_paused = false;
            },
        }
    }
}

/// A text that is read aloud line by line while data is captured.
#[derive(Debug)]
pub struct TextReaderState {
    pub lines: Vec<String>,
    pub current_line_index: usize,
    pub current_text: String,
    pub is_enabled: bool,
    pub file_loaded: bool,
}

impl Default for TextReaderState {
    fn default() -> (state: Self)
        ensures
            state.lines@.len() == 0,
            state.current_line_index == 0,
            state.current_text@.len() == 0,
            !state.is_enabled,
            !state.file_loaded,
    {
        TextReaderState {
            lines: Vec::new(),
            current_line_index: 0,
            current_text: String::new(),
            is_enabled: false,
            file_loaded: false,
        }
    }
}

/// The line `position/total` that tells where a reader or a selection
/// stands, counted from one.
pub open spec fn position_text(position: nat, total: nat) -> Seq<char> {
    decimal(position) + "/"@ + decimal(total)
}

fn position_string(position: u64, total: u64) -> (text: String)
    ensures
        text@ == position_text(position as nat, total as nat),
{
    let mut text = String::new();
    push_decimal(&mut text, position);
    text.append("/");
    push_decimal(&mut text, total);
    assert(text@ =~= position_text(position as nat, total as nat));
    text
}

impl TextReaderState {
    /// The current line lies within the text; with an empty text it is the
    /// first.
    pub open spec fn wf(self) -> bool {
        if self.lines@.len() > 0 {
            self.current_line_index < self.lines@.len()
        } else {
            self.current_line_index == 0
        }
    }

    /// Takes the lines of a text that was read and shows the first of them.
    /// With an empty text the line shown stays what it was.
    pub fn load_text_lines(&mut self, lines: Vec<String>)
        ensures
            final(self).wf(),
            final(self).lines == lines,
            final(self).current_line_index == 0,
            final(self).file_loaded,
            final(self).is_enabled == old(self).is_enabled,
            final(self).current_text@ == if lines@.len() > 0 {
                lines@[0]@
            } else {
                old(self).current_text@
            },
    {
        self.lines = lines;
        self.current_line_index = 0;
        self.file_loaded = true;
        if self.lines.len() > 0 {
            self.current_text = self.lines[0].clone();
        }
    }

    /// The line on which the reader stands after a step forward: the next
    /// one, if a text is loaded and has one.
    pub open spec fn next_index(self) -> usize {
        if self.file_loaded && self.current_line_index + 1 < self.lines@.len() {
            (self.current_line_index + 1) as usize
        } else {
            self.current_line_index
        }
    }

    /// The line on which the reader stands after a step back: the one
    /// before, if a text is loaded and has one.
    pub open spec fn previous_index(self) -> usize {
        if self.file_loaded && self.lines@.len() > 0 && self.current_line_index > 0 {
            (self.current_line_index - 1) as usize
        } else {
            self.current_line_index
        }
    }

    /// The reader after it moved to line `index`: it shows that line if it
    /// moved at all, and what it showed before if it did not.
    pub open spec fn moved_to(self, other: Self, index: usize) -> bool {
        &&& other.current_line_index == index
        &&& other.lines == self.lines
        &&& other.is_enabled == self.is_enabled
        &&& other.file_loaded == self.file_loaded
        &&& if index == self.current_line_index {
            other.current_text == self.current_text
        } else {
            other.current_text@ == self.lines@[index as int]@
        }
    }

    /// Moves to the next line, if there is one.
    pub fn next_text_line(&mut self)
        requires
            old(self).wf(),
        ensures
            final(self).wf(),
            old(self).moved_to(*final(self), old(self).next_index()),
    {
        if !self.file_loaded || self.lines.len() == 0 {
            return ;
        }
        if self.current_line_index + 1 < self.lines.len() {
            self.current_line_index += 1;
            self.current_text = self.lines[self.current_line_index].clone();
        }
    }

    /// Moves to the line before, if there is one.
    pub fn previous_text_line(&mut self)
        requires
            old(self).wf(),
        ensures
            final(self).wf(),
            old(self).moved_to(*final(self), old(self).previous_index()),
    {
        if !self.file_loaded || self.lines.len() == 0 {
            return ;
        }
        if self.current_line_index > 0 {
            self.current_line_index -= 1;
            self.current_text = self.lines[self.current_line_index].clone();
        }
    }

    /// Where the reader stands: the number of the current line and the
    /// number of lines, or a notice that no text was loaded.
    pub fn get_text_info(&self) -> (info: String)
        requires
            self.wf(),
        ensures
            info@ == if self.file_loaded {
                position_text((self.current_line_index + 1) as nat, self.lines@.len())
            } else {
                "No file loaded"@
            },
    {
        if !self.file_loaded {
            return String::from_str("No file loaded");
        }
        let total = self.lines.len();
        position_string((self.current_line_index + 1) as u64, total as u64)
    }
}

/// A sample rate as an exact ratio: `samples` samples in `millis`
/// milliseconds.
#[derive(Clone, Copy, Debug, PartialEq, Eq, Structural)]
pub struct SampleRate {
    pub samples: u64,
    pub millis: u64,
}

impl SampleRate {
    /// The rate in samples per second, rounded down, and no more than 64
    /// bits hold.
    pub open spec fn hertz(self) -> int {
        let exact = (self.samples * 1000) / (self.millis as int);
        if exact > u64::MAX {
            u64::MAX as int
        } else {
            exact
        }
    }

    /// The rate in whole samples per second.
    pub fn whole_hertz(&self) -> (hz: u64)
        requires
            self.millis > 0,
        ensures
            hz == self.hertz(),
    {
        let exact: u128 = ((self.samples as u128) * 1000) / (self.millis as u128);
        if exact > u64::MAX as u128 {
            u64::MAX
        } else {
            exact as u64
        }
    }
}

/// The rate that a run of readings shows, as samples and milliseconds: the
/// number of their intervals over the span of their timestamps. Fewer than
/// two readings show no rate, nor do readings whose span is not positive.
pub open spec fn measured_rate<V>(data: Seq<DataPoint<V>>) -> Option<(int, int)> {
    if data.len() >= 2 && data.last().timestamp - data.first().timestamp > 0 {
        Some((data.len() - 1, data.last().timestamp - data.first().timestamp))
    } else {
        None
    }
}

/// One reading shows no rate, and neither do two readings with the same
/// timestamp.
pub proof fn lemma_too_few_readings_show_no_rate<V>(data: Seq<DataPoint<V>>)
    requires
        data.len() == 1 || (data.len() == 2 && data[0].timestamp == data[1].timestamp),
    ensures
        measured_rate(data) is None,
{
}

/// Readings that follow one another at `spacing` milliseconds show exactly
/// one sample per `spacing` milliseconds: 1000 / `spacing` samples per
/// second.
pub proof fn lemma_even_readings_show_their_rate<V>(data: Seq<DataPoint<V>>, spacing: int)
    requires
        data.len() >= 2,
        spacing > 0,
        forall|i: int|
            0 <= i < data.len() ==> (#[trigger] data[i]).timestamp == data[0].timestamp + i
                * spacing,
    ensures
        measured_rate(data) matches Some(rate) && rate.0 * spacing == rate.1 && rate.1 > 0 && (
        rate.0 * 1000) / rate.1 == 1000int / spacing,
{
    let n = data.len() - 1;
    assert(data[n].timestamp == data[0].timestamp + n * spacing);
    assert(n * spacing > 0) by (nonlinear_arith)
        requires
            n >= 1,
            spacing > 0,
    ;
    assert((n * 1000) / (n * spacing) == 1000int / spacing) by {
        vstd::arithmetic::div_mod::lemma_fundamental_div_mod(1000, spacing);
        let q = 1000int / spacing;
        let r = 1000int % spacing;
        assert(n * 1000 == q * (n * spacing) + n * r) by (nonlinear_arith)
            requires
                1000 == spacing * q + r,
        ;
        assert(0 <= n * r < n * spacing) by (nonlinear_arith)
            requires
                0 <= r < spacing,
                n >= 1,
        ;
        vstd::arithmetic::div_mod::lemma_fundamental_div_mod_converse(
            n * 1000,
            n * spacing,
            q,
            n * r,
        );
    }
}

/// The phases of the start-up calibration.
#[derive(Clone, Copy, Debug, PartialEq, Eq, Structural)]
pub enum CalibrationPhase {
    WaitingForFirstSample,
    Accumulating,
    Computed,
}

/// The start-up calibration: the readings gathered so far, the instant of
/// the first reading, and the rate once it is known.
#[derive(Debug)]
pub struct CalibrationState<V> {
    pub is_calibrating: bool,
    pub calibration_data: Vec<DataPoint<V>>,
    /// The instant at which the first reading arrived, in milliseconds of
    /// the driver's clock.
    pub calibration_start_time: Option<u64>,
    pub calculated_sample_rate: Option<SampleRate>,
}

impl<V: Copy> Default for CalibrationState<V> {
    /// Calibration starts with the application: waiting for the first
    /// reading.
    fn default() -> (state: Self)
        ensures
            state.is_calibrating,
            state.calibration_data@.len() == 0,
            state.calibration_start_time is None,
            state.calculated_sample_rate is None,
            state.phase() == CalibrationPhase::WaitingForFirstSample,
    {
        CalibrationState {
            is_calibrating: true,
            calibration_data: Vec::new(),
            calibration_start_time: None,
            calculated_sample_rate: None,
        }
    }
}

impl<V: Copy> CalibrationState<V> {
    /// The phase in which the calibration stands.
    pub open spec fn phase(self) -> CalibrationPhase {
        if !self.is_calibrating {
            CalibrationPhase::Computed
        } else if self.calibration_start_time is None {
            CalibrationPhase::WaitingForFirstSample
        } else {
            CalibrationPhase::Accumulating
        }
    }

    /// Starts calibration over: nothing gathered, no rate, waiting for the
    /// first reading.
    pub fn reset_calibration(&mut self)
        ensures
            final(self).is_calibrating,
            final(self).calibration_data@.len() == 0,
            final(self).calibration_start_time is None,
            final(self).calculated_sample_rate is None,
            final(self).phase() == CalibrationPhase::WaitingForFirstSample,
    {
        self.calibration_data = Vec::new();
        self.calibration_start_time = None;
        self.calculated_sample_rate = None;
        self.is_calibrating = true;
    }
}

/// The driver's ends of the channels to and from the storage worker, and
/// the description of the audio record that came last.
#[verifier::reject_recursive_types(V)]
#[verifier::reject_recursive_types(A)]
pub struct DatabaseState<V, A> {
    pub db_task_sender: Sender<DatabaseTask<V, A>>,
    pub save_result_receiver: Receiver<SaveResult>,
    pub last_audio_metadata: Option<AudioData>,
}

/// The driver's ends of the channels from the ingest side.
#[verifier::reject_recursive_types(V)]
pub struct DataChannels<V> {
    pub data_receiver: Receiver<DataPoint<V>>,
    pub audio_receiver: Receiver<AudioData>,
}

/// All that the driver holds.
#[verifier::reject_recursive_types(V)]
#[verifier::reject_recursive_types(A)]
pub struct AppState<V, A> {
    pub collection: CollectionState,
    pub calibration: CalibrationState<V>,
    pub export: ExportState,
    pub history: HistoryVisualizationState<V, A>,
    pub database: DatabaseState<V, A>,
    pub channels: DataChannels<V>,
    pub waveform_plot: WaveformPlot<V>,
    pub text_reader: TextReaderState,
}

/// The one word that tells what the pipeline is doing.
pub open spec fn status_summary(calibrating: bool, collecting: bool, paused: bool) -> Seq<char> {
    if calibrating {
        "Calibrating"@
    } else if collecting {
        if paused {
            "Paused"@
        } else {
            "Collecting"@
        }
    } else {
        "Stopped"@
    }
}

impl<V: Copy, A: Copy> AppState<V, A> {
    /// The parts agree with themselves: the window holds no more than its
    /// capacity, the text reader stands on a line of its text, and no
    /// session is chosen twice for export.
    pub open spec fn wf(self) -> bool {
        &&& self.waveform_plot@.wf()
        &&& self.text_reader.wf()
        &&& self.export.wf()
    }

    /// The state with which the application starts: calibrating, nothing
    /// collected, and a window sized for the rate that the settings assume.
    pub fn new(
        data_receiver: Receiver<DataPoint<V>>,
        audio_receiver: Receiver<AudioData>,
        db_task_sender: Sender<DatabaseTask<V, A>>,
        save_result_receiver: Receiver<SaveResult>,
        config: &AppConfig,
    ) -> (state: Self)
        ensures
            state.wf(),
            state.calibration.phase() == CalibrationPhase::WaitingForFirstSample,
            state.calibration.calibration_data@.len() == 0,
            !state.collection.is_collecting,
            !state.collection.is_paused,
            !state.collection.auto_save_enabled,
            state.collection.auto_save_last_time is None,
            state.collection.auto_save_count == 0,
            state.collection.username@ == "test"@,
            state.collection.scenario@ == "standard"@,
            state.waveform_plot@.readings.len() == 0,
            state.waveform_plot@.audio.len() == 0,
            state.waveform_plot@.max_samples == window_capacity(
                config.plot.window_duration_ms as nat,
                config.calibration.initial_sample_rate as nat,
                1000,
            ),
            state.database.last_audio_metadata is None,
            state.channels.data_receiver == data_receiver,
            state.channels.audio_receiver == audio_receiver,
            state.database.db_task_sender == db_task_sender,
            state.database.save_result_receiver == save_result_receiver,
    {
        AppState {
            collection: CollectionState::default(),
            calibration: CalibrationState::default(),
            export: ExportState::default(),
            history: HistoryVisualizationState::default(),
            database: DatabaseState {
                db_task_sender,
                save_result_receiver,
                last_audio_metadata: None,
            },
            channels: DataChannels { data_receiver, audio_receiver },
            waveform_plot: WaveformPlot::new(config.calibration.initial_sample_rate, &config.plot),
            text_reader: TextReaderState::default(),
        }
    }

    /// What the pipeline is doing, in one word.
    pub fn get_status_summary(&self) -> (summary: String)
        ensures
            summary@ == status_summary(
                self.calibration.is_calibrating,
                self.collection.is_collecting,
                self.collection.is_paused,
            ),
    {
        if self.calibration.is_calibrating {
            String::from_str("Calibrating")
        } else if self.collection.is_collecting {
            if self.collection.is_paused {
                String::from_str("Paused")
            } else {
                String::from_str("Collecting")
            }
        } else {
            String::from_str("Stopped")
        }
    }

    /// Whether the window holds anything that could be saved.
    pub fn has_data_to_save(&self) -> (any: bool)
        ensures
            any == (self.waveform_plot@.readings.len() > 0 || self.waveform_plot@.audio.len() > 0),
    {
        self.waveform_plot.reading_count() > 0 || self.waveform_plot.audio_sample_count() > 0
    }

    /// Starts calibration over.
    pub fn reset_calibration(&mut self)
        ensures
            final(self).calibration.phase() == CalibrationPhase::WaitingForFirstSample,
            final(self).calibration.calibration_data@.len() == 0,
            final(self).calibration.calculated_sample_rate is None,
            *final(self) == (AppState { calibration: final(self).calibration, ..*old(self) }),
    {
        self.calibration.reset_calibration();
    }

    /// Ends calibration with the rate it showed and begins collection: the
    /// window is made anew for that rate, and what calibration gathered is
    /// dropped.
    pub fn complete_calibration(&mut self, sample_rate: SampleRate, config: &PlotConfig)
        requires
            sample_rate.millis > 0,
            old(self).wf(),
        ensures
            final(self).wf(),
            final(self).calibration.phase() == CalibrationPhase::Computed,
            final(self).calibration.calculated_sample_rate == Some(sample_rate),
            final(self).calibration.calibration_data@.len() == 0,
            final(self).calibration.calibration_start_time is None,
            final(self).collection == (CollectionState {
                is_collecting: true,
                ..old(self).collection
            }),
            final(self).waveform_plot@.readings.len() == 0,
            final(self).waveform_plot@.audio.len() == 0,
            final(self).waveform_plot@.max_samples == window_capacity(
                config.window_duration_ms as nat,
                sample_rate.samples as nat,
                sample_rate.millis as nat,
            ),
            final(self).waveform_plot@.audio_max_samples == window_capacity(
                config.window_duration_ms as nat,
                AUDIO_SAMPLE_RATE as nat,
                1000,
            ),
            *final(self) == (AppState {
                calibration: final(self).calibration,
                collection: final(self).collection,
                waveform_plot: final(self).waveform_plot,
                ..*old(self)
            }),
    {
        self.calibration.is_calibrating = false;
        self.calibration.calculated_sample_rate = Some(sample_rate);
        self.collection.is_collecting = true;
        self.waveform_plot = WaveformPlot::with_rate(sample_rate.samples, sample_rate.millis, config);
        self.calibration.calibration_data = Vec::new();
        self.calibration.calibration_start_time = None;
    }

    pub fn stop_collection(&mut self)
        ensures
            final(self).collection == (CollectionState {
                is_collecting: false,
                is_paused: false,
                ..old(self).collection
            }),
            *final(self) == (AppState { collection: final(self).collection, ..*old(self) }),
    {
        self.collection.stop_collection();
    }

    pub fn start_collection(&mut self)
        ensures
            final(self).collection == (CollectionState {
                is_collecting: true,
                is_paused: false,
                ..old(self).collection
            }),
            *final(self) == (AppState { collection: final(self).collection, ..*old(self) }),
    {
        self.collection.start_collection();
    }

    /// Holds collection back; without effect when nothing is collected.
    pub fn pause_collection(&mut self)
        ensures
            final(self).collection == (CollectionState {
                is_paused: old(self).collection.is_collecting || old(self).collection.is_paused,
                ..old(self).collection
            }),
            *final(self) == (AppState { collection: final(self).collection, ..*old(self) }),
    {
        self.collection.pause_collection();
    }

    /// Takes collection up again; without effect when nothing is collected.
    pub fn resume_collection(&mut self)
        ensures
            final(self).collection == (CollectionState {
                is_paused: !old(self).collection.is_collecting && old(self).collection.is_paused,
                ..old(self).collection
            }),
            *final(self) == (AppState { collection: final(self).collection, ..*old(self) }),
    {
        self.collection.resume_collection();
    }

    pub fn is_actively_collecting(&self) -> (active: bool)
        ensures
            active == self.collection.actively_collecting(),
    {
        self.collection.is_actively_collecting()
    }

    /// Takes the lines of the text that was read from a file and shows the
    /// first of them.
    pub fn load_text_file(&mut self, lines: Vec<String>)
        ensures
            final(self).text_reader.wf(),
            final(self).text_reader.lines == lines,
            final(self).text_reader.current_line_index == 0,
            final(self).text_reader.file_loaded,
            final(self).text_reader.is_enabled == old(self).text_reader.is_enabled,
            final(self).text_reader.current_text@ == if lines@.len() > 0 {
                lines@[0]@
            } else {
                old(self).text_reader.current_text@
            },
            *final(self) == (AppState { text_reader: final(self).text_reader, ..*old(self) }),
    {
        self.text_reader.load_text_lines(lines);
    }

    /// Moves the text reader to the next line, if there is one.
    pub fn next_text_line(&mut self)
        requires
            old(self).text_reader.wf(),
        ensures
            final(self).text_reader.wf(),
            old(self).text_reader.moved_to(
                final(self).text_reader,
                old(self).text_reader.next_index(),
            ),
            *final(self) == (AppState { text_reader: final(self).text_reader, ..*old(self) }),
    {
        self.text_reader.next_text_line();
    }

    /// Moves the text reader to the line before, if there is one.
    pub fn previous_text_line(&mut self)
        requires
            old(self).text_reader.wf(),
        ensures
            final(self).text_reader.wf(),
            old(self).text_reader.moved_to(
                final(self).text_reader,
                old(self).text_reader.previous_index(),
            ),
            *final(self) == (AppState { text_reader: final(self).text_reader, ..*old(self) }),
    {
        self.text_reader.previous_text_line();
    }

    /// Where the text reader stands.
    pub fn get_text_info(&self) -> (info: String)
        requires
            self.text_reader.wf(),
        ensures
            info@ == if self.text_reader.file_loaded {
                position_text(
                    (self.text_reader.current_line_index + 1) as nat,
                    self.text_reader.lines@.len(),
                )
            } else {
                "No file loaded"@
            },
    {
        self.text_reader.get_text_info()
    }

    /// Where the chosen session stands among the sessions listed.
    pub fn get_current_session_info(&self) -> (info: String)
        ensures
            info@ == match self.history.selected_session {
                None => "No session selected"@,
                Some(_) => match self.history.selected_index() {
                    Some(i) => position_text((i + 1) as nat, self.history.history_sessions@.len()),
                    None => "1/1"@,
                },
            },
    {
        self.history.get_current_session_info()
    }

    /// Chooses the session before the chosen one and returns its id.
    pub fn previous_session(&mut self) -> (chosen: Option<String>)
        ensures
            chosen is Some <==> (old(self).history.selected_index() matches Some(i) && i > 0),
            chosen is Some ==> name_of(final(self).history.selected_session) == name_of(chosen),
            chosen is None ==> final(self).history == old(self).history,
            *final(self) == (AppState { history: final(self).history, ..*old(self) }),
    {
        self.history.previous_session()
    }

    /// Chooses the session after the chosen one and returns its id.
    pub fn next_session(&mut self) -> (chosen: Option<String>)
        ensures
            chosen is Some <==> (old(self).history.selected_index() matches Some(i) && i + 1 < old(
                self,
            ).history.history_sessions@.len()),
            chosen is Some ==> name_of(final(self).history.selected_session) == name_of(chosen),
            chosen is None ==> final(self).history == old(self).history,
            *final(self) == (AppState { history: final(self).history, ..*old(self) }),
    {
        self.history.next_session()
    }
}

} // verus!
