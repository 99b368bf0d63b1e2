use vstd::prelude::*;
use crate::app::app_core::SensorDataApp;
use crate::app::app_save::submission_status;
use crate::app::app_save::auto_save_checked;
use crate::app::handlers::calibration::{
    gathered, round_outcome, started, CalibrationHandler, CalibrationOutcome,
};
use crate::app::handlers::data_collection::{collected, DataCollectionHandler};
use crate::app::state::{AppState, AudioPlaybackState, CalibrationPhase, CollectionState};
use crate::config::{CalibrationConfig, PlotConfig};
use crate::plotter::{window_capacity, AUDIO_SAMPLE_RATE};
use crate::audio::player::{AudioStatus, PlaybackState};
use crate::channel::{discard, drain, try_take, Received, SendOutcome};
use crate::types::{AudioData, DataPoint, SaveResult};

verus! {

/// The keys to which the driver answers.
#[derive(Debug, Clone, Copy, PartialEq, Eq, Structural)]
pub enum Key {
    Space,
    ArrowLeft,
    ArrowRight,
}

/// Whether `after` is the state `before` once a round of calibration ran on
/// `batch` at instant `now_ms`. A round that shows a rate ends calibration
/// and begins collection with an empty window sized for that rate; a round
/// that shows none where one was due starts calibration over; any other
/// round keeps what was gathered. Nothing else differs.
pub open spec fn calibrated<V: Copy, A: Copy>(
    before: AppState<V, A>,
    batch: Seq<DataPoint<V>>,
    now_ms: u64,
    calibration: CalibrationConfig,
    plot: PlotConfig,
    after: AppState<V, A>,
) -> bool {
    match round_outcome(
        before.calibration.calibration_data@,
        before.calibration.calibration_start_time,
        batch,
        now_ms,
        calibration,
    ) {
        CalibrationOutcome::Completed(rate) => {
            &&& after.calibration.phase() == CalibrationPhase::Computed
            &&& after.calibration.calculated_sample_rate == Some(rate)
            &&& after.calibration.calibration_data@.len() == 0
            &&& after.calibration.calibration_start_time is None
            &&& after.collection == (CollectionState { is_collecting: true, ..before.collection })
            &&& after.waveform_plot@.readings.len() == 0
            &&& after.waveform_plot@.audio.len() == 0
            &&& after.waveform_plot@.max_samples == window_capacity(
                plot.window_duration_ms as nat,
                rate.samples as nat,
                rate.millis as nat,
            )
            &&& after.waveform_plot@.audio_max_samples == window_capacity(
                plot.window_duration_ms as nat,
                AUDIO_SAMPLE_RATE as nat,
                1000,
            )
            &&& after == (AppState {
                calibration: after.calibration,
                collection: after.collection,
                waveform_plot: after.waveform_plot,
                ..before
            })
        },
        CalibrationOutcome::Aborted => {
            &&& after.calibration.phase() == CalibrationPhase::WaitingForFirstSample
            &&& after.calibration.calibration_data@.len() == 0
            &&& after.calibration.calculated_sample_rate is None
            &&& after == (AppState { calibration: after.calibration, ..before })
        },
        CalibrationOutcome::StillCalibrating => {
            &&& after.calibration.calibration_data@ == gathered(
                before.calibration.calibration_data@,
                before.calibration.calibration_start_time,
                batch,
                now_ms,
                calibration,
            )
            &&& after.calibration.calibration_start_time == started(
                before.calibration.calibration_start_time,
                batch.len(),
                now_ms,
            )
            &&& after.calibration.is_calibrating == before.calibration.is_calibrating
            &&& after.calibration.calculated_sample_rate
                == before.calibration.calculated_sample_rate
            &&& after == (AppState { calibration: after.calibration, ..before })
        },
    }
}

impl<V: Copy, A: Copy> SensorDataApp<V, A> {
    /// Takes the results of saves that have arrived, one after the other,
    /// no more of them than the save-result channel holds. Each sets the
    /// status, and each that wrote something ends the session, so that the
    /// next save goes to a session with another id. Nothing else changes.
    pub fn handle_save_results(&mut self)
        ensures
            exists|results: Seq<SaveResult>|
                results.len() <= old(self).config.config().channels.save_result_channel_capacity
                    && #[trigger] old(self).state.collection.save_results_applied(
                    results,
                    final(self).state.collection,
                ),
            final(self).state == (AppState {
                collection: final(self).state.collection,
                ..old(self).state
            }),
            final(self).config == old(self).config,
    {
        let limit = self.config.get_config().channels.save_result_channel_capacity;
        let results: Vec<SaveResult> = drain(&self.state.database.save_result_receiver, limit);
        let mut results = results;
        let ghost all = results@;
        let ghost taken: int = 0;
        assert(all.subrange(0, 0) =~= Seq::<SaveResult>::empty());
        assert(all.subrange(0, all.len() as int) =~= all);
        while results.len() > 0
            invariant
                0 <= taken <= all.len(),
                results@ == all.subrange(taken, all.len() as int),
                old(self).state.collection.save_results_applied(
                    all.subrange(0, taken),
                    self.state.collection,
                ),
                self.state == (AppState { collection: self.state.collection, ..old(self).state }),
                self.config == old(self).config,
            decreases results@.len(),
        {
            let result = results.remove(0);
            let ghost between = self.state.collection;
            self.state.collection.apply_save_result(result);
            proof {
                assert(result == all[taken]);
                assert(results@ =~= all.subrange(taken + 1, all.len() as int));
                let next = all.subrange(0, taken + 1);
                assert(next.drop_last() =~= all.subrange(0, taken));
                assert(next.last() == all[taken]);
                assert(old(self).state.collection.save_results_applied(next.drop_last(), between));
                assert(between.save_result_applied(next.last(), self.state.collection));
                old(self).state.collection.lemma_one_more_result(
                    next,
                    between,
                    self.state.collection,
                );
                taken = taken + 1;
            }
        }
        assert(all.subrange(0, taken) =~= all);
    }

    /// Takes the answer to an export request, if it has arrived: its
    /// message becomes the status. Nothing changes when none is awaited or
    /// none has arrived.
    pub fn handle_export_results(&mut self)
        ensures
            final(self).state.export == old(self).state.export || old(
                self,
            ).state.export.export_answer_taken(final(self).state.export),
            final(self).state == (AppState { export: final(self).state.export, ..old(self).state }),
            final(self).config == old(self).config,
    {
        let answer = match &self.state.export.export_result_receiver {
            Some(receiver) => try_take(receiver),
            None => Received::Empty,
        };
        if let Received::Message(result) = answer {
            self.state.export.apply_export_result(result);
        }
    }

    /// Takes the list of sessions for the export dialog, if it has arrived:
    /// the sessions on offer are those listed, and the status counts them.
    /// Nothing changes when no list is awaited or none has arrived.
    pub fn handle_sessions_results(&mut self)
        ensures
            final(self).state.export == old(self).state.export || old(
                self,
            ).state.export.sessions_taken(final(self).state.export),
            final(self).state == (AppState { export: final(self).state.export, ..old(self).state }),
            final(self).config == old(self).config,
    {
        let answer = match &self.state.export.sessions_result_receiver {
            Some(receiver) => try_take(receiver),
            None => Received::Empty,
        };
        if let Received::Message(sessions) = answer {
            self.state.export.apply_sessions(sessions);
        }
    }

    /// Takes the answers for the history panel that have arrived, and sends
    /// the requests that follow from them. Nothing but the panel changes.
    pub fn handle_history_results(&mut self)
        ensures
            old(self).state.history.history_results_handled(final(self).state.history),
            final(self).state.history.same_settings(old(self).state.history),
            final(self).state == (AppState {
                history: final(self).state.history,
                ..old(self).state
            }),
            final(self).config == old(self).config,
    {
        self.state.history.handle_history_results(&self.state.database.db_task_sender);
    }

    /// Takes the readings that wait, no more than their channel holds, and
    /// runs one round of calibration on them at instant `now_ms`; a rate
    /// that calibration shows begins collection. Audio that waits is
    /// dropped.
    fn calibrate(&mut self, now_ms: u64)
        requires
            old(self).state.wf(),
        ensures
            final(self).state.wf(),
            final(self).config == old(self).config,
            exists|batch: Seq<DataPoint<V>>|
                batch.len() <= old(self).config.config().channels.data_channel_capacity
                    && #[trigger] calibrated(
                    old(self).state,
                    batch,
                    now_ms,
                    old(self).config.config().calibration,
                    old(self).config.config().plot,
                    final(self).state,
                ),
    {
        let data_limit = self.config.get_config().channels.data_channel_capacity;
        let audio_limit = self.config.get_config().channels.audio_channel_capacity;
        let calibration = self.config.get_config().calibration;
        let plot = self.config.get_config().plot;
        let batch = drain(&self.state.channels.data_receiver, data_limit);
        let outcome = CalibrationHandler::handle_calibration(
            &mut self.state.calibration,
            &batch,
            now_ms,
            &calibration,
        );
        if let CalibrationOutcome::Completed(rate) = outcome {
            self.state.complete_calibration(rate, &plot);
        }
        discard(&self.state.channels.audio_receiver, audio_limit);
        assert(calibrated(old(self).state, batch@, now_ms, calibration, plot, self.state));
    }

    /// Drops the readings and the audio that wait.
    fn discard_input(&self) {
        let data_limit = self.config.get_config().channels.data_channel_capacity;
        let audio_limit = self.config.get_config().channels.audio_channel_capacity;
        discard(&self.state.channels.data_receiver, data_limit);
        discard(&self.state.channels.audio_receiver, audio_limit);
    }

    /// Puts the readings and the audio that wait into the window, no more
    /// of each than its channel holds.
    fn collect(&mut self)
        requires
            old(self).state.wf(),
        ensures
            final(self).state.wf(),
            final(self).config == old(self).config,
            exists|readings: Seq<DataPoint<V>>, records: Seq<AudioData>|
                readings.len() <= old(self).config.config().channels.data_channel_capacity
                    && records.len() <= old(self).config.config().channels.audio_channel_capacity
                    && #[trigger] collected(
                    old(self).state,
                    readings,
                    records,
                    final(self).state,
                ),
    {
        let data_limit = self.config.get_config().channels.data_channel_capacity;
        let audio_limit = self.config.get_config().channels.audio_channel_capacity;
        DataCollectionHandler::handle_collection(&mut self.state, data_limit, audio_limit);
    }

    /// What the driver does with the ingest channels in one frame at instant
    /// `now_ms`, taking no more from a channel than it holds. While
    /// calibrating it runs a round of calibration; while collecting it puts
    /// what waits into the window and then saves if an automatic save is
    /// due; while paused or stopped it drops what waits and changes nothing.
    pub fn handle_data_processing(&mut self, now_ms: u64)
        requires
            old(self).state.wf(),
        ensures
            final(self).state.wf(),
            final(self).config == old(self).config,
            old(self).state.calibration.is_calibrating ==> exists|batch: Seq<DataPoint<V>>|
                batch.len() <= old(self).config.config().channels.data_channel_capacity
                    && #[trigger] calibrated(
                    old(self).state,
                    batch,
                    now_ms,
                    old(self).config.config().calibration,
                    old(self).config.config().plot,
                    final(self).state,
                ),
            !old(self).state.calibration.is_calibrating && old(
                self,
            ).state.collection.actively_collecting() ==> exists|
                readings: Seq<DataPoint<V>>,
                records: Seq<AudioData>,
                filled: AppState<V, A>,
            |
                #![trigger collected(old(self).state, readings, records, filled)]
                readings.len() <= old(self).config.config().channels.data_channel_capacity
                    && records.len() <= old(self).config.config().channels.audio_channel_capacity
                    && collected(old(self).state, readings, records, filled) && auto_save_checked(
                    filled,
                    now_ms,
                    final(self).state,
                ),
            !old(self).state.calibration.is_calibrating && !old(
                self,
            ).state.collection.actively_collecting() ==> final(self).state == old(self).state,
    {
        if self.state.calibration.is_calibrating {
            self.calibrate(now_ms);
        } else if self.state.collection.is_collecting {
            if self.state.collection.is_paused {
                self.discard_input();
            } else {
                self.collect();
                let ghost filled = self.state;
                self.check_auto_save(now_ms);
                proof {
                    let data_limit = old(self).config.config().channels.data_channel_capacity;
                    let audio_limit = old(self).config.config().channels.audio_channel_capacity;
                    let (readings, records) = choose|
                        readings: Seq<DataPoint<V>>,
                        records: Seq<AudioData>,
                    |
                        readings.len() <= data_limit && records.len() <= audio_limit
                            && #[trigger] collected(old(self).state, readings, records, filled);
                    assert(collected(old(self).state, readings, records, filled)
                        && auto_save_checked(filled, now_ms, self.state));
                }
            }
        } else {
            self.discard_input();
        }
    }

    /// What the status says after the space key where nothing is saved:
    /// that collection is paused, or, unless a line of text was turned, that
    /// nothing is collected.
    pub open spec fn idle_status(old_status: Seq<char>, paused: bool, turned: bool) -> Seq<char> {
        if paused {
            "Data collection is paused"@
        } else if !turned {
            "Not collecting data"@
        } else {
            old_status
        }
    }

    /// Answers a key. The space key turns the text reader to its next line,
    /// if the reader is on, and saves the window, if data is collected. The
    /// arrow keys turn the reader back and forth.
    pub fn handle_keyboard_input(&mut self, key: Key)
        requires
            old(self).state.wf(),
        ensures
            final(self).state.wf(),
            final(self).config == old(self).config,
            !old(self).state.text_reader.is_enabled ==> final(self).state.text_reader == old(
                self,
            ).state.text_reader,
            old(self).state.text_reader.is_enabled ==> old(self).state.text_reader.moved_to(
                final(self).state.text_reader,
                if key == Key::ArrowLeft {
                    old(self).state.text_reader.previous_index()
                } else {
                    old(self).state.text_reader.next_index()
                },
            ),
            key != Key::Space ==> final(self).state.collection == old(self).state.collection,
            key == Key::Space ==> {
                &&& final(self).state.collection == (CollectionState {
                    save_status: final(self).state.collection.save_status,
                    ..old(self).state.collection
                })
                &&& if old(self).state.collection.actively_collecting() {
                    if old(self).state.waveform_plot@.readings.len() == 0 && old(
                        self,
                    ).state.waveform_plot@.audio.len() == 0 {
                        final(self).state.collection.save_status@ == "No data to save"@
                    } else {
                        exists|outcome: SendOutcome|
                            final(self).state.collection.save_status@
                                == #[trigger] submission_status(outcome)
                    }
                } else {
                    final(self).state.collection.save_status@ == Self::idle_status(
                        old(self).state.collection.save_status@,
                        old(self).state.collection.is_paused,
                        old(self).state.text_reader.is_enabled,
                    )
                }
            },
            final(self).state == (AppState {
                collection: final(self).state.collection,
                text_reader: final(self).state.text_reader,
                ..old(self).state
            }),
    {
        match key {
            Key::Space => {
                let turned = self.state.text_reader.is_enabled;
                if turned {
                    self.state.text_reader.next_text_line();
                }
                if self.state.collection.is_collecting && !self.state.collection.is_paused {
                    self.save_current_window_data_async();
                } else if self.state.collection.is_paused {
                    self.state.collection.save_status = String::from_str(
                        "Data collection is paused",
                    );
                } else if !turned {
                    self.state.collection.save_status = String::from_str("Not collecting data");
                }
            },
            Key::ArrowLeft => {
                if self.state.text_reader.is_enabled {
                    self.state.text_reader.previous_text_line();
                }
            },
            Key::ArrowRight => {
                if self.state.text_reader.is_enabled {
                    self.state.text_reader.next_text_line();
                }
            },
        }
    }

    /// Whether there is loaded audio that could be played.
    pub fn has_history_audio(&self) -> (any: bool)
        ensures
            any == (self.state.history.loaded_audio_data@.len() > 0),
    {
        self.state.history.loaded_audio_data.len() > 0
    }

    /// Notes that the audio output was asked to play the loaded audio, and
    /// whether it took the request.
    pub fn play_history_audio(&mut self, started: bool)
        ensures
            final(self).state.history.audio_playback == if started {
                AudioPlaybackState {
                    is_playing: true,
                    is_paused: false,
                    is_available: true,
                    ..old(self).state.history.audio_playback
                }
            } else {
                AudioPlaybackState { is_available: false, ..old(self).state.history.audio_playback }
            },
    {
        self.state.history.audio_playback.play_requested(started);
    }

    /// Notes that the audio output was asked to pause.
    pub fn pause_history_audio(&mut self)
        ensures
            final(self).state.history.audio_playback == (AudioPlaybackState {
                is_playing: false,
                is_paused: true,
                ..old(self).state.history.audio_playback
            }),
    {
        self.state.history.audio_playback.pause_requested();
    }

    /// Notes that the audio output was asked to stop.
    pub fn stop_history_audio(&mut self)
        ensures
            final(self).state.history.audio_playback == (AudioPlaybackState {
                is_playing: false,
                is_paused: false,
                ..old(self).state.history.audio_playback
            }),
    {
        self.state.history.audio_playback.stop_requested();
    }

    /// Takes what the audio output reports of itself.
    pub fn update_audio_playback_state(&mut self, status: AudioStatus)
        ensures
            final(self).state.history.audio_playback == (AudioPlaybackState {
                is_available: status.is_available,
                is_playing: status.state == PlaybackState::Playing,
                is_paused: status.state == PlaybackState::Paused,
                ..old(self).state.history.audio_playback
            }),
    {
        self.state.history.audio_playback.update(status);
    }
}

} // verus!
