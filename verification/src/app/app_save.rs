use vstd::prelude::*;
use crate::app::app_core::SensorDataApp;
use crate::app::state::{AppState, AutoSave, CollectionState};
use crate::channel::{try_submit, SendOutcome};
use crate::types::{DatabaseTask, DataPoint};

verus! {

/// What the user is told after the window was offered to the storage
/// worker: that it is being saved, that the queue is full and the save can
/// be tried again, or that the worker is gone.
pub open spec fn submission_status(outcome: SendOutcome) -> Seq<char> {
    match outcome {
        SendOutcome::Sent => "Saving data..."@,
        SendOutcome::Full => "Database queue is full, try again later"@,
        SendOutcome::Disconnected =>
            "Database connection lost! Please restart the application."@,
    }
}

/// What the user is told after the window was offered to the storage worker.
pub fn submission_status_text(outcome: SendOutcome) -> (status: String)
    ensures
        status@ == submission_status(outcome),
{
    match outcome {
        SendOutcome::Sent => String::from_str("Saving data..."),
        SendOutcome::Full => String::from_str("Database queue is full, try again later"),
        SendOutcome::Disconnected => String::from_str(
            "Database connection lost! Please restart the application.",
        ),
    }
}

/// Whether `after` is the state `before` once its window was offered to the
/// storage worker: the status tells that there was nothing to save, or how
/// the offer went, and nothing else differs.
pub open spec fn window_offered<V, A>(before: AppState<V, A>, after: AppState<V, A>) -> bool {
    &&& if before.waveform_plot@.readings.len() == 0 && before.waveform_plot@.audio.len() == 0 {
        after.collection.save_status@ == "No data to save"@
    } else {
        exists|outcome: SendOutcome|
            after.collection.save_status@ == #[trigger] submission_status(outcome)
    }
    &&& after.collection == (CollectionState {
        save_status: after.collection.save_status,
        ..before.collection
    })
    &&& after == (AppState { collection: after.collection, ..before })
}

/// Whether `after` is the state `before` once an automatic save was checked
/// for at instant `now_ms`: a save that was due was offered to the storage
/// worker and counted, the interval started where it had to, and nothing
/// else differs.
pub open spec fn auto_save_checked<V, A>(
    before: AppState<V, A>,
    now_ms: u64,
    after: AppState<V, A>,
) -> bool {
    let due = before.collection.auto_save_due(now_ms);
    &&& after.collection.auto_save_last_time == if before.collection.auto_save_enabled && (
    before.collection.auto_save_last_time is None || due) {
        Some(now_ms)
    } else {
        before.collection.auto_save_last_time
    }
    &&& after.collection.auto_save_count == if due && before.collection.auto_save_count
        < u32::MAX {
        (before.collection.auto_save_count + 1) as u32
    } else {
        before.collection.auto_save_count
    }
    &&& if due {
        if before.waveform_plot@.readings.len() == 0 && before.waveform_plot@.audio.len() == 0 {
            after.collection.save_status@ == "No data to save"@
        } else {
            exists|outcome: SendOutcome|
                after.collection.save_status@ == #[trigger] submission_status(outcome)
        }
    } else {
        after.collection.save_status == before.collection.save_status
    }
    &&& after.collection == (CollectionState {
        save_status: after.collection.save_status,
        auto_save_last_time: after.collection.auto_save_last_time,
        auto_save_count: after.collection.auto_save_count,
        ..before.collection
    })
    &&& after == (AppState { collection: after.collection, ..before })
}

impl<V: Copy, A: Copy> SensorDataApp<V, A> {
    /// The request to save what the window holds now, under the labels of
    /// the session being captured; none when the window is empty.
    pub fn build_save_task(&self) -> (task: Option<DatabaseTask<V, A>>)
        requires
            self.state.wf(),
        ensures
            task is None <==> self.state.waveform_plot@.readings.len() == 0
                && self.state.waveform_plot@.audio.len() == 0,
            task matches Some(t) ==> t matches DatabaseTask::Save {
                accelerometer_data,
                audio_data,
                audio_metadata,
                audio_start_timestamp,
                audio_end_timestamp,
                session_id,
                username,
                scenario,
            } && {
                &&& accelerometer_data@ == self.state.waveform_plot@.readings
                &&& audio_data@ == self.state.waveform_plot@.audio
                &&& audio_metadata == self.state.database.last_audio_metadata
                &&& audio_start_timestamp == if self.state.waveform_plot@.audio_timestamps.len()
                    > 0 {
                    Some(self.state.waveform_plot@.audio_timestamps.first())
                } else {
                    None
                }
                &&& audio_end_timestamp == if self.state.waveform_plot@.audio_timestamps.len() > 0 {
                    Some(self.state.waveform_plot@.audio_timestamps.last())
                } else {
                    None
                }
                &&& session_id == self.state.collection.current_session_id
                &&& username == self.state.collection.username
                &&& scenario == self.state.collection.scenario
            },
    {
        let accelerometer_data: Vec<DataPoint<V>> = self.state.waveform_plot.current_readings();
        let audio_data = self.state.waveform_plot.get_current_audio_data();
        if accelerometer_data.len() == 0 && audio_data.len() == 0 {
            return None;
        }
        let audio_metadata = match &self.state.database.last_audio_metadata {
            Some(metadata) => Some(metadata.duplicate()),
            None => None,
        };
        Some(
            DatabaseTask::Save {
                accelerometer_data,
                audio_data,
                audio_metadata,
                audio_start_timestamp: self.state.waveform_plot.get_current_audio_first_timestamp(),
                audio_end_timestamp: self.state.waveform_plot.get_current_audio_last_timestamp(),
                session_id: self.state.collection.current_session_id.clone(),
                username: self.state.collection.username.clone(),
                scenario: self.state.collection.scenario.clone(),
            },
        )
    }

    /// Offers what the window holds to the storage worker, without waiting,
    /// and tells the user how that went. An empty window is not offered.
    pub fn save_current_window_data_async(&mut self)
        requires
            old(self).state.wf(),
        ensures
            final(self).state.wf(),
            window_offered(old(self).state, final(self).state),
            if old(self).state.waveform_plot@.readings.len() == 0 && old(
                self,
            ).state.waveform_plot@.audio.len() == 0 {
                final(self).state.collection.save_status@ == "No data to save"@
            } else {
                exists|outcome: SendOutcome|
                    final(self).state.collection.save_status@ == #[trigger] submission_status(
                        outcome,
                    )
            },
            final(self).state.collection == (CollectionState {
                save_status: final(self).state.collection.save_status,
                ..old(self).state.collection
            }),
            final(self).state == (AppState {
                collection: final(self).state.collection,
                ..old(self).state
            }),
            final(self).config == old(self).config,
    {
        match self.build_save_task() {
            None => {
                self.state.collection.save_status = String::from_str("No data to save");
            },
            Some(task) => {
                let outcome = try_submit(&self.state.database.db_task_sender, task);
                self.state.collection.save_status = submission_status_text(outcome);
            },
        }
    }

    /// Saves the window if an automatic save is due at instant `now_ms`.
    pub fn check_auto_save(&mut self, now_ms: u64)
        requires
            old(self).state.wf(),
        ensures
            final(self).state.wf(),
            auto_save_checked(old(self).state, now_ms, final(self).state),
            final(self).state.collection == (CollectionState {
                save_status: final(self).state.collection.save_status,
                auto_save_last_time: final(self).state.collection.auto_save_last_time,
                auto_save_count: final(self).state.collection.auto_save_count,
                ..old(self).state.collection
            }),
            final(self).state.collection.auto_save_last_time == if old(
                self,
            ).state.collection.auto_save_enabled && (old(
                self,
            ).state.collection.auto_save_last_time is None || old(
                self,
            ).state.collection.auto_save_due(now_ms)) {
                Some(now_ms)
            } else {
                old(self).state.collection.auto_save_last_time
            },
            !old(self).state.collection.auto_save_due(now_ms) ==> {
                &&& final(self).state.collection.save_status == old(
                    self,
                ).state.collection.save_status
                &&& final(self).state.collection.auto_save_count == old(
                    self,
                ).state.collection.auto_save_count
            },
            old(self).state.collection.auto_save_due(now_ms) && old(
                self,
            ).state.collection.auto_save_count < u32::MAX
                ==> final(self).state.collection.auto_save_count == old(
                self,
            ).state.collection.auto_save_count + 1,
            final(self).state == (AppState {
                collection: final(self).state.collection,
                ..old(self).state
            }),
            final(self).config == old(self).config,
    {
        match self.state.collection.check_auto_save(now_ms) {
            AutoSave::SaveNow => {
                self.save_current_window_data_async();
            },
            AutoSave::Wait => {},
        }
    }

    /// Switches automatic saving on or off at instant `now_ms`.
    pub fn toggle_auto_save(&mut self, now_ms: u64)
        ensures
            final(self).state.collection == if old(self).state.collection.auto_save_enabled {
                CollectionState {
                    auto_save_enabled: false,
                    auto_save_last_time: None,
                    ..old(self).state.collection
                }
            } else {
                CollectionState {
                    auto_save_enabled: true,
                    auto_save_last_time: Some(now_ms),
                    auto_save_count: 0,
                    ..old(self).state.collection
                }
            },
            final(self).state == (AppState {
                collection: final(self).state.collection,
                ..old(self).state
            }),
            final(self).config == old(self).config,
    {
        self.state.collection.toggle_auto_save(now_ms);
    }
}

} // verus!
