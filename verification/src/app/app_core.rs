use crossbeam_channel::{Receiver, Sender};
use vstd::prelude::*;
use crate::app::state::{AppState, CalibrationPhase};
use crate::config::ConfigManager;
use crate::database::manager::{generate_session_stamp, is_generated_session_id, stamped_later};
use crate::types::{AudioData, DataPoint, DatabaseTask, SaveResult};

verus! {

/// The driver of the pipeline: its state and its settings.
#[verifier::reject_recursive_types(V)]
#[verifier::reject_recursive_types(A)]
pub struct SensorDataApp<V, A> {
    pub state: AppState<V, A>,
    pub config: ConfigManager,
}

impl<V: Copy, A: Copy> SensorDataApp<V, A> {
    /// The driver as the application starts: default settings, calibrating,
    /// a fresh session id, and automatic saving set to the length of the
    /// live window.
    pub fn new(
        data_receiver: Receiver<DataPoint<V>>,
        audio_receiver: Receiver<AudioData>,
        db_task_sender: Sender<DatabaseTask<V, A>>,
        save_result_receiver: Receiver<SaveResult>,
    ) -> (app: Self)
        ensures
            app.state.wf(),
            app.config.config().first_fault() is None,
            app.state.calibration.phase() == CalibrationPhase::WaitingForFirstSample,
            !app.state.collection.is_collecting,
            !app.state.collection.auto_save_enabled,
            app.state.collection.auto_save_interval_ms
                == app.config.config().plot.window_duration_ms,
            is_generated_session_id(app.state.collection.current_session_id@),
            stamped_later(
                None,
                app.state.collection.current_session_id@,
                app.state.collection.session_second,
            ),
    {
        let config = ConfigManager::new();
        let mut state = AppState::new(
            data_receiver,
            audio_receiver,
            db_task_sender,
            save_result_receiver,
            config.get_config(),
        );
        let stamp = generate_session_stamp();
        state.collection.current_session_id = stamp.0;
        state.collection.session_second = Some(stamp.1);
        state.collection.auto_save_interval_ms = config.get_config().plot.window_duration_ms;
        SensorDataApp { state, config }
    }
}

} // verus!
