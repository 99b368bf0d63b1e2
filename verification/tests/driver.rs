use crossbeam_channel::{bounded, Receiver, Sender};
use sensehub::app::app_events::Key;
use sensehub::app::handlers::ExportHandler;
use sensehub::app::state::{AutoSave, CalibrationPhase, CollectionState, SampleRate, TextReaderState};
use sensehub::app::{AppState, SensorDataApp};
use sensehub::audio::{AudioStatus, PlaybackState};
use sensehub::config::AppConfig;
use sensehub::types::{AudioData, DataPoint, DatabaseTask, ExportResult, ExportType, SaveResult};

struct Ends {
    data: Sender<DataPoint<f64>>,
    audio: Sender<AudioData>,
    tasks: Receiver<DatabaseTask<f64, f64>>,
    results: Sender<SaveResult>,
}

fn driver(task_capacity: usize) -> (SensorDataApp<f64, f64>, Ends) {
    let (data, data_receiver) = bounded(100);
    let (audio, audio_receiver) = bounded(100);
    let (task_sender, tasks) = bounded(task_capacity);
    let (results, result_receiver) = bounded(100);
    let app = SensorDataApp::new(data_receiver, audio_receiver, task_sender, result_receiver);
    (app, Ends { data, audio, tasks, results })
}

fn reading(timestamp: i64) -> DataPoint<f64> {
    DataPoint::new(1.5, 2.5, 3.5, 4.5, 5.5, 6.5, timestamp)
}

fn record(timestamp: i64) -> AudioData {
    // Bytes 01 00 ff ff 00 80.
    AudioData::new("AQD//wCA".to_string(), 1000, 1, "PCM_16".to_string(), 3, timestamp)
}

#[test]
fn the_driver_starts_calibrating_with_a_fresh_session() {
    let (app, _ends) = driver(4);
    assert_eq!(app.state.get_status_summary(), "Calibrating");
    assert!(app.state.calibration.is_calibrating);
    assert!(!app.state.collection.is_collecting);
    assert!(app.state.collection.current_session_id.starts_with("session_"));
    assert_eq!(app.state.collection.auto_save_interval_ms, 5000);
    assert_eq!(app.state.collection.username, "test");
    assert_eq!(app.state.collection.scenario, "standard");
    assert!(!app.state.has_data_to_save());
    assert_eq!(app.state.get_text_info(), "No file loaded");
    assert_eq!(app.state.get_current_session_info(), "No session selected");
}

#[test]
fn calibration_leads_to_collection_at_the_measured_rate() {
    let (mut app, ends) = driver(4);
    for i in 0..3 {
        ends.data.send(reading(i)).unwrap();
    }
    ends.audio.send(record(0)).unwrap();
    // The first readings start calibration and fall into the warm-up.
    app.handle_data_processing(1_000);
    assert_eq!(app.state.calibration.calibration_start_time, Some(1_000));
    assert!(app.state.calibration.calibration_data.is_empty());
    assert!(ends.audio.is_empty());
    for i in 0..50 {
        ends.data.send(reading(10_000 + i * 4)).unwrap();
    }
    app.handle_data_processing(4_000);
    assert_eq!(app.state.calibration.calibration_data.len(), 50);
    assert_eq!(app.state.get_status_summary(), "Calibrating");
    ends.data.send(reading(99_999)).unwrap();
    app.handle_data_processing(9_000);
    // 49 intervals in 196 ms: 250 Hz; a window of 5 s holds 1250 readings.
    assert_eq!(
        app.state.calibration.calculated_sample_rate,
        Some(SampleRate { samples: 49, millis: 196 })
    );
    assert_eq!(app.state.get_status_summary(), "Collecting");
    assert!(app.state.calibration.calibration_data.is_empty());
    assert_eq!(app.state.calibration.calibration_start_time, None);
    for i in 0..1300 {
        if i % 100 == 0 {
            app.handle_data_processing(9_100);
        }
        ends.data.send(reading(i)).unwrap();
    }
    app.handle_data_processing(9_100);
    let held = app.state.waveform_plot.current_readings();
    assert_eq!(held.len(), 1250);
    assert_eq!(held[0].timestamp, 50);
    assert_eq!(held[1249].timestamp, 1299);
}

#[test]
fn calibration_that_shows_no_rate_waits_for_readings_again() {
    let (mut app, ends) = driver(4);
    ends.data.send(reading(1)).unwrap();
    app.handle_data_processing(0);
    ends.data.send(reading(7)).unwrap();
    app.handle_data_processing(3_000);
    assert_eq!(app.state.calibration.calibration_data.len(), 1);
    app.handle_data_processing(8_000);
    assert!(app.state.calibration.is_calibrating);
    assert_eq!(app.state.calibration.calibration_start_time, None);
    assert!(app.state.calibration.calibration_data.is_empty());
    assert_eq!(app.state.calibration.calculated_sample_rate, None);
    assert_eq!(app.state.get_status_summary(), "Calibrating");
}

#[test]
fn collection_fills_the_window_and_pausing_drops_input() {
    let (mut app, ends) = driver(4);
    app.state.complete_calibration(SampleRate { samples: 100, millis: 1000 }, &AppConfig::default().plot);
    assert!(app.state.is_actively_collecting());
    ends.data.send(reading(1)).unwrap();
    ends.data.send(reading(2)).unwrap();
    ends.audio.send(record(500)).unwrap();
    app.handle_data_processing(0);
    assert!(app.state.has_data_to_save());
    assert_eq!(app.state.waveform_plot.get_current_accelerometer_data().len(), 2);
    assert_eq!(app.state.waveform_plot.get_current_audio_data(), vec![1, -1, -32768]);
    assert_eq!(app.state.database.last_audio_metadata.as_ref().unwrap().timestamp, 500);
    app.state.pause_collection();
    assert_eq!(app.state.get_status_summary(), "Paused");
    ends.data.send(reading(3)).unwrap();
    ends.audio.send(record(600)).unwrap();
    app.handle_data_processing(0);
    assert!(ends.data.is_empty() && ends.audio.is_empty());
    assert_eq!(app.state.waveform_plot.get_current_accelerometer_data().len(), 2);
    app.state.resume_collection();
    assert_eq!(app.state.get_status_summary(), "Collecting");
    app.state.stop_collection();
    assert_eq!(app.state.get_status_summary(), "Stopped");
    ends.data.send(reading(4)).unwrap();
    app.handle_data_processing(0);
    assert!(ends.data.is_empty());
    assert_eq!(app.state.waveform_plot.get_current_accelerometer_data().len(), 2);
    app.state.pause_collection();
    assert!(!app.state.collection.is_paused);
    app.state.start_collection();
    assert!(app.state.is_actively_collecting());
    app.state.reset_calibration();
    assert_eq!(app.state.get_status_summary(), "Calibrating");
}

#[test]
fn the_window_is_saved_under_the_labels_of_the_session() {
    let (mut app, ends) = driver(1);
    app.save_current_window_data_async();
    assert_eq!(app.state.collection.save_status, "No data to save");
    assert!(ends.tasks.is_empty());
    app.state.complete_calibration(SampleRate { samples: 100, millis: 1000 }, &AppConfig::default().plot);
    ends.data.send(reading(11)).unwrap();
    ends.audio.send(record(500)).unwrap();
    app.handle_data_processing(0);
    app.state.collection.username = "ann".to_string();
    app.state.collection.scenario = "walk".to_string();
    app.save_current_window_data_async();
    assert_eq!(app.state.collection.save_status, "Saving data...");
    match ends.tasks.try_recv().unwrap() {
        DatabaseTask::Save {
            accelerometer_data,
            audio_data,
            audio_metadata,
            audio_start_timestamp,
            audio_end_timestamp,
            session_id,
            username,
            scenario,
        } => {
            assert_eq!(accelerometer_data.len(), 1);
            assert_eq!(accelerometer_data[0].timestamp, 11);
            assert_eq!(accelerometer_data[0].gz, 6.5);
            assert_eq!(audio_data, vec![1, -1, -32768]);
            assert_eq!(audio_metadata.unwrap().audio_data, "AQD//wCA");
            assert_eq!(audio_start_timestamp, Some(500));
            assert_eq!(audio_end_timestamp, Some(502));
            assert_eq!(session_id, app.state.collection.current_session_id);
            assert_eq!(username, "ann");
            assert_eq!(scenario, "walk");
        }
        _ => panic!("a save was asked for"),
    }
    app.save_current_window_data_async();
    assert_eq!(app.state.collection.save_status, "Saving data...");
    app.save_current_window_data_async();
    assert_eq!(app.state.collection.save_status, "Database queue is full, try again later");
    drop(ends.tasks);
    app.save_current_window_data_async();
    assert_eq!(
        app.state.collection.save_status,
        "Database connection lost! Please restart the application."
    );
}

#[test]
fn save_results_set_the_status_and_open_a_new_session() {
    let (mut app, ends) = driver(4);
    app.state.collection.current_session_id = "session_old".to_string();
    ends.results.send(SaveResult::error("Error saving acc data: locked".to_string())).unwrap();
    app.handle_save_results();
    assert_eq!(app.state.collection.save_status, "Error saving acc data: locked");
    assert_eq!(app.state.collection.current_session_id, "session_old");
    ends.results.send(SaveResult::success(0, 0)).unwrap();
    app.handle_save_results();
    assert_eq!(app.state.collection.save_status, "No data saved");
    assert_eq!(app.state.collection.current_session_id, "session_old");
    ends.results.send(SaveResult::success(120, 1)).unwrap();
    app.handle_save_results();
    assert_eq!(app.state.collection.save_status, "Saved: 120 ACC points, 1 audio records");
    assert_ne!(app.state.collection.current_session_id, "session_old");
    assert!(app.state.collection.current_session_id.starts_with("session_2"));
    ends.results.send(SaveResult::success(5, 0)).unwrap();
    ends.results.send(SaveResult::error("late".to_string())).unwrap();
    app.handle_save_results();
    assert_eq!(app.state.collection.save_status, "late");
}

#[test]
fn every_save_that_wrote_opens_a_session_with_another_id() {
    let (mut app, ends) = driver(4);
    let mut ids = vec![app.state.collection.current_session_id.clone()];
    for round in 0..4 {
        ends.results.send(SaveResult::success(round + 1, 0)).unwrap();
        ends.results.send(SaveResult::success(0, 1)).unwrap();
        app.handle_save_results();
        let id = app.state.collection.current_session_id.clone();
        assert!(id.starts_with("session_"));
        assert_eq!(id.len(), "session_YYYYMMDD_HHMMSS".len());
        assert!(!ids.contains(&id));
        ids.push(id);
    }
    assert_eq!(ids.len(), 5);
    let seconds = app.state.collection.session_second.unwrap();
    assert_eq!(
        sensehub::database::manager::session_id_at(seconds),
        Some(app.state.collection.current_session_id.clone())
    );
}

#[test]
fn automatic_saving_follows_its_interval() {
    let mut collection = CollectionState::default();
    assert_eq!(collection.auto_save_interval_ms, 10_000);
    assert_eq!(collection.check_auto_save(5), AutoSave::Wait);
    assert_eq!(collection.auto_save_last_time, None);
    collection.toggle_auto_save(100);
    assert!(collection.auto_save_enabled);
    assert_eq!(collection.auto_save_last_time, Some(100));
    assert_eq!(collection.check_auto_save(10_099), AutoSave::Wait);
    assert_eq!(collection.check_auto_save(10_100), AutoSave::SaveNow);
    assert_eq!(collection.auto_save_count, 1);
    assert_eq!(collection.auto_save_last_time, Some(10_100));
    assert_eq!(collection.check_auto_save(10_101), AutoSave::Wait);
    assert_eq!(collection.check_auto_save(50), AutoSave::Wait);
    assert_eq!(collection.check_auto_save(30_000), AutoSave::SaveNow);
    assert_eq!(collection.auto_save_count, 2);
    collection.toggle_auto_save(40_000);
    assert!(!collection.auto_save_enabled);
    assert_eq!(collection.auto_save_last_time, None);
    assert_eq!(collection.auto_save_count, 2);
    collection.toggle_auto_save(50_000);
    assert_eq!(collection.auto_save_count, 0);
    collection.auto_save_last_time = None;
    assert_eq!(collection.check_auto_save(60_000), AutoSave::Wait);
    assert_eq!(collection.auto_save_last_time, Some(60_000));
}

#[test]
fn the_driver_saves_when_an_automatic_save_is_due() {
    let (mut app, ends) = driver(4);
    app.state.complete_calibration(SampleRate { samples: 100, millis: 1000 }, &AppConfig::default().plot);
    app.toggle_auto_save(1_000);
    ends.data.send(reading(1)).unwrap();
    app.handle_data_processing(5_999);
    assert!(ends.tasks.is_empty());
    assert_eq!(app.state.collection.auto_save_count, 0);
    app.handle_data_processing(6_000);
    assert_eq!(ends.tasks.len(), 1);
    assert_eq!(app.state.collection.auto_save_count, 1);
    assert_eq!(app.state.collection.save_status, "Saving data...");
    app.check_auto_save(6_001);
    assert_eq!(ends.tasks.len(), 1);
    app.toggle_auto_save(7_000);
    app.check_auto_save(70_000);
    assert_eq!(ends.tasks.len(), 1);
}

#[test]
fn keys_turn_the_text_and_save_the_window() {
    let (mut app, ends) = driver(4);
    app.state.calibration.is_calibrating = false;
    app.handle_keyboard_input(Key::Space);
    assert_eq!(app.state.collection.save_status, "Not collecting data");
    app.state.load_text_file(vec!["one".to_string(), "two".to_string(), "three".to_string()]);
    assert_eq!(app.state.text_reader.current_text, "one");
    assert_eq!(app.state.get_text_info(), "1/3");
    app.handle_keyboard_input(Key::ArrowRight);
    assert_eq!(app.state.get_text_info(), "1/3");
    app.state.text_reader.is_enabled = true;
    app.state.collection.save_status = String::new();
    app.handle_keyboard_input(Key::Space);
    assert_eq!(app.state.text_reader.current_text, "two");
    assert_eq!(app.state.collection.save_status, "");
    app.handle_keyboard_input(Key::ArrowRight);
    app.handle_keyboard_input(Key::ArrowRight);
    assert_eq!(app.state.get_text_info(), "3/3");
    assert_eq!(app.state.text_reader.current_text, "three");
    app.handle_keyboard_input(Key::ArrowLeft);
    assert_eq!(app.state.text_reader.current_text, "two");
    app.state.start_collection();
    app.state.pause_collection();
    app.handle_keyboard_input(Key::Space);
    assert_eq!(app.state.collection.save_status, "Data collection is paused");
    assert_eq!(app.state.text_reader.current_text, "three");
    app.state.resume_collection();
    app.handle_keyboard_input(Key::Space);
    assert_eq!(app.state.collection.save_status, "No data to save");
    ends.data.send(reading(1)).unwrap();
    app.handle_data_processing(0);
    app.handle_keyboard_input(Key::Space);
    assert_eq!(app.state.collection.save_status, "Saving data...");
    assert_eq!(ends.tasks.len(), 1);
}

#[test]
fn the_text_reader_stays_within_its_text() {
    let mut reader = TextReaderState::default();
    reader.next_text_line();
    reader.previous_text_line();
    assert_eq!(reader.current_line_index, 0);
    assert_eq!(reader.get_text_info(), "No file loaded");
    reader.load_text_lines(Vec::new());
    assert_eq!(reader.get_text_info(), "1/0");
    reader.next_text_line();
    assert_eq!(reader.current_line_index, 0);
    reader.load_text_lines(vec!["a".to_string(), "b".to_string()]);
    reader.previous_text_line();
    assert_eq!((reader.current_line_index, reader.current_text.as_str()), (0, "a"));
    reader.next_text_line();
    reader.next_text_line();
    assert_eq!((reader.current_line_index, reader.current_text.as_str()), (1, "b"));
    assert_eq!(reader.get_text_info(), "2/2");
}

#[test]
fn export_requests_are_offered_to_the_worker() {
    let (mut app, ends) = driver(2);
    ExportHandler::export_selected_sessions(&mut app.state.export, &app.state.database.db_task_sender);
    assert_eq!(app.state.export.export_status, "Please select sessions to export first");
    assert!(ends.tasks.is_empty());
    app.state.export.select_session("s2".to_string());
    app.state.export.select_session("s1".to_string());
    app.state.export.select_session("s2".to_string());
    assert_eq!(app.state.export.selected_sessions, vec!["s2", "s1"]);
    assert!(app.state.export.is_selected(&"s1".to_string()));
    app.state.export.deselect_session(&"s2".to_string());
    assert!(!app.state.export.is_selected(&"s2".to_string()));
    app.state.export.select_session("s3".to_string());
    ExportHandler::export_selected_sessions(&mut app.state.export, &app.state.database.db_task_sender);
    assert_eq!(app.state.export.export_status, "Exporting selected sessions...");
    assert!(app.state.export.selected_sessions.is_empty());
    let answer = match ends.tasks.try_recv().unwrap() {
        DatabaseTask::Export { export_type: ExportType::SelectedSessions(ids), response_sender } => {
            assert_eq!(ids, vec!["s1", "s3"]);
            response_sender
        }
        _ => panic!("an export of chosen sessions was asked for"),
    };
    app.handle_export_results();
    assert_eq!(app.state.export.export_status, "Exporting selected sessions...");
    answer.send(ExportResult::new(2, 0, "Export completed: 2 succeeded, 0 failed".to_string())).unwrap();
    app.handle_export_results();
    assert_eq!(app.state.export.export_status, "Export completed: 2 succeeded, 0 failed");
    assert!(app.state.export.export_result_receiver.is_none());
    ExportHandler::export_new_sessions_only(&mut app.state.export, &app.state.database.db_task_sender);
    assert_eq!(app.state.export.export_status, "Exporting new sessions...");
    ExportHandler::refresh_sessions(&mut app.state.export, &app.state.database.db_task_sender);
    assert_eq!(app.state.export.export_status, "Refreshing sessions list...");
    ExportHandler::refresh_sessions(&mut app.state.export, &app.state.database.db_task_sender);
    assert_eq!(
        app.state.export.export_status,
        "Failed to request sessions list: sending on a full channel"
    );
    app.state.export.select_session("s9".to_string());
    ExportHandler::export_selected_sessions(&mut app.state.export, &app.state.database.db_task_sender);
    assert_eq!(app.state.export.export_status, "Failed to start export: sending on a full channel");
    assert_eq!(app.state.export.selected_sessions, vec!["s9"]);
    drop(ends.tasks);
    ExportHandler::export_new_sessions_only(&mut app.state.export, &app.state.database.db_task_sender);
    assert_eq!(
        app.state.export.export_status,
        "Failed to start export: sending on a disconnected channel"
    );
}

#[test]
fn the_list_of_sessions_is_taken_with_its_export_marks() {
    let (mut app, ends) = driver(2);
    ExportHandler::refresh_sessions(&mut app.state.export, &app.state.database.db_task_sender);
    let answer = match ends.tasks.try_recv().unwrap() {
        DatabaseTask::GetAllSessionsWithExportStatus { response_sender } => response_sender,
        _ => panic!("the sessions were asked for"),
    };
    answer
        .send(vec![("s3".to_string(), true), ("s2".to_string(), false), ("s1".to_string(), true)])
        .unwrap();
    app.handle_sessions_results();
    assert_eq!(app.state.export.available_sessions, vec!["s3", "s2", "s1"]);
    assert_eq!(app.state.export.sessions_with_export_status.len(), 3);
    assert_eq!(app.state.export.export_status, "Found 3 sessions (2 exported, 1 unexported)");
    assert!(app.state.export.sessions_result_receiver.is_none());
}

#[test]
fn the_audio_output_is_mirrored_in_the_history_panel() {
    let (mut app, _ends) = driver(2);
    assert!(!app.has_history_audio());
    app.state.history.loaded_audio_data = vec![0.5];
    assert!(app.has_history_audio());
    app.play_history_audio(true);
    assert!(app.state.history.audio_playback.is_playing);
    app.pause_history_audio();
    assert!(app.state.history.audio_playback.is_paused);
    app.stop_history_audio();
    assert!(!app.state.history.audio_playback.is_paused);
    app.update_audio_playback_state(AudioStatus { state: PlaybackState::Playing, is_available: true });
    assert!(app.state.history.audio_playback.is_playing && app.state.history.audio_playback.is_available);
    app.play_history_audio(false);
    assert!(!app.state.history.audio_playback.is_available);
}

#[test]
fn a_new_state_is_sized_for_the_assumed_rate() {
    let (_data, data_receiver) = bounded::<DataPoint<f64>>(1);
    let (_audio, audio_receiver) = bounded::<AudioData>(1);
    let (task_sender, _tasks) = bounded::<DatabaseTask<f64, f64>>(1);
    let (_results, result_receiver) = bounded::<SaveResult>(1);
    let mut config = AppConfig::default();
    config.calibration.initial_sample_rate = 2;
    config.plot.window_duration_ms = 1500;
    let mut state: AppState<f64, f64> =
        AppState::new(data_receiver, audio_receiver, task_sender, result_receiver, &config);
    assert_eq!(state.calibration.is_calibrating, true);
    for i in 0..5 {
        state.waveform_plot.add_data(0.0, 0.0, 0.0, 0.0, 0.0, 0.0, i);
    }
    // 1.5 s at 2 Hz: three readings.
    assert_eq!(state.waveform_plot.get_current_accelerometer_data().len(), 3);
    assert!(state.calibration.calibration_start_time.is_none());
    assert!(matches!(CalibrationPhase::WaitingForFirstSample, CalibrationPhase::WaitingForFirstSample));
}
