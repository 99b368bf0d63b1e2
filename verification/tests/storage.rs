use crossbeam_channel::{bounded, Receiver, Sender};
use sensehub::alignment::AudioChunk;
use sensehub::app::app_save::submission_status_text;
use sensehub::channel::{
    discard, drain, response_channel, send_failure_text, try_submit, try_take, Received, SendOutcome,
};
use sensehub::database::handlers::{
    handle_delete_session, handle_load_aligned_history_data, handle_load_history_data,
    handle_new_sessions_export, handle_save_task, handle_selected_sessions_export, needs_export,
    save_plan, ExportOutcome, SubSave, WorkerEvent, WorkerState,
};
use sensehub::database::manager::{audio_record, encode_pcm, get_unexported_sessions, names_or_default};
use sensehub::database::{handle_export_request, run_database_handler};
use sensehub::types::{AudioData, DataPoint, DatabaseTask, ExportResult, ExportType, SaveResult};

fn save_task(id: usize) -> DatabaseTask<f64, f64> {
    DatabaseTask::Save {
        accelerometer_data: vec![DataPoint::new(1.0, 2.0, 3.0, 4.0, 5.0, 6.0, id as i64)],
        audio_data: vec![1, -1],
        audio_metadata: None,
        audio_start_timestamp: Some(0),
        audio_end_timestamp: Some(1),
        session_id: format!("session_{}", id),
        username: "ann".to_string(),
        scenario: "walk".to_string(),
    }
}

#[test]
fn a_full_queue_refuses_the_next_task_at_once() {
    for capacity in 1..6 {
        let (sender, receiver): (Sender<DatabaseTask<f64, f64>>, Receiver<DatabaseTask<f64, f64>>) =
            bounded(capacity);
        for id in 0..capacity {
            assert_eq!(try_submit(&sender, save_task(id)), SendOutcome::Sent);
        }
        assert_eq!(try_submit(&sender, save_task(capacity)), SendOutcome::Full);
        assert_eq!(try_submit(&sender, save_task(capacity + 1)), SendOutcome::Full);
        assert_eq!(receiver.len(), capacity);
        // Taking one task makes room for one.
        match try_take(&receiver) {
            Received::Message(DatabaseTask::Save { session_id, .. }) => {
                assert_eq!(session_id, "session_0")
            }
            _ => panic!("the first task submitted is the first taken"),
        }
        assert_eq!(try_submit(&sender, save_task(99)), SendOutcome::Sent);
        assert_eq!(try_submit(&sender, save_task(100)), SendOutcome::Full);
    }
}

#[test]
fn a_queue_without_receiver_reports_the_loss() {
    let (sender, receiver): (Sender<u8>, Receiver<u8>) = bounded(2);
    drop(receiver);
    assert_eq!(try_submit(&sender, 1), SendOutcome::Disconnected);
    assert_eq!(
        submission_status_text(SendOutcome::Disconnected),
        "Database connection lost! Please restart the application."
    );
    assert_eq!(submission_status_text(SendOutcome::Full), "Database queue is full, try again later");
    assert_eq!(submission_status_text(SendOutcome::Sent), "Saving data...");
}

#[test]
fn tasks_are_taken_in_the_order_of_submission() {
    let (sender, receiver): (Sender<u32>, Receiver<u32>) = bounded(8);
    for n in 0..6 {
        assert_eq!(try_submit(&sender, n), SendOutcome::Sent);
    }
    assert_eq!(drain(&receiver, 4), vec![0, 1, 2, 3]);
    assert_eq!(drain(&receiver, 4), vec![4, 5]);
    assert!(drain(&receiver, 4).is_empty());
    assert!(matches!(try_take(&receiver), Received::Empty));
    for n in 0..6 {
        try_submit(&sender, n);
    }
    assert_eq!(discard(&receiver, 5), 5);
    assert_eq!(discard(&receiver, 5), 1);
    drop(sender);
    assert!(matches!(try_take(&receiver), Received::Disconnected));
}

#[test]
fn worker_stops_on_shutdown_and_lost_channels_only() {
    let running = WorkerState::Running;
    assert_eq!(run_database_handler(running, WorkerEvent::ReceiveTimedOut), WorkerState::Running);
    assert_eq!(run_database_handler(running, WorkerEvent::ShutdownRequested), WorkerState::Stopped);
    assert_eq!(run_database_handler(running, WorkerEvent::TaskChannelClosed), WorkerState::Stopped);
    assert_eq!(
        run_database_handler(running, WorkerEvent::SaveResultOffered(SendOutcome::Sent)),
        WorkerState::Running
    );
    assert_eq!(
        run_database_handler(running, WorkerEvent::SaveResultOffered(SendOutcome::Full)),
        WorkerState::Running
    );
    assert_eq!(
        run_database_handler(running, WorkerEvent::SaveResultOffered(SendOutcome::Disconnected)),
        WorkerState::Stopped
    );
    for outcome in [SendOutcome::Sent, SendOutcome::Full, SendOutcome::Disconnected] {
        assert_eq!(
            run_database_handler(running, WorkerEvent::AnswerOffered(outcome)),
            WorkerState::Running
        );
    }
    for event in [
        WorkerEvent::ReceiveTimedOut,
        WorkerEvent::ShutdownRequested,
        WorkerEvent::AnswerOffered(SendOutcome::Sent),
        WorkerEvent::SaveResultOffered(SendOutcome::Sent),
    ] {
        assert_eq!(run_database_handler(WorkerState::Stopped, event), WorkerState::Stopped);
    }
}

#[test]
fn worker_stays_stopped_after_a_shutdown_request() {
    let events = [
        WorkerEvent::ReceiveTimedOut,
        WorkerEvent::AnswerOffered(SendOutcome::Full),
        WorkerEvent::ShutdownRequested,
        WorkerEvent::ReceiveTimedOut,
        WorkerEvent::SaveResultOffered(SendOutcome::Sent),
    ];
    let mut state = WorkerState::Running;
    let mut seen = Vec::new();
    for event in events {
        state = run_database_handler(state, event);
        seen.push(state);
    }
    assert_eq!(
        seen,
        vec![
            WorkerState::Running,
            WorkerState::Running,
            WorkerState::Stopped,
            WorkerState::Stopped,
            WorkerState::Stopped
        ]
    );
}

#[test]
fn save_is_summed_up_from_both_halves() {
    let both = handle_save_task(SubSave::Saved(120), SubSave::Saved(1));
    assert_eq!((both.acc_saved, both.audio_saved, both.error.clone()), (120, 1, None));
    assert!(both.is_success());
    let none = handle_save_task(SubSave::Skipped, SubSave::Skipped);
    assert_eq!((none.acc_saved, none.audio_saved, none.error), (0, 0, None));
    let partial = handle_save_task(SubSave::Saved(120), SubSave::Failed("disk full".to_string()));
    assert_eq!(partial.acc_saved, 120);
    assert_eq!(partial.audio_saved, 0);
    assert_eq!(partial.error.as_deref(), Some("Error saving audio data: disk full"));
    assert!(!partial.is_success());
    let other = handle_save_task(SubSave::Failed("locked".to_string()), SubSave::Saved(1));
    assert_eq!(other.acc_saved, 0);
    assert_eq!(other.audio_saved, 1);
    assert_eq!(other.error.as_deref(), Some("Error saving acc data: locked"));
    let neither = handle_save_task(
        SubSave::Failed("locked".to_string()),
        SubSave::Failed("disk full".to_string()),
    );
    assert_eq!(
        neither.error.as_deref(),
        Some("Error saving acc data: locked; Error saving audio data: disk full")
    );
    assert_eq!((neither.acc_saved, neither.audio_saved), (0, 0));
}

#[test]
fn each_half_of_a_save_is_tried_when_it_has_data() {
    let points: Vec<DataPoint<f64>> = vec![DataPoint::new(0.0, 0.0, 0.0, 0.0, 0.0, 0.0, 1)];
    assert_eq!(save_plan(&points, &vec![1, 2]), (true, true));
    assert_eq!(save_plan(&points, &Vec::new()), (true, false));
    assert_eq!(save_plan(&Vec::<DataPoint<f64>>::new(), &vec![1]), (false, true));
    assert_eq!(save_plan(&Vec::<DataPoint<f64>>::new(), &Vec::new()), (false, false));
}

#[test]
fn save_result_constructors() {
    let ok = SaveResult::success(3, 4);
    assert_eq!((ok.acc_saved, ok.audio_saved), (3, 4));
    assert!(ok.is_success());
    let failed = SaveResult::error("boom".to_string());
    assert_eq!((failed.acc_saved, failed.audio_saved), (0, 0));
    assert_eq!(failed.error.as_deref(), Some("boom"));
    assert!(!failed.is_success());
}

#[test]
fn export_results_count_and_report() {
    let (exported, failed, skipped) =
        (ExportOutcome::Exported, ExportOutcome::Failed, ExportOutcome::Skipped);
    let outcomes = vec![exported, failed, exported, skipped, exported];
    let chosen = handle_selected_sessions_export(&outcomes);
    assert_eq!((chosen.success_count, chosen.error_count), (3, 1));
    assert_eq!(chosen.message, "Export completed: 3 succeeded, 1 failed");
    let fresh = handle_new_sessions_export(Ok(outcomes.clone()));
    assert_eq!((fresh.success_count, fresh.error_count), (3, 1));
    assert_eq!(fresh.message, "New sessions export completed: 3 succeeded, 1 failed");
    let nothing = handle_new_sessions_export(Ok(vec![skipped, skipped]));
    assert_eq!((nothing.success_count, nothing.error_count), (0, 0));
    assert_eq!(nothing.message, "No new sessions to export");
    let unlisted = handle_new_sessions_export(Err("no such table".to_string()));
    assert_eq!((unlisted.success_count, unlisted.error_count), (0, 1));
    assert_eq!(unlisted.message, "Failed to get sessions: no such table");
    let empty = handle_selected_sessions_export(&Vec::new());
    assert_eq!(empty.message, "Export completed: 0 succeeded, 0 failed");
    let by_kind = handle_export_request(&ExportType::selected(vec!["a".to_string()]), vec![failed]);
    assert_eq!(by_kind.message, "Export completed: 0 succeeded, 1 failed");
    let by_kind = handle_export_request(&ExportType::new_only(), vec![exported]);
    assert_eq!(by_kind.message, "New sessions export completed: 1 succeeded, 0 failed");
    let by_kind = handle_export_request(&ExportType::new_only(), Vec::new());
    assert_eq!(by_kind.message, "No new sessions to export");
}

#[test]
fn export_result_constructors() {
    let made = ExportResult::new(2, 1, "two of three".to_string());
    assert_eq!((made.success_count, made.error_count), (2, 1));
    assert_eq!(made.message, "two of three");
    let all = ExportResult::success_only(12);
    assert_eq!((all.success_count, all.error_count), (12, 0));
    assert_eq!(all.message, "Successfully exported 12 sessions");
    assert_eq!(ExportResult::success_only(0).message, "Successfully exported 0 sessions");
    let none = ExportResult::no_data();
    assert_eq!((none.success_count, none.error_count), (0, 0));
    assert_eq!(none.message, "No new sessions to export");
    assert!(matches!(ExportType::new_only(), ExportType::NewSessions));
    match ExportType::selected(vec!["s1".to_string(), "s2".to_string()]) {
        ExportType::SelectedSessions(ids) => assert_eq!(ids, vec!["s1", "s2"]),
        ExportType::NewSessions => panic!("chosen sessions were asked for"),
    }
}

#[test]
fn a_session_is_exported_unless_its_file_is_known_to_exist() {
    assert!(needs_export(Some(false)));
    assert!(!needs_export(Some(true)));
    assert!(needs_export(None));
}

#[test]
fn history_is_loaded_with_its_audio_in_one_run() {
    let acc: Vec<DataPoint<f64>> = (0..=10).map(|i| DataPoint::new(i as f64, 0.0, 0.0, 0.0, 0.0, 0.0, i * 10)).collect();
    let audio = vec![
        AudioChunk { start_timestamp: 0, end_timestamp: 50, samples: vec![0.5], sample_rate: 16000, channels: 1, format: "PCM_16".to_string() },
        AudioChunk { start_timestamp: 50, end_timestamp: 130, samples: vec![0.25, 0.125], sample_rate: 16000, channels: 1, format: "PCM_16".to_string() },
    ];
    let copy = |a: &Vec<AudioChunk<f64>>| -> Vec<AudioChunk<f64>> { a.iter().map(|c| c.duplicate()).collect() };
    let (points, samples) = handle_load_history_data(Some(acc.clone()), Some(copy(&audio)));
    assert_eq!(points.len(), 11);
    assert_eq!(samples, vec![0.5, 0.25, 0.125]);
    let (points, samples) = handle_load_history_data::<f64, f64>(None, None);
    assert!(points.is_empty() && samples.is_empty());
    let (points, samples, offset) = handle_load_aligned_history_data(Some(acc.clone()), Some(copy(&audio)));
    assert_eq!(offset, 30);
    assert_eq!(samples, vec![0.5, 0.25, 0.125]);
    assert_eq!(points.len(), 11);
    assert_eq!(points[0].timestamp, -30);
    assert_eq!(points[3].timestamp, 0);
    let (points, samples, offset) = handle_load_aligned_history_data::<f64, f64>(None, None);
    assert!(points.is_empty() && samples.is_empty());
    assert_eq!(offset, 0);
    let (points, samples, offset) = handle_load_aligned_history_data::<f64, f64>(Some(acc), None);
    assert_eq!(points.len(), 11);
    assert!(samples.is_empty());
    assert_eq!(offset, 0);
}

#[test]
fn deletion_is_answered_with_the_reason_of_a_failure() {
    assert_eq!(handle_delete_session(Ok(17)), Ok(()));
    assert_eq!(
        handle_delete_session(Err("locked".to_string())),
        Err("Failed to delete session: locked".to_string())
    );
}

#[test]
fn samples_are_stored_low_byte_first() {
    assert_eq!(encode_pcm(&[0, 1, -1, 256, -32768, 32767]), vec![0, 0, 1, 0, 255, 255, 0, 1, 0, 128, 255, 127]);
    assert!(encode_pcm(&[]).is_empty());
}

#[test]
fn audio_is_stored_under_the_description_of_the_last_record() {
    let metadata = AudioData::new("AAA=".to_string(), 8000, 2, "PCM_8".to_string(), 3, 777);
    let record = audio_record(1600, Some(&metadata), Some(10), Some(20), 999);
    assert_eq!((record.start_timestamp_ms, record.end_timestamp_ms), (10, 20));
    assert_eq!((record.sample_rate, record.channels), (8000, 2));
    assert_eq!(record.format, "PCM_8");
    assert_eq!(record.samples_count, 1600);
    let record = audio_record(5, Some(&metadata), None, None, 999);
    assert_eq!((record.start_timestamp_ms, record.end_timestamp_ms), (777, 777));
    let record = audio_record(5, None, None, Some(20), 999);
    assert_eq!((record.start_timestamp_ms, record.end_timestamp_ms), (999, 20));
    assert_eq!((record.sample_rate, record.channels), (16000, 1));
    assert_eq!(record.format, "PCM_16");
}

#[test]
fn sessions_without_file_are_the_unexported_ones() {
    let sessions = vec![
        ("s3".to_string(), false),
        ("s2".to_string(), true),
        ("s1".to_string(), false),
    ];
    assert_eq!(get_unexported_sessions(&sessions), vec!["s3", "s1"]);
    assert!(get_unexported_sessions(&Vec::new()).is_empty());
    assert_eq!(names_or_default(Vec::new(), "unknown_user"), vec!["unknown_user"]);
    assert_eq!(names_or_default(vec!["ann".to_string()], "unknown_user"), vec!["ann"]);
}

#[test]
fn a_refused_message_is_told_of_in_the_words_of_the_channel() {
    assert_eq!(send_failure_text(SendOutcome::Full), "sending on a full channel");
    assert_eq!(send_failure_text(SendOutcome::Disconnected), "sending on a disconnected channel");
}

#[test]
fn requests_name_what_is_asked_for_and_where_the_answer_goes() {
    type Task = DatabaseTask<f64, f64>;
    let (names_sender, names_receiver) = response_channel::<Vec<String>>();
    match Task::sessions_of("ann", &Some("walk".to_string()), names_sender.clone()) {
        DatabaseTask::GetSessionsByUsernameAndScenario { username, scenario, response_sender } => {
            assert_eq!((username.as_str(), scenario.as_str()), ("ann", "walk"));
            response_sender.send(vec!["s1".to_string()]).unwrap();
            assert_eq!(names_receiver.try_recv().unwrap(), vec!["s1"]);
        }
        _ => panic!("the sessions of a user were asked for"),
    }
    match Task::sessions_of("bob", &None, names_sender.clone()) {
        DatabaseTask::GetSessionsByUsernameAndScenario { username, scenario, .. } => {
            assert_eq!((username.as_str(), scenario.as_str()), ("bob", "standard"));
        }
        _ => panic!("the sessions of a user were asked for"),
    }
    assert!(matches!(Task::usernames(names_sender.clone()), DatabaseTask::GetUsernames { .. }));
    assert!(matches!(Task::scenarios(names_sender.clone()), DatabaseTask::GetScenarios { .. }));
    match Task::scenarios_of("ann", names_sender) {
        DatabaseTask::GetScenariosByUsername { username, .. } => assert_eq!(username, "ann"),
        _ => panic!("the scenarios of a user were asked for"),
    }
    let (original, original_receiver) = response_channel();
    let (aligned, aligned_receiver) = response_channel();
    let (first, second) = Task::history_in_both_forms("s7", original, aligned);
    match first {
        DatabaseTask::LoadHistoryData { session_id, response_sender } => {
            assert_eq!(session_id, "s7");
            response_sender.send((Vec::new(), vec![0.5])).unwrap();
            assert_eq!(original_receiver.try_recv().unwrap().1, vec![0.5]);
        }
        _ => panic!("the stored data was asked for first"),
    }
    match second {
        DatabaseTask::LoadAlignedHistoryData { session_id, response_sender } => {
            assert_eq!(session_id, "s7");
            response_sender.send((Vec::new(), Vec::new(), 12)).unwrap();
            assert_eq!(aligned_receiver.try_recv().unwrap().2, 12);
        }
        _ => panic!("the aligned data was asked for second"),
    }
    let (deleted, _) = response_channel();
    match Task::deletion("s8", deleted) {
        DatabaseTask::DeleteSession { session_id, .. } => assert_eq!(session_id, "s8"),
        _ => panic!("a deletion was asked for"),
    }
    let (marks, _) = response_channel();
    assert!(matches!(
        Task::sessions_with_export_status(marks),
        DatabaseTask::GetAllSessionsWithExportStatus { .. }
    ));
    let (exported, _) = response_channel();
    match Task::export_selected(&vec!["s2".to_string(), "s1".to_string()], exported.clone()) {
        DatabaseTask::Export { export_type: ExportType::SelectedSessions(ids), .. } => {
            assert_eq!(ids, vec!["s2", "s1"])
        }
        _ => panic!("an export of chosen sessions was asked for"),
    }
    assert!(matches!(
        Task::export_new(exported),
        DatabaseTask::Export { export_type: ExportType::NewSessions, .. }
    ));
}
