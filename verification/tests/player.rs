use sensehub::app::state::AudioPlaybackState;
use sensehub::audio::player::{AudioWorker, SinkAction, WorkerInput, WorkerOutput};
use sensehub::audio::{AudioCommand, AudioStatus, PlaybackState};

fn quiet(sink: SinkAction) -> WorkerOutput {
    WorkerOutput { sink, status: None, exit: false }
}

#[test]
fn playback_runs_from_load_to_the_end_of_the_samples() {
    let mut worker = AudioWorker::new();
    assert_eq!(AudioWorker::initial_status(), AudioStatus { state: PlaybackState::Stopped, is_available: false });
    let loaded = worker.audio_worker_thread(WorkerInput::Load { is_empty: false });
    assert_eq!(loaded.sink, SinkAction::Discard);
    assert_eq!(loaded.status, Some(AudioStatus { state: PlaybackState::Stopped, is_available: true }));
    assert!(!loaded.exit);
    assert_eq!(worker.audio_worker_thread(WorkerInput::Play), quiet(SinkAction::Start));
    assert_eq!(worker.state, PlaybackState::Playing);
    let idle = worker.audio_worker_thread(WorkerInput::Idle { sink_is_empty: false });
    assert_eq!(idle.status, Some(AudioStatus { state: PlaybackState::Playing, is_available: true }));
    assert_eq!(worker.audio_worker_thread(WorkerInput::Pause), quiet(SinkAction::Pause));
    let idle = worker.audio_worker_thread(WorkerInput::Idle { sink_is_empty: false });
    assert_eq!(idle.status, Some(AudioStatus { state: PlaybackState::Paused, is_available: true }));
    assert_eq!(worker.audio_worker_thread(WorkerInput::Play), quiet(SinkAction::Start));
    let done = worker.audio_worker_thread(WorkerInput::Idle { sink_is_empty: true });
    assert_eq!(done.status, Some(AudioStatus { state: PlaybackState::Stopped, is_available: true }));
    assert_eq!(worker.state, PlaybackState::Stopped);
}

#[test]
fn playback_needs_samples_and_pausing_needs_a_sink() {
    let mut worker = AudioWorker::new();
    assert_eq!(worker.audio_worker_thread(WorkerInput::Play), quiet(SinkAction::Keep));
    assert_eq!(worker.audio_worker_thread(WorkerInput::Pause), quiet(SinkAction::Keep));
    assert_eq!(worker, AudioWorker::new());
    let empty = worker.audio_worker_thread(WorkerInput::Load { is_empty: true });
    assert_eq!(empty.status, Some(AudioStatus { state: PlaybackState::Stopped, is_available: true }));
    assert_eq!(worker.audio_worker_thread(WorkerInput::Play), quiet(SinkAction::Keep));
    let idle = worker.audio_worker_thread(WorkerInput::Idle { sink_is_empty: true });
    assert_eq!(idle.status, Some(AudioStatus { state: PlaybackState::Stopped, is_available: false }));
}

#[test]
fn stop_and_shutdown_let_go_of_the_sink() {
    let mut worker = AudioWorker::new();
    worker.audio_worker_thread(WorkerInput::Load { is_empty: false });
    worker.audio_worker_thread(WorkerInput::Play);
    assert_eq!(worker.audio_worker_thread(WorkerInput::Stop), quiet(SinkAction::Discard));
    assert_eq!(worker, AudioWorker { state: PlaybackState::Stopped, has_audio: true, has_sink: false });
    worker.audio_worker_thread(WorkerInput::Play);
    let end = worker.audio_worker_thread(WorkerInput::Shutdown);
    assert_eq!(end, WorkerOutput { sink: SinkAction::Discard, status: None, exit: true });
    let mut other = AudioWorker::new();
    let gone = other.audio_worker_thread(WorkerInput::Disconnected);
    assert_eq!(gone, WorkerOutput { sink: SinkAction::Keep, status: None, exit: true });
}

#[test]
fn the_driver_mirrors_what_the_output_reports() {
    let mut state = AudioPlaybackState::default();
    assert_eq!(state.sample_rate, 16000);
    assert!(!state.is_available && !state.is_playing && !state.is_paused);
    state.play_requested(true);
    assert!(state.is_available && state.is_playing && !state.is_paused);
    state.pause_requested();
    assert!(!state.is_playing && state.is_paused);
    state.stop_requested();
    assert!(!state.is_playing && !state.is_paused);
    state.play_requested(false);
    assert!(!state.is_available);
    state.update(AudioStatus { state: PlaybackState::Paused, is_available: true });
    assert!(state.is_available && !state.is_playing && state.is_paused);
    state.update(AudioStatus { state: PlaybackState::Playing, is_available: true });
    assert!(state.is_playing && !state.is_paused);
    state.update(AudioStatus { state: PlaybackState::Stopped, is_available: false });
    assert!(!state.is_available && !state.is_playing && !state.is_paused);
}

#[test]
fn commands_carry_samples_of_any_kind() {
    let command: AudioCommand<f32> = AudioCommand::LoadAudio { data: vec![0.5, -0.5], sample_rate: 16000 };
    match command {
        AudioCommand::LoadAudio { data, sample_rate } => {
            assert_eq!(data, vec![0.5, -0.5]);
            assert_eq!(sample_rate, 16000);
        }
        _ => panic!("samples were loaded"),
    }
}
