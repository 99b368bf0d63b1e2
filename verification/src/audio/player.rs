use vstd::prelude::*;

verus! {

/// What the audio output is doing.
#[derive(Debug, Clone, Copy, PartialEq, Eq, Structural)]
pub enum PlaybackState {
    Stopped,
    Playing,
    Paused,
}

/// What the driver asks of the audio output's thread.
#[derive(Debug)]
pub enum AudioCommand<S> {
    /// Takes these samples, to be played at `sample_rate` samples a second.
    LoadAudio { data: Vec<S>, sample_rate: u32 },
    Play,
    Pause,
    Stop,
    Shutdown,
}

/// What the audio output's thread reports.
#[derive(Debug, Clone, Copy, PartialEq, Eq, Structural)]
pub struct AudioStatus {
    pub state: PlaybackState,
    pub is_available: bool,
}

/// What the audio output's thread observes: a command, or that none came
/// within its polling interval, or that nobody is left to send one.
#[derive(Debug, Clone, Copy, PartialEq, Eq, Structural)]
pub enum WorkerInput {
    /// Samples were handed over; `is_empty` tells whether there were none.
    Load { is_empty: bool },
    Play,
    Pause,
    Stop,
    Shutdown,
    /// No command came. `sink_is_empty` tells whether the sink, if there is
    /// one, has played all it was given.
    Idle { sink_is_empty: bool },
    Disconnected,
}

/// What the thread does to its sink.
#[derive(Debug, Clone, Copy, PartialEq, Eq, Structural)]
pub enum SinkAction {
    Keep,
    /// Stops the sink, if there is one, and lets go of it.
    Discard,
    /// Makes a sink, hands it the loaded samples and starts it.
    Start,
    /// Pauses the sink.
    Pause,
}

/// What follows from one observation: what is done to the sink, what is
/// reported, and whether the thread ends.
#[derive(Debug, Clone, Copy, PartialEq, Eq, Structural)]
pub struct WorkerOutput {
    pub sink: SinkAction,
    pub status: Option<AudioStatus>,
    pub exit: bool,
}

/// What the audio output's thread knows between two observations.
#[derive(Debug, Clone, Copy, PartialEq, Eq, Structural)]
pub struct AudioWorker {
    pub state: PlaybackState,
    pub has_audio: bool,
    pub has_sink: bool,
}

impl AudioWorker {
    /// The thread as it starts: stopped, without samples, without a sink.
    pub fn new() -> (worker: Self)
        ensures
            worker == (AudioWorker {
                state: PlaybackState::Stopped,
                has_audio: false,
                has_sink: false,
            }),
    {
        AudioWorker { state: PlaybackState::Stopped, has_audio: false, has_sink: false }
    }

    /// The status with which the thread starts.
    pub fn initial_status() -> (status: AudioStatus)
        ensures
            status == (AudioStatus { state: PlaybackState::Stopped, is_available: false }),
    {
        AudioStatus { state: PlaybackState::Stopped, is_available: false }
    }

    /// The thread's knowledge and its doing after one observation.
    ///
    /// New samples stop what plays and are reported as available. Playing
    /// starts only with samples at hand; pausing only with a sink. A round
    /// without a command reports the state, after noting that a sink that
    /// has played everything has stopped; without a sink the report says
    /// stopped.
    pub open spec fn after(self, input: WorkerInput) -> (AudioWorker, WorkerOutput) {
        match input {
            WorkerInput::Load { is_empty } => (
                AudioWorker { state: PlaybackState::Stopped, has_audio: !is_empty, has_sink: false },
                WorkerOutput {
                    sink: SinkAction::Discard,
                    status: Some(AudioStatus { state: PlaybackState::Stopped, is_available: true }),
                    exit: false,
                },
            ),
            WorkerInput::Play => if self.has_audio {
                (
                    AudioWorker { state: PlaybackState::Playing, has_sink: true, ..self },
                    WorkerOutput { sink: SinkAction::Start, status: None, exit: false },
                )
            } else {
                (self, WorkerOutput { sink: SinkAction::Keep, status: None, exit: false })
            },
            WorkerInput::Pause => if self.has_sink {
                (
                    AudioWorker { state: PlaybackState::Paused, ..self },
                    WorkerOutput { sink: SinkAction::Pause, status: None, exit: false },
                )
            } else {
                (self, WorkerOutput { sink: SinkAction::Keep, status: None, exit: false })
            },
            WorkerInput::Stop => (
                AudioWorker { state: PlaybackState::Stopped, has_sink: false, ..self },
                WorkerOutput { sink: SinkAction::Discard, status: None, exit: false },
            ),
            WorkerInput::Shutdown => (
                AudioWorker { has_sink: false, ..self },
                WorkerOutput { sink: SinkAction::Discard, status: None, exit: true },
            ),
            WorkerInput::Idle { sink_is_empty } => {
                let finished = self.has_sink && sink_is_empty && self.state
                    == PlaybackState::Playing;
                let state = if finished {
                    PlaybackState::Stopped
                } else {
                    self.state
                };
                (
                    AudioWorker { state, ..self },
                    WorkerOutput {
                        sink: SinkAction::Keep,
                        status: Some(
                            AudioStatus {
                                state: if self.has_sink {
                                    state
                                } else {
                                    PlaybackState::Stopped
                                },
                                is_available: self.has_audio,
                            },
                        ),
                        exit: false,
                    },
                )
            },
            WorkerInput::Disconnected => (
                self,
                WorkerOutput { sink: SinkAction::Keep, status: None, exit: true },
            ),
        }
    }

    /// One step of the audio output's thread.
    pub fn audio_worker_thread(&mut self, input: WorkerInput) -> (output: WorkerOutput)
        ensures
            (*final(self), output) == old(self).after(input),
    {
        let keep = WorkerOutput { sink: SinkAction::Keep, status: None, exit: false };
        match input {
            WorkerInput::Load { is_empty } => {
                self.state = PlaybackState::Stopped;
                self.has_audio = !is_empty;
                self.has_sink = false;
                WorkerOutput {
                    sink: SinkAction::Discard,
                    status: Some(AudioStatus { state: PlaybackState::Stopped, is_available: true }),
                    exit: false,
                }
            },
            WorkerInput::Play => {
                if self.has_audio {
                    self.state = PlaybackState::Playing;
                    self.has_sink = true;
                    WorkerOutput { sink: SinkAction::Start, status: None, exit: false }
                } else {
                    keep
                }
            },
            WorkerInput::Pause => {
                if self.has_sink {
                    self.state = PlaybackState::Paused;
                    WorkerOutput { sink: SinkAction::Pause, status: None, exit: false }
                } else {
                    keep
                }
            },
            WorkerInput::Stop => {
                self.state = PlaybackState::Stopped;
                self.has_sink = false;
                WorkerOutput { sink: SinkAction::Discard, status: None, exit: false }
            },
            WorkerInput::Shutdown => {
                self.has_sink = false;
                WorkerOutput { sink: SinkAction::Discard, status: None, exit: true }
            },
            WorkerInput::Idle { sink_is_empty } => {
                if self.has_sink && sink_is_empty && self.state == PlaybackState::Playing {
                    self.state = PlaybackState::Stopped;
                }
                let reported = if self.has_sink {
                    self.state
                } else {
                    PlaybackState::Stopped
                };
                WorkerOutput {
                    sink: SinkAction::Keep,
                    status: Some(AudioStatus { state: reported, is_available: self.has_audio }),
                    exit: false,
                }
            },
            WorkerInput::Disconnected => WorkerOutput {
                sink: SinkAction::Keep,
                status: None,
                exit: true,
            },
        }
    }
}

} // verus!
