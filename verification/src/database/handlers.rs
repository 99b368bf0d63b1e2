use vstd::prelude::*;
use crate::alignment::{
    aligned_audio, aligned_sensor, alignment_fits, alignment_offset, align_session_data_internal,
    chunk_views, flatten_audio, flattened, AudioChunk,
};
use crate::channel::SendOutcome;
use crate::text::{decimal, push_decimal};
use crate::types::{DataPoint, ExportResult, ExportType, SaveResult};

verus! {

/// Whether the worker goes on serving or has left its loop.
#[derive(Clone, Copy, Debug, PartialEq, Eq, Structural)]
pub enum WorkerState {
    Running,
    Stopped,
}

/// What the worker's loop observes between two tasks and after each answer.
#[derive(Clone, Copy, Debug, PartialEq, Eq, Structural)]
pub enum WorkerEvent {
    /// The shared shutdown flag was found set.
    ShutdownRequested,
    /// No task arrived within the polling interval.
    ReceiveTimedOut,
    /// The task channel has no sender left.
    TaskChannelClosed,
    /// A save result was offered to the save-result channel.
    SaveResultOffered(SendOutcome),
    /// An answer was offered to the response channel of a query.
    AnswerOffered(SendOutcome),
}

/// The worker's next state. It stops on a shutdown request, when the task
/// channel closes, and when the save-result channel has lost its receiver;
/// a full channel and a lost receiver of a query are passed over.
pub open spec fn next_worker_state(state: WorkerState, event: WorkerEvent) -> WorkerState {
    match state {
        WorkerState::Stopped => WorkerState::Stopped,
        WorkerState::Running => match event {
            WorkerEvent::ShutdownRequested => WorkerState::Stopped,
            WorkerEvent::TaskChannelClosed => WorkerState::Stopped,
            WorkerEvent::SaveResultOffered(SendOutcome::Disconnected) => WorkerState::Stopped,
            _ => WorkerState::Running,
        },
    }
}

/// One step of the storage worker's loop: the state in which it goes on
/// after `event`.
pub fn run_database_handler(state: WorkerState, event: WorkerEvent) -> (next: WorkerState)
    ensures
        next == next_worker_state(state, event),
{
    match state {
        WorkerState::Stopped => WorkerState::Stopped,
        WorkerState::Running => match event {
            WorkerEvent::ShutdownRequested => WorkerState::Stopped,
            WorkerEvent::TaskChannelClosed => WorkerState::Stopped,
            WorkerEvent::SaveResultOffered(outcome) => match outcome {
                SendOutcome::Disconnected => WorkerState::Stopped,
                _ => WorkerState::Running,
            },
            _ => WorkerState::Running,
        },
    }
}

/// The state of a worker after a run of events.
pub open spec fn worker_after(state: WorkerState, events: Seq<WorkerEvent>) -> WorkerState
    decreases events.len(),
{
    if events.len() == 0 {
        state
    } else {
        next_worker_state(worker_after(state, events.drop_last()), events.last())
    }
}

/// Once the shutdown flag was seen the worker is stopped, whatever else it
/// observes before or after.
pub proof fn lemma_shutdown_stops_worker(
    state: WorkerState,
    before: Seq<WorkerEvent>,
    after: Seq<WorkerEvent>,
)
    ensures
        worker_after(state, before.push(WorkerEvent::ShutdownRequested) + after)
            == WorkerState::Stopped,
    decreases after.len(),
{
    let seen = before.push(WorkerEvent::ShutdownRequested);
    if after.len() == 0 {
        assert(seen + after =~= seen);
        assert(seen.drop_last() =~= before);
    } else {
        lemma_shutdown_stops_worker(state, before, after.drop_last());
        assert((seen + after).drop_last() =~= seen + after.drop_last());
    }
}

/// How one half of a save ended.
#[derive(Debug)]
pub enum SubSave {
    /// There was nothing to write.
    Skipped,
    /// This many records were written.
    Saved(usize),
    /// The store refused, with this reason.
    Failed(String),
}

impl SubSave {
    /// Records written by this half.
    pub open spec fn saved(self) -> usize {
        match self {
            SubSave::Saved(count) => count,
            _ => 0,
        }
    }
}

/// The summary of what failed in a save: nothing when neither half failed,
/// the failure of the one half that failed, or both failures, sensor first,
/// separated by a semicolon.
pub open spec fn save_summary(sensor: SubSave, audio: SubSave) -> Option<Seq<char>> {
    match (sensor, audio) {
        (SubSave::Failed(s), SubSave::Failed(a)) => Some(
            "Error saving acc data: "@ + s@ + "; "@ + "Error saving audio data: "@ + a@,
        ),
        (SubSave::Failed(s), _) => Some("Error saving acc data: "@ + s@),
        (_, SubSave::Failed(a)) => Some("Error saving audio data: "@ + a@),
        _ => None,
    }
}

/// Which halves of a save are attempted: each one whose data is not empty,
/// whatever becomes of the other.
pub fn save_plan<V>(accelerometer_data: &Vec<DataPoint<V>>, audio_data: &Vec<i16>) -> (plan: (
    bool,
    bool,
))
    ensures
        plan.0 == (accelerometer_data@.len() > 0),
        plan.1 == (audio_data@.len() > 0),
{
    (accelerometer_data.len() > 0, audio_data.len() > 0)
}

/// Sums up a save from the outcomes of its two halves. The counts of what
/// was written are kept also when the other half failed.
pub fn handle_save_task(sensor: SubSave, audio: SubSave) -> (result: SaveResult)
    ensures
        result.acc_saved == sensor.saved(),
        result.audio_saved == audio.saved(),
        match save_summary(sensor, audio) {
            Some(text) => result.error matches Some(e) && e@ == text,
            None => result.error is None,
        },
{
    let acc_saved = match &sensor {
        SubSave::Saved(count) => *count,
        _ => 0,
    };
    let audio_saved = match &audio {
        SubSave::Saved(count) => *count,
        _ => 0,
    };
    let mut error: Option<String> = None;
    if let SubSave::Failed(reason) = &sensor {
        let mut text = String::from_str("Error saving acc data: ");
        text.append(reason.as_str());
        error = Some(text);
    }
    if let SubSave::Failed(reason) = &audio {
        let mut text = match error {
            Some(first) => {
                let mut both = first;
                both.append("; ");
                both
            },
            None => String::new(),
        };
        text.append("Error saving audio data: ");
        text.append(reason.as_str());
        proof {
            match sensor {
                SubSave::Failed(s) => {
                    assert(text@ =~= save_summary(sensor, audio).unwrap());
                },
                _ => {
                    assert(text@ =~= save_summary(sensor, audio).unwrap());
                },
            }
        }
        error = Some(text);
    }
    SaveResult { acc_saved, audio_saved, error }
}

/// How the export of one session ended.
#[derive(Clone, Copy, Debug, PartialEq, Eq, Structural)]
pub enum ExportOutcome {
    /// The session had its file already and was passed over.
    Skipped,
    Exported,
    Failed,
}

/// How many of `outcomes` are `wanted`.
pub open spec fn count_of(outcomes: Seq<ExportOutcome>, wanted: ExportOutcome) -> nat
    decreases outcomes.len(),
{
    if outcomes.len() == 0 {
        0
    } else {
        count_of(outcomes.drop_last(), wanted) + if outcomes.last() == wanted {
            1nat
        } else {
            0nat
        }
    }
}

proof fn lemma_count_bounded(outcomes: Seq<ExportOutcome>, wanted: ExportOutcome)
    ensures
        count_of(outcomes, wanted) <= outcomes.len(),
    decreases outcomes.len(),
{
    if outcomes.len() > 0 {
        lemma_count_bounded(outcomes.drop_last(), wanted);
    }
}

/// The line that reports an export of chosen sessions.
pub open spec fn export_message(succeeded: nat, failed: nat) -> Seq<char> {
    "Export completed: "@ + decimal(succeeded) + " succeeded, "@ + decimal(failed) + " failed"@
}

/// The line that reports an export of the sessions not yet exported.
pub open spec fn new_sessions_message(succeeded: nat, failed: nat) -> Seq<char> {
    if succeeded == 0 && failed == 0 {
        "No new sessions to export"@
    } else {
        "New sessions export completed: "@ + decimal(succeeded) + " succeeded, "@ + decimal(
            failed,
        ) + " failed"@
    }
}

fn tally(outcomes: &Vec<ExportOutcome>) -> (counts: (usize, usize))
    ensures
        counts.0 == count_of(outcomes@, ExportOutcome::Exported),
        counts.1 == count_of(outcomes@, ExportOutcome::Failed),
{
    let mut succeeded: usize = 0;
    let mut failed: usize = 0;
    let mut i: usize = 0;
    assert(outcomes@.subrange(0, 0) =~= Seq::empty());
    while i < outcomes.len()
        invariant
            i <= outcomes@.len(),
            succeeded == count_of(outcomes@.subrange(0, i as int), ExportOutcome::Exported),
            failed == count_of(outcomes@.subrange(0, i as int), ExportOutcome::Failed),
        decreases outcomes@.len() - i,
    {
        proof {
            let next = outcomes@.subrange(0, i + 1);
            assert(next.drop_last() =~= outcomes@.subrange(0, i as int));
            lemma_count_bounded(next, ExportOutcome::Exported);
            lemma_count_bounded(next, ExportOutcome::Failed);
        }
        match outcomes[i] {
            ExportOutcome::Exported => {
                succeeded += 1;
            },
            ExportOutcome::Failed => {
                failed += 1;
            },
            ExportOutcome::Skipped => {},
        }
        i += 1;
    }
    assert(outcomes@.subrange(0, i as int) =~= outcomes@);
    (succeeded, failed)
}

/// Sums up an export of chosen sessions from the outcome of each.
pub fn handle_selected_sessions_export(outcomes: &Vec<ExportOutcome>) -> (result: ExportResult)
    ensures
        result.success_count == count_of(outcomes@, ExportOutcome::Exported),
        result.error_count == count_of(outcomes@, ExportOutcome::Failed),
        result.message@ == export_message(
            result.success_count as nat,
            result.error_count as nat,
        ),
{
    let (success_count, error_count) = tally(outcomes);
    let mut message = String::from_str("Export completed: ");
    push_decimal(&mut message, success_count as u64);
    message.append(" succeeded, ");
    push_decimal(&mut message, error_count as u64);
    message.append(" failed");
    ExportResult { success_count, error_count, message }
}

/// Whether a session is exported now, given what the look for its file
/// found: one whose file could not be looked for counts as not exported.
pub fn needs_export(already_exported: Option<bool>) -> (needed: bool)
    ensures
        needed == !(already_exported == Some(true)),
{
    match already_exported {
        Some(exported) => !exported,
        None => true,
    }
}

/// Sums up an export of the sessions not yet exported. `listing` is the
/// outcome of each listed session, or the reason why the sessions could not
/// be listed.
pub fn handle_new_sessions_export(listing: Result<Vec<ExportOutcome>, String>) -> (result:
    ExportResult)
    ensures
        match listing {
            Ok(outcomes) => {
                &&& result.success_count == count_of(outcomes@, ExportOutcome::Exported)
                &&& result.error_count == count_of(outcomes@, ExportOutcome::Failed)
                &&& result.message@ == new_sessions_message(
                    result.success_count as nat,
                    result.error_count as nat,
                )
            },
            Err(reason) => {
                &&& result.success_count == 0
                &&& result.error_count == 1
                &&& result.message@ == "Failed to get sessions: "@ + reason@
            },
        },
{
    match listing {
        Ok(outcomes) => {
            let (success_count, error_count) = tally(&outcomes);
            if success_count == 0 && error_count == 0 {
                ExportResult {
                    success_count: 0,
                    error_count: 0,
                    message: String::from_str("No new sessions to export"),
                }
            } else {
                let mut message = String::from_str("New sessions export completed: ");
                push_decimal(&mut message, success_count as u64);
                message.append(" succeeded, ");
                push_decimal(&mut message, error_count as u64);
                message.append(" failed");
                ExportResult { success_count, error_count, message }
            }
        },
        Err(reason) => {
            let mut message = String::from_str("Failed to get sessions: ");
            message.append(reason.as_str());
            ExportResult { success_count: 0, error_count: 1, message }
        },
    }
}

/// Sums up an export request of either kind: `outcomes` holds the outcome of
/// each session that the request covers.
pub fn handle_export_request(export_type: &ExportType, outcomes: Vec<ExportOutcome>) -> (result:
    ExportResult)
    ensures
        result.success_count == count_of(outcomes@, ExportOutcome::Exported),
        result.error_count == count_of(outcomes@, ExportOutcome::Failed),
        result.message@ == match export_type {
            ExportType::SelectedSessions(_) => export_message(
                result.success_count as nat,
                result.error_count as nat,
            ),
            ExportType::NewSessions => new_sessions_message(
                result.success_count as nat,
                result.error_count as nat,
            ),
        },
{
    match export_type {
        ExportType::SelectedSessions(_) => handle_selected_sessions_export(&outcomes),
        ExportType::NewSessions => handle_new_sessions_export(Ok(outcomes)),
    }
}

/// The history of a session as it was stored: its readings, and the samples
/// of all its audio chunks in one run. A part that could not be loaded is
/// empty.
pub fn handle_load_history_data<V: Copy, A: Copy>(
    acc: Option<Vec<DataPoint<V>>>,
    audio: Option<Vec<AudioChunk<A>>>,
) -> (history: (Vec<DataPoint<V>>, Vec<A>))
    ensures
        history.0@ == match acc {
            Some(points) => points@,
            None => Seq::empty(),
        },
        history.1@ == match audio {
            Some(chunks) => flattened(chunk_views(chunks@)),
            None => Seq::empty(),
        },
{
    let points = match acc {
        Some(points) => points,
        None => Vec::new(),
    };
    let samples = match audio {
        Some(chunks) => flatten_audio(chunks.as_slice()),
        None => Vec::new(),
    };
    (points, samples)
}

/// The readings of a loaded part, none when it could not be loaded.
pub open spec fn loaded<T>(part: Option<Vec<T>>) -> Seq<T> {
    match part {
        Some(items) => items@,
        None => Seq::empty(),
    }
}

/// The history of a session, aligned: the moved readings, the audio samples
/// in one run, and the alignment offset. A part that could not be loaded
/// counts as empty.
pub fn handle_load_aligned_history_data<V: Copy, A: Copy>(
    acc: Option<Vec<DataPoint<V>>>,
    audio: Option<Vec<AudioChunk<A>>>,
) -> (history: (Vec<DataPoint<V>>, Vec<A>, i64))
    requires
        alignment_fits(loaded(acc), chunk_views(loaded(audio))),
    ensures
        history.0@ == aligned_sensor(loaded(acc), chunk_views(loaded(audio))),
        history.1@ == flattened(aligned_audio(loaded(acc), chunk_views(loaded(audio)))),
        history.2 == alignment_offset(loaded(acc), chunk_views(loaded(audio))),
{
    let points = match acc {
        Some(points) => points,
        None => Vec::new(),
    };
    let chunks = match audio {
        Some(chunks) => chunks,
        None => Vec::new(),
    };
    let (aligned, merged, offset) = align_session_data_internal(
        points.as_slice(),
        chunks.as_slice(),
    );
    let samples = flatten_audio(merged.as_slice());
    (aligned, samples, offset)
}

/// The answer to a request to delete a session, from what the store said.
pub fn handle_delete_session(deleted: Result<usize, String>) -> (answer: Result<(), String>)
    ensures
        match deleted {
            Ok(_) => answer is Ok,
            Err(reason) => answer matches Err(e) && e@ == "Failed to delete session: "@ + reason@,
        },
{
    match deleted {
        Ok(_) => Ok(()),
        Err(reason) => {
            let mut message = String::from_str("Failed to delete session: ");
            message.append(reason.as_str());
            Err(message)
        },
    }
}

} // verus!
