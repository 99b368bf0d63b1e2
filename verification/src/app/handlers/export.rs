use crossbeam_channel::Sender;
use vstd::prelude::*;
use crate::app::export_state::ExportState;
use crate::channel::{
    response_channel, send_failure, send_failure_text, try_submit, SendOutcome,
};
use crate::types::DatabaseTask;

verus! {

/// The export dialog's requests to the storage worker.
pub struct ExportHandler;

/// The status after a request was offered to the storage worker: `waiting`
/// when it was taken, else `failed` and the reason.
pub open spec fn request_status(outcome: SendOutcome, waiting: Seq<char>, failed: Seq<char>) -> Seq<
    char,
> {
    match outcome {
        SendOutcome::Sent => waiting,
        _ => failed + send_failure(outcome),
    }
}

/// The status after a request was offered to the storage worker.
pub fn request_status_text(outcome: SendOutcome, waiting: &str, failed: &str) -> (status: String)
    ensures
        status@ == request_status(outcome, waiting@, failed@),
{
    match outcome {
        SendOutcome::Sent => String::from_str(waiting),
        _ => {
            let mut status = String::from_str(failed);
            status.append(send_failure_text(outcome).as_str());
            status
        },
    }
}

impl ExportHandler {
    /// Asks the storage worker for the sessions and their export marks. The
    /// answer is awaited if the request was taken; the status tells whether
    /// it was.
    pub fn refresh_sessions<V, A>(export: &mut ExportState, sender: &Sender<DatabaseTask<V, A>>)
        ensures
            exists|outcome: SendOutcome|
                {
                    &&& #[trigger] request_status(
                        outcome,
                        "Refreshing sessions list..."@,
                        "Failed to request sessions list: "@,
                    ) == final(export).export_status@
                    &&& outcome == SendOutcome::Sent ==> final(export).sessions_result_receiver
                        is Some
                    &&& outcome != SendOutcome::Sent ==> final(export).sessions_result_receiver
                        == old(export).sessions_result_receiver
                },
            *final(export) == (ExportState {
                export_status: final(export).export_status,
                sessions_result_receiver: final(export).sessions_result_receiver,
                ..*old(export)
            }),
    {
        let (response_sender, receiver) = response_channel();
        let outcome = try_submit(
            sender,
            DatabaseTask::sessions_with_export_status(response_sender),
        );
        export.export_status = request_status_text(
            outcome,
            "Refreshing sessions list...",
            "Failed to request sessions list: ",
        );
        if outcome == SendOutcome::Sent {
            export.sessions_result_receiver = Some(receiver);
        }
    }

    /// Asks the storage worker to export the chosen sessions. Without a
    /// chosen session nothing is asked. Once the request is taken no session
    /// is chosen any more and the answer is awaited.
    pub fn export_selected_sessions<V, A>(
        export: &mut ExportState,
        sender: &Sender<DatabaseTask<V, A>>,
    )
        ensures
            old(export).selected_sessions@.len() == 0 ==> {
                &&& final(export).export_status@ == "Please select sessions to export first"@
                &&& *final(export) == (ExportState {
                    export_status: final(export).export_status,
                    ..*old(export)
                })
            },
            old(export).selected_sessions@.len() > 0 ==> exists|outcome: SendOutcome|
                {
                    &&& #[trigger] request_status(
                        outcome,
                        "Exporting selected sessions..."@,
                        "Failed to start export: "@,
                    ) == final(export).export_status@
                    &&& outcome == SendOutcome::Sent ==> final(export).export_result_receiver
                        is Some && final(export).selected_sessions@.len() == 0
                    &&& outcome != SendOutcome::Sent ==> final(export).export_result_receiver
                        == old(export).export_result_receiver && final(export).selected_sessions
                        == old(export).selected_sessions
                },
            *final(export) == (ExportState {
                export_status: final(export).export_status,
                export_result_receiver: final(export).export_result_receiver,
                selected_sessions: final(export).selected_sessions,
                ..*old(export)
            }),
    {
        if export.selected_sessions.len() == 0 {
            export.export_status = String::from_str("Please select sessions to export first");
            return ;
        }
        let (response_sender, receiver) = response_channel();
        let task = DatabaseTask::export_selected(&export.selected_sessions, response_sender);
        let outcome = try_submit(sender, task);
        export.export_status = request_status_text(
            outcome,
            "Exporting selected sessions...",
            "Failed to start export: ",
        );
        if outcome == SendOutcome::Sent {
            export.selected_sessions = Vec::new();
            export.export_result_receiver = Some(receiver);
        }
    }

    /// Asks the storage worker to export every session that has no exported
    /// file yet. The answer is awaited if the request was taken.
    pub fn export_new_sessions_only<V, A>(
        export: &mut ExportState,
        sender: &Sender<DatabaseTask<V, A>>,
    )
        ensures
            exists|outcome: SendOutcome|
                {
                    &&& #[trigger] request_status(
                        outcome,
                        "Exporting new sessions..."@,
                        "Failed to start export: "@,
                    ) == final(export).export_status@
                    &&& outcome == SendOutcome::Sent ==> final(export).export_result_receiver
                        is Some
                    &&& outcome != SendOutcome::Sent ==> final(export).export_result_receiver
                        == old(export).export_result_receiver
                },
            *final(export) == (ExportState {
                export_status: final(export).export_status,
                export_result_receiver: final(export).export_result_receiver,
                ..*old(export)
            }),
    {
        let (response_sender, receiver) = response_channel();
        let outcome = try_submit(sender, DatabaseTask::export_new(response_sender));
        export.export_status = request_status_text(
            outcome,
            "Exporting new sessions...",
            "Failed to start export: ",
        );
        if outcome == SendOutcome::Sent {
            export.export_result_receiver = Some(receiver);
        }
    }
}

} // verus!
