use crossbeam_channel::Sender;
use vstd::prelude::*;
use crate::names::{copy_names, names};
use crate::types::audio_data::AudioData;
use crate::types::data_point::DataPoint;
use crate::types::results::ExportResult;

verus! {

/// Which sessions an export request covers.
#[derive(Clone, Debug)]
pub enum ExportType {
    SelectedSessions(Vec<String>),
    NewSessions,
}

impl ExportType {
    /// An export of exactly the sessions named in `session_ids`.
    pub fn selected(session_ids: Vec<String>) -> (t: Self)
        ensures
            t == ExportType::SelectedSessions(session_ids),
    {
        ExportType::SelectedSessions(session_ids)
    }

    /// An export of every session that has no exported file yet.
    pub fn new_only() -> (t: Self)
        ensures
            t == ExportType::NewSessions,
    {
        ExportType::NewSessions
    }
}

} // verus!

verus! {

/// The scenario that a query names: the chosen one, or the standard one when
/// none is chosen.
pub open spec fn scenario_or_standard(chosen: Option<String>) -> Seq<char> {
    match chosen {
        Some(scenario) => scenario@,
        None => "standard"@,
    }
}

/// A request to the storage worker. Every request but `Save` carries the
/// channel on which its answer is sent; the answer to `Save` goes to the
/// worker's save-result channel.
#[verifier::reject_recursive_types(V)]
#[verifier::reject_recursive_types(A)]
pub enum DatabaseTask<V, A> {
    Save {
        accelerometer_data: Vec<DataPoint<V>>,
        audio_data: Vec<i16>,
        audio_metadata: Option<AudioData>,
        audio_start_timestamp: Option<i64>,
        audio_end_timestamp: Option<i64>,
        session_id: String,
        username: String,
        scenario: String,
    },
    Export { export_type: ExportType, response_sender: Sender<ExportResult> },
    GetSessions { response_sender: Sender<Vec<String>> },
    GetUnexportedSessions { response_sender: Sender<Vec<String>> },
    GetAllSessionsWithExportStatus { response_sender: Sender<Vec<(String, bool)>> },
    GetUsernames { response_sender: Sender<Vec<String>> },
    GetScenarios { response_sender: Sender<Vec<String>> },
    GetScenariosByUsername { username: String, response_sender: Sender<Vec<String>> },
    GetSessionsByUsername { username: String, response_sender: Sender<Vec<String>> },
    GetSessionsByUsernameAndScenario {
        username: String,
        scenario: String,
        response_sender: Sender<Vec<String>>,
    },
    CheckExported { session_id: String, response_sender: Sender<bool> },
    LoadHistoryData { session_id: String, response_sender: Sender<(Vec<DataPoint<V>>, Vec<A>)> },
    LoadAlignedHistoryData {
        session_id: String,
        response_sender: Sender<(Vec<DataPoint<V>>, Vec<A>, i64)>,
    },
    DeleteSession { session_id: String, response_sender: Sender<Result<(), String>> },
}

impl<V, A> DatabaseTask<V, A> {
    /// The request for the names of all users.
    pub fn usernames(response_sender: Sender<Vec<String>>) -> (task: Self)
        ensures
            task matches DatabaseTask::GetUsernames { response_sender: s } && s == response_sender,
    {
        DatabaseTask::GetUsernames { response_sender }
    }

    /// The request for the names of all scenarios.
    pub fn scenarios(response_sender: Sender<Vec<String>>) -> (task: Self)
        ensures
            task matches DatabaseTask::GetScenarios { response_sender: s } && s == response_sender,
    {
        DatabaseTask::GetScenarios { response_sender }
    }

    /// The request for the scenarios of one user.
    pub fn scenarios_of(username: &str, response_sender: Sender<Vec<String>>) -> (task: Self)
        ensures
            task matches DatabaseTask::GetScenariosByUsername { username: u, response_sender: s }
                && u@ == username@ && s == response_sender,
    {
        DatabaseTask::GetScenariosByUsername { username: String::from_str(username), response_sender }
    }

    /// The request for the sessions of one user in the chosen scenario, the
    /// standard one when none is chosen.
    pub fn sessions_of(
        username: &str,
        chosen_scenario: &Option<String>,
        response_sender: Sender<Vec<String>>,
    ) -> (task: Self)
        ensures
            task matches DatabaseTask::GetSessionsByUsernameAndScenario {
                username: u,
                scenario: c,
                response_sender: s,
            } && u@ == username@ && c@ == scenario_or_standard(*chosen_scenario) && s
                == response_sender,
    {
        let scenario = match chosen_scenario {
            Some(scenario) => scenario.clone(),
            None => String::from_str("standard"),
        };
        DatabaseTask::GetSessionsByUsernameAndScenario {
            username: String::from_str(username),
            scenario,
            response_sender,
        }
    }

    /// The request for the data of a session as it was stored.
    pub fn history(session_id: &str, response_sender: Sender<(Vec<DataPoint<V>>, Vec<A>)>) -> (task:
        Self)
        ensures
            task matches DatabaseTask::LoadHistoryData { session_id: id, response_sender: s }
                && id@ == session_id@ && s == response_sender,
    {
        DatabaseTask::LoadHistoryData { session_id: String::from_str(session_id), response_sender }
    }

    /// The request for the aligned data of a session.
    pub fn aligned_history(
        session_id: &str,
        response_sender: Sender<(Vec<DataPoint<V>>, Vec<A>, i64)>,
    ) -> (task: Self)
        ensures
            task matches DatabaseTask::LoadAlignedHistoryData { session_id: id, response_sender: s }
                && id@ == session_id@ && s == response_sender,
    {
        DatabaseTask::LoadAlignedHistoryData {
            session_id: String::from_str(session_id),
            response_sender,
        }
    }

    /// The two requests for the data of one session, as stored and aligned.
    pub fn history_in_both_forms(
        session_id: &str,
        original: Sender<(Vec<DataPoint<V>>, Vec<A>)>,
        aligned: Sender<(Vec<DataPoint<V>>, Vec<A>, i64)>,
    ) -> (tasks: (Self, Self))
        ensures
            tasks.0 matches DatabaseTask::LoadHistoryData { session_id: id, response_sender: s }
                && id@ == session_id@ && s == original,
            tasks.1 matches DatabaseTask::LoadAlignedHistoryData {
                session_id: id,
                response_sender: s,
            } && id@ == session_id@ && s == aligned,
    {
        (Self::history(session_id, original), Self::aligned_history(session_id, aligned))
    }

    /// The request to delete a session.
    pub fn deletion(session_id: &str, response_sender: Sender<Result<(), String>>) -> (task: Self)
        ensures
            task matches DatabaseTask::DeleteSession { session_id: id, response_sender: s } && id@
                == session_id@ && s == response_sender,
    {
        DatabaseTask::DeleteSession { session_id: String::from_str(session_id), response_sender }
    }

    /// The request for all sessions, each with whether it is exported.
    pub fn sessions_with_export_status(response_sender: Sender<Vec<(String, bool)>>) -> (task:
        Self)
        ensures
            task matches DatabaseTask::GetAllSessionsWithExportStatus { response_sender: s } && s
                == response_sender,
    {
        DatabaseTask::GetAllSessionsWithExportStatus { response_sender }
    }

    /// The request to export the chosen sessions, in the order in which
    /// they were chosen.
    pub fn export_selected(chosen: &Vec<String>, response_sender: Sender<ExportResult>) -> (task:
        Self)
        ensures
            task matches DatabaseTask::Export {
                export_type: ExportType::SelectedSessions(ids),
                response_sender: s,
            } && names(ids@) == names(chosen@) && s == response_sender,
    {
        DatabaseTask::Export {
            export_type: ExportType::SelectedSessions(copy_names(chosen)),
            response_sender,
        }
    }

    /// The request to export every session that has no exported file yet.
    pub fn export_new(response_sender: Sender<ExportResult>) -> (task: Self)
        ensures
            task matches DatabaseTask::Export {
                export_type: ExportType::NewSessions,
                response_sender: s,
            } && s == response_sender,
    {
        DatabaseTask::Export { export_type: ExportType::NewSessions, response_sender }
    }
}

} // verus!
