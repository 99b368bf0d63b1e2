//! The history panel's state: which user, scenario and session are chosen,
//! what was loaded of the session, and what each answer of the storage
//! worker changes.

use crossbeam_channel::{Receiver, Sender};
use vstd::prelude::*;
use crate::app::state::{position_text, AudioPlaybackState, HistoryDisplayOptions};
use crate::names::{
    copy_items, first_index_of, index_of, lemma_first_index_of, lemma_without_is_shorter,
    name_of, names, remove_name, without,
};
use crate::text::{decimal, push_decimal};
use crate::channel::{response_channel, try_submit, try_take, Received, SendOutcome};
use crate::types::tasks::scenario_or_standard;
use crate::types::{DataPoint, DatabaseTask};

verus! {

/// What the history panel shows and waits for.
#[verifier::reject_recursive_types(V)]
#[verifier::reject_recursive_types(A)]
pub struct HistoryVisualizationState<V, A> {
    pub show_history_panel: bool,
    pub selected_username: Option<String>,
    pub selected_session: Option<String>,
    pub loaded_history_data: Vec<DataPoint<V>>,
    pub loaded_audio_data: Vec<A>,
    pub original_history_data: Vec<DataPoint<V>>,
    pub original_audio_data: Vec<A>,
    pub aligned_history_data: Vec<DataPoint<V>>,
    pub aligned_audio_data: Vec<A>,
    pub display_options: HistoryDisplayOptions,
    pub loading_status: String,
    pub available_usernames: Vec<String>,
    pub available_scenarios: Vec<String>,
    pub selected_scenario: Option<String>,
    pub history_sessions: Vec<String>,
    pub history_result_receiver: Option<Receiver<(Vec<DataPoint<V>>, Vec<A>)>>,
    pub aligned_history_result_receiver: Option<Receiver<(Vec<DataPoint<V>>, Vec<A>, i64)>>,
    pub common_time_range_ms: i64,
    pub sessions_result_receiver: Option<Receiver<Vec<String>>>,
    pub usernames_result_receiver: Option<Receiver<Vec<String>>>,
    pub scenarios_result_receiver: Option<Receiver<Vec<String>>>,
    /// Width of the panel, in points.
    pub panel_width: u32,
    pub show_aligned_data: bool,
    pub delete_result_receiver: Option<Receiver<Result<(), String>>>,
    pub show_delete_confirmation: bool,
    pub session_to_delete: Option<String>,
    pub audio_playback: AudioPlaybackState,
    pub current_session_index: usize,
}

/// The line that tells how many readings and audio samples are shown, after
/// the words that say which data it is.
pub open spec fn data_status(lead: Seq<char>, points: nat, samples: nat) -> Seq<char> {
    lead + decimal(points) + " acc points, "@ + decimal(samples) + " audio samples"@
}

fn data_status_string(lead: &str, points: usize, samples: usize) -> (text: String)
    ensures
        text@ == data_status(lead@, points as nat, samples as nat),
{
    let mut text = String::from_str(lead);
    push_decimal(&mut text, points as u64);
    text.append(" acc points, ");
    push_decimal(&mut text, samples as u64);
    text.append(" audio samples");
    text
}

/// The session that is chosen after `deleted` left `sessions`, as its place
/// among those that are left: the one before the deleted one, else the
/// first; none when no session is left.
pub open spec fn selection_after_delete(sessions: Seq<Seq<char>>, deleted: Seq<char>) -> Option<
    int,
> {
    let rest = without(sessions, deleted);
    if rest.len() == 0 {
        None
    } else {
        let target = match first_index_of(sessions, deleted) {
            Some(i) => if i > 0 {
                i - 1
            } else {
                0
            },
            None => 0,
        };
        Some(
            if target < rest.len() - 1 {
                target
            } else {
                rest.len() - 1
            },
        )
    }
}

impl<V: Copy, A: Copy> Default for HistoryVisualizationState<V, A> {
    /// A closed panel with nothing chosen, nothing loaded and nothing
    /// awaited, set to show aligned data.
    fn default() -> (state: Self)
        ensures
            !state.show_history_panel,
            state.selected_username is None,
            state.selected_session is None,
            state.selected_scenario is None,
            state.session_to_delete is None,
            state.loaded_history_data@.len() == 0,
            state.loaded_audio_data@.len() == 0,
            state.original_history_data@.len() == 0,
            state.original_audio_data@.len() == 0,
            state.aligned_history_data@.len() == 0,
            state.aligned_audio_data@.len() == 0,
            state.available_usernames@.len() == 0,
            state.available_scenarios@.len() == 0,
            state.history_sessions@.len() == 0,
            state.loading_status@.len() == 0,
            state.history_result_receiver is None,
            state.aligned_history_result_receiver is None,
            state.sessions_result_receiver is None,
            state.usernames_result_receiver is None,
            state.scenarios_result_receiver is None,
            state.delete_result_receiver is None,
            state.common_time_range_ms == 0,
            state.panel_width == 300,
            state.show_aligned_data,
            !state.show_delete_confirmation,
            state.current_session_index == 0,
    {
        HistoryVisualizationState {
            show_history_panel: false,
            selected_username: None,
            selected_session: None,
            loaded_history_data: Vec::new(),
            loaded_audio_data: Vec::new(),
            original_history_data: Vec::new(),
            original_audio_data: Vec::new(),
            aligned_history_data: Vec::new(),
            aligned_audio_data: Vec::new(),
            display_options: HistoryDisplayOptions::default(),
            loading_status: String::new(),
            available_usernames: Vec::new(),
            available_scenarios: Vec::new(),
            selected_scenario: None,
            history_sessions: Vec::new(),
            history_result_receiver: None,
            aligned_history_result_receiver: None,
            common_time_range_ms: 0,
            sessions_result_receiver: None,
            usernames_result_receiver: None,
            scenarios_result_receiver: None,
            panel_width: 300,
            show_aligned_data: true,
            delete_result_receiver: None,
            show_delete_confirmation: false,
            session_to_delete: None,
            audio_playback: AudioPlaybackState::default(),
            current_session_index: 0,
        }
    }
}

impl<V: Copy, A: Copy> HistoryVisualizationState<V, A> {
    /// The place of the chosen session in the list of sessions.
    pub open spec fn selected_index(self) -> Option<int> {
        match self.selected_session {
            Some(session) => first_index_of(names(self.history_sessions@), session@),
            None => None,
        }
    }

    /// Where the chosen session stands among the sessions listed. A chosen
    /// session that is not listed counts as the only one.
    pub fn get_current_session_info(&self) -> (info: String)
        ensures
            info@ == match self.selected_session {
                None => "No session selected"@,
                Some(_) => match self.selected_index() {
                    Some(i) => position_text((i + 1) as nat, self.history_sessions@.len()),
                    None => "1/1"@,
                },
            },
    {
        match &self.selected_session {
            None => String::from_str("No session selected"),
            Some(session) => match index_of(&self.history_sessions, session) {
                Some(index) => {
                    proof {
                        lemma_first_index_of(names(self.history_sessions@), session@);
                    }
                    let total = self.history_sessions.len();
                    let mut text = String::new();
                    push_decimal(&mut text, (index + 1) as u64);
                    text.append("/");
                    push_decimal(&mut text, total as u64);
                    assert(text@ =~= position_text((index + 1) as nat, total as nat));
                    text
                },
                None => String::from_str("1/1"),
            },
        }
    }

    /// Chooses the session before the chosen one and returns its id; without
    /// effect when there is none.
    pub fn previous_session(&mut self) -> (chosen: Option<String>)
        ensures
            match old(self).selected_index() {
                Some(i) if i > 0 => {
                    &&& name_of(chosen) == Some(names(old(self).history_sessions@)[i - 1])
                    &&& name_of(final(self).selected_session) == name_of(chosen)
                    &&& final(self).current_session_index == i - 1
                    &&& *final(self) == (HistoryVisualizationState {
                        selected_session: final(self).selected_session,
                        current_session_index: final(self).current_session_index,
                        ..*old(self)
                    })
                },
                _ => chosen is None && *final(self) == *old(self),
            },
    {
        let index = match &self.selected_session {
            Some(session) => index_of(&self.history_sessions, session),
            None => None,
        };
        match index {
            Some(i) => {
                proof {
                    lemma_first_index_of(
                        names(self.history_sessions@),
                        self.selected_session.unwrap()@,
                    );
                }
                if i > 0 {
                    let previous = self.history_sessions[i - 1].clone();
                    self.selected_session = Some(previous.clone());
                    self.current_session_index = i - 1;
                    Some(previous)
                } else {
                    None
                }
            },
            None => None,
        }
    }

    /// Chooses the session after the chosen one and returns its id; without
    /// effect when there is none.
    pub fn next_session(&mut self) -> (chosen: Option<String>)
        ensures
            match old(self).selected_index() {
                Some(i) if i + 1 < old(self).history_sessions@.len() => {
                    &&& name_of(chosen) == Some(names(old(self).history_sessions@)[i + 1])
                    &&& name_of(final(self).selected_session) == name_of(chosen)
                    &&& final(self).current_session_index == i + 1
                    &&& *final(self) == (HistoryVisualizationState {
                        selected_session: final(self).selected_session,
                        current_session_index: final(self).current_session_index,
                        ..*old(self)
                    })
                },
                _ => chosen is None && *final(self) == *old(self),
            },
    {
        let index = match &self.selected_session {
            Some(session) => index_of(&self.history_sessions, session),
            None => None,
        };
        match index {
            Some(i) => {
                proof {
                    lemma_first_index_of(
                        names(self.history_sessions@),
                        self.selected_session.unwrap()@,
                    );
                }
                let total = self.history_sessions.len();
                if i + 1 < total {
                    let next = self.history_sessions[i + 1].clone();
                    self.selected_session = Some(next.clone());
                    self.current_session_index = i + 1;
                    Some(next)
                } else {
                    None
                }
            },
            None => None,
        }
    }

    /// Whether `after` is this panel once the list of users was taken, and
    /// `load` the user whose sessions are then to be loaded.
    pub open spec fn usernames_applied(self, usernames: Vec<String>, after: Self, load: Option<Seq<char>>) -> bool {
        &&& after.available_usernames == usernames
        &&& after.loading_status@ == "Found "@ + decimal(usernames@.len()) + " users"@
        &&& after.usernames_result_receiver is None
        &&& name_of(after.selected_username) == if usernames@.len() > 0 && self.selected_username is None {
            Some(usernames@[0]@)
        } else {
            name_of(self.selected_username)
        }
        &&& load == if usernames@.len() > 0 && self.selected_username is None
            && self.selected_scenario is Some {
            Some(usernames@[0]@)
        } else {
            None
        }
        &&& after == (HistoryVisualizationState {
            available_usernames: after.available_usernames,
            loading_status: after.loading_status,
            usernames_result_receiver: after.usernames_result_receiver,
            selected_username: after.selected_username,
            ..self
        })
    }

    /// Takes the list of users. When no user was chosen the first listed
    /// becomes the chosen one; it is returned when a scenario is chosen
    /// already, for its sessions are then to be loaded.
    pub fn apply_usernames(&mut self, usernames: Vec<String>) -> (load_for: Option<String>)
        ensures
            old(self).usernames_applied(usernames, *final(self), name_of(load_for)),
    {
        let mut status = String::from_str("Found ");
        push_decimal(&mut status, usernames.len() as u64);
        status.append(" users");
        self.available_usernames = usernames;
        self.loading_status = status;
        self.usernames_result_receiver = None;
        if self.available_usernames.len() > 0 && self.selected_username.is_none() {
            let first = self.available_usernames[0].clone();
            self.selected_username = Some(first.clone());
            if self.selected_scenario.is_some() {
                return Some(first);
            }
        }
        None
    }

    /// Whether `after` is this panel once the list of scenarios was taken,
    /// and `load` the user whose sessions are then to be loaded.
    pub open spec fn scenarios_applied(self, scenarios: Vec<String>, after: Self, load: Option<Seq<char>>) -> bool {
        &&& after.available_scenarios == scenarios
        &&& after.scenarios_result_receiver is None
        &&& name_of(after.selected_scenario) == if scenarios@.len() > 0 && self.selected_scenario is None {
            Some(scenarios@[0]@)
        } else {
            name_of(self.selected_scenario)
        }
        &&& load == if scenarios@.len() > 0 && self.selected_scenario is None {
            name_of(self.selected_username)
        } else {
            None
        }
        &&& after == (HistoryVisualizationState {
            available_scenarios: after.available_scenarios,
            scenarios_result_receiver: after.scenarios_result_receiver,
            selected_scenario: after.selected_scenario,
            ..self
        })
    }

    /// Takes the list of scenarios. When no scenario was chosen the first
    /// listed becomes the chosen one, and the chosen user, if there is one,
    /// is returned, for its sessions are then to be loaded.
    pub fn apply_scenarios(&mut self, scenarios: Vec<String>) -> (load_for: Option<String>)
        ensures
            old(self).scenarios_applied(scenarios, *final(self), name_of(load_for)),
    {
        self.available_scenarios = scenarios;
        self.scenarios_result_receiver = None;
        if self.available_scenarios.len() > 0 && self.selected_scenario.is_none() {
            let first = self.available_scenarios[0].clone();
            self.selected_scenario = Some(first);
            return match &self.selected_username {
                Some(username) => Some(username.clone()),
                None => None,
            };
        }
        None
    }

    /// Whether `after` is this panel once the list of sessions was taken, and
    /// `load` the session whose data is then to be loaded.
    pub open spec fn sessions_applied(self, sessions: Vec<String>, after: Self, load: Option<Seq<char>>) -> bool {
        &&& after.history_sessions == sessions
        &&& after.loading_status@ == "Found "@ + decimal(sessions@.len())
            + " history sessions for selected user"@
        &&& after.sessions_result_receiver is None
        &&& sessions@.len() > 0 && self.selected_session is None ==> {
            &&& load == Some(sessions@[0]@)
            &&& name_of(after.selected_session) == Some(sessions@[0]@)
            &&& after.current_session_index == 0
        }
        &&& !(sessions@.len() > 0 && self.selected_session is None) ==> {
            &&& load is None
            &&& after.selected_session == self.selected_session
            &&& after.current_session_index == self.current_session_index
        }
        &&& after == (HistoryVisualizationState {
            history_sessions: after.history_sessions,
            loading_status: after.loading_status,
            sessions_result_receiver: after.sessions_result_receiver,
            selected_session: after.selected_session,
            current_session_index: after.current_session_index,
            ..self
        })
    }

    /// Takes the list of sessions. When no session was chosen the first
    /// listed becomes the chosen one and is returned, for its data is then
    /// to be loaded.
    pub fn apply_sessions(&mut self, sessions: Vec<String>) -> (load: Option<String>)
        ensures
            old(self).sessions_applied(sessions, *final(self), name_of(load)),
    {
        let mut status = String::from_str("Found ");
        push_decimal(&mut status, sessions.len() as u64);
        status.append(" history sessions for selected user");
        self.history_sessions = sessions;
        self.loading_status = status;
        self.sessions_result_receiver = None;
        if self.history_sessions.len() > 0 && self.selected_session.is_none() {
            let first = self.history_sessions[0].clone();
            self.selected_session = Some(first.clone());
            self.current_session_index = 0;
            return Some(first);
        }
        None
    }

    /// Whether `after` is this panel once the data of a session as it was
    /// stored was taken.
    pub open spec fn original_data_applied(self, acc_data: Vec<DataPoint<V>>, audio_data: Vec<A>, after: Self) -> bool {
        &&& after.original_history_data@ == acc_data@
        &&& after.original_audio_data@ == audio_data@
        &&& after.history_result_receiver is None
        &&& !self.show_aligned_data ==> {
            &&& after.loaded_history_data@ == acc_data@
            &&& after.loaded_audio_data@ == audio_data@
            &&& after.loading_status@ == data_status(
                "Loaded original data: "@,
                acc_data@.len(),
                audio_data@.len(),
            )
        }
        &&& self.show_aligned_data ==> {
            &&& after.loaded_history_data == self.loaded_history_data
            &&& after.loaded_audio_data == self.loaded_audio_data
            &&& after.loading_status == self.loading_status
        }
        &&& after == (HistoryVisualizationState {
            original_history_data: after.original_history_data,
            original_audio_data: after.original_audio_data,
            history_result_receiver: after.history_result_receiver,
            loaded_history_data: after.loaded_history_data,
            loaded_audio_data: after.loaded_audio_data,
            loading_status: after.loading_status,
            ..self
        })
    }

    /// Takes the data of a session as it was stored. It is shown at once
    /// when the panel is set to show the data as stored.
    pub fn apply_original_data(&mut self, acc_data: Vec<DataPoint<V>>, audio_data: Vec<A>)
        ensures
            old(self).original_data_applied(acc_data, audio_data, *final(self)),
    {
        if !self.show_aligned_data {
            self.loading_status = data_status_string(
                "Loaded original data: ",
                acc_data.len(),
                audio_data.len(),
            );
            self.loaded_history_data = copy_items(&acc_data);
            self.loaded_audio_data = copy_items(&audio_data);
        }
        self.original_history_data = acc_data;
        self.original_audio_data = audio_data;
        self.history_result_receiver = None;
    }

    /// Whether `after` is this panel once the aligned data of a session was
    /// taken.
    pub open spec fn aligned_data_applied(self, acc_data: Vec<DataPoint<V>>, audio_data: Vec<A>, common_time_range_ms: i64, after: Self) -> bool {
        &&& after.aligned_history_data@ == acc_data@
        &&& after.aligned_audio_data@ == audio_data@
        &&& after.common_time_range_ms == common_time_range_ms
        &&& after.aligned_history_result_receiver is None
        &&& self.show_aligned_data ==> {
            &&& after.loaded_history_data@ == acc_data@
            &&& after.loaded_audio_data@ == audio_data@
            &&& after.loading_status@ == data_status(
                "Loaded aligned data: "@,
                acc_data@.len(),
                audio_data@.len(),
            )
        }
        &&& !self.show_aligned_data ==> {
            &&& after.loaded_history_data == self.loaded_history_data
            &&& after.loaded_audio_data == self.loaded_audio_data
            &&& after.loading_status == self.loading_status
        }
        &&& after == (HistoryVisualizationState {
            aligned_history_data: after.aligned_history_data,
            aligned_audio_data: after.aligned_audio_data,
            common_time_range_ms: after.common_time_range_ms,
            aligned_history_result_receiver: after.aligned_history_result_receiver,
            loaded_history_data: after.loaded_history_data,
            loaded_audio_data: after.loaded_audio_data,
            loading_status: after.loading_status,
            ..self
        })
    }

    /// Takes the aligned data of a session with its alignment offset. It is
    /// shown at once when the panel is set to show aligned data.
    pub fn apply_aligned_data(
        &mut self,
        acc_data: Vec<DataPoint<V>>,
        audio_data: Vec<A>,
        common_time_range_ms: i64,
    )
        ensures
            old(self).aligned_data_applied(acc_data, audio_data, common_time_range_ms, *final(self)),
    {
        if self.show_aligned_data {
            self.loading_status = data_status_string(
                "Loaded aligned data: ",
                acc_data.len(),
                audio_data.len(),
            );
            self.loaded_history_data = copy_items(&acc_data);
            self.loaded_audio_data = copy_items(&audio_data);
        }
        self.aligned_history_data = acc_data;
        self.aligned_audio_data = audio_data;
        self.common_time_range_ms = common_time_range_ms;
        self.aligned_history_result_receiver = None;
    }

    /// Whether the session that is to be deleted is the chosen one.
    pub open spec fn deleting_selected(self) -> bool {
        self.session_to_delete matches Some(deleted) && self.selected_session matches Some(
            selected,
        ) && selected@ == deleted@
    }

    /// What is loaded of a session, dropped.
    fn drop_loaded(&mut self)
        ensures
            final(self).selected_session is None,
            final(self).loaded_history_data@.len() == 0,
            final(self).loaded_audio_data@.len() == 0,
            final(self).original_history_data@.len() == 0,
            final(self).original_audio_data@.len() == 0,
            final(self).aligned_history_data@.len() == 0,
            final(self).aligned_audio_data@.len() == 0,
            *final(self) == (HistoryVisualizationState {
                selected_session: final(self).selected_session,
                loaded_history_data: final(self).loaded_history_data,
                loaded_audio_data: final(self).loaded_audio_data,
                original_history_data: final(self).original_history_data,
                original_audio_data: final(self).original_audio_data,
                aligned_history_data: final(self).aligned_history_data,
                aligned_audio_data: final(self).aligned_audio_data,
                ..*old(self)
            }),
    {
        self.selected_session = None;
        self.loaded_history_data = Vec::new();
        self.loaded_audio_data = Vec::new();
        self.original_history_data = Vec::new();
        self.original_audio_data = Vec::new();
        self.aligned_history_data = Vec::new();
        self.aligned_audio_data = Vec::new();
    }

    /// Takes `deleted` off the list of sessions and chooses the session that
    /// follows from it.
    fn choose_after_delete(&mut self, deleted: &String) -> (load: Option<String>)
        ensures
            names(final(self).history_sessions@) == without(
                names(old(self).history_sessions@),
                deleted@,
            ),
            match selection_after_delete(names(old(self).history_sessions@), deleted@) {
                Some(k) => {
                    &&& name_of(load) == Some(
                        without(names(old(self).history_sessions@), deleted@)[k],
                    )
                    &&& name_of(final(self).selected_session) == name_of(load)
                    &&& final(self).current_session_index == k
                },
                None => {
                    &&& load is None
                    &&& final(self).current_session_index == 0
                    &&& final(self).selected_session == old(self).selected_session
                },
            },
            *final(self) == (HistoryVisualizationState {
                history_sessions: final(self).history_sessions,
                selected_session: final(self).selected_session,
                current_session_index: final(self).current_session_index,
                ..*old(self)
            }),
    {
        let deleted_index = index_of(&self.history_sessions, deleted);
        proof {
            lemma_first_index_of(names(self.history_sessions@), deleted@);
            lemma_without_is_shorter(names(self.history_sessions@), deleted@);
        }
        let rest = remove_name(&self.history_sessions, deleted);
        self.history_sessions = rest;
        let remaining = self.history_sessions.len();
        if remaining > 0 {
            let target: usize = match deleted_index {
                Some(i) => if i > 0 {
                    i - 1
                } else {
                    0
                },
                None => 0,
            };
            let chosen: usize = if target < remaining - 1 {
                target
            } else {
                remaining - 1
            };
            let session = self.history_sessions[chosen].clone();
            self.selected_session = Some(session.clone());
            self.current_session_index = chosen;
            Some(session)
        } else {
            self.current_session_index = 0;
            None
        }
    }

    /// Takes a deleted session out of the panel: off the list, and, if it
    /// was the chosen one, out of what is loaded.
    fn forget_session(&mut self, deleted: &String) -> (load: Option<String>)
        ensures
            names(final(self).history_sessions@) == without(
                names(old(self).history_sessions@),
                deleted@,
            ),
            match selection_after_delete(names(old(self).history_sessions@), deleted@) {
                Some(k) => {
                    &&& name_of(load) == Some(
                        without(names(old(self).history_sessions@), deleted@)[k],
                    )
                    &&& name_of(final(self).selected_session) == name_of(load)
                    &&& final(self).current_session_index == k
                },
                None => {
                    &&& load is None
                    &&& final(self).current_session_index == 0
                    &&& name_of(final(self).selected_session) == if name_of(
                        old(self).selected_session,
                    ) == Some(deleted@) {
                        None
                    } else {
                        name_of(old(self).selected_session)
                    }
                },
            },
            name_of(old(self).selected_session) == Some(deleted@) ==> {
                &&& final(self).loaded_history_data@.len() == 0
                &&& final(self).loaded_audio_data@.len() == 0
                &&& final(self).original_history_data@.len() == 0
                &&& final(self).original_audio_data@.len() == 0
                &&& final(self).aligned_history_data@.len() == 0
                &&& final(self).aligned_audio_data@.len() == 0
            },
            name_of(old(self).selected_session) != Some(deleted@) ==> {
                &&& final(self).loaded_history_data == old(self).loaded_history_data
                &&& final(self).loaded_audio_data == old(self).loaded_audio_data
                &&& final(self).original_history_data == old(self).original_history_data
                &&& final(self).original_audio_data == old(self).original_audio_data
                &&& final(self).aligned_history_data == old(self).aligned_history_data
                &&& final(self).aligned_audio_data == old(self).aligned_audio_data
            },
            *final(self) == (HistoryVisualizationState {
                history_sessions: final(self).history_sessions,
                selected_session: final(self).selected_session,
                current_session_index: final(self).current_session_index,
                loaded_history_data: final(self).loaded_history_data,
                loaded_audio_data: final(self).loaded_audio_data,
                original_history_data: final(self).original_history_data,
                original_audio_data: final(self).original_audio_data,
                aligned_history_data: final(self).aligned_history_data,
                aligned_audio_data: final(self).aligned_audio_data,
                ..*old(self)
            }),
    {
        let was_selected = match &self.selected_session {
            Some(selected) => *selected == *deleted,
            None => false,
        };
        if was_selected {
            self.drop_loaded();
        }
        self.choose_after_delete(deleted)
    }

    /// Whether `after` is this panel once the answer to a deletion was taken,
    /// and `load` the session whose data is then to be loaded.
    pub open spec fn delete_result_applied(self, result: Result<(), String>, after: Self, load: Option<Seq<char>>) -> bool {
        &&& after.delete_result_receiver is None
        &&& after.session_to_delete is None
        &&& after.loading_status@ == match result {
            Ok(_) => "Session删除成功"@,
            Err(reason) => "删除失败: "@ + reason@,
        }
        &&& match (result, self.session_to_delete) {
            (Ok(_), Some(deleted)) => {
                let sessions = names(self.history_sessions@);
                &&& names(after.history_sessions@) == without(sessions, deleted@)
                &&& match selection_after_delete(sessions, deleted@) {
                    Some(k) => {
                        &&& load == Some(without(sessions, deleted@)[k])
                        &&& name_of(after.selected_session) == load
                        &&& after.current_session_index == k
                    },
                    None => {
                        &&& load is None
                        &&& after.current_session_index == 0
                        &&& name_of(after.selected_session) == if self.deleting_selected() {
                            None
                        } else {
                            name_of(self.selected_session)
                        }
                    },
                }
                &&& self.deleting_selected() ==> {
                    &&& after.loaded_history_data@.len() == 0
                    &&& after.loaded_audio_data@.len() == 0
                    &&& after.original_history_data@.len() == 0
                    &&& after.original_audio_data@.len() == 0
                    &&& after.aligned_history_data@.len() == 0
                    &&& after.aligned_audio_data@.len() == 0
                }
                &&& !self.deleting_selected() ==> {
                    &&& after.loaded_history_data == self.loaded_history_data
                    &&& after.loaded_audio_data == self.loaded_audio_data
                    &&& after.original_history_data == self.original_history_data
                    &&& after.original_audio_data == self.original_audio_data
                    &&& after.aligned_history_data == self.aligned_history_data
                    &&& after.aligned_audio_data == self.aligned_audio_data
                }
            },
            _ => {
                &&& load is None
                &&& after == (HistoryVisualizationState {
                    delete_result_receiver: after.delete_result_receiver,
                    session_to_delete: after.session_to_delete,
                    loading_status: after.loading_status,
                    ..self
                })
            },
        }
        &&& after == (HistoryVisualizationState {
            delete_result_receiver: after.delete_result_receiver,
            session_to_delete: after.session_to_delete,
            loading_status: after.loading_status,
            history_sessions: after.history_sessions,
            selected_session: after.selected_session,
            current_session_index: after.current_session_index,
            loaded_history_data: after.loaded_history_data,
            loaded_audio_data: after.loaded_audio_data,
            original_history_data: after.original_history_data,
            original_audio_data: after.original_audio_data,
            aligned_history_data: after.aligned_history_data,
            aligned_audio_data: after.aligned_audio_data,
            ..self
        })
    }

    /// Takes the answer to a request to delete the session that was marked
    /// for it. After a deletion the session leaves the list; if it was the
    /// chosen one, what was loaded of it is dropped; and the session before
    /// it in the list, else the first, becomes the chosen one and is
    /// returned, for its data is then to be loaded. After a failure only the
    /// status tells of it.
    pub fn apply_delete_result(&mut self, result: Result<(), String>) -> (load: Option<String>)
        ensures
            old(self).delete_result_applied(result, *final(self), name_of(load)),
    {
        self.delete_result_receiver = None;
        let marked = self.session_to_delete.take();
        match result {
            Err(reason) => {
                let mut status = String::from_str("删除失败: ");
                status.append(reason.as_str());
                self.loading_status = status;
                None
            },
            Ok(_) => {
                self.loading_status = String::from_str("Session删除成功");
                match marked {
                    None => None,
                    Some(deleted) => self.forget_session(&deleted),
                }
            },
        }
    }

    /// Whether `after` is this panel with `status` as its status and
    /// nothing else changed.
    pub open spec fn told(self, status: Seq<char>, after: Self) -> bool {
        &&& after.loading_status@ == status
        &&& after == (HistoryVisualizationState { loading_status: after.loading_status, ..self })
    }

    /// Whether `after` is this panel once the request for the users was
    /// offered and then, if it was taken, the request for the scenarios. A
    /// taken request is awaited. Only the refusal of the first is told.
    pub open spec fn refresh_settled(
        self,
        users: SendOutcome,
        scenarios: SendOutcome,
        after: Self,
    ) -> bool {
        if users == SendOutcome::Sent {
            &&& after.loading_status@ == "Refreshing users and scenarios list..."@
            &&& after.usernames_result_receiver is Some
            &&& if scenarios == SendOutcome::Sent {
                after.scenarios_result_receiver is Some
            } else {
                after.scenarios_result_receiver == self.scenarios_result_receiver
            }
            &&& after == (HistoryVisualizationState {
                loading_status: after.loading_status,
                usernames_result_receiver: after.usernames_result_receiver,
                scenarios_result_receiver: after.scenarios_result_receiver,
                ..self
            })
        } else {
            self.told("Unable to send usernames query request"@, after)
        }
    }

    /// Whether `after` is this panel once the users and the scenarios were
    /// asked for: not at all when the users are awaited already, and else
    /// as the two offers went.
    pub open spec fn refresh_requested(self, after: Self) -> bool {
        if self.usernames_result_receiver is Some {
            self.told("Already refreshing users list..."@, after)
        } else {
            exists|users: SendOutcome, scenarios: SendOutcome| #[trigger]
                self.refresh_settled(users, scenarios, after)
        }
    }

    /// Notes how the offer of the request for the users went: a taken
    /// request is awaited on `receiver`, a refused one is told.
    pub fn settle_usernames_request(&mut self, outcome: SendOutcome, receiver: Receiver<Vec<String>>)
        ensures
            if outcome == SendOutcome::Sent {
                &&& final(self).loading_status@ == "Refreshing users and scenarios list..."@
                &&& *final(self) == (HistoryVisualizationState {
                    loading_status: final(self).loading_status,
                    usernames_result_receiver: Some(receiver),
                    ..*old(self)
                })
            } else {
                old(self).told("Unable to send usernames query request"@, *final(self))
            },
    {
        match outcome {
            SendOutcome::Sent => {
                self.loading_status = String::from_str("Refreshing users and scenarios list...");
                self.usernames_result_receiver = Some(receiver);
            },
            _ => {
                self.loading_status = String::from_str("Unable to send usernames query request");
            },
        }
    }

    /// Notes how the offer of the request for all scenarios went: a taken
    /// request is awaited on `receiver`, a refused one changes nothing.
    pub fn settle_scenarios_listing(&mut self, outcome: SendOutcome, receiver: Receiver<Vec<String>>)
        ensures
            *final(self) == if outcome == SendOutcome::Sent {
                HistoryVisualizationState { scenarios_result_receiver: Some(receiver), ..*old(self) }
            } else {
                *old(self)
            },
    {
        match outcome {
            SendOutcome::Sent => {
                self.scenarios_result_receiver = Some(receiver);
            },
            _ => {},
        }
    }

    /// Asks the storage worker for the users and, if that request is
    /// taken, for the scenarios, unless the users are being asked for
    /// already. The status tells which it was.
    pub fn refresh_history_sessions(&mut self, sender: &Sender<DatabaseTask<V, A>>)
        ensures
            old(self).refresh_requested(*final(self)),
    {
        if self.usernames_result_receiver.is_some() {
            self.loading_status = String::from_str("Already refreshing users list...");
            return ;
        }
        let (usernames_sender, usernames_receiver) = response_channel();
        let users = try_submit(sender, DatabaseTask::usernames(usernames_sender));
        self.settle_usernames_request(users, usernames_receiver);
        if users == SendOutcome::Sent {
            let (scenarios_sender, scenarios_receiver) = response_channel();
            let scenarios = try_submit(sender, DatabaseTask::scenarios(scenarios_sender));
            self.settle_scenarios_listing(scenarios, scenarios_receiver);
            assert(old(self).refresh_settled(users, scenarios, *self));
        } else {
            assert(old(self).refresh_settled(users, SendOutcome::Full, *self));
        }
    }

    /// The status while the sessions of a user are asked for.
    pub open spec fn loading_sessions_text(username: Seq<char>, chosen: Option<String>) -> Seq<
        char,
    > {
        "Loading sessions for user: "@ + username + " in scenario: "@ + scenario_or_standard(chosen)
    }

    /// Whether `after` is this panel once the request for the sessions of a
    /// user was offered: a taken request is awaited and announced, a
    /// refused one is told.
    pub open spec fn sessions_request_settled(
        self,
        username: Seq<char>,
        outcome: SendOutcome,
        after: Self,
    ) -> bool {
        if outcome == SendOutcome::Sent {
            &&& after.loading_status@ == Self::loading_sessions_text(username, self.selected_scenario)
            &&& after.sessions_result_receiver is Some
            &&& after == (HistoryVisualizationState {
                loading_status: after.loading_status,
                sessions_result_receiver: after.sessions_result_receiver,
                ..self
            })
        } else {
            self.told("Unable to send sessions query request"@, after)
        }
    }

    /// Whether `after` is this panel once the sessions of a user were asked
    /// for: not at all when sessions are awaited already, and else as the
    /// offer went.
    pub open spec fn sessions_requested(self, username: Seq<char>, after: Self) -> bool {
        if self.sessions_result_receiver is Some {
            self.told("Already loading sessions for user: "@ + username, after)
        } else {
            exists|outcome: SendOutcome| #[trigger]
                self.sessions_request_settled(username, outcome, after)
        }
    }

    /// Notes how the offer of the request for the sessions of a user went.
    pub fn settle_sessions_request(
        &mut self,
        username: &str,
        outcome: SendOutcome,
        receiver: Receiver<Vec<String>>,
    )
        ensures
            old(self).sessions_request_settled(username@, outcome, *final(self)),
            outcome == SendOutcome::Sent ==> final(self).sessions_result_receiver == Some(receiver),
    {
        match outcome {
            SendOutcome::Sent => {
                let mut status = String::from_str("Loading sessions for user: ");
                status.append(username);
                status.append(" in scenario: ");
                match &self.selected_scenario {
                    Some(scenario) => status.append(scenario.as_str()),
                    None => status.append("standard"),
                }
                self.loading_status = status;
                self.sessions_result_receiver = Some(receiver);
            },
            _ => {
                self.loading_status = String::from_str("Unable to send sessions query request");
            },
        }
    }

    /// Asks the storage worker for the sessions of a user in the chosen
    /// scenario, the standard one when none is chosen, unless sessions are
    /// being asked for already. The status tells which it was.
    pub fn load_sessions_for_username(
        &mut self,
        sender: &Sender<DatabaseTask<V, A>>,
        username: &str,
    )
        ensures
            old(self).sessions_requested(username@, *final(self)),
    {
        if self.sessions_result_receiver.is_some() {
            let mut status = String::from_str("Already loading sessions for user: ");
            status.append(username);
            self.loading_status = status;
            return ;
        }
        let (response_sender, receiver) = response_channel();
        let task = DatabaseTask::sessions_of(username, &self.selected_scenario, response_sender);
        let outcome = try_submit(sender, task);
        self.settle_sessions_request(username, outcome, receiver);
    }

    /// Whether `after` is this panel once the request for the scenarios of
    /// a user was offered.
    pub open spec fn scenarios_request_settled(
        self,
        username: Seq<char>,
        outcome: SendOutcome,
        after: Self,
    ) -> bool {
        if outcome == SendOutcome::Sent {
            &&& after.loading_status@ == "Loading scenarios for user: "@ + username
            &&& after.scenarios_result_receiver is Some
            &&& after == (HistoryVisualizationState {
                loading_status: after.loading_status,
                scenarios_result_receiver: after.scenarios_result_receiver,
                ..self
            })
        } else {
            self.told("Unable to send scenarios query request"@, after)
        }
    }

    /// Whether `after` is this panel once the scenarios of a user were
    /// asked for: not at all when scenarios are awaited already, and else
    /// as the offer went.
    pub open spec fn scenarios_requested(self, username: Seq<char>, after: Self) -> bool {
        if self.scenarios_result_receiver is Some {
            self.told("Already loading scenarios for user: "@ + username, after)
        } else {
            exists|outcome: SendOutcome| #[trigger]
                self.scenarios_request_settled(username, outcome, after)
        }
    }

    /// Notes how the offer of the request for the scenarios of a user went.
    pub fn settle_scenarios_request(
        &mut self,
        username: &str,
        outcome: SendOutcome,
        receiver: Receiver<Vec<String>>,
    )
        ensures
            old(self).scenarios_request_settled(username@, outcome, *final(self)),
            outcome == SendOutcome::Sent ==> final(self).scenarios_result_receiver == Some(
                receiver,
            ),
    {
        match outcome {
            SendOutcome::Sent => {
                let mut status = String::from_str("Loading scenarios for user: ");
                status.append(username);
                self.loading_status = status;
                self.scenarios_result_receiver = Some(receiver);
            },
            _ => {
                self.loading_status = String::from_str("Unable to send scenarios query request");
            },
        }
    }

    /// Asks the storage worker for the scenarios of a user, unless scenarios
    /// are being asked for already. The status tells which it was.
    pub fn load_scenarios_for_username(
        &mut self,
        sender: &Sender<DatabaseTask<V, A>>,
        username: &str,
    )
        ensures
            old(self).scenarios_requested(username@, *final(self)),
    {
        if self.scenarios_result_receiver.is_some() {
            let mut status = String::from_str("Already loading scenarios for user: ");
            status.append(username);
            self.loading_status = status;
            return ;
        }
        let (response_sender, receiver) = response_channel();
        let outcome = try_submit(sender, DatabaseTask::scenarios_of(username, response_sender));
        self.settle_scenarios_request(username, outcome, receiver);
    }

    /// Whether `after` is this panel once the two requests for a session's
    /// data were offered: both answers are awaited and the loading is
    /// announced if both were taken; else none is awaited anew and the
    /// refusal is told.
    pub open spec fn both_settled(
        self,
        session_id: Seq<char>,
        original: SendOutcome,
        aligned: SendOutcome,
        after: Self,
    ) -> bool {
        if original == SendOutcome::Sent && aligned == SendOutcome::Sent {
            &&& after.loading_status@ == "Loading both original and aligned data: "@ + session_id
            &&& after.history_result_receiver is Some
            &&& after.aligned_history_result_receiver is Some
            &&& after == (HistoryVisualizationState {
                loading_status: after.loading_status,
                history_result_receiver: after.history_result_receiver,
                aligned_history_result_receiver: after.aligned_history_result_receiver,
                ..self
            })
        } else {
            self.told("Unable to send data loading requests"@, after)
        }
    }

    /// Whether `after` is this panel once both forms of a session's data
    /// were asked for, however the two offers went.
    pub open spec fn both_requested(self, session_id: Seq<char>, after: Self) -> bool {
        exists|original: SendOutcome, aligned: SendOutcome| #[trigger]
            self.both_settled(session_id, original, aligned, after)
    }

    /// Notes how the offers of the two requests for a session's data went.
    pub fn settle_both_requests(
        &mut self,
        session_id: &str,
        original: SendOutcome,
        aligned: SendOutcome,
        original_receiver: Receiver<(Vec<DataPoint<V>>, Vec<A>)>,
        aligned_receiver: Receiver<(Vec<DataPoint<V>>, Vec<A>, i64)>,
    )
        ensures
            old(self).both_settled(session_id@, original, aligned, *final(self)),
            original == SendOutcome::Sent && aligned == SendOutcome::Sent ==> {
                &&& final(self).history_result_receiver == Some(original_receiver)
                &&& final(self).aligned_history_result_receiver == Some(aligned_receiver)
            },
    {
        if original == SendOutcome::Sent && aligned == SendOutcome::Sent {
            let mut status = String::from_str("Loading both original and aligned data: ");
            status.append(session_id);
            self.loading_status = status;
            self.history_result_receiver = Some(original_receiver);
            self.aligned_history_result_receiver = Some(aligned_receiver);
        } else {
            self.loading_status = String::from_str("Unable to send data loading requests");
        }
    }

    /// Asks the storage worker for a session's data both as stored and
    /// aligned. Both answers are awaited only if both requests were taken.
    pub fn load_both_data_types(&mut self, sender: &Sender<DatabaseTask<V, A>>, session_id: &str)
        ensures
            old(self).both_requested(session_id@, *final(self)),
    {
        let (original_sender, original_receiver) = response_channel();
        let (aligned_sender, aligned_receiver) = response_channel();
        let (original_task, aligned_task) = DatabaseTask::history_in_both_forms(
            session_id,
            original_sender,
            aligned_sender,
        );
        let original = try_submit(sender, original_task);
        let aligned = try_submit(sender, aligned_task);
        self.settle_both_requests(session_id, original, aligned, original_receiver, aligned_receiver);
    }

    /// Whether `after` is this panel once the request for a session's
    /// aligned data was offered.
    pub open spec fn aligned_request_settled(
        self,
        session_id: Seq<char>,
        outcome: SendOutcome,
        after: Self,
    ) -> bool {
        if outcome == SendOutcome::Sent {
            &&& after.loading_status@ == "Loading aligned session data: "@ + session_id
            &&& after.aligned_history_result_receiver is Some
            &&& after == (HistoryVisualizationState {
                loading_status: after.loading_status,
                aligned_history_result_receiver: after.aligned_history_result_receiver,
                ..self
            })
        } else {
            self.told("Unable to send aligned data loading request"@, after)
        }
    }

    /// Whether `after` is this panel once a session's aligned data was
    /// asked for: not at all when it is awaited already, and else as the
    /// offer went.
    pub open spec fn aligned_requested(self, session_id: Seq<char>, after: Self) -> bool {
        if self.aligned_history_result_receiver is Some {
            self.told("Already loading aligned session data: "@ + session_id, after)
        } else {
            exists|outcome: SendOutcome| #[trigger]
                self.aligned_request_settled(session_id, outcome, after)
        }
    }

    /// Notes how the offer of the request for a session's aligned data
    /// went.
    pub fn settle_aligned_request(
        &mut self,
        session_id: &str,
        outcome: SendOutcome,
        receiver: Receiver<(Vec<DataPoint<V>>, Vec<A>, i64)>,
    )
        ensures
            old(self).aligned_request_settled(session_id@, outcome, *final(self)),
            outcome == SendOutcome::Sent ==> final(self).aligned_history_result_receiver == Some(
                receiver,
            ),
    {
        match outcome {
            SendOutcome::Sent => {
                let mut status = String::from_str("Loading aligned session data: ");
                status.append(session_id);
                self.loading_status = status;
                self.aligned_history_result_receiver = Some(receiver);
            },
            _ => {
                self.loading_status = String::from_str(
                    "Unable to send aligned data loading request",
                );
            },
        }
    }

    /// Asks the storage worker for a session's aligned data, unless that is
    /// being asked for already. The status tells which it was.
    pub fn load_session_data(&mut self, sender: &Sender<DatabaseTask<V, A>>, session_id: &str)
        ensures
            old(self).aligned_requested(session_id@, *final(self)),
    {
        if self.aligned_history_result_receiver.is_some() {
            let mut status = String::from_str("Already loading aligned session data: ");
            status.append(session_id);
            self.loading_status = status;
            return ;
        }
        let (response_sender, receiver) = response_channel();
        let outcome = try_submit(sender, DatabaseTask::aligned_history(session_id, response_sender));
        self.settle_aligned_request(session_id, outcome, receiver);
    }

    /// Whether `after` is this panel once the request for a session's data
    /// as stored was offered.
    pub open spec fn original_request_settled(
        self,
        session_id: Seq<char>,
        outcome: SendOutcome,
        after: Self,
    ) -> bool {
        if outcome == SendOutcome::Sent {
            &&& after.loading_status@ == "Loading original session data: "@ + session_id
            &&& after.history_result_receiver is Some
            &&& after == (HistoryVisualizationState {
                loading_status: after.loading_status,
                history_result_receiver: after.history_result_receiver,
                ..self
            })
        } else {
            self.told("Unable to send original data loading request"@, after)
        }
    }

    /// Whether `after` is this panel once a session's data as stored was
    /// asked for: not at all when it is awaited already, and else as the
    /// offer went.
    pub open spec fn original_requested(self, session_id: Seq<char>, after: Self) -> bool {
        if self.history_result_receiver is Some {
            self.told("Already loading original session data: "@ + session_id, after)
        } else {
            exists|outcome: SendOutcome| #[trigger]
                self.original_request_settled(session_id, outcome, after)
        }
    }

    /// Notes how the offer of the request for a session's data as stored
    /// went.
    pub fn settle_original_request(
        &mut self,
        session_id: &str,
        outcome: SendOutcome,
        receiver: Receiver<(Vec<DataPoint<V>>, Vec<A>)>,
    )
        ensures
            old(self).original_request_settled(session_id@, outcome, *final(self)),
            outcome == SendOutcome::Sent ==> final(self).history_result_receiver == Some(receiver),
    {
        match outcome {
            SendOutcome::Sent => {
                let mut status = String::from_str("Loading original session data: ");
                status.append(session_id);
                self.loading_status = status;
                self.history_result_receiver = Some(receiver);
            },
            _ => {
                self.loading_status = String::from_str(
                    "Unable to send original data loading request",
                );
            },
        }
    }

    /// Asks the storage worker for a session's data as stored, unless that
    /// is being asked for already. The status tells which it was.
    pub fn load_original_data(&mut self, sender: &Sender<DatabaseTask<V, A>>, session_id: &str)
        ensures
            old(self).original_requested(session_id@, *final(self)),
    {
        if self.history_result_receiver.is_some() {
            let mut status = String::from_str("Already loading original session data: ");
            status.append(session_id);
            self.loading_status = status;
            return ;
        }
        let (response_sender, receiver) = response_channel();
        let outcome = try_submit(sender, DatabaseTask::history(session_id, response_sender));
        self.settle_original_request(session_id, outcome, receiver);
    }

    /// Whether `after` is this panel once the request to delete a session
    /// was offered.
    pub open spec fn deletion_request_settled(
        self,
        session_id: Seq<char>,
        outcome: SendOutcome,
        after: Self,
    ) -> bool {
        if outcome == SendOutcome::Sent {
            &&& after.loading_status@ == "正在删除session: "@ + session_id
            &&& after.delete_result_receiver is Some
            &&& after == (HistoryVisualizationState {
                loading_status: after.loading_status,
                delete_result_receiver: after.delete_result_receiver,
                ..self
            })
        } else {
            self.told("无法发送删除请求"@, after)
        }
    }

    /// Whether `after` is this panel once the deletion of a session was
    /// asked for: not at all when a deletion is under way, and else as the
    /// offer went.
    pub open spec fn deletion_requested(self, session_id: Seq<char>, after: Self) -> bool {
        if self.delete_result_receiver is Some {
            self.told("已经在删除session: "@ + session_id, after)
        } else {
            exists|outcome: SendOutcome| #[trigger]
                self.deletion_request_settled(session_id, outcome, after)
        }
    }

    /// Notes how the offer of the request to delete a session went.
    pub fn settle_deletion_request(
        &mut self,
        session_id: &str,
        outcome: SendOutcome,
        receiver: Receiver<Result<(), String>>,
    )
        ensures
            old(self).deletion_request_settled(session_id@, outcome, *final(self)),
            outcome == SendOutcome::Sent ==> final(self).delete_result_receiver == Some(receiver),
    {
        match outcome {
            SendOutcome::Sent => {
                let mut status = String::from_str("正在删除session: ");
                status.append(session_id);
                self.loading_status = status;
                self.delete_result_receiver = Some(receiver);
            },
            _ => {
                self.loading_status = String::from_str("无法发送删除请求");
            },
        }
    }

    /// Asks the storage worker to delete a session, unless a deletion is
    /// under way. The status tells which it was.
    pub fn delete_selected_session(
        &mut self,
        sender: &Sender<DatabaseTask<V, A>>,
        session_id: &str,
    )
        ensures
            old(self).deletion_requested(session_id@, *final(self)),
    {
        if self.delete_result_receiver.is_some() {
            let mut status = String::from_str("已经在删除session: ");
            status.append(session_id);
            self.loading_status = status;
            return ;
        }
        let (response_sender, receiver) = response_channel();
        let outcome = try_submit(sender, DatabaseTask::deletion(session_id, response_sender));
        self.settle_deletion_request(session_id, outcome, receiver);
    }

    /// Shows the aligned data that is held. Returns whether there was any;
    /// when there was none nothing changes, and the data has to be loaded.
    pub fn show_aligned_held(&mut self) -> (shown: bool)
        ensures
            shown == (old(self).aligned_history_data@.len() > 0 || old(
                self,
            ).aligned_audio_data@.len() > 0),
            shown ==> {
                &&& final(self).loaded_history_data@ == old(self).aligned_history_data@
                &&& final(self).loaded_audio_data@ == old(self).aligned_audio_data@
                &&& final(self).loading_status@ == data_status(
                    "Showing aligned data: "@,
                    old(self).aligned_history_data@.len(),
                    old(self).aligned_audio_data@.len(),
                )
                &&& *final(self) == (HistoryVisualizationState {
                    loaded_history_data: final(self).loaded_history_data,
                    loaded_audio_data: final(self).loaded_audio_data,
                    loading_status: final(self).loading_status,
                    ..*old(self)
                })
            },
            !shown ==> *final(self) == *old(self),
    {
        if self.aligned_history_data.len() > 0 || self.aligned_audio_data.len() > 0 {
            self.loaded_history_data = copy_items(&self.aligned_history_data);
            self.loaded_audio_data = copy_items(&self.aligned_audio_data);
            self.loading_status = data_status_string(
                "Showing aligned data: ",
                self.loaded_history_data.len(),
                self.loaded_audio_data.len(),
            );
            true
        } else {
            false
        }
    }

    /// Shows the data as stored that is held. Returns whether there was any;
    /// when there was none nothing changes, and the data has to be loaded.
    pub fn show_original_held(&mut self) -> (shown: bool)
        ensures
            shown == (old(self).original_history_data@.len() > 0 || old(
                self,
            ).original_audio_data@.len() > 0),
            shown ==> {
                &&& final(self).loaded_history_data@ == old(self).original_history_data@
                &&& final(self).loaded_audio_data@ == old(self).original_audio_data@
                &&& final(self).loading_status@ == data_status(
                    "Showing original data: "@,
                    old(self).original_history_data@.len(),
                    old(self).original_audio_data@.len(),
                )
                &&& *final(self) == (HistoryVisualizationState {
                    loaded_history_data: final(self).loaded_history_data,
                    loaded_audio_data: final(self).loaded_audio_data,
                    loading_status: final(self).loading_status,
                    ..*old(self)
                })
            },
            !shown ==> *final(self) == *old(self),
    {
        if self.original_history_data.len() > 0 || self.original_audio_data.len() > 0 {
            self.loaded_history_data = copy_items(&self.original_history_data);
            self.loaded_audio_data = copy_items(&self.original_audio_data);
            self.loading_status = data_status_string(
                "Showing original data: ",
                self.loaded_history_data.len(),
                self.loaded_audio_data.len(),
            );
            true
        } else {
            false
        }
    }

    /// Turns the panel to aligned data: what is held of it is shown, else it
    /// is asked for, for the chosen session.
    pub fn switch_to_aligned_data(&mut self, sender: &Sender<DatabaseTask<V, A>>)
        ensures
            final(self).show_aligned_data,
            old(self).aligned_history_data@.len() > 0 || old(self).aligned_audio_data@.len() > 0
                ==> {
                &&& final(self).loaded_history_data@ == old(self).aligned_history_data@
                &&& final(self).loaded_audio_data@ == old(self).aligned_audio_data@
            },
    {
        self.show_aligned_data = true;
        if self.show_aligned_held() {
            return ;
        }
        let chosen = match &self.selected_session {
            Some(session) => Some(session.clone()),
            None => None,
        };
        if let Some(session) = chosen {
            self.load_session_data(sender, session.as_str());
        }
    }

    /// Turns the panel to the data as stored: what is held of it is shown,
    /// else it is asked for, for the chosen session.
    pub fn switch_to_original_data(&mut self, sender: &Sender<DatabaseTask<V, A>>)
        ensures
            !final(self).show_aligned_data,
            old(self).original_history_data@.len() > 0 || old(self).original_audio_data@.len()
                > 0 ==> {
                &&& final(self).loaded_history_data@ == old(self).original_history_data@
                &&& final(self).loaded_audio_data@ == old(self).original_audio_data@
            },
    {
        self.show_aligned_data = false;
        if self.show_original_held() {
            return ;
        }
        let chosen = match &self.selected_session {
            Some(session) => Some(session.clone()),
            None => None,
        };
        if let Some(session) = chosen {
            self.load_original_data(sender, session.as_str());
        }
    }

    /// Whether two states of the panel agree in what only the user sets:
    /// whether the panel is open, which data and which series it shows, how
    /// wide it is, and what the audio output was told.
    pub open spec fn same_settings(self, other: Self) -> bool {
        &&& self.show_history_panel == other.show_history_panel
        &&& self.show_aligned_data == other.show_aligned_data
        &&& self.display_options == other.display_options
        &&& self.audio_playback == other.audio_playback
        &&& self.panel_width == other.panel_width
        &&& self.show_delete_confirmation == other.show_delete_confirmation
    }

    /// Whether `after` is this panel once the list of users was looked for:
    /// nothing differs, or a list was awaited and taken, and the sessions of
    /// the user that it made the chosen one were asked for where a scenario
    /// is chosen.
    pub open spec fn usernames_polled(self, after: Self) -> bool {
        after == self || (self.usernames_result_receiver is Some && exists|
            usernames: Vec<String>,
            taken: Self,
            load: Option<Seq<char>>,
        |
            #![trigger self.usernames_applied(usernames, taken, load)]
            self.usernames_applied(usernames, taken, load) && match load {
                Some(username) => taken.sessions_requested(username, after),
                None => after == taken,
            })
    }

    /// Whether `after` is this panel once the list of scenarios was looked
    /// for: nothing differs, or a list was awaited and taken, and the
    /// sessions of the chosen user were asked for where the list made a
    /// scenario the chosen one.
    pub open spec fn scenarios_polled(self, after: Self) -> bool {
        after == self || (self.scenarios_result_receiver is Some && exists|
            scenarios: Vec<String>,
            taken: Self,
            load: Option<Seq<char>>,
        |
            #![trigger self.scenarios_applied(scenarios, taken, load)]
            self.scenarios_applied(scenarios, taken, load) && match load {
                Some(username) => taken.sessions_requested(username, after),
                None => after == taken,
            })
    }

    /// Whether `after` is this panel once the list of sessions was looked
    /// for: nothing differs, or a list was awaited and taken, and the data
    /// of the session that it made the chosen one was asked for.
    pub open spec fn sessions_polled(self, after: Self) -> bool {
        after == self || (self.sessions_result_receiver is Some && exists|
            sessions: Vec<String>,
            taken: Self,
            load: Option<Seq<char>>,
        |
            #![trigger self.sessions_applied(sessions, taken, load)]
            self.sessions_applied(sessions, taken, load) && match load {
                Some(session) => taken.both_requested(session, after),
                None => after == taken,
            })
    }

    /// Whether `after` is this panel once the data as stored was looked
    /// for: nothing differs, or it was awaited and taken.
    pub open spec fn original_data_polled(self, after: Self) -> bool {
        after == self || (self.history_result_receiver is Some && exists|
            acc_data: Vec<DataPoint<V>>,
            audio_data: Vec<A>,
        | #[trigger]
            self.original_data_applied(acc_data, audio_data, after))
    }

    /// Whether `after` is this panel once the aligned data was looked for:
    /// nothing differs, or it was awaited and taken.
    pub open spec fn aligned_data_polled(self, after: Self) -> bool {
        after == self || (self.aligned_history_result_receiver is Some && exists|
            acc_data: Vec<DataPoint<V>>,
            audio_data: Vec<A>,
            common_time_range_ms: i64,
        | #[trigger]
            self.aligned_data_applied(acc_data, audio_data, common_time_range_ms, after))
    }

    /// Whether `after` is this panel once the data as stored and then the
    /// aligned data were looked for.
    pub open spec fn loaded_data_polled(self, after: Self) -> bool {
        exists|between: Self|
            #![trigger self.original_data_polled(between)]
            self.original_data_polled(between) && between.aligned_data_polled(after)
    }

    /// Whether `after` is this panel once the answer to a deletion was
    /// looked for: nothing differs, or an answer was awaited and taken, and
    /// the data of the session that became the chosen one was asked for.
    pub open spec fn delete_result_polled(self, after: Self) -> bool {
        after == self || (self.delete_result_receiver is Some && exists|
            result: Result<(), String>,
            taken: Self,
            load: Option<Seq<char>>,
        |
            #![trigger self.delete_result_applied(result, taken, load)]
            self.delete_result_applied(result, taken, load) && match load {
                Some(session) => taken.both_requested(session, after),
                None => after == taken,
            })
    }

    /// Whether `after` is this panel once every answer was looked for, in
    /// this order: users, scenarios, sessions, data, deletion.
    pub open spec fn history_results_handled(self, after: Self) -> bool {
        exists|first: Self, second: Self, third: Self, fourth: Self|
            #![trigger self.usernames_polled(first), first.scenarios_polled(second), second.sessions_polled(third), third.loaded_data_polled(fourth)]
            self.usernames_polled(first) && first.scenarios_polled(second)
                && second.sessions_polled(third) && third.loaded_data_polled(fourth)
                && fourth.delete_result_polled(after)
    }

    fn poll_usernames(&mut self, sender: &Sender<DatabaseTask<V, A>>)
        ensures
            old(self).usernames_polled(*final(self)),
            final(self).same_settings(*old(self)),
    {
        let answer = match &self.usernames_result_receiver {
            Some(receiver) => try_take(receiver),
            None => Received::Empty,
        };
        if let Received::Message(usernames) = answer {
            let ghost given = usernames;
            let load_for = self.apply_usernames(usernames);
            let ghost taken = *self;
            if let Some(username) = &load_for {
                self.load_sessions_for_username(sender, username.as_str());
            }
            assert(old(self).usernames_applied(given, taken, name_of(load_for)));
        }
    }

    fn poll_scenarios(&mut self, sender: &Sender<DatabaseTask<V, A>>)
        ensures
            old(self).scenarios_polled(*final(self)),
            final(self).same_settings(*old(self)),
    {
        let answer = match &self.scenarios_result_receiver {
            Some(receiver) => try_take(receiver),
            None => Received::Empty,
        };
        if let Received::Message(scenarios) = answer {
            let ghost given = scenarios;
            let load_for = self.apply_scenarios(scenarios);
            let ghost taken = *self;
            if let Some(username) = &load_for {
                self.load_sessions_for_username(sender, username.as_str());
            }
            assert(old(self).scenarios_applied(given, taken, name_of(load_for)));
        }
    }

    fn poll_sessions(&mut self, sender: &Sender<DatabaseTask<V, A>>)
        ensures
            old(self).sessions_polled(*final(self)),
            final(self).same_settings(*old(self)),
    {
        let answer = match &self.sessions_result_receiver {
            Some(receiver) => try_take(receiver),
            None => Received::Empty,
        };
        if let Received::Message(sessions) = answer {
            let ghost given = sessions;
            let load = self.apply_sessions(sessions);
            let ghost taken = *self;
            if let Some(session) = &load {
                self.load_both_data_types(sender, session.as_str());
            }
            assert(old(self).sessions_applied(given, taken, name_of(load)));
        }
    }

    fn poll_original_data(&mut self)
        ensures
            old(self).original_data_polled(*final(self)),
            final(self).same_settings(*old(self)),
    {
        let original = match &self.history_result_receiver {
            Some(receiver) => try_take(receiver),
            None => Received::Empty,
        };
        if let Received::Message(data) = original {
            let ghost given = data;
            self.apply_original_data(data.0, data.1);
            assert(old(self).original_data_applied(given.0, given.1, *self));
        }
    }

    fn poll_aligned_data(&mut self)
        ensures
            old(self).aligned_data_polled(*final(self)),
            final(self).same_settings(*old(self)),
    {
        let aligned = match &self.aligned_history_result_receiver {
            Some(receiver) => try_take(receiver),
            None => Received::Empty,
        };
        if let Received::Message(data) = aligned {
            let ghost given = data;
            self.apply_aligned_data(data.0, data.1, data.2);
            assert(old(self).aligned_data_applied(given.0, given.1, given.2, *self));
        }
    }

    fn poll_loaded_data(&mut self)
        ensures
            old(self).loaded_data_polled(*final(self)),
            final(self).same_settings(*old(self)),
    {
        self.poll_original_data();
        let ghost between = *self;
        self.poll_aligned_data();
        assert(old(self).original_data_polled(between) && between.aligned_data_polled(*self));
    }

    fn poll_delete_result(&mut self, sender: &Sender<DatabaseTask<V, A>>)
        ensures
            old(self).delete_result_polled(*final(self)),
            final(self).same_settings(*old(self)),
    {
        let answer = match &self.delete_result_receiver {
            Some(receiver) => try_take(receiver),
            None => Received::Empty,
        };
        if let Received::Message(result) = answer {
            let ghost given = result;
            let load = self.apply_delete_result(result);
            let ghost taken = *self;
            if let Some(session) = &load {
                self.load_both_data_types(sender, session.as_str());
            }
            assert(old(self).delete_result_applied(given, taken, name_of(load)));
        }
    }

    /// Takes every answer of the storage worker that has arrived for the
    /// panel, and sends the requests that follow from them: first the list
    /// of users, then that of scenarios, that of sessions, the data of a
    /// session in both forms, and the answer to a deletion. An answer that
    /// has not arrived stays awaited. What only the user sets stays as it
    /// is.
    pub fn handle_history_results(&mut self, sender: &Sender<DatabaseTask<V, A>>)
        ensures
            old(self).history_results_handled(*final(self)),
            final(self).same_settings(*old(self)),
    {
        self.poll_usernames(sender);
        let ghost first = *self;
        self.poll_scenarios(sender);
        let ghost second = *self;
        self.poll_sessions(sender);
        let ghost third = *self;
        self.poll_loaded_data();
        let ghost fourth = *self;
        self.poll_delete_result(sender);
        assert(old(self).usernames_polled(first) && first.scenarios_polled(second)
            && second.sessions_polled(third) && third.loaded_data_polled(fourth)
            && fourth.delete_result_polled(*self));
    }
}

} // verus!
