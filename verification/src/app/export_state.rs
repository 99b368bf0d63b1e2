//! The export dialog's state: the sessions on offer, those chosen for
//! export, and the answers awaited.

use crossbeam_channel::Receiver;
use vstd::prelude::*;
use crate::names::{index_of, lemma_first_index_of, names, remove_name, without};
use crate::text::{decimal, push_decimal};
use crate::types::ExportResult;

verus! {

/// What the export dialog shows and waits for. The chosen sessions are kept
/// in the order in which they were chosen, each one once.
pub struct ExportState {
    pub export_status: String,
    pub show_export_dialog: bool,
    pub available_sessions: Vec<String>,
    /// Each session with whether its exported file exists.
    pub sessions_with_export_status: Vec<(String, bool)>,
    pub selected_sessions: Vec<String>,
    pub export_result_receiver: Option<Receiver<ExportResult>>,
    pub sessions_result_receiver: Option<Receiver<Vec<(String, bool)>>>,
}

/// How many sessions of a list are exported.
pub open spec fn exported_count(sessions: Seq<(String, bool)>) -> nat
    decreases sessions.len(),
{
    if sessions.len() == 0 {
        0
    } else {
        exported_count(sessions.drop_last()) + if sessions.last().1 {
            1nat
        } else {
            0nat
        }
    }
}

/// The ids of a list of sessions.
pub open spec fn session_ids(sessions: Seq<(String, bool)>) -> Seq<Seq<char>> {
    Seq::new(sessions.len(), |i: int| sessions[i].0@)
}

/// The line that tells how many sessions were found.
pub open spec fn found_sessions_text(total: nat, exported: nat) -> Seq<char> {
    "Found "@ + decimal(total) + " sessions ("@ + decimal(exported) + " exported, "@ + decimal(
        (total - exported) as nat,
    ) + " unexported)"@
}

proof fn lemma_exported_count_bounded(sessions: Seq<(String, bool)>)
    ensures
        exported_count(sessions) <= sessions.len(),
    decreases sessions.len(),
{
    if sessions.len() > 0 {
        lemma_exported_count_bounded(sessions.drop_last());
    }
}

/// What is left of a list after a name was taken out holds only names of
/// the list, and not the name that was taken out.
pub proof fn lemma_without_members(list: Seq<Seq<char>>, name: Seq<char>)
    ensures
        forall|i: int|
            0 <= i < without(list, name).len() ==> (#[trigger] without(list, name)[i]) != name
                && list.contains(without(list, name)[i]),
        !without(list, name).contains(name),
    decreases list.len(),
{
    if list.len() > 0 {
        let front = list.drop_last();
        lemma_without_members(front, name);
        let rest = without(front, name);
        let out = without(list, name);
        assert forall|i: int| 0 <= i < out.len() implies (#[trigger] out[i]) != name
            && list.contains(out[i]) by {
            if i < rest.len() {
                assert(out[i] == rest[i]);
                assert(front.contains(rest[i]));
                let j = choose|j: int| 0 <= j < front.len() && front[j] == rest[i];
                assert(list[j] == rest[i]);
            } else {
                assert(list[list.len() - 1] == out[i]);
            }
        }
    }
}

/// Taking a name out of a list that holds each name once leaves a list that
/// holds each name once.
pub proof fn lemma_without_keeps_distinct(list: Seq<Seq<char>>, name: Seq<char>)
    requires
        list.no_duplicates(),
    ensures
        without(list, name).no_duplicates(),
    decreases list.len(),
{
    if list.len() > 0 {
        let front = list.drop_last();
        assert(front.no_duplicates()) by {
            assert forall|i: int, j: int|
                0 <= i < front.len() && 0 <= j < front.len() && i != j implies front[i]
                != front[j] by {
                assert(list[i] == front[i] && list[j] == front[j]);
            }
        }
        lemma_without_keeps_distinct(front, name);
        lemma_without_members(front, name);
        let rest = without(front, name);
        if list.last() != name {
            let out = rest.push(list.last());
            assert forall|i: int, j: int|
                0 <= i < out.len() && 0 <= j < out.len() && i != j implies out[i] != out[j] by {
                if i < rest.len() && j < rest.len() {
                } else {
                    let k = if i < rest.len() {
                        i
                    } else {
                        j
                    };
                    assert(front.contains(rest[k]));
                    let m = choose|m: int| 0 <= m < front.len() && front[m] == rest[k];
                    assert(list[m] == rest[k]);
                    assert(list[list.len() - 1] != list[m]);
                }
            }
        }
    }
}

impl Default for ExportState {
    /// A closed dialog with nothing listed, nothing chosen and nothing
    /// awaited.
    fn default() -> (state: Self)
        ensures
            state.wf(),
            state.export_status@.len() == 0,
            !state.show_export_dialog,
            state.available_sessions@.len() == 0,
            state.sessions_with_export_status@.len() == 0,
            state.selected_sessions@.len() == 0,
            state.export_result_receiver is None,
            state.sessions_result_receiver is None,
    {
        ExportState {
            export_status: String::new(),
            show_export_dialog: false,
            available_sessions: Vec::new(),
            sessions_with_export_status: Vec::new(),
            selected_sessions: Vec::new(),
            export_result_receiver: None,
            sessions_result_receiver: None,
        }
    }
}

impl ExportState {
    /// No session is chosen twice.
    pub open spec fn wf(self) -> bool {
        names(self.selected_sessions@).no_duplicates()
    }

    /// Whether a session is chosen for export.
    pub fn is_selected(&self, session_id: &String) -> (chosen: bool)
        ensures
            chosen == names(self.selected_sessions@).contains(session_id@),
    {
        proof {
            lemma_first_index_of(names(self.selected_sessions@), session_id@);
        }
        match index_of(&self.selected_sessions, session_id) {
            Some(i) => {
                assert(names(self.selected_sessions@)[i as int] == session_id@);
                true
            },
            None => false,
        }
    }

    /// Chooses a session for export; without effect when it is chosen
    /// already.
    pub fn select_session(&mut self, session_id: String)
        requires
            old(self).wf(),
        ensures
            final(self).wf(),
            names(final(self).selected_sessions@) == if names(
                old(self).selected_sessions@,
            ).contains(session_id@) {
                names(old(self).selected_sessions@)
            } else {
                names(old(self).selected_sessions@).push(session_id@)
            },
            *final(self) == (ExportState {
                selected_sessions: final(self).selected_sessions,
                ..*old(self)
            }),
    {
        if !self.is_selected(&session_id) {
            let ghost before = names(self.selected_sessions@);
            self.selected_sessions.push(session_id);
            assert(names(self.selected_sessions@) =~= before.push(session_id@));
        }
    }

    /// Takes a session out of those chosen for export.
    pub fn deselect_session(&mut self, session_id: &String)
        requires
            old(self).wf(),
        ensures
            final(self).wf(),
            names(final(self).selected_sessions@) == without(
                names(old(self).selected_sessions@),
                session_id@,
            ),
            !names(final(self).selected_sessions@).contains(session_id@),
            *final(self) == (ExportState {
                selected_sessions: final(self).selected_sessions,
                ..*old(self)
            }),
    {
        proof {
            lemma_without_keeps_distinct(names(self.selected_sessions@), session_id@);
            lemma_without_members(names(self.selected_sessions@), session_id@);
        }
        let rest = remove_name(&self.selected_sessions, session_id);
        self.selected_sessions = rest;
    }

    /// Whether `after` is this state once the answer to an export request
    /// was taken: an answer was awaited and is awaited no more, its message
    /// is the status, and nothing else differs.
    pub open spec fn export_answer_taken(self, after: Self) -> bool {
        &&& self.export_result_receiver is Some
        &&& after.export_result_receiver is None
        &&& after == (ExportState {
            export_status: after.export_status,
            export_result_receiver: after.export_result_receiver,
            ..self
        })
    }

    /// Whether `after` is this state once the list of sessions was taken:
    /// the list was awaited and is awaited no more, the sessions on offer
    /// are those of the list, the status counts them, and nothing else
    /// differs.
    pub open spec fn sessions_taken(self, after: Self) -> bool {
        &&& self.sessions_result_receiver is Some
        &&& after.sessions_result_receiver is None
        &&& names(after.available_sessions@) == session_ids(after.sessions_with_export_status@)
        &&& after.export_status@ == found_sessions_text(
            after.sessions_with_export_status@.len(),
            exported_count(after.sessions_with_export_status@),
        )
        &&& after == (ExportState {
            sessions_with_export_status: after.sessions_with_export_status,
            available_sessions: after.available_sessions,
            export_status: after.export_status,
            sessions_result_receiver: after.sessions_result_receiver,
            ..self
        })
    }

    /// Takes the answer to an export request: its message becomes the
    /// status.
    pub fn apply_export_result(&mut self, result: ExportResult)
        ensures
            final(self).export_status == result.message,
            final(self).export_result_receiver is None,
            *final(self) == (ExportState {
                export_status: final(self).export_status,
                export_result_receiver: final(self).export_result_receiver,
                ..*old(self)
            }),
    {
        self.export_status = result.message;
        self.export_result_receiver = None;
    }

    /// Takes the list of sessions with their export marks: the sessions on
    /// offer are those listed, and the status tells how many there are and
    /// how many of them are exported.
    pub fn apply_sessions(&mut self, sessions: Vec<(String, bool)>)
        ensures
            final(self).sessions_with_export_status == sessions,
            names(final(self).available_sessions@) == session_ids(sessions@),
            final(self).export_status@ == found_sessions_text(
                sessions@.len(),
                exported_count(sessions@),
            ),
            final(self).sessions_result_receiver is None,
            *final(self) == (ExportState {
                sessions_with_export_status: final(self).sessions_with_export_status,
                available_sessions: final(self).available_sessions,
                export_status: final(self).export_status,
                sessions_result_receiver: final(self).sessions_result_receiver,
                ..*old(self)
            }),
    {
        let mut ids: Vec<String> = Vec::new();
        let mut exported: usize = 0;
        let mut i: usize = 0;
        assert(sessions@.subrange(0, 0) =~= Seq::empty());
        while i < sessions.len()
            invariant
                i <= sessions@.len(),
                ids@.len() == i,
                forall|j: int| 0 <= j < i ==> (#[trigger] ids@[j])@ == sessions@[j].0@,
                exported == exported_count(sessions@.subrange(0, i as int)),
            decreases sessions@.len() - i,
        {
            proof {
                let next = sessions@.subrange(0, i + 1);
                assert(next.drop_last() =~= sessions@.subrange(0, i as int));
                lemma_exported_count_bounded(next);
            }
            ids.push(sessions[i].0.clone());
            if sessions[i].1 {
                exported += 1;
            }
            i += 1;
        }
        proof {
            assert(sessions@.subrange(0, i as int) =~= sessions@);
            assert(names(ids@) =~= session_ids(sessions@));
            lemma_exported_count_bounded(sessions@);
        }
        let total = sessions.len();
        let mut status = String::from_str("Found ");
        push_decimal(&mut status, total as u64);
        status.append(" sessions (");
        push_decimal(&mut status, exported as u64);
        status.append(" exported, ");
        push_decimal(&mut status, (total - exported) as u64);
        status.append(" unexported)");
        self.sessions_with_export_status = sessions;
        self.available_sessions = ids;
        self.export_status = status;
        self.sessions_result_receiver = None;
    }
}

} // verus!
