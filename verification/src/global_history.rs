//! Session-wide undo/redo across every design of the deck.
//!
//! Each design keeps its own local history of commands; this log only keeps
//! the chronological ORDER of the steps across designs, so that undo knows
//! which design comes next. It also remembers steps that touched the disk:
//! creating a design (undoing it deletes the design) and deleting a file
//! (undoing it restores the file from the recycle bin).
//!
//! Running the local history is not part of this log: where a step has to be
//! undone or redone in the active design, the log says so (`StepRoute::Local`)
//! and the caller reports back how the local history fared
//! (`complete_local_undo` / `complete_local_redo`).

use vstd::prelude::*;
use crate::shortcuts::HistoryKey;

verus! {

/// What is needed to restore a file that the user deleted.
#[derive(Clone, PartialEq, Eq, Debug)]
pub struct DeleteRecord {
    pub path: String,
    /// The `.canvas` sidecar that was deleted with the file, if it had one.
    pub sidecar: Option<String>,
}

/// One step of the session-wide undo/redo, tagged with the design (deck slot
/// id) it belongs to, or, for `Delete`, with the file that was deleted.
#[derive(Clone, PartialEq, Eq, Debug)]
pub enum GlobalStep {
    /// An ordinary command, already stacked in that design's local history.
    Edit(u64),
    /// The design was created at this point of the session. Undoing it
    /// deletes the design; it is never redone.
    Create(u64),
    /// A file that the user deleted. Undoing it restores the file; it is
    /// never redone.
    Delete(DeleteRecord),
}

impl GlobalStep {
    /// The slot of an `Edit` or `Create` step.
    pub fn slot_id(&self) -> (id: u64)
        requires
            !(self is Delete),
        ensures
            self matches GlobalStep::Edit(e) ==> id == e,
            self matches GlobalStep::Create(c) ==> id == c,
    {
        match self {
            GlobalStep::Edit(id) => *id,
            GlobalStep::Create(id) => *id,
            GlobalStep::Delete(_) => {
                proof {
                    assert(false);
                }
                0
            },
        }
    }
}

/// How the local history of the active design fared when asked to undo or
/// redo one command.
#[derive(Clone, PartialEq, Eq, Debug)]
pub enum LocalOutcome {
    /// A command was undone (redone).
    Done,
    /// The local history had nothing to undo (redo).
    Nothing,
    /// Reverting (reapplying) the command failed, with this message.
    Failed(String),
}

/// What the caller has to do after asking for an undo or a redo.
#[derive(Clone, Copy, PartialEq, Eq, Debug, Structural)]
pub enum StepRoute {
    /// There was nothing to undo (redo).
    Nothing,
    /// Undo (redo) one command in the active design's local history now, then
    /// report the outcome with `complete_local_undo` (`complete_local_redo`).
    Local,
    /// The step belongs to the design with this slot id, which is not the
    /// active one (or is a creation): jump to it, then call
    /// `finish_pending_global_undo` (`finish_pending_global_redo`).
    Jump(u64),
    /// A deleted file is waiting in `pending_restore` to be restored.
    Restore,
    /// An unexpected entry was dropped from the redo stack.
    Discarded,
}

/// Mathematical model of the session-wide log.
pub ghost struct HistoryModel {
    pub undo: Seq<GlobalStep>,
    pub redo: Seq<GlobalStep>,
    pub pending_undo: Option<GlobalStep>,
    pub pending_redo: Option<GlobalStep>,
    pub pending_restore: Option<DeleteRecord>,
    pub pending_creation: bool,
    pub active_slot: u64,
    pub delete_requested: bool,
    pub delete_from_undo: bool,
    pub error: Option<Seq<char>>,
}

/// The stack without its newest step (unchanged when empty).
pub open spec fn pop_last(s: Seq<GlobalStep>) -> Seq<GlobalStep> {
    if s.len() > 0 {
        s.drop_last()
    } else {
        s
    }
}

pub open spec fn is_edit(step: GlobalStep) -> bool {
    step is Edit
}

impl HistoryModel {
    /// The shape the log always keeps: the redo stack only ever holds edits
    /// (creations and deletions are never redone), and a step waiting for a
    /// jump is never a deletion (those are resolved at once).
    pub open spec fn wf(self) -> bool {
        &&& forall|i: int| 0 <= i < self.redo.len() ==> #[trigger] is_edit(self.redo[i])
        &&& (self.pending_undo matches Some(s) ==> !(s is Delete))
        &&& (self.pending_redo matches Some(s) ==> s is Edit)
    }

    pub open spec fn can_undo(self) -> bool {
        self.undo.len() > 0
    }

    pub open spec fn can_redo(self) -> bool {
        self.redo.len() > 0
    }

    /// Route of an undo request, decided by the newest undo step.
    pub open spec fn undo_route(self) -> StepRoute {
        if self.undo.len() == 0 {
            StepRoute::Nothing
        } else {
            match self.undo.last() {
                GlobalStep::Edit(id) => if id == self.active_slot {
                    StepRoute::Local
                } else {
                    StepRoute::Jump(id)
                },
                GlobalStep::Create(id) => StepRoute::Jump(id),
                GlobalStep::Delete(_) => StepRoute::Restore,
            }
        }
    }

    /// State after an undo request. An edit of the active design is left in
    /// place for the local undo; a deletion is resolved at once by asking for
    /// a restore; any other step waits in `pending_undo` for a jump.
    pub open spec fn request_undo(self) -> HistoryModel {
        if self.undo.len() == 0 {
            self
        } else {
            match self.undo.last() {
                GlobalStep::Edit(id) => if id == self.active_slot {
                    self
                } else {
                    HistoryModel { pending_undo: Some(self.undo.last()), ..self }
                },
                GlobalStep::Create(_) => HistoryModel {
                    pending_undo: Some(self.undo.last()),
                    ..self
                },
                GlobalStep::Delete(record) => HistoryModel {
                    undo: pop_last(self.undo),
                    pending_restore: Some(record),
                    ..self
                },
            }
        }
    }

    /// Route of a redo request, decided by the newest redo step.
    pub open spec fn redo_route(self) -> StepRoute {
        if self.redo.len() == 0 {
            StepRoute::Nothing
        } else {
            match self.redo.last() {
                GlobalStep::Edit(id) => if id == self.active_slot {
                    StepRoute::Local
                } else {
                    StepRoute::Jump(id)
                },
                GlobalStep::Create(id) => StepRoute::Jump(id),
                GlobalStep::Delete(_) => StepRoute::Discarded,
            }
        }
    }

    /// State after a redo request (symmetric to `request_undo`; a deletion
    /// found on the redo stack is dropped).
    pub open spec fn request_redo(self) -> HistoryModel {
        if self.redo.len() == 0 {
            self
        } else {
            match self.redo.last() {
                GlobalStep::Edit(id) => if id == self.active_slot {
                    self
                } else {
                    HistoryModel { pending_redo: Some(self.redo.last()), ..self }
                },
                GlobalStep::Create(_) => HistoryModel {
                    pending_redo: Some(self.redo.last()),
                    ..self
                },
                GlobalStep::Delete(_) => HistoryModel { redo: pop_last(self.redo), ..self },
            }
        }
    }

    /// State once the local history of the active design reported on an undo.
    pub open spec fn local_undone(self, outcome: LocalOutcome) -> HistoryModel {
        match outcome {
            LocalOutcome::Done => HistoryModel {
                undo: pop_last(self.undo),
                redo: self.redo.push(GlobalStep::Edit(self.active_slot)),
                ..self
            },
            LocalOutcome::Nothing => self,
            LocalOutcome::Failed(msg) => HistoryModel {
                undo: pop_last(self.undo),
                error: Some("Undo failed: "@ + msg@),
                ..self
            },
        }
    }

    /// State once the local history of the active design reported on a redo.
    pub open spec fn local_redone(self, outcome: LocalOutcome) -> HistoryModel {
        match outcome {
            LocalOutcome::Done => HistoryModel {
                redo: pop_last(self.redo),
                undo: self.undo.push(GlobalStep::Edit(self.active_slot)),
                ..self
            },
            LocalOutcome::Nothing => self,
            LocalOutcome::Failed(msg) => HistoryModel {
                redo: pop_last(self.redo),
                error: Some("Redo failed: "@ + msg@),
                ..self
            },
        }
    }

    /// State after the jump asked for by an undo has happened. A pending edit
    /// is handed to the local history (see `local_undone`); a pending creation
    /// is dropped and turns into a request to delete the design, marked as a
    /// consequence of undo rather than a user's decision.
    pub open spec fn finish_undo(self) -> HistoryModel {
        match self.pending_undo {
            None => self,
            Some(GlobalStep::Create(_)) => HistoryModel {
                pending_undo: None,
                undo: pop_last(self.undo),
                delete_from_undo: true,
                delete_requested: true,
                ..self
            },
            Some(_) => HistoryModel { pending_undo: None, ..self },
        }
    }

    /// State after the jump asked for by a redo has happened (a pending
    /// creation, which should never be there, is dropped).
    pub open spec fn finish_redo(self) -> HistoryModel {
        match self.pending_redo {
            None => self,
            Some(GlobalStep::Create(_)) => HistoryModel {
                pending_redo: None,
                redo: pop_last(self.redo),
                ..self
            },
            Some(_) => HistoryModel { pending_redo: None, ..self },
        }
    }

    /// The slot asked for by a pending undo no longer exists: its step is
    /// dropped.
    pub open spec fn discard_undo(self) -> HistoryModel {
        if self.pending_undo is Some {
            HistoryModel { pending_undo: None, undo: pop_last(self.undo), ..self }
        } else {
            self
        }
    }

    /// Symmetric to `discard_undo`.
    pub open spec fn discard_redo(self) -> HistoryModel {
        if self.pending_redo is Some {
            HistoryModel { pending_redo: None, redo: pop_last(self.redo), ..self }
        } else {
            self
        }
    }

    /// A command was applied to the active design: its creation goes first if
    /// it was still unrecorded, then the edit; anything that could be redone
    /// is forgotten.
    pub open spec fn record_edit(self) -> HistoryModel {
        let undo = if self.pending_creation {
            self.undo.push(GlobalStep::Create(self.active_slot))
        } else {
            self.undo
        };
        HistoryModel {
            undo: undo.push(GlobalStep::Edit(self.active_slot)),
            redo: Seq::empty(),
            pending_creation: false,
            ..self
        }
    }

    /// The user deleted a file: the deletion becomes an undoable step.
    pub open spec fn record_delete(self, record: DeleteRecord) -> HistoryModel {
        HistoryModel {
            undo: self.undo.push(GlobalStep::Delete(record)),
            redo: Seq::empty(),
            ..self
        }
    }
}

/// The session-wide undo/redo log.
#[derive(Debug)]
pub struct GlobalHistory {
    /// Undo stack, in the chronological order of the steps whatever design
    /// they came from.
    global_undo: Vec<GlobalStep>,
    /// Redo stack, symmetric to `global_undo`.
    global_redo: Vec<GlobalStep>,
    /// A requested undo step whose design is not the active one (or a
    /// creation): waits here until the jump to that design is done.
    pending_global_undo: Option<GlobalStep>,
    /// Symmetric to `pending_global_undo` for redo.
    pending_global_redo: Option<GlobalStep>,
    /// Undoing a deletion leaves here what to restore from the recycle bin.
    pending_restore: Option<DeleteRecord>,
    /// The active design was born blank in this session and its creation is
    /// not in the log yet: it is recorded on its first real edit.
    pending_creation: bool,
    /// Slot id of the design that is active now.
    active_slot_id: u64,
    /// Deleting the active design was requested.
    delete_requested: bool,
    /// The requested deletion is the consequence of undoing a creation, not
    /// the user's own decision: it must not become an undoable step itself.
    pending_delete_from_undo: bool,
    /// Last error, shown until dismissed.
    save_error: Option<String>,
}

impl View for GlobalHistory {
    type V = HistoryModel;

    closed spec fn view(&self) -> HistoryModel {
        HistoryModel {
            undo: self.global_undo@,
            redo: self.global_redo@,
            pending_undo: self.pending_global_undo,
            pending_redo: self.pending_global_redo,
            pending_restore: self.pending_restore,
            pending_creation: self.pending_creation,
            active_slot: self.active_slot_id,
            delete_requested: self.delete_requested,
            delete_from_undo: self.pending_delete_from_undo,
            error: match self.save_error {
                Some(e) => Some(e@),
                None => None,
            },
        }
    }
}

impl GlobalHistory {
    /// An empty log for the design in slot `active_slot_id`;
    /// `pending_creation` tells whether that design was just born blank.
    pub fn new(active_slot_id: u64, pending_creation: bool) -> (h: Self)
        ensures
            h@ == (HistoryModel {
                undo: Seq::empty(),
                redo: Seq::empty(),
                pending_undo: None,
                pending_redo: None,
                pending_restore: None,
                pending_creation,
                active_slot: active_slot_id,
                delete_requested: false,
                delete_from_undo: false,
                error: None,
            }),
            h@.wf(),
    {
        GlobalHistory {
            global_undo: Vec::new(),
            global_redo: Vec::new(),
            pending_global_undo: None,
            pending_global_redo: None,
            pending_restore: None,
            pending_creation,
            active_slot_id,
            delete_requested: false,
            pending_delete_from_undo: false,
            save_error: None,
        }
    }

    /// Is there anything to undo in the whole session?
    pub fn can_undo(&self) -> (b: bool)
        ensures
            b == self@.can_undo(),
    {
        self.global_undo.len() > 0
    }

    /// Is there anything to redo in the whole session?
    pub fn can_redo(&self) -> (b: bool)
        ensures
            b == self@.can_redo(),
    {
        self.global_redo.len() > 0
    }

    /// Asks to undo the newest step of the session (see
    /// `HistoryModel::request_undo`).
    pub fn undo(&mut self) -> (route: StepRoute)
        ensures
            route == old(self)@.undo_route(),
            final(self)@ == old(self)@.request_undo(),
    {
        let n = self.global_undo.len();
        if n == 0 {
            return StepRoute::Nothing;
        }
        let (is_delete, slot) = match &self.global_undo[n - 1] {
            GlobalStep::Edit(id) => (false, *id),
            GlobalStep::Create(id) => (false, *id),
            GlobalStep::Delete(_) => (true, 0),
        };
        if is_delete {
            let step = self.global_undo.pop();
            match step {
                Some(GlobalStep::Delete(record)) => {
                    self.pending_restore = Some(record);
                },
                _ => {},
            }
            StepRoute::Restore
        } else {
            let is_edit = match &self.global_undo[n - 1] {
                GlobalStep::Edit(_) => true,
                _ => false,
            };
            if is_edit && slot == self.active_slot_id {
                StepRoute::Local
            } else {
                let step = if is_edit {
                    GlobalStep::Edit(slot)
                } else {
                    GlobalStep::Create(slot)
                };
                self.pending_global_undo = Some(step);
                StepRoute::Jump(slot)
            }
        }
    }

    /// Asks to redo the newest undone step (see `HistoryModel::request_redo`).
    pub fn redo(&mut self) -> (route: StepRoute)
        ensures
            route == old(self)@.redo_route(),
            final(self)@ == old(self)@.request_redo(),
    {
        let n = self.global_redo.len();
        if n == 0 {
            return StepRoute::Nothing;
        }
        let (is_delete, is_edit, slot) = match &self.global_redo[n - 1] {
            GlobalStep::Edit(id) => (false, true, *id),
            GlobalStep::Create(id) => (false, false, *id),
            GlobalStep::Delete(_) => (true, false, 0),
        };
        if is_delete {
            self.global_redo.pop();
            StepRoute::Discarded
        } else if is_edit && slot == self.active_slot_id {
            StepRoute::Local
        } else {
            let step = if is_edit {
                GlobalStep::Edit(slot)
            } else {
                GlobalStep::Create(slot)
            };
            self.pending_global_redo = Some(step);
            StepRoute::Jump(slot)
        }
    }

    /// Carries out the undo or redo asked for from the keyboard, if any, and
    /// returns its route.
    pub fn apply_history_key(&mut self, key: Option<HistoryKey>) -> (route: Option<StepRoute>)
        ensures
            key is None ==> route is None && *final(self) == *old(self),
            key == Some(HistoryKey::Undo) ==> route == Some(old(self)@.undo_route())
                && final(self)@ == old(self)@.request_undo(),
            key == Some(HistoryKey::Redo) ==> route == Some(old(self)@.redo_route())
                && final(self)@ == old(self)@.request_redo(),
    {
        match key {
            Some(HistoryKey::Undo) => Some(self.undo()),
            Some(HistoryKey::Redo) => Some(self.redo()),
            None => None,
        }
    }

    /// Reports how the active design's local history fared on an undo that
    /// this log routed to it.
    pub fn complete_local_undo(&mut self, outcome: LocalOutcome)
        ensures
            final(self)@ == old(self)@.local_undone(outcome),
    {
        match outcome {
            LocalOutcome::Done => {
                self.global_undo.pop();
                self.global_redo.push(GlobalStep::Edit(self.active_slot_id));
            },
            LocalOutcome::Nothing => {},
            LocalOutcome::Failed(msg) => {
                let mut text = String::from_str("Undo failed: ");
                text.append(msg.as_str());
                self.save_error = Some(text);
                self.global_undo.pop();
            },
        }
        proof {
            reveal_strlit("Undo failed: ");
        }
    }

    /// Reports how the active design's local history fared on a redo that
    /// this log routed to it.
    pub fn complete_local_redo(&mut self, outcome: LocalOutcome)
        ensures
            final(self)@ == old(self)@.local_redone(outcome),
    {
        match outcome {
            LocalOutcome::Done => {
                self.global_redo.pop();
                self.global_undo.push(GlobalStep::Edit(self.active_slot_id));
            },
            LocalOutcome::Nothing => {},
            LocalOutcome::Failed(msg) => {
                let mut text = String::from_str("Redo failed: ");
                text.append(msg.as_str());
                self.save_error = Some(text);
                self.global_redo.pop();
            },
        }
        proof {
            reveal_strlit("Redo failed: ");
        }
    }

    /// Called once the design asked for by a pending undo is the active one.
    /// Returns whether the local history must now undo one command (then
    /// report with `complete_local_undo`).
    pub fn finish_pending_global_undo(&mut self) -> (run_local: bool)
        requires
            !(old(self)@.pending_undo matches Some(GlobalStep::Delete(_))),
        ensures
            final(self)@ == old(self)@.finish_undo(),
            run_local == (old(self)@.pending_undo matches Some(GlobalStep::Edit(_))),
    {
        let step = self.pending_global_undo.take();
        match step {
            None => false,
            Some(GlobalStep::Edit(_)) => true,
            Some(GlobalStep::Create(_)) => {
                self.global_undo.pop();
                self.pending_delete_from_undo = true;
                self.delete_requested = true;
                false
            },
            Some(GlobalStep::Delete(_)) => false,
        }
    }

    /// Called once the design asked for by a pending redo is the active one.
    /// Returns whether the local history must now redo one command (then
    /// report with `complete_local_redo`).
    pub fn finish_pending_global_redo(&mut self) -> (run_local: bool)
        requires
            !(old(self)@.pending_redo matches Some(GlobalStep::Delete(_))),
        ensures
            final(self)@ == old(self)@.finish_redo(),
            run_local == (old(self)@.pending_redo matches Some(GlobalStep::Edit(_))),
    {
        let step = self.pending_global_redo.take();
        match step {
            None => false,
            Some(GlobalStep::Edit(_)) => true,
            Some(GlobalStep::Create(_)) => {
                self.global_redo.pop();
                false
            },
            Some(GlobalStep::Delete(_)) => false,
        }
    }

    /// The design asked for by a pending undo no longer exists: drops that
    /// step, without chaining into the next one.
    pub fn discard_pending_global_undo(&mut self)
        ensures
            final(self)@ == old(self)@.discard_undo(),
    {
        if self.pending_global_undo.take().is_some() {
            self.global_undo.pop();
        }
    }

    /// Symmetric to `discard_pending_global_undo`.
    pub fn discard_pending_global_redo(&mut self)
        ensures
            final(self)@ == old(self)@.discard_redo(),
    {
        if self.pending_global_redo.take().is_some() {
            self.global_redo.pop();
        }
    }

    /// Records in the log the command just applied to the active design (see
    /// `HistoryModel::record_edit`).
    pub fn record_edit_step(&mut self)
        ensures
            final(self)@ == old(self)@.record_edit(),
    {
        if self.pending_creation {
            self.pending_creation = false;
            self.global_undo.push(GlobalStep::Create(self.active_slot_id));
        }
        self.global_undo.push(GlobalStep::Edit(self.active_slot_id));
        self.global_redo.clear();
    }

    /// Records a file deletion asked for by the user as an undoable step.
    pub fn record_delete(&mut self, record: DeleteRecord)
        ensures
            final(self)@ == old(self)@.record_delete(record),
    {
        self.global_undo.push(GlobalStep::Delete(record));
        self.global_redo.clear();
    }

    /// The step waiting for the jump to its design before it is undone.
    pub fn pending_global_undo(&self) -> (r: &Option<GlobalStep>)
        ensures
            *r == self@.pending_undo,
    {
        &self.pending_global_undo
    }

    /// The step waiting for the jump to its design before it is redone.
    pub fn pending_global_redo(&self) -> (r: &Option<GlobalStep>)
        ensures
            *r == self@.pending_redo,
    {
        &self.pending_global_redo
    }

    /// What undoing a deletion asked to restore, not yet restored.
    pub fn pending_restore(&self) -> (r: &Option<DeleteRecord>)
        ensures
            *r == self@.pending_restore,
    {
        &self.pending_restore
    }

    /// The caller restores the file: the request is handed over and cleared.
    pub fn take_pending_restore(&mut self) -> (r: Option<DeleteRecord>)
        ensures
            r == old(self)@.pending_restore,
            final(self)@ == (HistoryModel { pending_restore: None, ..old(self)@ }),
    {
        self.pending_restore.take()
    }

    /// Whether the active design was born blank and its creation is not in
    /// the log yet.
    pub fn pending_creation(&self) -> (b: bool)
        ensures
            b == self@.pending_creation,
    {
        self.pending_creation
    }

    /// Slot of the active design.
    pub fn active_slot_id(&self) -> (id: u64)
        ensures
            id == self@.active_slot,
    {
        self.active_slot_id
    }

    /// Whether deleting the active design was requested.
    pub fn delete_requested(&self) -> (b: bool)
        ensures
            b == self@.delete_requested,
    {
        self.delete_requested
    }

    /// Whether the requested deletion comes from undoing a creation (and so
    /// must not become an undoable step itself).
    pub fn pending_delete_from_undo(&self) -> (b: bool)
        ensures
            b == self@.delete_from_undo,
    {
        self.pending_delete_from_undo
    }

    /// The caller carries out the requested deletion: hands over whether it
    /// comes from undoing a creation (`None` when none was requested) and
    /// clears the request.
    pub fn take_delete_request(&mut self) -> (r: Option<bool>)
        ensures
            r == (if old(self)@.delete_requested {
                Some(old(self)@.delete_from_undo)
            } else {
                None::<bool>
            }),
            final(self)@ == (HistoryModel {
                delete_requested: false,
                delete_from_undo: false,
                ..old(self)@
            }),
    {
        let r = if self.delete_requested {
            Some(self.pending_delete_from_undo)
        } else {
            None
        };
        self.delete_requested = false;
        self.pending_delete_from_undo = false;
        r
    }

    /// The last error, shown until dismissed.
    pub fn save_error(&self) -> (r: &Option<String>)
        ensures
            match *r {
                Some(e) => self@.error == Some(e@),
                None => self@.error is None,
            },
    {
        &self.save_error
    }

    /// The error banner was dismissed.
    pub fn dismiss_error(&mut self)
        ensures
            final(self)@ == (HistoryModel { error: None, ..old(self)@ }),
    {
        self.save_error = None;
    }

    /// The deck switched its active design to the one in `slot`.
    pub fn set_active_slot(&mut self, slot: u64)
        ensures
            final(self)@ == old(self)@.with_active(slot),
    {
        self.active_slot_id = slot;
    }
}

impl HistoryModel {
    /// The same log after the deck switched its active design to `slot`.
    pub open spec fn with_active(self, slot: u64) -> HistoryModel {
        HistoryModel { active_slot: slot, ..self }
    }
}

/// Every operation of the log keeps its shape (see `HistoryModel::wf`).
pub proof fn lemma_operations_keep_wf(
    m: HistoryModel,
    outcome: LocalOutcome,
    record: DeleteRecord,
    slot: u64,
)
    requires
        m.wf(),
    ensures
        m.request_undo().wf(),
        m.request_redo().wf(),
        m.local_undone(outcome).wf(),
        m.local_redone(outcome).wf(),
        m.finish_undo().wf(),
        m.finish_redo().wf(),
        m.discard_undo().wf(),
        m.discard_redo().wf(),
        m.record_edit().wf(),
        m.record_delete(record).wf(),
        m.with_active(slot).wf(),
{
    if m.redo.len() > 0 {
        assert(is_edit(m.redo[m.redo.len() - 1]));
    }
    let d = m.local_undone(outcome);
    assert forall|i: int| 0 <= i < d.redo.len() implies #[trigger] is_edit(d.redo[i]) by {
        if outcome is Done && i == m.redo.len() {
        } else {
            assert(is_edit(m.redo[i]));
        }
    }
    let e = m.local_redone(outcome);
    assert forall|i: int| 0 <= i < e.redo.len() implies #[trigger] is_edit(e.redo[i]) by {
        assert(is_edit(m.redo[i]));
    }
    let f = m.finish_redo();
    assert forall|i: int| 0 <= i < f.redo.len() implies #[trigger] is_edit(f.redo[i]) by {
        assert(is_edit(m.redo[i]));
    }
    let g = m.discard_redo();
    assert forall|i: int| 0 <= i < g.redo.len() implies #[trigger] is_edit(g.redo[i]) by {
        assert(is_edit(m.redo[i]));
    }
    let h = m.request_redo();
    assert forall|i: int| 0 <= i < h.redo.len() implies #[trigger] is_edit(h.redo[i]) by {
        assert(is_edit(m.redo[i]));
    }
}

/// Undoing an edit of the active design and redoing it again, with the
/// local history succeeding both times, gives back exactly the log it
/// started from; the undone step is the one waiting on top of the redo stack
/// in between.
pub proof fn lemma_local_undo_redo_round_trip(m: HistoryModel)
    requires
        m.undo.len() > 0,
        m.undo.last() == GlobalStep::Edit(m.active_slot),
    ensures
        m.undo_route() == StepRoute::Local,
        m.request_undo() == m,
        m.local_undone(LocalOutcome::Done).redo.last() == GlobalStep::Edit(m.active_slot),
        m.local_undone(LocalOutcome::Done).redo_route() == StepRoute::Local,
        m.local_undone(LocalOutcome::Done).request_redo() == m.local_undone(LocalOutcome::Done),
        m.local_undone(LocalOutcome::Done).local_redone(LocalOutcome::Done) == m,
{
    let m1 = m.local_undone(LocalOutcome::Done);
    let m2 = m1.local_redone(LocalOutcome::Done);
    assert(m2.undo =~= m.undo);
    assert(m2.redo =~= m.redo);
}

/// A step that belongs to another design is not undone on the spot: the
/// undo asks for a jump to that design, and once the deck has switched to
/// it, the step is undone there and moves to the redo stack. Redoing it from
/// that design restores the log as it was right after the jump.
pub proof fn lemma_cross_design_undo_redo(m: HistoryModel, slot: u64)
    requires
        m.undo.len() > 0,
        m.undo.last() == GlobalStep::Edit(slot),
        slot != m.active_slot,
        m.pending_undo is None,
    ensures
        m.undo_route() == StepRoute::Jump(slot),
        m.request_undo().undo == m.undo,
        m.request_undo().redo == m.redo,
        m.request_undo().pending_undo == Some(GlobalStep::Edit(slot)),
        m.request_undo().with_active(slot).finish_undo() == m.with_active(slot),
        m.with_active(slot).local_undone(LocalOutcome::Done).undo == m.undo.drop_last(),
        m.with_active(slot).local_undone(LocalOutcome::Done).redo == m.redo.push(
            GlobalStep::Edit(slot),
        ),
        m.with_active(slot).local_undone(LocalOutcome::Done).local_redone(LocalOutcome::Done)
            == m.with_active(slot),
{
    let a = m.with_active(slot);
    let m1 = a.local_undone(LocalOutcome::Done);
    let m2 = m1.local_redone(LocalOutcome::Done);
    assert(m2.undo =~= a.undo);
    assert(m2.redo =~= a.redo);
}

/// A design born blank has nothing to undo until its first real edit; that
/// edit records the creation first and the edit on top, so the first undo
/// reverts only the edit and the second one asks to delete the design,
/// marking that deletion as a consequence of undo.
pub proof fn lemma_creation_is_recorded_on_first_edit(m: HistoryModel)
    requires
        m.undo.len() == 0,
        m.pending_creation,
        m.pending_undo is None,
    ensures
        !m.can_undo(),
        m.record_edit().undo == seq![GlobalStep::Create(m.active_slot), GlobalStep::Edit(m.active_slot)],
        !m.record_edit().pending_creation,
        m.record_edit().undo_route() == StepRoute::Local,
        ({
            let after_edit = m.record_edit().local_undone(LocalOutcome::Done);
            &&& after_edit.undo == seq![GlobalStep::Create(m.active_slot)]
            &&& after_edit.undo_route() == StepRoute::Jump(m.active_slot)
            &&& after_edit.request_undo().pending_undo == Some(GlobalStep::Create(m.active_slot))
            &&& after_edit.request_undo().finish_undo().delete_requested
            &&& after_edit.request_undo().finish_undo().delete_from_undo
            &&& !after_edit.request_undo().finish_undo().can_undo()
        }),
{
    let e = m.record_edit();
    assert(e.undo =~= seq![GlobalStep::Create(m.active_slot), GlobalStep::Edit(m.active_slot)]);
    let u = e.local_undone(LocalOutcome::Done);
    assert(u.undo =~= seq![GlobalStep::Create(m.active_slot)]);
    let f = u.request_undo().finish_undo();
    assert(f.undo =~= Seq::<GlobalStep>::empty());
}

/// Undoing a file deletion is resolved at once: the record to restore is
/// handed over, the step leaves the undo stack, and nothing is left to redo
/// for it.
pub proof fn lemma_undoing_a_deletion_requests_a_restore(m: HistoryModel, record: DeleteRecord)
    ensures
        m.record_delete(record).undo_route() == StepRoute::Restore,
        m.record_delete(record).request_undo().pending_restore == Some(record),
        m.record_delete(record).request_undo().undo == m.undo,
        !m.record_delete(record).request_undo().can_redo(),
{
    let r = m.record_delete(record).request_undo();
    assert(r.undo =~= m.undo);
}

/// Any new edit or deletion forgets what could be redone.
pub proof fn lemma_recording_clears_redo(m: HistoryModel, record: DeleteRecord)
    ensures
        !m.record_edit().can_redo(),
        !m.record_delete(record).can_redo(),
        m.record_edit().can_undo(),
        m.record_delete(record).can_undo(),
{
}

/// A request that finds nothing to undo (redo) changes nothing.
pub proof fn lemma_empty_requests_are_noops(m: HistoryModel)
    ensures
        !m.can_undo() ==> m.request_undo() == m && m.undo_route() == StepRoute::Nothing,
        !m.can_redo() ==> m.request_redo() == m && m.redo_route() == StepRoute::Nothing,
{
}

/// Redo mirrors undo across designs: a redo step of another design asks for
/// a jump there and, once the deck has switched, is redone there and goes
/// back on the undo stack; a redo step of the active design is redone on the
/// spot; a deletion found on the redo stack is dropped, never redone.
pub proof fn lemma_cross_design_redo(m: HistoryModel, slot: u64, record: DeleteRecord)
    requires
        m.redo.len() > 0,
        m.pending_redo is None,
    ensures
        m.redo.last() == GlobalStep::Edit(slot) && slot != m.active_slot ==> {
            &&& m.redo_route() == StepRoute::Jump(slot)
            &&& m.request_redo().pending_redo == Some(GlobalStep::Edit(slot))
            &&& m.request_redo().redo == m.redo && m.request_redo().undo == m.undo
            &&& m.request_redo().with_active(slot).finish_redo() == m.with_active(slot)
            &&& m.with_active(slot).local_redone(LocalOutcome::Done).undo == m.undo.push(
                GlobalStep::Edit(slot),
            )
            &&& m.with_active(slot).local_redone(LocalOutcome::Done).redo == m.redo.drop_last()
        },
        m.redo.last() == GlobalStep::Edit(m.active_slot) ==> m.redo_route() == StepRoute::Local
            && m.request_redo() == m,
        m.redo.last() == GlobalStep::Delete(record) ==> m.redo_route() == StepRoute::Discarded
            && m.request_redo().redo == m.redo.drop_last() && m.request_redo().undo == m.undo,
{
}

/// A local undo or redo that fails drops its step, leaves the other stack
/// alone and reports the failure with the message it gave; one that found
/// nothing to do changes nothing.
pub proof fn lemma_failed_local_steps(m: HistoryModel, msg: String)
    ensures
        m.local_undone(LocalOutcome::Failed(msg)).undo == pop_last(m.undo),
        m.local_undone(LocalOutcome::Failed(msg)).redo == m.redo,
        m.local_undone(LocalOutcome::Failed(msg)).error == Some("Undo failed: "@ + msg@),
        m.local_redone(LocalOutcome::Failed(msg)).redo == pop_last(m.redo),
        m.local_redone(LocalOutcome::Failed(msg)).undo == m.undo,
        m.local_redone(LocalOutcome::Failed(msg)).error == Some("Redo failed: "@ + msg@),
        m.local_undone(LocalOutcome::Nothing) == m,
        m.local_redone(LocalOutcome::Nothing) == m,
{
}

} // verus!
