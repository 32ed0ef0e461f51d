use canvas_app::editor::EditorState;
use canvas_app::global_history::{DeleteRecord, GlobalStep, LocalOutcome, StepRoute};

/// The active design's local history, as the tests drive it: a layer whose
/// name changes by undoable renames.
struct Local {
    name: String,
    undo: Vec<(String, String)>,
    redo: Vec<(String, String)>,
}

impl Local {
    fn new(name: &str) -> Self {
        Local { name: name.to_string(), undo: Vec::new(), redo: Vec::new() }
    }

    fn undo(&mut self) -> LocalOutcome {
        match self.undo.pop() {
            Some((before, after)) => {
                self.name = before.clone();
                self.redo.push((before, after));
                LocalOutcome::Done
            }
            None => LocalOutcome::Nothing,
        }
    }

    fn redo(&mut self) -> LocalOutcome {
        match self.redo.pop() {
            Some((before, after)) => {
                self.name = after.clone();
                self.undo.push((before, after));
                LocalOutcome::Done
            }
            None => LocalOutcome::Nothing,
        }
    }
}

/// Renames the layer and records the step, as `push_undo_step` does.
fn rename(state: &mut EditorState, local: &mut Local, before: &str, after: &str) {
    local.name = after.to_string();
    local.undo.push((before.to_string(), after.to_string()));
    local.redo.clear();
    state.global.record_edit_step();
}

/// Ctrl+Z: an edit of the active design is undone on the spot.
fn undo(state: &mut EditorState, local: &mut Local) -> StepRoute {
    let route = state.undo();
    if route == StepRoute::Local {
        let outcome = local.undo();
        state.global.complete_local_undo(outcome);
    }
    route
}

fn redo(state: &mut EditorState, local: &mut Local) -> StepRoute {
    let route = state.redo();
    if route == StepRoute::Local {
        let outcome = local.redo();
        state.global.complete_local_redo(outcome);
    }
    route
}

/// The deck finished the jump that a pending undo asked for.
fn finish_undo(state: &mut EditorState, local: &mut Local) {
    if state.global.finish_pending_global_undo() {
        let outcome = local.undo();
        state.global.complete_local_undo(outcome);
    }
}

fn finish_redo(state: &mut EditorState, local: &mut Local) {
    if state.global.finish_pending_global_redo() {
        let outcome = local.redo();
        state.global.complete_local_redo(outcome);
    }
}

#[test]
fn undoing_a_delete_step_requests_a_restore_without_touching_redo() {
    let mut state = EditorState::from_image();
    let record = DeleteRecord {
        path: "C:/photos/cat.png".to_string(),
        sidecar: Some("C:/photos/.canvas/cat.png.canvas".to_string()),
    };
    state.global.record_delete(record.clone());
    assert!(state.can_undo());

    assert_eq!(state.undo(), StepRoute::Restore);

    assert_eq!(state.global.pending_restore(), &Some(record.clone()));
    assert_eq!(state.global.take_pending_restore(), Some(record));
    assert_eq!(state.global.pending_restore(), &None);
    assert!(!state.can_undo(), "el paso de borrado ya se resolvió");
    assert!(!state.can_redo(), "deshacer un borrado no deja nada que rehacer");
}

#[test]
fn finishing_a_pending_create_undo_marks_the_delete_as_not_user_initiated() {
    let mut state = EditorState::new_blank();
    let mut local = Local::new("a");
    state.global.set_active_slot(1);
    rename(&mut state, &mut local, "a", "b");
    undo(&mut state, &mut local);
    // The creation is what is left: undoing it waits for the jump to slot 1.
    assert_eq!(state.undo(), StepRoute::Jump(1));
    assert_eq!(state.global.pending_global_undo(), &Some(GlobalStep::Create(1)));

    assert!(!state.global.pending_delete_from_undo());
    assert!(!state.global.finish_pending_global_undo());

    assert!(state.global.delete_requested());
    assert!(state.global.pending_delete_from_undo());
    assert_eq!(state.global.take_delete_request(), Some(true));
    assert!(!state.global.delete_requested());
    assert_eq!(state.global.take_delete_request(), None);
}

#[test]
fn a_freshly_created_canvas_has_nothing_to_undo_until_its_first_edit() {
    let state = EditorState::new_blank();
    assert!(state.global.pending_creation());
    assert!(!state.can_undo());
}

#[test]
fn first_edit_of_a_freshly_created_canvas_records_its_creation_too() {
    let mut state = EditorState::new_blank();
    let mut local = Local::new("a");
    state.global.set_active_slot(2);

    rename(&mut state, &mut local, "a", "b");
    assert!(!state.global.pending_creation(), "se consume en la primera edición real");

    // Ctrl+Z #1: undoes only the edit; the slot stays alive.
    undo(&mut state, &mut local);
    assert!(state.global.pending_global_undo().is_none());
    assert_eq!(local.name, "a");
    assert!(!state.global.delete_requested());
    assert!(state.can_undo(), "todavía queda el paso de creación por deshacer");

    // Ctrl+Z #2: now it asks to delete the whole slot.
    assert_eq!(undo(&mut state, &mut local), StepRoute::Jump(2));
    assert_eq!(state.global.pending_global_undo(), &Some(GlobalStep::Create(2)));
    finish_undo(&mut state, &mut local);
    assert!(state.global.delete_requested(), "debe pedir borrar la ranura recién creada");
    assert!(!state.can_undo(), "crear no deja nada más que deshacer detrás");
}

#[test]
fn global_undo_and_redo_replay_steps_in_true_chronological_order_across_designs() {
    let mut state = EditorState::from_image();
    let mut local = Local::new("a");

    state.global.set_active_slot(1);
    rename(&mut state, &mut local, "a", "b"); // design 1
    state.global.set_active_slot(3);
    rename(&mut state, &mut local, "b", "c"); // design 3
    state.global.set_active_slot(1);
    rename(&mut state, &mut local, "c", "d"); // design 1 again

    // The newest step belongs to the active design (1): undone on the spot.
    undo(&mut state, &mut local);
    assert!(state.global.pending_global_undo().is_none());
    assert_eq!(local.name, "c");

    // The next one belongs to design 3: a jump is asked for, nothing undone yet.
    undo(&mut state, &mut local);
    assert_eq!(state.global.pending_global_undo(), &Some(GlobalStep::Edit(3)));
    assert_eq!(local.name, "c");

    state.global.set_active_slot(3);
    finish_undo(&mut state, &mut local);
    assert_eq!(local.name, "b");

    undo(&mut state, &mut local);
    assert_eq!(state.global.pending_global_undo(), &Some(GlobalStep::Edit(1)));
    state.global.set_active_slot(1);
    finish_undo(&mut state, &mut local);
    assert_eq!(local.name, "a");
    assert!(!state.can_undo());

    // Redo replays the same crossing in the other direction.
    redo(&mut state, &mut local);
    assert_eq!(local.name, "b");
    redo(&mut state, &mut local);
    assert_eq!(state.global.pending_global_redo(), &Some(GlobalStep::Edit(3)));
    state.global.set_active_slot(3);
    finish_redo(&mut state, &mut local);
    assert_eq!(local.name, "c");
    redo(&mut state, &mut local);
    assert_eq!(state.global.pending_global_redo(), &Some(GlobalStep::Edit(1)));
    state.global.set_active_slot(1);
    finish_redo(&mut state, &mut local);
    assert_eq!(local.name, "d");
    assert!(!state.can_redo());
}

#[test]
fn a_failed_local_undo_drops_the_step_and_reports_the_error() {
    let mut state = EditorState::new_blank();
    state.global.record_edit_step();
    assert_eq!(state.undo(), StepRoute::Local);
    state.global.complete_local_undo(LocalOutcome::Failed("disk full".to_string()));
    assert_eq!(state.global.save_error(), &Some("Undo failed: disk full".to_string()));
    state.global.dismiss_error();
    assert_eq!(state.global.save_error(), &None);
    assert!(!state.can_redo());
    // Only the creation step is left.
    assert_eq!(state.undo(), StepRoute::Jump(0));
}

#[test]
fn a_failed_local_redo_drops_the_step_and_reports_the_error() {
    let mut state = EditorState::from_image();
    state.global.record_edit_step();
    assert_eq!(state.undo(), StepRoute::Local);
    state.global.complete_local_undo(LocalOutcome::Done);
    assert!(state.can_redo());
    assert_eq!(state.redo(), StepRoute::Local);
    state.global.complete_local_redo(LocalOutcome::Failed("bad".to_string()));
    assert_eq!(state.global.save_error(), &Some("Redo failed: bad".to_string()));
    assert!(!state.can_redo());
    assert!(!state.can_undo());
}

#[test]
fn a_local_history_with_nothing_to_undo_leaves_the_log_alone() {
    let mut state = EditorState::from_image();
    state.global.record_edit_step();
    assert_eq!(state.undo(), StepRoute::Local);
    state.global.complete_local_undo(LocalOutcome::Nothing);
    assert!(state.can_undo());
    assert!(!state.can_redo());
}

#[test]
fn a_new_edit_forgets_what_could_be_redone() {
    let mut state = EditorState::from_image();
    let mut local = Local::new("a");
    rename(&mut state, &mut local, "a", "b");
    undo(&mut state, &mut local);
    assert!(state.can_redo());
    rename(&mut state, &mut local, "a", "c");
    assert!(!state.can_redo());
    state.global.record_delete(DeleteRecord { path: "x".to_string(), sidecar: None });
    assert!(!state.can_redo());
}

#[test]
fn a_pending_step_whose_design_is_gone_is_discarded() {
    let mut state = EditorState::from_image();
    state.global.set_active_slot(4);
    state.global.record_edit_step();
    state.global.set_active_slot(5);
    assert_eq!(state.undo(), StepRoute::Jump(4));
    state.global.discard_pending_global_undo();
    assert!(state.global.pending_global_undo().is_none());
    assert!(!state.can_undo());
    // Discarding with nothing pending changes nothing.
    state.global.discard_pending_global_redo();
    assert!(!state.can_redo());
}

#[test]
fn nothing_to_undo_or_redo_is_reported_as_such() {
    let mut state = EditorState::from_design();
    assert_eq!(state.undo(), StepRoute::Nothing);
    assert_eq!(state.redo(), StepRoute::Nothing);
    assert!(state.is_design);
}

#[test]
fn slot_id_of_edit_and_create_steps() {
    assert_eq!(GlobalStep::Edit(7).slot_id(), 7);
    assert_eq!(GlobalStep::Create(9).slot_id(), 9);
}
