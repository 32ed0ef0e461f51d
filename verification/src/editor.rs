//! Session state of the editor that the panels and shortcuts read and
//! change: the flags set by buttons, the rename fields, the viewport's fit
//! mode and the session-wide undo/redo log. The document, its images and
//! its local command history are kept by the caller.

use vstd::prelude::*;
use crate::camera::{AutoFit, ViewportMode};
use crate::global_history::{GlobalHistory, HistoryModel, StepRoute};
use crate::shortcuts::{
    plan_shortcuts, spec_plan, DeckNav, HistoryKey, ShortcutKeys, ShortcutPlan,
};
use crate::text::{rename_target, spec_rename_target};

verus! {

/// What one frame's shortcuts did, and what is left for the caller.
#[derive(Clone, Copy, PartialEq, Eq, Debug, Structural)]
pub struct ShortcutOutcome {
    /// The actions the keys asked for.
    pub plan: ShortcutPlan,
    /// Route of the undo or redo that was requested, if one was.
    pub route: Option<StepRoute>,
}

/// Session state of the editor that the library's rules govern.
#[derive(Debug)]
pub struct EditorState {
    /// Write the `.canvas` sidecar when saving.
    pub sidecar_enabled: bool,
    /// The document is a standalone `.canvas` design.
    pub is_design: bool,
    /// Born blank and never saved: its first save skips the overwrite prompt.
    pub born_blank: bool,
    /// Ctrl+\ asked to fold or unfold the layers panel.
    pub layers_panel_toggle: bool,
    /// Layer rename in progress: layer id, editable text, original name.
    pub rename_edit: Option<(u64, String, String)>,
    /// Rename of the open file in progress: the editable base name.
    pub file_rename_edit: Option<String>,
    /// New base name confirmed for the open file, to be applied on disk.
    pub file_rename_requested: Option<String>,
    /// Layer whose text or shape content is being edited in the panel.
    pub content_edit: Option<u64>,
    /// Jump to another canvas of the deck asked for from the keyboard.
    pub deck_nav: Option<DeckNav>,
    /// Automatic-fit state of the viewport.
    pub viewport: ViewportMode,
    /// Session-wide undo/redo across the designs of the deck.
    pub global: GlobalHistory,
}

impl EditorState {
    /// State shared by every way an editor starts: nothing pending, the
    /// sidecar on, a viewport that asks to be fitted, an empty session log.
    pub open spec fn is_base(s: EditorState, pending_creation: bool) -> bool {
        &&& s.sidecar_enabled
        &&& !s.layers_panel_toggle
        &&& s.rename_edit is None
        &&& s.file_rename_edit is None
        &&& s.file_rename_requested is None
        &&& s.content_edit is None
        &&& s.deck_nav is None
        &&& s.viewport.needs_fit
        &&& s.viewport.auto_fit == AutoFit::Active
        &&& s.global@ == (HistoryModel {
            undo: Seq::empty(),
            redo: Seq::empty(),
            pending_undo: None,
            pending_redo: None,
            pending_restore: None,
            pending_creation,
            active_slot: 0,
            delete_requested: false,
            delete_from_undo: false,
            error: None,
        })
    }

    fn base(is_design: bool, born_blank: bool) -> (s: Self)
        ensures
            Self::is_base(s, born_blank),
            s.is_design == is_design,
            s.born_blank == born_blank,
    {
        EditorState {
            sidecar_enabled: true,
            is_design,
            born_blank,
            layers_panel_toggle: false,
            rename_edit: None,
            file_rename_edit: None,
            file_rename_requested: None,
            content_edit: None,
            deck_nav: None,
            viewport: ViewportMode::new(),
            global: GlobalHistory::new(0, born_blank),
        }
    }

    /// Session state of an editor opened on an image file, or on an image
    /// restored with its `.canvas` sidecar.
    pub fn from_image() -> (s: Self)
        ensures
            Self::is_base(s, false),
            !s.is_design,
            !s.born_blank,
    {
        Self::base(false, false)
    }

    /// Session state of an editor opened on a standalone `.canvas` design.
    pub fn from_design() -> (s: Self)
        ensures
            Self::is_base(s, false),
            s.is_design,
            !s.born_blank,
    {
        Self::base(true, false)
    }

    /// Session state of a new blank design: it is a standalone design, born
    /// blank, and its creation is recorded on its first edit.
    pub fn new_blank() -> (s: Self)
        ensures
            Self::is_base(s, true),
            s.is_design,
            s.born_blank,
            !s.global@.can_undo(),
    {
        Self::base(true, true)
    }

    /// Session state of a new blank image backed by a raster file: born
    /// blank, sidecar forced on, creation recorded on its first edit.
    pub fn new_blank_image() -> (s: Self)
        ensures
            Self::is_base(s, true),
            !s.is_design,
            s.born_blank,
            s.sidecar_enabled,
            !s.global@.can_undo(),
    {
        Self::base(false, true)
    }

    /// Is anything to undo in the whole session?
    pub fn can_undo(&self) -> (b: bool)
        ensures
            b == self.global@.can_undo(),
    {
        self.global.can_undo()
    }

    /// Is anything to redo in the whole session?
    pub fn can_redo(&self) -> (b: bool)
        ensures
            b == self.global@.can_redo(),
    {
        self.global.can_redo()
    }

    /// Asks to undo the newest step of the session (see
    /// `GlobalHistory::undo`).
    pub fn undo(&mut self) -> (route: StepRoute)
        ensures
            route == old(self).global@.undo_route(),
            final(self).global@ == old(self).global@.request_undo(),
            *final(self) == (EditorState { global: final(self).global, ..*old(self) }),
    {
        self.global.undo()
    }

    /// Asks to redo the newest undone step (see `GlobalHistory::redo`).
    pub fn redo(&mut self) -> (route: StepRoute)
        ensures
            route == old(self).global@.redo_route(),
            final(self).global@ == old(self).global@.request_redo(),
            *final(self) == (EditorState { global: final(self).global, ..*old(self) }),
    {
        self.global.redo()
    }

    /// Is one of the editor's own text fields being edited (a layer rename,
    /// the file rename, a text layer's content, or a canvas rename of the
    /// deck)? Then Ctrl+Z/Ctrl+Y belong to that field.
    pub open spec fn spec_editing_own_text(&self, deck_renaming: bool) -> bool {
        self.rename_edit is Some || self.file_rename_edit is Some || self.content_edit is Some
            || deck_renaming
    }

    pub fn editing_own_text(&self, deck_renaming: bool) -> (b: bool)
        ensures
            b == self.spec_editing_own_text(deck_renaming),
    {
        self.rename_edit.is_some() || self.file_rename_edit.is_some()
            || self.content_edit.is_some() || deck_renaming
    }

    /// Applies one frame's keyboard shortcuts: decides the plan (see
    /// `spec_plan`), carries out undo or redo on the session log, folds or
    /// unfolds the layers panel, records the deck jump; the layer operations
    /// (group, clipboard, duplicate, select all, delete) are returned for
    /// the caller to carry out.
    pub fn handle_shortcuts(&mut self, keys: ShortcutKeys, paste_requested: bool, deck_renaming: bool) -> (out:
        ShortcutOutcome)
        ensures
            out.plan == spec_plan(
                old(self).spec_editing_own_text(deck_renaming),
                keys,
                paste_requested,
            ),
            out.plan.history is None ==> out.route is None && final(self).global == old(
                self,
            ).global,
            (old(self).rename_edit is Some || old(self).file_rename_edit is Some || old(
                self,
            ).content_edit is Some || deck_renaming) ==> out.plan.history is None
                && out.route is None && final(self).global == old(self).global,
            out.plan.history == Some(HistoryKey::Undo) ==> out.route == Some(
                old(self).global@.undo_route(),
            ) && final(self).global@ == old(self).global@.request_undo(),
            out.plan.history == Some(HistoryKey::Redo) ==> out.route == Some(
                old(self).global@.redo_route(),
            ) && final(self).global@ == old(self).global@.request_redo(),
            final(self).layers_panel_toggle == (old(self).layers_panel_toggle
                != out.plan.toggle_layers_panel),
            final(self).deck_nav == (if out.plan.deck_nav is Some {
                out.plan.deck_nav
            } else {
                old(self).deck_nav
            }),
            *final(self) == (EditorState {
                global: final(self).global,
                layers_panel_toggle: final(self).layers_panel_toggle,
                deck_nav: final(self).deck_nav,
                ..*old(self)
            }),
    {
        let editing = self.editing_own_text(deck_renaming);
        let plan = plan_shortcuts(editing, keys, paste_requested);
        let toggle = self.layers_panel_toggle != plan.toggle_layers_panel;
        let nav = match plan.deck_nav {
            Some(n) => Some(n),
            None => self.deck_nav,
        };
        let route = self.global.apply_history_key(plan.history);
        self.layers_panel_toggle = toggle;
        self.deck_nav = nav;
        ShortcutOutcome { plan, route }
    }

    /// Starts renaming the open file, with its current base name.
    pub fn start_file_rename(&mut self, stem: String)
        ensures
            final(self).file_rename_edit == Some(stem),
            final(self).file_rename_requested == old(self).file_rename_requested,
            *final(self) == (EditorState {
                file_rename_edit: final(self).file_rename_edit,
                file_rename_requested: final(self).file_rename_requested,
                ..*old(self)
            }),
    {
        self.file_rename_edit = Some(stem);
    }

    /// Escape in the file rename field: the rename is abandoned.
    pub fn cancel_file_rename(&mut self)
        ensures
            final(self).file_rename_edit is None,
            final(self).file_rename_requested == old(self).file_rename_requested,
            *final(self) == (EditorState {
                file_rename_edit: final(self).file_rename_edit,
                file_rename_requested: final(self).file_rename_requested,
                ..*old(self)
            }),
    {
        self.file_rename_edit = None;
    }

    /// The file rename field lost the focus: the rename ends and, if the
    /// trimmed text is a new non-empty base name (`original` is the current
    /// one), it is requested.
    pub fn commit_file_rename(&mut self, original: &str)
        ensures
            final(self).file_rename_edit is None,
            old(self).file_rename_edit matches Some(text) ==> match spec_rename_target(
                text@,
                original@,
            ) {
                Some(t) => final(self).file_rename_requested matches Some(r) && r@ == t,
                None => final(self).file_rename_requested == old(self).file_rename_requested,
            },
            old(self).file_rename_edit is None ==> final(self).file_rename_requested == old(
                self,
            ).file_rename_requested,
            *final(self) == (EditorState {
                file_rename_edit: final(self).file_rename_edit,
                file_rename_requested: final(self).file_rename_requested,
                ..*old(self)
            }),
    {
        let edit = self.file_rename_edit.take();
        let target = match &edit {
            Some(text) => rename_target(text.as_str(), original),
            None => None,
        };
        if target.is_some() {
            self.file_rename_requested = target;
        }
    }
}

/// While one of the editor's own text fields is being edited (a layer or
/// file rename, a text layer's content, a canvas rename of the deck),
/// Ctrl+Z, Ctrl+Shift+Z and Ctrl+Y belong to that field: no undo or redo is
/// asked for, whatever keys are pressed. Otherwise Ctrl+Shift+Z or Ctrl+Y
/// redoes and Ctrl+Z alone undoes.
pub proof fn lemma_own_text_fields_keep_undo(
    s: EditorState,
    keys: ShortcutKeys,
    paste_requested: bool,
    deck_renaming: bool,
)
    ensures
        (s.rename_edit is Some || s.file_rename_edit is Some || s.content_edit is Some
            || deck_renaming) ==> spec_plan(
            s.spec_editing_own_text(deck_renaming),
            keys,
            paste_requested,
        ).history is None,
        (s.rename_edit is None && s.file_rename_edit is None && s.content_edit is None
            && !deck_renaming) ==> {
            let h = spec_plan(s.spec_editing_own_text(deck_renaming), keys, paste_requested).history;
            &&& (keys.ctrl_shift_z || keys.ctrl_y ==> h == Some(HistoryKey::Redo))
            &&& (!keys.ctrl_shift_z && !keys.ctrl_y && keys.ctrl_z ==> h == Some(HistoryKey::Undo))
            &&& (!keys.ctrl_shift_z && !keys.ctrl_y && !keys.ctrl_z ==> h is None)
        },
{
}

} // verus!
