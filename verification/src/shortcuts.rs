//! Keyboard shortcuts of the editor: which actions the keys pressed in one
//! frame ask for. The more specific combination always wins over the more
//! general one (Ctrl+Shift+Z over Ctrl+Z, Ctrl+Shift+G over Ctrl+G).

use vstd::prelude::*;

verus! {

/// Direction of a jump between the canvases of the deck, asked for from the
/// keyboard.
#[derive(Clone, Copy, PartialEq, Eq, Debug, Structural)]
pub enum DeckNav {
    Next,
    Prev,
    First,
    Last,
}

/// Undo or redo asked for from the keyboard.
#[derive(Clone, Copy, PartialEq, Eq, Debug, Structural)]
pub enum HistoryKey {
    Undo,
    Redo,
}

/// The key combinations pressed in one frame.
#[derive(Clone, Copy, PartialEq, Eq, Debug, Structural)]
pub struct ShortcutKeys {
    /// Ctrl+Shift+Z.
    pub ctrl_shift_z: bool,
    /// Ctrl+Y.
    pub ctrl_y: bool,
    /// Ctrl+Z.
    pub ctrl_z: bool,
    /// Some text field of the window has the keyboard focus.
    pub text_edit_focused: bool,
    /// Ctrl+Shift+G.
    pub ctrl_shift_g: bool,
    /// Ctrl+G.
    pub ctrl_g: bool,
    /// Ctrl+\.
    pub ctrl_backslash: bool,
    /// The system's cut event (Ctrl+X).
    pub cut: bool,
    /// The system's copy event (Ctrl+C).
    pub copy: bool,
    /// The system's paste event (Ctrl+V).
    pub paste: bool,
    /// Ctrl+D.
    pub ctrl_d: bool,
    /// Ctrl+A.
    pub ctrl_a: bool,
    /// Delete.
    pub delete: bool,
    /// Backspace.
    pub backspace: bool,
    /// PageDown or Ctrl+PageDown.
    pub page_down: bool,
    /// PageUp or Ctrl+PageUp.
    pub page_up: bool,
    /// Home.
    pub home: bool,
    /// End.
    pub end: bool,
}

/// The actions that the keys of one frame ask for.
#[derive(Clone, Copy, PartialEq, Eq, Debug, Structural)]
pub struct ShortcutPlan {
    pub history: Option<HistoryKey>,
    pub ungroup: bool,
    pub group: bool,
    pub toggle_layers_panel: bool,
    pub cut: bool,
    pub copy: bool,
    pub paste: bool,
    pub duplicate: bool,
    pub select_all: bool,
    pub delete: bool,
    pub deck_nav: Option<DeckNav>,
}

/// Undo/redo is decided apart, with its own guard: while the editor's own
/// text fields (renaming a layer, the file or a canvas, editing a text layer)
/// are being edited, Ctrl+Z/Ctrl+Y are theirs. Redo wins over undo.
pub open spec fn spec_history_key(editing_own_text: bool, keys: ShortcutKeys) -> Option<HistoryKey> {
    if editing_own_text {
        None
    } else if keys.ctrl_shift_z || keys.ctrl_y {
        Some(HistoryKey::Redo)
    } else if keys.ctrl_z {
        Some(HistoryKey::Undo)
    } else {
        None
    }
}

/// Jump between canvases: next, previous, first, last, in that priority.
pub open spec fn spec_deck_nav(keys: ShortcutKeys) -> Option<DeckNav> {
    if keys.page_down {
        Some(DeckNav::Next)
    } else if keys.page_up {
        Some(DeckNav::Prev)
    } else if keys.home {
        Some(DeckNav::First)
    } else if keys.end {
        Some(DeckNav::Last)
    } else {
        None
    }
}

/// Every shortcut but undo/redo yields to a focused text field of the
/// window; paste is also asked for by the system hook (`paste_requested`).
pub open spec fn spec_plan(
    editing_own_text: bool,
    keys: ShortcutKeys,
    paste_requested: bool,
) -> ShortcutPlan {
    let history = spec_history_key(editing_own_text, keys);
    if keys.text_edit_focused {
        ShortcutPlan {
            history,
            ungroup: false,
            group: false,
            toggle_layers_panel: false,
            cut: false,
            copy: false,
            paste: false,
            duplicate: false,
            select_all: false,
            delete: false,
            deck_nav: None,
        }
    } else {
        ShortcutPlan {
            history,
            ungroup: keys.ctrl_shift_g,
            group: !keys.ctrl_shift_g && keys.ctrl_g,
            toggle_layers_panel: keys.ctrl_backslash,
            cut: keys.cut,
            copy: keys.copy,
            paste: paste_requested || keys.paste,
            duplicate: keys.ctrl_d,
            select_all: keys.ctrl_a,
            delete: keys.delete || keys.backspace,
            deck_nav: spec_deck_nav(keys),
        }
    }
}

/// Decides the actions of one frame's keys (see `spec_plan`).
pub fn plan_shortcuts(editing_own_text: bool, keys: ShortcutKeys, paste_requested: bool) -> (plan:
    ShortcutPlan)
    ensures
        plan == spec_plan(editing_own_text, keys, paste_requested),
{
    let history = if editing_own_text {
        None
    } else if keys.ctrl_shift_z || keys.ctrl_y {
        Some(HistoryKey::Redo)
    } else if keys.ctrl_z {
        Some(HistoryKey::Undo)
    } else {
        None
    };
    if keys.text_edit_focused {
        return ShortcutPlan {
            history,
            ungroup: false,
            group: false,
            toggle_layers_panel: false,
            cut: false,
            copy: false,
            paste: false,
            duplicate: false,
            select_all: false,
            delete: false,
            deck_nav: None,
        };
    }
    let deck_nav = if keys.page_down {
        Some(DeckNav::Next)
    } else if keys.page_up {
        Some(DeckNav::Prev)
    } else if keys.home {
        Some(DeckNav::First)
    } else if keys.end {
        Some(DeckNav::Last)
    } else {
        None
    };
    ShortcutPlan {
        history,
        ungroup: keys.ctrl_shift_g,
        group: !keys.ctrl_shift_g && keys.ctrl_g,
        toggle_layers_panel: keys.ctrl_backslash,
        cut: keys.cut,
        copy: keys.copy,
        paste: paste_requested || keys.paste,
        duplicate: keys.ctrl_d,
        select_all: keys.ctrl_a,
        delete: keys.delete || keys.backspace,
        deck_nav,
    }
}

/// Without a focused text field every shortcut asks for its own action:
/// Ctrl+D duplicates, Ctrl+A selects all, Delete or Backspace deletes, the
/// clipboard events (or the system paste hook) cut, copy and paste, Ctrl+\
/// folds the layers panel, Ctrl+G groups unless Ctrl+Shift+G ungroups, and
/// PageDown, PageUp, Home, End jump to the next, previous, first and last
/// canvas (in that priority). With a focused text field none of them does.
pub proof fn lemma_shortcut_actions(
    editing_own_text: bool,
    keys: ShortcutKeys,
    paste_requested: bool,
)
    ensures
        ({
            let p = spec_plan(editing_own_text, keys, paste_requested);
            &&& !keys.text_edit_focused ==> {
                &&& p.duplicate == keys.ctrl_d
                &&& p.select_all == keys.ctrl_a
                &&& p.delete == (keys.delete || keys.backspace)
                &&& p.cut == keys.cut
                &&& p.copy == keys.copy
                &&& p.paste == (keys.paste || paste_requested)
                &&& p.toggle_layers_panel == keys.ctrl_backslash
                &&& p.ungroup == keys.ctrl_shift_g
                &&& p.group == (keys.ctrl_g && !keys.ctrl_shift_g)
                &&& (keys.page_down ==> p.deck_nav == Some(DeckNav::Next))
                &&& (!keys.page_down && keys.page_up ==> p.deck_nav == Some(DeckNav::Prev))
                &&& (!keys.page_down && !keys.page_up && keys.home ==> p.deck_nav == Some(
                    DeckNav::First,
                ))
                &&& (!keys.page_down && !keys.page_up && !keys.home && keys.end ==> p.deck_nav
                    == Some(DeckNav::Last))
                &&& (!keys.page_down && !keys.page_up && !keys.home && !keys.end ==> p.deck_nav
                    is None)
            }
            &&& keys.text_edit_focused ==> !p.duplicate && !p.select_all && !p.delete && !p.cut
                && !p.copy && !p.paste && !p.toggle_layers_panel && !p.group && !p.ungroup
                && p.deck_nav is None
        }),
{
}

/// The more specific combination wins: Ctrl+Shift+Z redoes even when Ctrl+Z
/// is seen too, Ctrl+Shift+G ungroups without grouping; the editor's own text
/// fields keep Ctrl+Z/Ctrl+Y; a focused text field keeps every other
/// shortcut but never blocks undo/redo on its own.
pub proof fn lemma_shortcut_precedence(
    editing_own_text: bool,
    keys: ShortcutKeys,
    paste_requested: bool,
)
    ensures
        !editing_own_text && keys.ctrl_shift_z ==> spec_plan(
            editing_own_text,
            keys,
            paste_requested,
        ).history == Some(HistoryKey::Redo),
        editing_own_text ==> spec_plan(editing_own_text, keys, paste_requested).history
            is None,
        !(spec_plan(editing_own_text, keys, paste_requested).group && spec_plan(
            editing_own_text,
            keys,
            paste_requested,
        ).ungroup),
        keys.text_edit_focused ==> spec_plan(editing_own_text, keys, paste_requested).history
            == spec_history_key(editing_own_text, keys) && !spec_plan(
            editing_own_text,
            keys,
            paste_requested,
        ).delete && spec_plan(editing_own_text, keys, paste_requested).deck_nav is None,
{
}

} // verus!
