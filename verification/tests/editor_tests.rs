use canvas_app::camera::{plan_pan, plan_wheel, AutoFit, FitTarget, PanGesture, ViewportMode, WheelAction};
use canvas_app::editor::EditorState;
use canvas_app::export::{ExportChoice, ExportDialog, ExportFormat, ExportSettings};
use canvas_app::global_history::StepRoute;
use canvas_app::press::{plan_press, HeaderCandidate, HeaderHits, MoveDir, PressOutcome};
use canvas_app::shortcuts::{plan_shortcuts, DeckNav, HistoryKey, ShortcutKeys};
use canvas_app::text::{rename_target, truncate_label, url_to_replace};
use canvas_app::zorder::{can_go_backward, can_go_forward, reorder_move, reorder_target, ZOrder};

fn no_keys() -> ShortcutKeys {
    ShortcutKeys {
        ctrl_shift_z: false,
        ctrl_y: false,
        ctrl_z: false,
        text_edit_focused: false,
        ctrl_shift_g: false,
        ctrl_g: false,
        ctrl_backslash: false,
        cut: false,
        copy: false,
        paste: false,
        ctrl_d: false,
        ctrl_a: false,
        delete: false,
        backspace: false,
        page_down: false,
        page_up: false,
        home: false,
        end: false,
    }
}

#[test]
fn ctrl_backslash_toggles_the_layers_panel_flag() {
    let mut state = EditorState::new_blank();
    assert!(!state.layers_panel_toggle);
    let keys = ShortcutKeys { ctrl_backslash: true, ..no_keys() };
    state.handle_shortcuts(keys, false, false);
    assert!(state.layers_panel_toggle, "Ctrl+\\ pide plegar/desplegar el panel");
}

#[test]
fn page_keys_set_the_deck_navigation() {
    let mut state = EditorState::new_blank();
    state.handle_shortcuts(ShortcutKeys { page_down: true, ..no_keys() }, false, false);
    assert!(matches!(state.deck_nav, Some(DeckNav::Next)));
    state.handle_shortcuts(ShortcutKeys { page_up: true, ..no_keys() }, false, false);
    assert!(matches!(state.deck_nav, Some(DeckNav::Prev)));
    state.handle_shortcuts(ShortcutKeys { home: true, ..no_keys() }, false, false);
    assert!(matches!(state.deck_nav, Some(DeckNav::First)));
    state.handle_shortcuts(ShortcutKeys { end: true, ..no_keys() }, false, false);
    assert!(matches!(state.deck_nav, Some(DeckNav::Last)));
}

#[test]
fn ctrl_z_is_left_for_the_text_edit_while_renaming_a_layer() {
    let mut state = EditorState::new_blank();
    state.global.record_edit_step();
    state.rename_edit = Some((1, "new name".to_owned(), "Shape".to_owned()));
    let out = state.handle_shortcuts(ShortcutKeys { ctrl_z: true, ..no_keys() }, false, false);
    assert_eq!(out.route, None, "Ctrl+Z no debe deshacer la inserción mientras se renombra");
    assert!(state.can_undo());
}

#[test]
fn ctrl_z_undoes_and_shift_z_or_ctrl_y_redoes() {
    let mut state = EditorState::from_image();
    state.global.record_edit_step();
    let out = state.handle_shortcuts(ShortcutKeys { ctrl_z: true, ..no_keys() }, false, false);
    assert_eq!(out.plan.history, Some(HistoryKey::Undo));
    assert_eq!(out.route, Some(StepRoute::Local));
    state.global.complete_local_undo(canvas_app::global_history::LocalOutcome::Done);
    let out = state.handle_shortcuts(
        ShortcutKeys { ctrl_shift_z: true, ctrl_z: true, ..no_keys() },
        false,
        false,
    );
    assert_eq!(out.plan.history, Some(HistoryKey::Redo), "Ctrl+Shift+Z rehace");
    let plan = plan_shortcuts(false, ShortcutKeys { ctrl_y: true, ..no_keys() }, false);
    assert_eq!(plan.history, Some(HistoryKey::Redo), "Ctrl+Y rehace");
}

#[test]
fn ctrl_g_groups_and_ctrl_shift_g_ungroups() {
    let mut state = EditorState::new_blank();
    let out = state.handle_shortcuts(ShortcutKeys { ctrl_g: true, ..no_keys() }, false, false);
    assert!(out.plan.group && !out.plan.ungroup);
    let out = state.handle_shortcuts(
        ShortcutKeys { ctrl_shift_g: true, ctrl_g: true, ..no_keys() },
        false,
        false,
    );
    assert!(out.plan.ungroup && !out.plan.group);
}

#[test]
fn delete_and_backspace_remove_the_selection() {
    let mut state = EditorState::new_blank();
    let out = state.handle_shortcuts(ShortcutKeys { delete: true, ..no_keys() }, false, false);
    assert!(out.plan.delete);
    let out = state.handle_shortcuts(ShortcutKeys { backspace: true, ..no_keys() }, false, false);
    assert!(out.plan.delete);
    let out = state.handle_shortcuts(
        ShortcutKeys { delete: true, text_edit_focused: true, ..no_keys() },
        false,
        false,
    );
    assert!(!out.plan.delete, "a focused text field keeps Delete");
}

#[test]
fn a_focused_text_field_keeps_every_shortcut_but_undo() {
    let keys = ShortcutKeys {
        text_edit_focused: true,
        ctrl_z: true,
        delete: true,
        ctrl_a: true,
        page_down: true,
        ..no_keys()
    };
    let plan = plan_shortcuts(false, keys, true);
    assert_eq!(plan.history, Some(HistoryKey::Undo));
    assert!(!plan.delete && !plan.select_all && !plan.paste);
    assert_eq!(plan.deck_nav, None);
}

#[test]
fn the_paste_hook_counts_as_a_paste() {
    assert!(plan_shortcuts(false, no_keys(), true).paste);
    assert!(plan_shortcuts(false, ShortcutKeys { paste: true, ..no_keys() }, false).paste);
    assert!(!plan_shortcuts(false, no_keys(), false).paste);
}

#[test]
fn fit_arms_the_mode_it_was_asked_for_and_clears_the_pending_request() {
    let mut vp = ViewportMode::new();
    assert!(vp.needs_fit, "un viewport nuevo pide ajuste");
    vp.record_fit(FitTarget::All, false);
    assert!(!vp.needs_fit);
    assert!(vp.auto_fit == AutoFit::All);
    vp.record_fit(FitTarget::Active, false);
    assert!(vp.auto_fit == AutoFit::Active);
}

#[test]
fn fit_ignores_a_degenerate_target() {
    let mut vp = ViewportMode::new();
    vp.record_fit(FitTarget::All, true);
    assert!(vp.needs_fit, "ni consumir la petición de ajuste");
    assert!(vp.auto_fit == AutoFit::Active);
}

#[test]
fn any_manual_zoom_disarms_the_automatic_refit() {
    let mut vp = ViewportMode::new();
    vp.record_fit(FitTarget::All, false);
    assert!(vp.auto_fit == AutoFit::All);
    vp.manual_view_change();
    assert!(vp.auto_fit == AutoFit::Off);
}

#[test]
fn ctrl_zero_fits_the_active_canvas() {
    let vp = ViewportMode { needs_fit: false, auto_fit: AutoFit::Off };
    assert_eq!(vp.plan_fit(false, true, false), Some(FitTarget::Active));
}

#[test]
fn ctrl_alt_zero_fits_the_whole_deck() {
    let vp = ViewportMode { needs_fit: false, auto_fit: AutoFit::Off };
    assert_eq!(vp.plan_fit(true, false, false), Some(FitTarget::All));
}

#[test]
fn ctrl_alt_zero_is_not_swallowed_by_the_plain_ctrl_zero_branch() {
    let vp = ViewportMode { needs_fit: true, auto_fit: AutoFit::Active };
    assert_eq!(vp.plan_fit(true, true, true), Some(FitTarget::All));
}

#[test]
fn a_pending_center_request_is_consumed_and_arms_the_active_refit() {
    let mut vp = ViewportMode { needs_fit: false, auto_fit: AutoFit::All };
    vp.record_center();
    assert!(vp.auto_fit == AutoFit::Active);
    assert!(!vp.needs_fit);
}

#[test]
fn a_resize_repeats_the_last_automatic_fit() {
    let mut vp = ViewportMode { needs_fit: false, auto_fit: AutoFit::Off };
    let t = vp.plan_fit(true, false, false).unwrap();
    vp.record_fit(t, false);
    assert_eq!(vp.plan_fit(false, false, true), Some(FitTarget::All));
    assert!(vp.auto_fit == AutoFit::All, "y debe seguir armado");
}

#[test]
fn a_resize_does_nothing_once_the_user_has_moved_the_view_by_hand() {
    let mut vp = ViewportMode { needs_fit: false, auto_fit: AutoFit::Active };
    vp.manual_view_change();
    assert_eq!(vp.plan_fit(false, false, true), None);
    vp.request_fit();
    assert_eq!(vp.plan_fit(false, false, false), Some(FitTarget::Active));
}

#[test]
fn the_wheel_pans_along_the_primary_axis_of_the_deck() {
    // Vertical deck, vertical wheel: pan as it comes.
    assert_eq!(plan_wheel(true, false, true, false, false, false), WheelAction::Pan { swap: false });
}

#[test]
fn shift_and_the_wheel_pan_along_the_cross_axis() {
    assert_eq!(plan_wheel(true, false, true, false, true, false), WheelAction::Pan { swap: true });
}

#[test]
fn the_wheel_follows_a_horizontal_deck_without_shift() {
    assert_eq!(plan_wheel(true, false, true, false, false, true), WheelAction::Pan { swap: true });
    // A trackpad that already sends x is respected as it comes.
    assert_eq!(plan_wheel(true, false, false, false, false, true), WheelAction::Pan { swap: false });
}

#[test]
fn ctrl_and_the_wheel_zoom_instead_of_panning() {
    assert_eq!(plan_wheel(true, true, true, false, false, false), WheelAction::Zoom);
}

#[test]
fn the_wheel_is_ignored_when_the_pointer_is_not_over_the_canvas() {
    assert_eq!(plan_wheel(false, false, true, false, false, false), WheelAction::Ignore);
    assert_eq!(plan_wheel(true, false, true, true, false, false), WheelAction::Ignore);
}

#[test]
fn holding_space_is_reported_to_the_rest_of_the_frame() {
    assert_eq!(plan_pan(false, false, true, true), PanGesture::Ready);
    assert_eq!(plan_pan(false, true, true, true), PanGesture::Panning);
    assert_eq!(plan_pan(true, false, false, false), PanGesture::Panning);
    assert_eq!(plan_pan(false, true, false, true), PanGesture::Idle);
}

#[test]
fn reorder_layer_forward_and_backward_step_once() {
    assert_eq!(reorder_target(ZOrder::Forward, 0, 2), 1, "Forward sube un paso");
    assert_eq!(reorder_target(ZOrder::Backward, 1, 2), 0, "Backward baja un paso");
}

#[test]
fn reorder_layer_front_and_back_jump_to_the_ends() {
    assert_eq!(reorder_target(ZOrder::Front, 0, 2), 2, "Front lleva la capa al frente");
    assert_eq!(reorder_target(ZOrder::Back, 2, 2), 0, "Back la devuelve al fondo");
}

#[test]
fn reorder_layer_at_the_end_is_a_noop_without_an_undo_step() {
    assert_eq!(reorder_move(ZOrder::Front, Some((2, 2))), None);
    assert_eq!(reorder_move(ZOrder::Forward, Some((2, 2))), None);
    assert_eq!(reorder_move(ZOrder::Back, Some((0, 2))), None);
    assert_eq!(reorder_move(ZOrder::Backward, Some((0, 2))), None);
    assert_eq!(reorder_move(ZOrder::Front, None), None);
    assert_eq!(reorder_move(ZOrder::Front, Some((0, 2))), Some(2));
}

#[test]
fn the_layers_menu_enables_only_moves_with_an_effect() {
    assert!(can_go_forward(Some((0, 2))));
    assert!(!can_go_forward(Some((2, 2))));
    assert!(!can_go_backward(Some((0, 2))));
    assert!(can_go_backward(Some((1, 2))));
    assert!(!can_go_forward(None) && !can_go_backward(None));
}

#[test]
fn renames_are_trimmed_and_must_change_the_name() {
    assert_eq!(rename_target("  new  ", "old"), Some("new".to_string()));
    assert_eq!(rename_target("old", "old"), None);
    assert_eq!(rename_target(" \u{3000}\n", "old"), None);
}

#[test]
fn long_labels_are_cut_with_an_ellipsis() {
    let name = "abcdefghijklmnopqrstuvwxyz";
    assert_eq!(truncate_label(name, 24), "abcdefghijklmnopqrstuvw…");
    assert_eq!(truncate_label(name, 24).chars().count(), 24);
    assert_eq!(truncate_label("short.png", 24), "short.png");
    assert_eq!(truncate_label("exactly", 7), "exactly");
    assert_eq!(truncate_label("abc", 1), "…");
    assert_eq!(truncate_label("abc", 0), "…");
    assert_eq!(truncate_label("", 0), "");
}

#[test]
fn a_url_is_offered_only_when_not_blank() {
    assert_eq!(url_to_replace("  https://example.com/a.jpg "), Some("https://example.com/a.jpg".to_string()));
    assert_eq!(url_to_replace("   "), None);
}

#[test]
fn the_file_rename_field_requests_only_a_real_rename() {
    let mut state = EditorState::from_image();
    state.start_file_rename("photo".to_string());
    state.commit_file_rename("photo");
    assert_eq!(state.file_rename_edit, None);
    assert_eq!(state.file_rename_requested, None);
    state.start_file_rename(" beach ".to_string());
    state.commit_file_rename("photo");
    assert_eq!(state.file_rename_requested, Some("beach".to_string()));
    state.start_file_rename("x".to_string());
    state.cancel_file_rename();
    assert_eq!(state.file_rename_edit, None);
    assert_eq!(state.file_rename_requested, Some("beach".to_string()));
}

#[test]
fn the_export_dialog_starts_at_png_1x_quality_92_and_freezes_its_settings() {
    let mut d = ExportDialog::default();
    assert_eq!(d.format, ExportFormat::Png);
    assert_eq!(d.scale, 1);
    assert_eq!(d.jpeg_quality, 92);
    d.format = ExportFormat::Jpeg;
    d.scale = 3;
    d.set_jpeg_quality(0);
    assert_eq!(d.jpeg_quality, 1);
    d.set_jpeg_quality(250);
    assert_eq!(d.jpeg_quality, 100);
    assert_eq!(
        d.choice(true, false, false),
        ExportChoice::Pick(ExportSettings { format: ExportFormat::Jpeg, scale: 3, jpeg_quality: 100 })
    );
    assert_eq!(d.choice(true, true, false), ExportChoice::Cancel);
    assert_eq!(d.choice(false, false, true), ExportChoice::Cancel);
    assert_eq!(d.choice(false, false, false), ExportChoice::Pending);
}

fn candidate(index: usize, id: u64, hits: Option<HeaderHits>) -> HeaderCandidate {
    HeaderCandidate { index, id, is_placeholder: false, hits }
}

fn hits() -> HeaderHits {
    HeaderHits {
        name: false,
        prev: false,
        next: false,
        lock: false,
        isolate: false,
        duplicate: false,
        delete: false,
    }
}

#[test]
fn a_header_button_takes_the_whole_press() {
    let visible = vec![
        candidate(0, 10, None),
        candidate(1, 11, Some(HeaderHits { delete: true, ..hits() })),
        candidate(2, 12, Some(HeaderHits { name: true, ..hits() })),
    ];
    assert_eq!(plan_press(&visible, 0, Some(1), false, true), PressOutcome::Delete(11));
    let visible = vec![candidate(3, 13, Some(HeaderHits { isolate: true, ..hits() }))];
    assert_eq!(plan_press(&visible, 0, None, false, true), PressOutcome::ToggleIsolate(Some(3)));
    assert_eq!(plan_press(&visible, 3, None, false, true), PressOutcome::ToggleIsolate(None));
    let visible = vec![candidate(0, 7, Some(HeaderHits { prev: true, ..hits() }))];
    assert_eq!(plan_press(&visible, 0, None, false, true), PressOutcome::Move(7, MoveDir::Prev));
}

#[test]
fn a_placeholder_has_no_name_to_rename() {
    let mut c = candidate(0, 5, Some(HeaderHits { name: true, lock: true, ..hits() }));
    c.is_placeholder = true;
    assert_eq!(plan_press(&vec![c], 0, None, false, true), PressOutcome::ToggleLock(0));
    c.is_placeholder = false;
    assert_eq!(plan_press(&vec![c], 0, None, false, true), PressOutcome::Rename(5));
}

#[test]
fn a_press_on_another_canvas_activates_it_and_the_plus_zone_adds_one() {
    let none: Vec<HeaderCandidate> = Vec::new();
    assert_eq!(plan_press(&none, 0, Some(2), false, true), PressOutcome::Activate(2));
    assert_eq!(plan_press(&none, 2, Some(2), false, true), PressOutcome::Ignored);
    assert_eq!(plan_press(&none, 0, None, true, true), PressOutcome::AddCanvas);
    assert_eq!(plan_press(&none, 0, None, true, false), PressOutcome::Ignored);
}
