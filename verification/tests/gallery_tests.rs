use canvas_app::gallery::{GalleryAction, GalleryFile, GalleryItem, GalleryState, GallerySort, ItemKind, ThumbView};
use canvas_app::navigation::FolderNavigation;
use canvas_app::side::{next_folder_panel_side, StripSide};

#[test]
fn folder_panel_cycles_clockwise_from_left_to_bottom() {
    assert_eq!(next_folder_panel_side(StripSide::Left), StripSide::Bottom);
    assert_eq!(next_folder_panel_side(StripSide::Bottom), StripSide::Right);
    assert_eq!(next_folder_panel_side(StripSide::Right), StripSide::Top);
    assert_eq!(next_folder_panel_side(StripSide::Top), StripSide::Left);
}

#[test]
fn folder_navigation_discards_forward_branch_after_new_visit() {
    let a = String::from("a");
    let b = String::from("b");
    let mut navigation = FolderNavigation::new(a.clone());
    navigation.push(b.clone());
    navigation.push(String::from("c"));
    assert_eq!(navigation.back(), Some(b.clone()));
    navigation.push(String::from("d"));
    assert!(!navigation.can_forward());
    assert_eq!(navigation.back(), Some(b.clone()));
    assert_eq!(navigation.back(), Some(a));
}

#[test]
fn four_panel_changes_bring_the_panel_back() {
    for side in [StripSide::Left, StripSide::Right, StripSide::Top, StripSide::Bottom] {
        let mut s = side;
        for _ in 0..4 {
            let next = next_folder_panel_side(s);
            assert_ne!(next, s);
            s = next;
        }
        assert_eq!(s, side);
    }
}

#[test]
fn back_then_forward_returns_to_the_same_folder() {
    let mut nav = FolderNavigation::new("a".to_string());
    nav.push("b".to_string());
    assert!(nav.can_back());
    assert!(!nav.can_forward());
    assert_eq!(nav.back(), Some("a".to_string()));
    assert!(nav.can_forward());
    assert_eq!(nav.forward(), Some("b".to_string()));
    assert_eq!(nav.forward(), None);
    assert_eq!(nav.back(), Some("a".to_string()));
    assert_eq!(nav.back(), None);
}

#[test]
fn visiting_the_current_folder_again_changes_nothing() {
    let mut nav = FolderNavigation::new("a".to_string());
    nav.push("a".to_string());
    assert!(!nav.can_back());
    nav.push("b".to_string());
    nav.push("b".to_string());
    assert_eq!(nav.back(), Some("a".to_string()));
    assert!(!nav.can_back());
}

#[test]
fn a_cloned_history_is_independent() {
    let mut nav = FolderNavigation::new("a".to_string());
    nav.push("b".to_string());
    let mut copy = nav.clone();
    assert_eq!(copy.back(), Some("a".to_string()));
    assert!(nav.can_back());
    assert!(!nav.can_forward());
}

fn file(path: &str, kind: ItemKind) -> GalleryFile {
    GalleryFile {
        path: path.to_string(),
        name: path.rsplit('/').next().unwrap().to_string(),
        mtime: Some(7),
        kind,
    }
}

#[test]
fn merging_keeps_loaded_thumbnails_by_path_and_drops_missing_files() {
    let mut g: GalleryState<u32> = GalleryState::new(
        "dir".to_string(),
        GallerySort::Name,
        StripSide::Left,
        vec!["dir".to_string(), "other".to_string()],
    );
    assert!(!g.scanned);
    g.merge_files(vec![file("dir/a.png", ItemKind::Image), file("dir/b.png", ItemKind::Image)]);
    assert!(g.scanned);
    assert_eq!(g.items.len(), 2);
    g.set_thumb("dir/a.png", Some(11));
    g.set_thumb("dir/b.png", None);
    assert_eq!(g.items[0].tex, Some(11));
    assert!(g.items[1].failed);

    // b.png disappeared, c.canvas appeared; a.png keeps its thumbnail, and
    // the grid is in name order again.
    g.merge_files(vec![file("dir/c.canvas", ItemKind::Design), file("dir/a.png", ItemKind::Image)]);
    assert_eq!(g.items.len(), 2);
    assert_eq!(g.items[1].path, "dir/c.canvas");
    assert_eq!(g.items[1].tex, None);
    assert!(!g.items[1].failed);
    assert_eq!(g.items[1].kind, ItemKind::Design);
    assert_eq!(g.items[0].path, "dir/a.png");
    assert_eq!(g.items[0].name, "a.png");
    assert_eq!(g.items[0].tex, Some(11));
    assert_eq!(g.items[0].mtime, Some(7));
}

fn dated(path: &str, mtime: Option<u64>) -> GalleryFile {
    GalleryFile { mtime, ..file(path, ItemKind::Image) }
}

fn names(g: &GalleryState<u32>) -> Vec<String> {
    g.items.iter().map(|i| i.name.clone()).collect()
}

#[test]
fn a_rescan_is_put_in_name_order() {
    let mut g: GalleryState<u32> =
        GalleryState::new("dir".to_string(), GallerySort::Name, StripSide::Left, Vec::new());
    g.merge_files(vec![file("dir/b.png", ItemKind::Image), file("dir/a.png", ItemKind::Image)]);
    assert_eq!(names(&g), vec!["a.png", "b.png"]);
    g.merge_files(vec![
        file("dir/b", ItemKind::Image),
        file("dir/ab", ItemKind::Image),
        file("dir/a", ItemKind::Image),
        file("dir/B", ItemKind::Image),
    ]);
    assert_eq!(names(&g), vec!["B", "a", "ab", "b"]);
    g.merge_files(vec![
        file("dir/img10.png", ItemKind::Image),
        file("dir/img2.png", ItemKind::Image),
        file("dir/img1.png", ItemKind::Image),
    ]);
    assert_eq!(names(&g), vec!["img1.png", "img2.png", "img10.png"]);
}

#[test]
fn date_order_puts_the_newest_first_and_undated_files_last() {
    let mut g: GalleryState<u32> = GalleryState::new(
        "dir".to_string(),
        GallerySort::DateModified,
        StripSide::Left,
        Vec::new(),
    );
    g.merge_files(vec![
        dated("dir/old.png", Some(1)),
        dated("dir/none.png", None),
        dated("dir/new.png", Some(9)),
        dated("dir/b.png", Some(5)),
        dated("dir/a.png", Some(5)),
        dated("dir/alsonone.png", None),
    ]);
    assert_eq!(
        names(&g),
        vec!["new.png", "a.png", "b.png", "old.png", "alsonone.png", "none.png"]
    );
}

#[test]
fn picking_another_order_resorts_the_grid() {
    let mut g: GalleryState<u32> =
        GalleryState::new("dir".to_string(), GallerySort::Name, StripSide::Left, Vec::new());
    g.merge_files(vec![dated("dir/a.png", Some(1)), dated("dir/b.png", Some(2))]);
    assert_eq!(names(&g), vec!["a.png", "b.png"]);
    assert_eq!(
        g.change_sort(GallerySort::DateModified),
        Some(GalleryAction::SortChanged(GallerySort::DateModified))
    );
    assert_eq!(names(&g), vec!["b.png", "a.png"]);
    assert_eq!(g.change_sort(GallerySort::Manual), Some(GalleryAction::SortChanged(GallerySort::Manual)));
    assert_eq!(names(&g), vec!["a.png", "b.png"]);
    g.sort = GallerySort::DateModified;
    g.apply_sort();
    assert_eq!(names(&g), vec!["b.png", "a.png"]);
}

#[test]
fn a_path_listed_twice_keeps_its_thumbnail_only_once() {
    let mut g: GalleryState<u32> =
        GalleryState::new("dir".to_string(), GallerySort::Name, StripSide::Left, Vec::new());
    g.merge_files(vec![file("dir/a.png", ItemKind::Image)]);
    g.set_thumb("dir/a.png", Some(5));
    g.merge_files(vec![file("dir/a.png", ItemKind::Image), file("dir/a.png", ItemKind::Image)]);
    assert_eq!(g.items[0].tex, Some(5));
    assert_eq!(g.items[1].tex, None);
}

#[test]
fn a_thumbnail_for_a_path_no_longer_listed_is_ignored() {
    let mut g: GalleryState<u32> =
        GalleryState::new("dir".to_string(), GallerySort::Name, StripSide::Left, Vec::new());
    g.merge_files(vec![file("dir/a.png", ItemKind::Image)]);
    g.set_thumb("dir/zzz.png", Some(1));
    assert_eq!(g.items[0].tex, None);
    assert!(!g.items[0].failed);
}

#[test]
fn gallery_navigation_reports_the_folder_and_the_history() {
    let mut g: GalleryState<u32> =
        GalleryState::new("a".to_string(), GallerySort::Name, StripSide::Left, Vec::new());
    assert!(g.navigation_back().is_none());
    let (folder, mut nav) = g.navigation_to_folder("b".to_string());
    assert_eq!(folder, "b");
    assert!(nav.can_back());
    let (back, _) = g.navigation_back().unwrap();
    assert_eq!(back, "a");
    assert!(g.can_forward());
    let (fwd, _) = g.navigation_forward().unwrap();
    assert_eq!(fwd, "b");
    assert!(g.navigation_forward().is_none());
    assert_eq!(nav.back(), Some("a".to_string()));
}

#[test]
fn alt_arrows_follow_the_history_and_alt_up_opens_the_parent() {
    let mut g: GalleryState<u32> =
        GalleryState::new("a/b".to_string(), GallerySort::Name, StripSide::Left, Vec::new());
    // Nothing to go back to: Alt+Left falls through to nothing.
    assert_eq!(g.key_navigation_action(true, false, false, false, Some("a".to_string())), None);
    assert_eq!(
        g.key_navigation_action(false, false, true, false, Some("a".to_string())),
        Some(GalleryAction::OpenFolder("a".to_string()))
    );
    assert_eq!(g.key_navigation_action(false, false, true, false, None), None);
    g.navigation_to_folder("a/c".to_string());
    assert_eq!(
        g.key_navigation_action(true, false, true, false, Some("a".to_string())),
        Some(GalleryAction::Back)
    );
    // A focused text field keeps the keys.
    assert_eq!(g.key_navigation_action(true, true, true, true, Some("a".to_string())), None);
    g.navigation_back();
    assert_eq!(g.key_navigation_action(false, true, false, false, None), Some(GalleryAction::Forward));
}

#[test]
fn copy_and_paste_of_a_file_between_folders() {
    let mut g: GalleryState<u32> =
        GalleryState::new("a".to_string(), GallerySort::Name, StripSide::Left, Vec::new());
    assert_eq!(g.copy_target(true, false), None);
    g.selected = Some("a/x.canvas".to_string());
    assert_eq!(g.copy_target(true, false), Some("a/x.canvas".to_string()));
    assert_eq!(g.copy_target(true, true), None);
    assert_eq!(g.copy_target(false, false), None);
    assert_eq!(
        GalleryState::<u32>::paste_action(true, false, Some("a/x.canvas".to_string())),
        Some(GalleryAction::PasteHere("a/x.canvas".to_string()))
    );
    assert_eq!(GalleryState::<u32>::paste_action(true, false, None), None);
    assert_eq!(GalleryState::<u32>::paste_action(true, true, Some("p".to_string())), None);
}

#[test]
fn a_rename_asks_only_for_a_new_non_empty_name() {
    let mut g: GalleryState<u32> =
        GalleryState::new("a".to_string(), GallerySort::Name, StripSide::Left, Vec::new());
    assert_eq!(g.commit_rename(false), None);
    g.rename_edit = Some(("a/photo.png".to_string(), "  holiday ".to_string()));
    assert_eq!(
        g.commit_rename(false),
        Some(GalleryAction::Rename("a/photo.png".to_string(), "holiday".to_string()))
    );
    assert!(g.rename_edit.is_none());
    g.rename_edit = Some(("a/photo.png".to_string(), " photo\t".to_string()));
    assert_eq!(g.commit_rename(false), None);
    g.rename_edit = Some(("a/photo.png".to_string(), "   ".to_string()));
    assert_eq!(g.commit_rename(false), None);
    g.rename_edit = Some(("a/photo.png".to_string(), "photo.png".to_string()));
    assert_eq!(
        g.commit_rename(false),
        Some(GalleryAction::Rename("a/photo.png".to_string(), "photo.png".to_string()))
    );
}

#[test]
fn escape_abandons_a_rename_even_when_the_focus_is_lost_too() {
    let mut g: GalleryState<u32> =
        GalleryState::new("a".to_string(), GallerySort::Name, StripSide::Left, Vec::new());
    g.rename_edit = Some(("a/photo.png".to_string(), "holiday".to_string()));
    assert_eq!(g.commit_rename(true), None);
    assert!(g.rename_edit.is_none());
    g.rename_edit = Some(("a/photo.png".to_string(), "holiday".to_string()));
    assert_eq!(g.commit_rename_as(true, "photo"), None);
    assert!(g.rename_edit.is_none());
}

#[test]
fn a_rename_is_held_against_the_given_base_name() {
    let mut g: GalleryState<u32> =
        GalleryState::new("a".to_string(), GallerySort::Name, StripSide::Left, Vec::new());
    g.rename_edit = Some(("a/photo.png".to_string(), "x".to_string()));
    assert_eq!(g.commit_rename_as(false, "x"), None);
    g.rename_edit = Some(("a/photo.png".to_string(), "x ".to_string()));
    assert_eq!(
        g.commit_rename_as(false, "photo"),
        Some(GalleryAction::Rename("a/photo.png".to_string(), "x".to_string()))
    );
}

#[test]
fn changing_the_order_is_reported_once() {
    let mut g: GalleryState<u32> =
        GalleryState::new("a".to_string(), GallerySort::Name, StripSide::Left, Vec::new());
    assert_eq!(g.change_sort(GallerySort::Name), None);
    assert_eq!(
        g.change_sort(GallerySort::DateModified),
        Some(GalleryAction::SortChanged(GallerySort::DateModified))
    );
    assert_eq!(g.sort, GallerySort::DateModified);
}

fn cell(kind: ItemKind, tex: Option<u32>, failed: bool) -> GalleryItem<u32> {
    GalleryItem {
        path: String::from("/f/x"),
        name: String::from("x"),
        mtime: None,
        kind,
        tex,
        failed,
    }
}

#[test]
fn a_cell_shows_its_thumbnail_or_the_right_mark() {
    assert_eq!(cell(ItemKind::Image, Some(1), true).thumb_view(), ThumbView::Texture);
    assert_eq!(cell(ItemKind::Design, Some(1), false).thumb_view(), ThumbView::Texture);
    assert_eq!(cell(ItemKind::Design, None, true).thumb_view(), ThumbView::DesignIcon);
    assert_eq!(cell(ItemKind::Image, None, true).thumb_view(), ThumbView::Failed);
    assert_eq!(cell(ItemKind::Image, None, false).thumb_view(), ThumbView::Loading);
}

#[test]
fn retyping_the_current_base_name_asks_for_nothing() {
    let mut g: GalleryState<u32> =
        GalleryState::new("a".to_string(), GallerySort::Name, StripSide::Left, Vec::new());
    g.rename_edit = Some(("a/cat.png".to_string(), " cat ".to_string()));
    assert_eq!(g.commit_rename(false), None);
    g.rename_edit = Some(("a/.hidden".to_string(), ".hidden".to_string()));
    assert_eq!(g.commit_rename(false), None);
    g.rename_edit = Some(("a/b.tar.gz".to_string(), "b.tar".to_string()));
    assert_eq!(g.commit_rename(false), None);
    g.rename_edit = Some(("a/b.tar.gz".to_string(), "b".to_string()));
    assert_eq!(
        g.commit_rename(false),
        Some(GalleryAction::Rename("a/b.tar.gz".to_string(), "b".to_string()))
    );
}

#[test]
fn sorting_keeps_tied_items_in_their_previous_order() {
    let mut g: GalleryState<u32> =
        GalleryState::new("dir".to_string(), GallerySort::Name, StripSide::Left, Vec::new());
    g.items = vec![cell(ItemKind::Image, Some(2), false), cell(ItemKind::Image, Some(1), false)];
    g.apply_sort();
    assert_eq!(g.items[0].tex, Some(2));
    assert_eq!(g.items[1].tex, Some(1));
}
