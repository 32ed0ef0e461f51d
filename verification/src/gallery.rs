//! The gallery of a folder: a grid of files with their thumbnails. This is
//! its model — which files are listed and in what order, which thumbnail each
//! one keeps, the folder history, and what the keyboard and the rename field
//! ask for; the painting and the disk scan are done by the caller.

use vstd::prelude::*;
use vstd::relations::sorted_by;
use crate::gallery_order::{item_order, keeps_ties_in_order, sort_items};
use crate::navigation::{FolderNavigation, NavModel};
use crate::side::StripSide;
use crate::text::{rename_target, spec_rename_target};

verus! {

/// What a gallery file is: an image, or a standalone `.canvas` design.
#[derive(Clone, Copy, PartialEq, Eq, Debug, Structural)]
pub enum ItemKind {
    Image,
    Design,
}

/// Order of the gallery grid.
#[derive(Clone, Copy, PartialEq, Eq, Debug, Structural)]
pub enum GallerySort {
    Name,
    DateModified,
    Manual,
}

/// A file found by a scan of the folder.
#[derive(Clone, PartialEq, Eq, Debug)]
pub struct GalleryFile {
    pub path: String,
    /// File name shown under the thumbnail.
    pub name: String,
    /// Modification time, when the file system reports one.
    pub mtime: Option<u64>,
    pub kind: ItemKind,
}

/// A cell of the gallery grid; `T` is the loaded thumbnail texture.
#[derive(Debug)]
pub struct GalleryItem<T> {
    pub path: String,
    pub name: String,
    pub mtime: Option<u64>,
    pub kind: ItemKind,
    pub tex: Option<T>,
    /// Loading the thumbnail failed.
    pub failed: bool,
}

/// What a gallery cell shows in place of its thumbnail.
#[derive(Clone, Copy, PartialEq, Eq, Debug, Structural)]
pub enum ThumbView {
    /// The loaded thumbnail.
    Texture,
    /// A design without a thumbnail (new, or unreadable): the document icon,
    /// not an error mark.
    DesignIcon,
    /// Loading the image's thumbnail failed.
    Failed,
    /// Still loading.
    Loading,
}

impl<T> GalleryItem<T> {
    /// What the cell shows: the thumbnail once loaded; otherwise a design
    /// shows the document icon, an image the failure mark or the loading
    /// mark.
    pub fn thumb_view(&self) -> (v: ThumbView)
        ensures
            self.tex is Some ==> v == ThumbView::Texture,
            self.tex is None && self.kind == ItemKind::Design ==> v == ThumbView::DesignIcon,
            self.tex is None && self.kind == ItemKind::Image ==> v == (if self.failed {
                ThumbView::Failed
            } else {
                ThumbView::Loading
            }),
    {
        if self.tex.is_some() {
            ThumbView::Texture
        } else if self.kind == ItemKind::Design {
            ThumbView::DesignIcon
        } else if self.failed {
            ThumbView::Failed
        } else {
            ThumbView::Loading
        }
    }
}

/// What the gallery asks the application to do.
#[derive(Clone, PartialEq, Eq, Debug)]
pub enum GalleryAction {
    Open(String),
    CycleFolderPanelSide,
    OpenFolder(String),
    Back,
    Forward,
    SortChanged(GallerySort),
    /// The "New design" button of the header.
    NewDesign,
    /// Duplicate this file (and its sidecar) in the same folder.
    Duplicate(String),
    /// Paste here the copied file (source path).
    PasteHere(String),
    /// Change the base name of this file (path, new base name).
    Rename(String, String),
    /// Send this file to the recycle bin (already confirmed).
    Delete(String),
}

/// Some file before index `i` of `files` has path `p`.
pub open spec fn listed_before(files: Seq<GalleryFile>, i: int, p: Seq<char>) -> bool {
    exists|j: int| 0 <= j < i && #[trigger] files[j].path@ == p
}

/// Index of the last item of `items` whose path is `p`.
pub open spec fn last_with_path<T>(items: Seq<GalleryItem<T>>, p: Seq<char>) -> Option<int>
    decreases items.len(),
{
    if items.len() == 0 {
        None
    } else if items.last().path@ == p {
        Some(items.len() - 1)
    } else {
        last_with_path(items.drop_last(), p)
    }
}

/// The thumbnail state (texture, failed) that the file at index `i` of a new
/// listing keeps from the previous items: the one of the item with the same
/// path (the last such item), unless an earlier file of the listing with that
/// path already took it; a new file starts without thumbnail.
pub open spec fn kept_thumb<T>(old: Seq<GalleryItem<T>>, files: Seq<GalleryFile>, i: int) -> (
    Option<T>,
    bool,
) {
    let p = files[i].path@;
    if listed_before(files, i, p) {
        (None, false)
    } else {
        match last_with_path(old, p) {
            Some(k) => (old[k].tex, old[k].failed),
            None => (None, false),
        }
    }
}

/// The items of a new listing `files` in listing order: each file with the
/// thumbnail state it keeps from `old` (see `kept_thumb`).
pub open spec fn merged_items<T>(old: Seq<GalleryItem<T>>, files: Seq<GalleryFile>) -> Seq<
    GalleryItem<T>,
> {
    Seq::new(
        files.len(),
        |i: int|
            GalleryItem {
                path: files[i].path,
                name: files[i].name,
                mtime: files[i].mtime,
                kind: files[i].kind,
                tex: kept_thumb(old, files, i).0,
                failed: kept_thumb(old, files, i).1,
            },
    )
}

/// State of a folder's gallery.
#[derive(Debug)]
pub struct GalleryState<T> {
    pub folder: String,
    pub folder_panel_side: StripSide,
    /// Back/forward history of visited folders.
    pub navigation: FolderNavigation,
    /// The folders next to this one, listed in the folder panel.
    pub sibling_folders: Vec<String>,
    pub items: Vec<GalleryItem<T>>,
    /// The folder has been scanned at least once.
    pub scanned: bool,
    pub sort: GallerySort,
    /// Last cell marked with a right click: what Ctrl+C copies.
    pub selected: Option<String>,
    /// Rename in progress: path and the editable base name.
    pub rename_edit: Option<(String, String)>,
    /// Last failure of a file operation, shown until dismissed.
    pub op_error: Option<String>,
}

impl<T> GalleryState<T> {
    /// The folder history.
    pub open spec fn nav(self) -> NavModel {
        self.navigation@
    }

    /// The sibling folders listed in the folder panel.
    pub open spec fn siblings(self) -> Seq<Seq<char>> {
        self.sibling_folders@.map_values(|s: String| s@)
    }

    /// The folder history is well formed.
    pub open spec fn wf(self) -> bool {
        self.nav().wf()
    }

    /// Gallery of `folder`, with a fresh history. `sibling_folders` are the
    /// folders next to it, as listed on disk.
    pub fn new(
        folder: String,
        sort: GallerySort,
        folder_panel_side: StripSide,
        sibling_folders: Vec<String>,
    ) -> (g: Self)
        ensures
            g.wf(),
            g.folder@ == folder@,
            g.nav() == (NavModel { folders: seq![folder@], position: 0 }),
            g.siblings() == sibling_folders@.map_values(|s: String| s@),
            g.items@.len() == 0,
            !g.scanned,
            g.sort == sort,
            g.folder_panel_side == folder_panel_side,
            g.selected is None,
            g.rename_edit is None,
            g.op_error is None,
    {
        let navigation = FolderNavigation::new(folder.clone());
        GalleryState {
            folder,
            folder_panel_side,
            navigation,
            sibling_folders,
            items: Vec::new(),
            scanned: false,
            sort,
            selected: None,
            rename_edit: None,
            op_error: None,
        }
    }

    /// Gallery of `folder` that keeps an existing folder history.
    pub fn with_navigation(
        folder: String,
        sort: GallerySort,
        navigation: FolderNavigation,
        folder_panel_side: StripSide,
        sibling_folders: Vec<String>,
    ) -> (g: Self)
        ensures
            g.folder@ == folder@,
            g.nav() == navigation@,
            g.siblings() == sibling_folders@.map_values(|s: String| s@),
            g.items@.len() == 0,
            !g.scanned,
            g.sort == sort,
            g.folder_panel_side == folder_panel_side,
            g.selected is None,
            g.rename_edit is None,
            g.op_error is None,
    {
        GalleryState {
            folder,
            folder_panel_side,
            navigation,
            sibling_folders,
            items: Vec::new(),
            scanned: false,
            sort,
            selected: None,
            rename_edit: None,
            op_error: None,
        }
    }

    /// Records a visit to `folder` and returns it with the updated history,
    /// for the application to open that folder.
    pub fn navigation_to_folder(&mut self, folder: String) -> (r: (String, FolderNavigation))
        ensures
            final(self).wf(),
            final(self).nav() == old(self).nav().push(folder@),
            r.0@ == folder@,
            r.1@ == final(self).nav(),
            final(self).items == old(self).items,
            final(self).folder == old(self).folder,
            final(self).siblings() == old(self).siblings(),
            final(self).scanned == old(self).scanned,
            final(self).sort == old(self).sort,
            final(self).folder_panel_side == old(self).folder_panel_side,
            final(self).selected == old(self).selected,
            final(self).rename_edit == old(self).rename_edit,
            final(self).op_error == old(self).op_error,
    {
        self.navigation.push(folder.clone());
        (folder, self.navigation.clone())
    }

    /// One folder back, with the updated history (`None` at the oldest).
    pub fn navigation_back(&mut self) -> (r: Option<(String, FolderNavigation)>)
        ensures
            final(self).wf(),
            final(self).nav() == old(self).nav().back(),
            r is Some <==> old(self).nav().can_back(),
            r matches Some(p) ==> p.0@ == final(self).nav().current(),
            r matches Some(p) ==> p.1@ == final(self).nav(),
            final(self).items == old(self).items,
            final(self).folder == old(self).folder,
            final(self).siblings() == old(self).siblings(),
            final(self).scanned == old(self).scanned,
            final(self).sort == old(self).sort,
            final(self).folder_panel_side == old(self).folder_panel_side,
            final(self).selected == old(self).selected,
            final(self).rename_edit == old(self).rename_edit,
            final(self).op_error == old(self).op_error,
    {
        match self.navigation.back() {
            Some(folder) => Some((folder, self.navigation.clone())),
            None => None,
        }
    }

    /// One folder forward, with the updated history (`None` at the newest).
    pub fn navigation_forward(&mut self) -> (r: Option<(String, FolderNavigation)>)
        ensures
            final(self).wf(),
            final(self).nav() == old(self).nav().forward(),
            r is Some <==> old(self).nav().can_forward(),
            r matches Some(p) ==> p.0@ == final(self).nav().current(),
            r matches Some(p) ==> p.1@ == final(self).nav(),
            final(self).items == old(self).items,
            final(self).folder == old(self).folder,
            final(self).siblings() == old(self).siblings(),
            final(self).scanned == old(self).scanned,
            final(self).sort == old(self).sort,
            final(self).folder_panel_side == old(self).folder_panel_side,
            final(self).selected == old(self).selected,
            final(self).rename_edit == old(self).rename_edit,
            final(self).op_error == old(self).op_error,
    {
        match self.navigation.forward() {
            Some(folder) => Some((folder, self.navigation.clone())),
            None => None,
        }
    }

    /// Is there a folder to go back to?
    pub fn can_back(&self) -> (b: bool)
        ensures
            b == self.nav().can_back(),
    {
        self.navigation.can_back()
    }

    /// Is there a folder to go forward to?
    pub fn can_forward(&self) -> (b: bool)
        ensures
            b == self.nav().can_forward(),
    {
        self.navigation.can_forward()
    }

    /// Replaces the listing with `files`, keeping the thumbnails already
    /// loaded for the same paths (see `kept_thumb`) and dropping the items
    /// that are gone, then puts the grid in the gallery's order (tied items
    /// in listing order); marks the folder as scanned.
    pub fn merge_files(&mut self, files: Vec<GalleryFile>)
        ensures
            final(self).scanned,
            final(self).items@.len() == files@.len(),
            final(self).items@.to_multiset() == merged_items(old(self).items@, files@).to_multiset(),
            sorted_by(final(self).items@, item_order::<T>(old(self).sort)),
            keeps_ties_in_order(merged_items(old(self).items@, files@), final(self).items@, old(self).sort),
            final(self).folder == old(self).folder,
            final(self).nav() == old(self).nav(),
            final(self).siblings() == old(self).siblings(),
            final(self).sort == old(self).sort,
            final(self).folder_panel_side == old(self).folder_panel_side,
            final(self).selected == old(self).selected,
            final(self).rename_edit == old(self).rename_edit,
            final(self).op_error == old(self).op_error,
    {
        let mut old_items: Vec<GalleryItem<T>> = Vec::new();
        std::mem::swap(&mut old_items, &mut self.items);
        let ghost orig = old_items@;
        let mut merged: Vec<GalleryItem<T>> = Vec::new();
        let n = files.len();
        let mut i: usize = 0;
        while i < n
            invariant
                n == files@.len(),
                i <= n,
                old_items@.len() == orig.len(),
                merged@.len() == i,
                forall|k: int|
                    #![trigger old_items@[k]]
                    0 <= k < orig.len() ==> (old_items@[k].path@ == orig[k].path@
                        && old_items@[k].failed == orig[k].failed && (!listed_before(
                        files@,
                        i as int,
                        orig[k].path@,
                    ) ==> old_items@[k].tex == orig[k].tex)),
                forall|m: int|
                    0 <= m < i ==> {
                        let it = #[trigger] merged@[m];
                        &&& it.path == files@[m].path
                        &&& it.name == files@[m].name
                        &&& it.mtime == files@[m].mtime
                        &&& it.kind == files@[m].kind
                        &&& (it.tex, it.failed) == kept_thumb(orig, files@, m)
                    },
            decreases n - i,
        {
            let path = files[i].path.clone();
            // Was this path already listed by an earlier file?
            let mut seen = false;
            let mut j: usize = 0;
            while j < i
                invariant
                    j <= i,
                    i < n,
                    n == files@.len(),
                    path@ == files@[i as int].path@,
                    seen <==> exists|q: int| 0 <= q < j && #[trigger] files@[q].path@ == path@,
                decreases i - j,
            {
                if files[j].path == path {
                    seen = true;
                }
                j += 1;
            }
            proof {
                assert(seen <==> listed_before(files@, i as int, path@));
            }
            let mut tex: Option<T> = None;
            let mut failed = false;
            let ghost olds0 = old_items@;
            let ghost mut taken: Option<int> = None;
            if !seen {
                // The last previous item with this path.
                let mut k: usize = old_items.len();
                let mut found = false;
                proof {
                    assert(orig.take(k as int) =~= orig);
                }
                while k > 0 && !found
                    invariant
                        k <= old_items@.len(),
                        old_items@ == olds0,
                        old_items@.len() == orig.len(),
                        !found ==> last_with_path(orig, path@) == last_with_path(
                            orig.take(k as int),
                            path@,
                        ),
                        found ==> k < orig.len() && last_with_path(orig, path@) == Some(
                            k as int,
                        ) && orig[k as int].path@ == path@,
                        forall|q: int|
                            0 <= q < orig.len() ==> #[trigger] old_items@[q].path@
                                == orig[q].path@,
                    decreases k + (if found {
                        0int
                    } else {
                        1int
                    }),
                {
                    let ghost pre = orig.take(k as int);
                    proof {
                        assert(pre.last() == orig[k - 1]);
                        assert(pre.drop_last() =~= orig.take(k - 1));
                        assert(old_items@[k - 1].path@ == orig[k - 1].path@);
                    }
                    if old_items[k - 1].path == path {
                        found = true;
                        k = k - 1;
                    } else {
                        k = k - 1;
                    }
                }
                if found {
                    let ghost olds = old_items@;
                    proof {
                        assert(olds[k as int].path@ == orig[k as int].path@);
                        assert(!listed_before(files@, i as int, orig[k as int].path@));
                        assert(olds[k as int].tex == orig[k as int].tex);
                    }
                    tex = old_items[k].tex.take();
                    failed = old_items[k].failed;
                    proof {
                        taken = Some(k as int);
                        assert(tex == orig[k as int].tex);
                        assert(failed == orig[k as int].failed);
                        assert forall|q: int| 0 <= q < orig.len() && q != k implies old_items@[q]
                            == olds[q] by {}
                        assert(old_items@[k as int].path@ == orig[k as int].path@);
                        assert(old_items@[k as int].failed == orig[k as int].failed);
                    }
                } else {
                    proof {
                        assert(orig.take(0) =~= Seq::<GalleryItem<T>>::empty());
                    }
                }
            }
            proof {
                assert(files@[i as int].path@ == path@);
                assert forall|q: int| #![trigger old_items@[q]] 0 <= q < orig.len() implies (old_items@[q].path@
                    == orig[q].path@ && old_items@[q].failed == orig[q].failed && (!listed_before(
                    files@,
                    i + 1,
                    orig[q].path@,
                ) ==> old_items@[q].tex == orig[q].tex)) by {
                    assert(olds0[q].path@ == orig[q].path@);
                    if taken == Some(q) {
                        assert(orig[q].path@ == path@);
                        assert(listed_before(files@, i + 1, orig[q].path@));
                    } else {
                        assert(old_items@[q] == olds0[q]);
                        if !listed_before(files@, i + 1, orig[q].path@) {
                            if listed_before(files@, i as int, orig[q].path@) {
                                let j = choose|j: int|
                                    0 <= j < i && #[trigger] files@[j].path@ == orig[q].path@;
                                assert(0 <= j < i + 1 && files@[j].path@ == orig[q].path@);
                            }
                        }
                    }
                }
            }
            proof {
                assert((tex, failed) == kept_thumb(orig, files@, i as int));
            }
            let ghost merged_before = merged@;
            let f = &files[i];
            merged.push(
                GalleryItem {
                    path,
                    name: f.name.clone(),
                    mtime: f.mtime,
                    kind: f.kind,
                    tex,
                    failed,
                },
            );
            proof {
                assert(merged@[i as int].tex == tex);
                assert forall|m: int| 0 <= m < i implies merged@[m] == merged_before[m] by {}
            }
            i += 1;
        }
        proof {
            assert(merged@ =~= merged_items(orig, files@));
        }
        self.items = sort_items(merged, self.sort);
        self.scanned = true;
    }

    /// Puts the grid in the gallery's order (see `item_le`), without a new
    /// scan; tied items keep their previous order.
    pub fn apply_sort(&mut self)
        ensures
            final(self).items@.to_multiset() == old(self).items@.to_multiset(),
            final(self).items@.len() == old(self).items@.len(),
            sorted_by(final(self).items@, item_order::<T>(old(self).sort)),
            keeps_ties_in_order(old(self).items@, final(self).items@, old(self).sort),
            final(self).folder == old(self).folder,
            final(self).nav() == old(self).nav(),
            final(self).siblings() == old(self).siblings(),
            final(self).scanned == old(self).scanned,
            final(self).sort == old(self).sort,
            final(self).folder_panel_side == old(self).folder_panel_side,
            final(self).selected == old(self).selected,
            final(self).rename_edit == old(self).rename_edit,
            final(self).op_error == old(self).op_error,
    {
        let mut items: Vec<GalleryItem<T>> = Vec::new();
        std::mem::swap(&mut items, &mut self.items);
        let sorted = sort_items(items, self.sort);
        self.items = sorted;
    }
}

/// Index of the first item of `items` whose path is `p`.
pub open spec fn first_with_path<T>(items: Seq<GalleryItem<T>>, p: Seq<char>) -> Option<int> {
    if exists|k: int| 0 <= k < items.len() && #[trigger] items[k].path@ == p {
        Some(
            choose|k: int|
                0 <= k < items.len() && #[trigger] items[k].path@ == p && forall|q: int|
                    0 <= q < k ==> #[trigger] items[q].path@ != p,
        )
    } else {
        None
    }
}

impl<T> GalleryState<T> {
    /// Hands over the thumbnail that a worker loaded for `path` (by path: the
    /// order may have changed since the scan started). `None` means loading
    /// it failed. Only the first item with that path is touched; a path no
    /// longer listed is ignored.
    pub fn set_thumb(&mut self, path: &str, tex: Option<T>)
        ensures
            final(self).items@.len() == old(self).items@.len(),
            first_with_path(old(self).items@, path@) is None ==> final(self).items@ == old(
                self,
            ).items@,
            first_with_path(old(self).items@, path@) matches Some(k) ==> {
                &&& forall|j: int|
                    0 <= j < old(self).items@.len() && j != k ==> #[trigger] final(self).items@[j]
                        == old(self).items@[j]
                &&& final(self).items@[k].path == old(self).items@[k].path
                &&& final(self).items@[k].name == old(self).items@[k].name
                &&& final(self).items@[k].mtime == old(self).items@[k].mtime
                &&& final(self).items@[k].kind == old(self).items@[k].kind
                &&& (tex is Some ==> final(self).items@[k].tex == tex && final(self).items@[k].failed
                    == old(self).items@[k].failed)
                &&& (tex is None ==> final(self).items@[k].tex == old(self).items@[k].tex
                    && final(self).items@[k].failed)
            },
            final(self).folder == old(self).folder,
            final(self).nav() == old(self).nav(),
            final(self).siblings() == old(self).siblings(),
            final(self).scanned == old(self).scanned,
            final(self).sort == old(self).sort,
            final(self).folder_panel_side == old(self).folder_panel_side,
            final(self).selected == old(self).selected,
            final(self).rename_edit == old(self).rename_edit,
            final(self).op_error == old(self).op_error,
    {
        let wanted = String::from_str(path);
        let n = self.items.len();
        let mut i: usize = 0;
        while i < n
            invariant
                n == self.items@.len(),
                i <= n,
                *self == *old(self),
                wanted@ == path@,
                forall|q: int| 0 <= q < i ==> #[trigger] self.items@[q].path@ != path@,
            decreases n - i,
        {
            if self.items[i].path == wanted {
                proof {
                    assert(first_with_path(old(self).items@, path@) == Some(i as int)) by {
                        let k = choose|k: int|
                            0 <= k < self.items@.len() && #[trigger] self.items@[k].path@ == path@
                                && forall|q: int|
                                0 <= q < k ==> #[trigger] self.items@[q].path@ != path@;
                        assert(self.items@[i as int].path@ == path@);
                        if k < i {
                        } else if k > i {
                            assert(self.items@[i as int].path@ != path@);
                        }
                    }
                }
                match tex {
                    Some(t) => {
                        self.items[i].tex = Some(t);
                    },
                    None => {
                        self.items[i].failed = true;
                    },
                }
                return;
            }
            i += 1;
        }
    }

    /// What Alt+Left / Alt+Right / Alt+Up ask for, unless a text field has
    /// the focus: back and forward only when there is somewhere to go, the
    /// parent folder when there is one (`parent`).
    pub fn key_navigation_action(
        &self,
        back: bool,
        forward: bool,
        up: bool,
        text_edit_focused: bool,
        parent: Option<String>,
    ) -> (a: Option<GalleryAction>)
        ensures
            text_edit_focused ==> a is None,
            !text_edit_focused && back && self.nav().can_back() ==> a == Some(GalleryAction::Back),
            !text_edit_focused && !(back && self.nav().can_back()) && forward
                && self.nav().can_forward() ==> a == Some(GalleryAction::Forward),
            !text_edit_focused && !(back && self.nav().can_back()) && !(forward
                && self.nav().can_forward()) ==> (a is Some <==> (up && parent is Some)),
            !text_edit_focused && !(back && self.nav().can_back()) && !(forward
                && self.nav().can_forward()) && up ==> (parent matches Some(q) ==> a == Some(
                GalleryAction::OpenFolder(q),
            )),
    {
        if text_edit_focused {
            None
        } else if back && self.navigation.can_back() {
            Some(GalleryAction::Back)
        } else if forward && self.navigation.can_forward() {
            Some(GalleryAction::Forward)
        } else if up {
            match parent {
                Some(p) => Some(GalleryAction::OpenFolder(p)),
                None => None,
            }
        } else {
            None
        }
    }

    /// The file that Ctrl+C copies: the selected one, unless a text field
    /// has the focus.
    pub fn copy_target(&self, want_copy: bool, text_edit_focused: bool) -> (p: Option<String>)
        ensures
            (text_edit_focused || !want_copy) ==> p is None,
            (!text_edit_focused && want_copy) ==> (p is Some <==> self.selected is Some),
            (!text_edit_focused && want_copy) ==> (p matches Some(q) ==> self.selected matches Some(
                s,
            ) && q@ == s@),
    {
        if text_edit_focused || !want_copy {
            return None;
        }
        match &self.selected {
            Some(s) => Some(s.clone()),
            None => None,
        }
    }

    /// The action Ctrl+V asks for: paste the copied file (`copied`), unless
    /// a text field has the focus or nothing was copied.
    pub fn paste_action(want_paste: bool, text_edit_focused: bool, copied: Option<String>) -> (a:
        Option<GalleryAction>)
        ensures
            a is Some <==> (want_paste && !text_edit_focused && copied is Some),
            a matches Some(act) ==> copied matches Some(c) && act == GalleryAction::PasteHere(c),
    {
        if want_paste && !text_edit_focused {
            match copied {
                Some(c) => Some(GalleryAction::PasteHere(c)),
                None => None,
            }
        } else {
            None
        }
    }

    /// The rename field of a cell lost the focus, or Escape was pressed in
    /// it (`escape`): the rename ends. Escape, even together with the focus
    /// loss, abandons it; otherwise it returns the rename that the field asks
    /// for, if any (see `spec_rename_target`), against `original`, the
    /// current base name of the file.
    pub fn commit_rename_as(&mut self, escape: bool, original: &str) -> (a: Option<
        GalleryAction,
    >)
        ensures
            final(self).rename_edit is None,
            escape ==> a is None,
            old(self).rename_edit is None ==> a is None,
            !escape ==> (old(self).rename_edit matches Some((path, text)) ==> {
                &&& (a is Some <==> spec_rename_target(text@, original@) is Some)
                &&& (a matches Some(GalleryAction::Rename(p, n)) ==> p == path && Some(n@)
                    == spec_rename_target(text@, original@))
                &&& (a is Some ==> a matches Some(GalleryAction::Rename(_, _)))
            }),
            final(self).items == old(self).items,
            final(self).folder == old(self).folder,
            final(self).nav() == old(self).nav(),
            final(self).siblings() == old(self).siblings(),
            final(self).scanned == old(self).scanned,
            final(self).sort == old(self).sort,
            final(self).folder_panel_side == old(self).folder_panel_side,
            final(self).selected == old(self).selected,
            final(self).op_error == old(self).op_error,
    {
        match self.rename_edit.take() {
            None => None,
            Some((path, text)) => {
                if escape {
                    None
                } else {
                    match rename_target(text.as_str(), original) {
                        Some(new_stem) => Some(GalleryAction::Rename(path, new_stem)),
                        None => None,
                    }
                }
            },
        }
    }

    /// As `commit_rename_as`, against the base name (file stem) of the path
    /// being renamed, as std's `Path::file_stem` gives it (empty when the
    /// path has none). For a plain path (see `plain_path`) that is
    /// `plain_stem`; otherwise which part of the path it is depends on the
    /// platform's separators, and it is a piece of the path without `/`.
    pub fn commit_rename(&mut self, escape: bool) -> (a: Option<GalleryAction>)
        ensures
            final(self).rename_edit is None,
            escape ==> a is None,
            old(self).rename_edit is None ==> a is None,
            !escape ==> (old(self).rename_edit matches Some((path, text)) ==> exists|
                stem: Seq<char>,
            |
                is_piece_of(stem, path@) && !stem.contains('/') && (a is Some
                    <==> spec_rename_target(text@, stem) is Some) && (a matches Some(
                    GalleryAction::Rename(p, n),
                ) ==> p == path && Some(n@) == spec_rename_target(text@, stem)) && (a is Some
                    ==> a matches Some(GalleryAction::Rename(_, _)))),
            !escape ==> (old(self).rename_edit matches Some((path, text)) ==> (plain_path(path@)
                ==> {
                &&& (a is Some <==> spec_rename_target(text@, plain_stem(path@)) is Some)
                &&& (a matches Some(GalleryAction::Rename(p, n)) ==> p == path && Some(n@)
                    == spec_rename_target(text@, plain_stem(path@)))
            })),
            final(self).items == old(self).items,
            final(self).folder == old(self).folder,
            final(self).nav() == old(self).nav(),
            final(self).siblings() == old(self).siblings(),
            final(self).scanned == old(self).scanned,
            final(self).sort == old(self).sort,
            final(self).folder_panel_side == old(self).folder_panel_side,
            final(self).selected == old(self).selected,
            final(self).op_error == old(self).op_error,
    {
        let original = match &self.rename_edit {
            Some((path, _)) => match file_stem(path.as_str()) {
                Some(stem) => stem,
                None => String::new(),
            },
            None => String::new(),
        };
        proof {
            if let Some((path, _)) = old(self).rename_edit {
                if original@.len() == 0 {
                    assert(path@.subrange(0int, 0int + original@.len()) =~= original@);
                    assert(!original@.contains('/'));
                }
                assert(is_piece_of(original@, path@));
                if plain_path(path@) {
                    assert(original@ == plain_stem(path@));
                }
            }
        }
        let a = self.commit_rename_as(escape, original.as_str());
        proof {
            if let Some((path, text)) = old(self).rename_edit {
                if !escape {
                    let stem = original@;
                    assert(is_piece_of(stem, path@) && !stem.contains('/') && (a is Some
                        <==> spec_rename_target(text@, stem) is Some) && (a matches Some(
                        GalleryAction::Rename(p, n),
                    ) ==> p == path && Some(n@) == spec_rename_target(text@, stem)) && (a is Some
                        ==> a matches Some(GalleryAction::Rename(_, _))));
                }
            }
        }
        a
    }

    /// The user picked another order in the header: remember it, put the
    /// grid in that order and report the change. Picking the current order
    /// changes nothing.
    pub fn change_sort(&mut self, sort: GallerySort) -> (a: Option<GalleryAction>)
        ensures
            final(self).sort == sort,
            a is Some <==> sort != old(self).sort,
            a is Some ==> a == Some(GalleryAction::SortChanged(sort)),
            sort == old(self).sort ==> final(self).items == old(self).items,
            sort != old(self).sort ==> final(self).items@.to_multiset() == old(
                self,
            ).items@.to_multiset() && final(self).items@.len() == old(self).items@.len()
                && sorted_by(final(self).items@, item_order::<T>(sort)) && keeps_ties_in_order(
                old(self).items@,
                final(self).items@,
                sort,
            ),
            final(self).folder == old(self).folder,
            final(self).nav() == old(self).nav(),
            final(self).siblings() == old(self).siblings(),
            final(self).scanned == old(self).scanned,
            final(self).folder_panel_side == old(self).folder_panel_side,
            final(self).selected == old(self).selected,
            final(self).rename_edit == old(self).rename_edit,
            final(self).op_error == old(self).op_error,
    {
        if sort != self.sort {
            self.sort = sort;
            self.apply_sort();
            Some(GalleryAction::SortChanged(sort))
        } else {
            None
        }
    }
}

/// `piece` occurs in `s` as a run of consecutive characters.
pub open spec fn is_piece_of(piece: Seq<char>, s: Seq<char>) -> bool {
    exists|i: int| 0 <= i && i + piece.len() <= s.len() && #[trigger] s.subrange(i, i + piece.len()) == piece
}

/// Index of the last `c` in `s`, or -1 when there is none.
pub open spec fn last_index_of(s: Seq<char>, c: char) -> int
    decreases s.len(),
{
    if s.len() == 0 {
        -1
    } else if s.last() == c {
        s.len() - 1
    } else {
        last_index_of(s.drop_last(), c)
    }
}

pub proof fn lemma_last_index_of_bounds(s: Seq<char>, c: char)
    ensures
        -1 <= last_index_of(s, c) < s.len(),
        last_index_of(s, c) >= 0 ==> s[last_index_of(s, c)] == c,
    decreases s.len(),
{
    if s.len() > 0 && s.last() != c {
        lemma_last_index_of_bounds(s.drop_last(), c);
    }
}

/// A path written with `/` as its only separator: no `\`, no `:` (so no
/// Windows drive or verbatim prefix) and no leading `//` (so no network
/// share prefix). Such a path splits into the same components on every
/// platform.
pub open spec fn plain_path(p: Seq<char>) -> bool {
    !p.contains('\\') && !p.contains(':') && !(p.len() >= 2 && p[0] == '/' && p[1] == '/')
}

/// The file name of a plain path, as std's `Path::file_name` documents it:
/// its last component, after dropping trailing separators and `.`
/// components; `None` for a root, an empty path, `.` alone, or a path that
/// ends in `..`.
pub open spec fn final_component(p: Seq<char>) -> Option<Seq<char>>
    decreases p.len(),
{
    if p.len() == 0 {
        None
    } else if p.last() == '/' {
        final_component(p.drop_last())
    } else {
        let k = last_index_of(p, '/');
        proof {
            lemma_last_index_of_bounds(p, '/');
        }
        let c = p.subrange(k + 1, p.len() as int);
        if c == seq!['.'] {
            if k < 0 {
                None
            } else {
                final_component(p.take(k))
            }
        } else if c == seq!['.', '.'] {
            None
        } else {
            Some(c)
        }
    }
}

/// The stem of a file name, as std's `Path::file_stem` documents it: the
/// whole name when it has no `.` other than a leading one, otherwise the
/// part before its last `.`.
pub open spec fn stem_of(name: Seq<char>) -> Seq<char> {
    let k = last_index_of(name, '.');
    if k <= 0 {
        name
    } else {
        name.take(k)
    }
}

/// The base name of a plain path (see `final_component` and `stem_of`),
/// empty when it has no file name.
pub open spec fn plain_stem(p: Seq<char>) -> Seq<char> {
    match final_component(p) {
        Some(name) => stem_of(name),
        None => Seq::empty(),
    }
}

/// std's `Path::file_stem` on `path`, read back as text: the file name
/// without its last extension (see `stem_of`), `None` when the path has no
/// file name. Which characters separate components depends on the
/// platform: for a plain path (see `plain_path`) the stem is the one of
/// `final_component`; for any path it is a non-empty run of characters of
/// the path without `/`.
#[verifier::external_body]
fn file_stem(path: &str) -> (stem: Option<String>)
    ensures
        stem matches Some(s) ==> is_piece_of(s@, path@) && !s@.contains('/') && s@.len() > 0,
        plain_path(path@) ==> match stem {
            Some(s) => final_component(path@) matches Some(name) && s@ == stem_of(name),
            None => final_component(path@) is None,
        },
{
    std::path::Path::new(path).file_stem().map(|s| s.to_string_lossy().into_owned())
}

} // verus!
