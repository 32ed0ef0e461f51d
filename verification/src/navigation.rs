//! Back/forward history of the folders visited in the gallery, the way a
//! web browser keeps it: visiting a new folder after going back discards the
//! folders that were ahead.

use vstd::prelude::*;

verus! {

/// Mathematical model of a folder history: the folders visited, oldest
/// first, and the index of the one shown now.
pub ghost struct NavModel {
    pub folders: Seq<Seq<char>>,
    pub position: nat,
}

impl NavModel {
    /// The position points into the history.
    pub open spec fn wf(self) -> bool {
        self.position < self.folders.len()
    }

    /// The folder shown now.
    pub open spec fn current(self) -> Seq<char> {
        self.folders[self.position as int]
    }

    pub open spec fn can_back(self) -> bool {
        self.position > 0
    }

    pub open spec fn can_forward(self) -> bool {
        self.position + 1 < self.folders.len()
    }

    /// Visiting `folder`: nothing changes if it is the folder shown now;
    /// otherwise the folders ahead are dropped and `folder` is appended.
    pub open spec fn push(self, folder: Seq<char>) -> NavModel {
        if self.current() == folder {
            self
        } else {
            NavModel {
                folders: self.folders.take(self.position + 1 as int).push(folder),
                position: self.position + 1,
            }
        }
    }

    /// One step back (unchanged at the oldest folder).
    pub open spec fn back(self) -> NavModel {
        if self.can_back() {
            NavModel { folders: self.folders, position: (self.position - 1) as nat }
        } else {
            self
        }
    }

    /// One step forward (unchanged at the newest folder).
    pub open spec fn forward(self) -> NavModel {
        if self.can_forward() {
            NavModel { folders: self.folders, position: self.position + 1 }
        } else {
            self
        }
    }
}

/// History of visited folders and the position of the folder shown now.
#[derive(Debug)]
pub struct FolderNavigation {
    history: Vec<String>,
    current: usize,
}

impl View for FolderNavigation {
    type V = NavModel;

    closed spec fn view(&self) -> NavModel {
        NavModel {
            folders: self.history@.map_values(|s: String| s@),
            position: self.current as nat,
        }
    }
}

impl FolderNavigation {
    /// The position always points into the history.
    #[verifier::type_invariant]
    spec fn inv(self) -> bool {
        self.current < self.history@.len()
    }

    /// A history that holds only `folder`.
    pub fn new(folder: String) -> (nav: Self)
        ensures
            nav@ == (NavModel { folders: seq![folder@], position: 0 }),
    {
        let mut history = Vec::new();
        history.push(folder);
        let nav = FolderNavigation { history, current: 0 };
        assert(nav@.folders =~= seq![folder@]);
        nav
    }

    /// Visits `folder` (see `NavModel::push`).
    pub fn push(&mut self, folder: String)
        ensures
            final(self)@ == old(self)@.push(folder@),
            final(self)@.wf(),
    {
        proof {
            use_type_invariant(&*self);
            vstd::std_specs::vec::axiom_spec_len(&self.history);
        }
        let same = self.history[self.current] == folder;
        if !same {
            let keep = self.current + 1;
            let mut history: Vec<String> = Vec::new();
            let mut i: usize = 0;
            while i < keep
                invariant
                    keep <= self.history@.len(),
                    i <= keep,
                    history@.len() == i,
                    forall|j: int| 0 <= j < i ==> #[trigger] history@[j] == self.history@[j],
                decreases keep - i,
            {
                history.push(self.history[i].clone());
                i += 1;
            }
            history.push(folder);
            let ghost before = self.history@;
            proof {
                assert(history@ =~= before.subrange(0, keep as int).push(folder));
                assert(history@.map_values(|s: String| s@) =~= before.map_values(
                    |s: String| s@,
                ).take(keep as int).push(folder@));
            }
            *self = FolderNavigation { history, current: keep };
        }
        proof {
            use_type_invariant(&*self);
        }
    }

    /// Goes one folder back, if there is one, and returns it.
    pub fn back(&mut self) -> (folder: Option<String>)
        ensures
            final(self)@ == old(self)@.back(),
            final(self)@.wf(),
            folder is Some <==> old(self)@.can_back(),
            folder matches Some(f) ==> f@ == final(self)@.current(),
    {
        proof {
            use_type_invariant(&*self);
        }
        if self.current > 0 {
            let current = self.current - 1;
            let f = self.history[current].clone();
            self.current = current;
            Some(f)
        } else {
            None
        }
    }

    /// Goes one folder forward, if there is one, and returns it.
    pub fn forward(&mut self) -> (folder: Option<String>)
        ensures
            final(self)@ == old(self)@.forward(),
            final(self)@.wf(),
            folder is Some <==> old(self)@.can_forward(),
            folder matches Some(f) ==> f@ == final(self)@.current(),
    {
        proof {
            use_type_invariant(&*self);
        }
        let n = self.history.len();
        if self.current + 1 < n {
            let current = self.current + 1;
            let f = self.history[current].clone();
            self.current = current;
            Some(f)
        } else {
            None
        }
    }

    /// Is there a folder to go back to?
    pub fn can_back(&self) -> (b: bool)
        ensures
            b == self@.can_back(),
    {
        self.current > 0
    }

    /// Is there a folder to go forward to?
    pub fn can_forward(&self) -> (b: bool)
        ensures
            b == self@.can_forward(),
    {
        proof {
            use_type_invariant(self);
        }
        let n = self.history.len();
        self.current + 1 < n
    }
}

impl Clone for FolderNavigation {
    fn clone(&self) -> (copy: Self)
        ensures
            copy@ == self@,
    {
        proof {
            use_type_invariant(self);
        }
        let mut history: Vec<String> = Vec::new();
        let mut i: usize = 0;
        while i < self.history.len()
            invariant
                i <= self.history.len(),
                history@.len() == i,
                forall|j: int| 0 <= j < i ==> history@[j]@ == self.history@[j]@,
            decreases self.history.len() - i,
        {
            history.push(self.history[i].clone());
            i += 1;
        }
        let copy = FolderNavigation { history, current: self.current };
        assert(copy@.folders =~= self@.folders);
        copy
    }
}

/// Every step keeps the position inside the history.
pub proof fn lemma_navigation_steps_keep_wf(m: NavModel, folder: Seq<char>)
    requires
        m.wf(),
    ensures
        m.push(folder).wf(),
        m.back().wf(),
        m.forward().wf(),
{
}

/// Going back and then forward again returns to the same history and
/// folder; so does going forward and then back.
pub proof fn lemma_back_forward_round_trip(m: NavModel)
    requires
        m.wf(),
    ensures
        m.can_back() ==> m.back().forward() == m,
        m.can_forward() ==> m.forward().back() == m,
{
}

/// Visiting a folder other than the current one discards the forward
/// branch: afterwards there is nothing to go forward to, the new folder is
/// the one shown, and one step back returns to the folder shown before.
pub proof fn lemma_visit_discards_forward_branch(m: NavModel, folder: Seq<char>)
    requires
        m.wf(),
        m.current() != folder,
    ensures
        !m.push(folder).can_forward(),
        m.push(folder).current() == folder,
        m.push(folder).can_back(),
        m.push(folder).back().current() == m.current(),
        m.push(folder).back().folders.take(m.position + 1 as int) == m.folders.take(m.position + 1 as int),
{
    let p = m.push(folder);
    assert(p.folders.len() == m.position + 2);
    assert(p.back().folders.take(m.position + 1 as int) =~= m.folders.take(m.position + 1 as int));
}

/// Visiting the folder that is already shown changes nothing.
pub proof fn lemma_revisit_is_noop(m: NavModel)
    requires
        m.wf(),
    ensures
        m.push(m.current()) == m,
{
}

} // verus!
