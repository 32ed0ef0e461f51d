//! What a primary press on the editing area does: a button of a canvas
//! header (rename, move, lock, isolate, duplicate, delete), activating
//! another canvas of the deck, or the "+" zone at the end of the deck.

use vstd::prelude::*;

verus! {

/// Direction in which a canvas moves within the deck.
#[derive(Clone, Copy, PartialEq, Eq, Debug, Structural)]
pub enum MoveDir {
    Prev,
    Next,
}

/// Which parts of a canvas header contain the pointer.
#[derive(Clone, Copy, PartialEq, Eq, Debug, Structural)]
pub struct HeaderHits {
    pub name: bool,
    pub prev: bool,
    pub next: bool,
    pub lock: bool,
    pub isolate: bool,
    pub duplicate: bool,
    pub delete: bool,
}

/// A visible canvas whose header is tested against the pointer.
#[derive(Clone, Copy, PartialEq, Eq, Debug, Structural)]
pub struct HeaderCandidate {
    /// Index of the canvas in the deck.
    pub index: usize,
    /// Slot id of the canvas.
    pub id: u64,
    /// Not saved to a file yet: it has no name to rename.
    pub is_placeholder: bool,
    /// Where the pointer is on its header; `None` when the header is too
    /// narrow on screen to be drawn or pressed.
    pub hits: Option<HeaderHits>,
}

/// What a press on the editing area asks for.
#[derive(Clone, Copy, PartialEq, Eq, Debug, Structural)]
pub enum PressOutcome {
    /// Start renaming the canvas in this slot.
    Rename(u64),
    /// Move the canvas in this slot within the deck.
    Move(u64, MoveDir),
    /// Lock or unlock the canvas at this index.
    ToggleLock(usize),
    /// Toggle "show only the active canvas", first activating the canvas at
    /// this index when it is not the active one.
    ToggleIsolate(Option<usize>),
    /// Duplicate the canvas in this slot.
    Duplicate(u64),
    /// Delete the canvas in this slot.
    Delete(u64),
    /// Activate (and reframe) the canvas at this index.
    Activate(usize),
    /// Create and activate a blank canvas in the "+" zone.
    AddCanvas,
    /// The press is left to the layers of the active canvas.
    Ignored,
}

/// The header button under the pointer, in priority order: the name (only
/// for a canvas saved to a file), then previous, next, lock, isolate,
/// duplicate and delete.
pub open spec fn spec_header_outcome(c: HeaderCandidate, active: usize) -> Option<PressOutcome> {
    match c.hits {
        None => None,
        Some(h) => if !c.is_placeholder && h.name {
            Some(PressOutcome::Rename(c.id))
        } else if h.prev {
            Some(PressOutcome::Move(c.id, MoveDir::Prev))
        } else if h.next {
            Some(PressOutcome::Move(c.id, MoveDir::Next))
        } else if h.lock {
            Some(PressOutcome::ToggleLock(c.index))
        } else if h.isolate {
            Some(
                PressOutcome::ToggleIsolate(
                    if c.index != active {
                        Some(c.index)
                    } else {
                        None
                    },
                ),
            )
        } else if h.duplicate {
            Some(PressOutcome::Duplicate(c.id))
        } else if h.delete {
            Some(PressOutcome::Delete(c.id))
        } else {
            None
        },
    }
}

/// The header button of one canvas under the pointer (see
/// `spec_header_outcome`).
pub fn header_outcome(c: HeaderCandidate, active: usize) -> (o: Option<PressOutcome>)
    ensures
        o == spec_header_outcome(c, active),
{
    match c.hits {
        None => None,
        Some(h) => if !c.is_placeholder && h.name {
            Some(PressOutcome::Rename(c.id))
        } else if h.prev {
            Some(PressOutcome::Move(c.id, MoveDir::Prev))
        } else if h.next {
            Some(PressOutcome::Move(c.id, MoveDir::Next))
        } else if h.lock {
            Some(PressOutcome::ToggleLock(c.index))
        } else if h.isolate {
            let jump = if c.index != active {
                Some(c.index)
            } else {
                None
            };
            Some(PressOutcome::ToggleIsolate(jump))
        } else if h.duplicate {
            Some(PressOutcome::Duplicate(c.id))
        } else if h.delete {
            Some(PressOutcome::Delete(c.id))
        } else {
            None
        },
    }
}

/// Index of the first visible canvas whose header has a button under the
/// pointer.
pub open spec fn first_header_hit(visible: Seq<HeaderCandidate>, active: usize) -> Option<int> {
    if exists|i: int| 0 <= i < visible.len() && (#[trigger] spec_header_outcome(visible[i], active)) is Some {
        Some(
            choose|i: int|
                0 <= i < visible.len() && (#[trigger] spec_header_outcome(visible[i], active)) is Some
                    && forall|j: int|
                    0 <= j < i ==> (#[trigger] spec_header_outcome(visible[j], active)) is None,
        )
    } else {
        None
    }
}

/// A canvas whose header is hit implies a first such canvas.
pub proof fn lemma_first_header_hit_exists(visible: Seq<HeaderCandidate>, active: usize, i: int)
    requires
        0 <= i < visible.len(),
        spec_header_outcome(visible[i], active) is Some,
    ensures
        exists|k: int|
            0 <= k <= i && (#[trigger] spec_header_outcome(visible[k], active)) is Some && forall|
                j: int,
            | 0 <= j < k ==> (#[trigger] spec_header_outcome(visible[j], active)) is None,
    decreases i,
{
    if exists|j: int| 0 <= j < i && (#[trigger] spec_header_outcome(visible[j], active)) is Some {
        let j = choose|j: int| 0 <= j < i && (#[trigger] spec_header_outcome(visible[j], active)) is Some;
        lemma_first_header_hit_exists(visible, active, j);
    } else {
        assert(spec_header_outcome(visible[i], active) is Some);
    }
}

/// What a primary press (not while Space is held, inside the editing area)
/// asks for. The headers of the visible canvases are tested first, in
/// order; the first one hit takes the whole press. Otherwise a press on a
/// canvas other than the active one (`body`, the index of the first canvas
/// whose area contains the pointer) activates it; a press in the "+" zone of
/// a deck backed by a folder adds a canvas.
pub open spec fn spec_press(
    visible: Seq<HeaderCandidate>,
    active: usize,
    body: Option<usize>,
    in_add_zone: bool,
    has_folder: bool,
) -> PressOutcome {
    match first_header_hit(visible, active) {
        Some(i) => spec_header_outcome(visible[i], active).unwrap(),
        None => match body {
            Some(idx) => if idx != active {
                PressOutcome::Activate(idx)
            } else {
                PressOutcome::Ignored
            },
            None => if has_folder && in_add_zone {
                PressOutcome::AddCanvas
            } else {
                PressOutcome::Ignored
            },
        },
    }
}

/// Decides what a press asks for (see `spec_press`).
pub fn plan_press(
    visible: &Vec<HeaderCandidate>,
    active: usize,
    body: Option<usize>,
    in_add_zone: bool,
    has_folder: bool,
) -> (o: PressOutcome)
    ensures
        o == spec_press(visible@, active, body, in_add_zone, has_folder),
{
    let n = visible.len();
    let mut i: usize = 0;
    while i < n
        invariant
            n == visible@.len(),
            i <= n,
            forall|j: int| 0 <= j < i ==> (#[trigger] spec_header_outcome(visible@[j], active)) is None,
        decreases n - i,
    {
        match header_outcome(visible[i], active) {
            Some(o) => {
                proof {
                    assert(first_header_hit(visible@, active) == Some(i as int)) by {
                        let k = choose|k: int|
                            0 <= k < visible@.len() && (#[trigger] spec_header_outcome(
                                visible@[k],
                                active,
                            )) is Some && forall|j: int|
                                0 <= j < k ==> (#[trigger] spec_header_outcome(
                                    visible@[j],
                                    active,
                                )) is None;
                        assert(spec_header_outcome(visible@[i as int], active) is Some);
                        if k > i {
                            assert(spec_header_outcome(visible@[i as int], active) is None);
                        }
                    }
                }
                return o;
            },
            None => {},
        }
        i += 1;
    }
    match body {
        Some(idx) => if idx != active {
            PressOutcome::Activate(idx)
        } else {
            PressOutcome::Ignored
        },
        None => if has_folder && in_add_zone {
            PressOutcome::AddCanvas
        } else {
            PressOutcome::Ignored
        },
    }
}

/// Each header button does what its icon says, to the canvas whose header it
/// is: the name renames a saved canvas; the ← arrow moves it toward the start
/// of the deck and the → arrow toward the end (the ← arrow wins when both are
/// hit); then lock, isolate (first activating a canvas that is not the active
/// one), duplicate and delete, in that order; no button, no outcome. An arrow
/// never moves a canvas the other way.
pub proof fn lemma_header_buttons(c: HeaderCandidate, active: usize)
    ensures
        c.hits is None ==> spec_header_outcome(c, active) is None,
        c.hits matches Some(h) ==> {
            let o = spec_header_outcome(c, active);
            let named = !c.is_placeholder && h.name;
            &&& (named ==> o == Some(PressOutcome::Rename(c.id)))
            &&& (!named && h.prev ==> o == Some(PressOutcome::Move(c.id, MoveDir::Prev)))
            &&& (!named && !h.prev && h.next ==> o == Some(PressOutcome::Move(c.id, MoveDir::Next)))
            &&& (!named && !h.prev && !h.next && h.lock ==> o == Some(
                PressOutcome::ToggleLock(c.index),
            ))
            &&& (!named && !h.prev && !h.next && !h.lock && h.isolate && c.index == active ==> o
                == Some(PressOutcome::ToggleIsolate(None)))
            &&& (!named && !h.prev && !h.next && !h.lock && h.isolate && c.index != active ==> o
                == Some(PressOutcome::ToggleIsolate(Some(c.index))))
            &&& (!named && !h.prev && !h.next && !h.lock && !h.isolate && h.duplicate ==> o
                == Some(PressOutcome::Duplicate(c.id)))
            &&& (!named && !h.prev && !h.next && !h.lock && !h.isolate && !h.duplicate
                && h.delete ==> o == Some(PressOutcome::Delete(c.id)))
            &&& (!named && !h.prev && !h.next && !h.lock && !h.isolate && !h.duplicate
                && !h.delete ==> o is None)
            &&& (o matches Some(PressOutcome::Move(id, d)) ==> id == c.id && (d == MoveDir::Prev
                <==> h.prev) && (d == MoveDir::Next ==> h.next))
            &&& (o matches Some(PressOutcome::Rename(id)) ==> id == c.id && h.name
                && !c.is_placeholder)
        },
{
}

/// A press on the → arrow of the only header under the pointer moves that
/// canvas one place toward the end of the deck, whatever lies under the
/// header; the ← arrow moves it toward the start.
pub proof fn lemma_arrows_move_their_canvas(
    c: HeaderCandidate,
    active: usize,
    body: Option<usize>,
    in_add_zone: bool,
    has_folder: bool,
)
    requires
        c.hits matches Some(h) && (h.next || h.prev) && (c.is_placeholder || !h.name),
    ensures
        c.hits matches Some(h) && h.prev ==> spec_press(seq![c], active, body, in_add_zone, has_folder)
            == PressOutcome::Move(c.id, MoveDir::Prev),
        c.hits matches Some(h) && !h.prev ==> spec_press(seq![c], active, body, in_add_zone, has_folder)
            == PressOutcome::Move(c.id, MoveDir::Next),
{
    let v = seq![c];
    lemma_header_buttons(c, active);
    assert(spec_header_outcome(v[0], active) is Some);
    let i = first_header_hit(v, active)->0;
    assert(first_header_hit(v, active) is Some);
    assert(i == 0);
}

/// With no header button under the pointer, a press on another canvas
/// activates it, a press on the active canvas is left to its layers, and a
/// press on no canvas adds one in the "+" zone of a deck backed by a folder;
/// anything else is ignored.
pub proof fn lemma_press_without_headers(
    visible: Seq<HeaderCandidate>,
    active: usize,
    body: Option<usize>,
    in_add_zone: bool,
    has_folder: bool,
)
    requires
        forall|i: int| 0 <= i < visible.len() ==> (#[trigger] visible[i]).hits is None,
    ensures
        ({
            let o = spec_press(visible, active, body, in_add_zone, has_folder);
            &&& (body is Some && body->0 != active ==> o == PressOutcome::Activate(body->0))
            &&& (body == Some(active) ==> o == PressOutcome::Ignored)
            &&& (body is None && has_folder && in_add_zone ==> o == PressOutcome::AddCanvas)
            &&& (body is None && !(has_folder && in_add_zone) ==> o == PressOutcome::Ignored)
        }),
{
    assert forall|i: int| 0 <= i < visible.len() implies (#[trigger] spec_header_outcome(
        visible[i],
        active,
    )) is None by {
        assert(visible[i].hits is None);
    }
}

/// A header button always wins over activating the canvas under it, and a
/// press on the active canvas itself, outside any header, is left to its
/// layers.
pub proof fn lemma_headers_take_precedence(
    visible: Seq<HeaderCandidate>,
    active: usize,
    body: Option<usize>,
    in_add_zone: bool,
    has_folder: bool,
)
    ensures
        first_header_hit(visible, active) is Some ==> !(spec_press(
            visible,
            active,
            body,
            in_add_zone,
            has_folder,
        ) is Activate),
        first_header_hit(visible, active) is None && body == Some(active) ==> spec_press(
            visible,
            active,
            body,
            in_add_zone,
            has_folder,
        ) == PressOutcome::Ignored,
{
    if exists|i: int| 0 <= i < visible.len() && (#[trigger] spec_header_outcome(visible[i], active)) is Some {
        let i = choose|i: int| 0 <= i < visible.len() && (#[trigger] spec_header_outcome(visible[i], active)) is Some;
        lemma_first_header_hit_exists(visible, active, i);
    }
}

} // verus!
