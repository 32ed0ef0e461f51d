//! How a primary drag over the canvas starts: on a handle of the selected
//! layer it rotates, resizes or crops that layer; elsewhere it picks the
//! layer under the pointer (changing the selection by the modifiers) and
//! moves it. The hit tests themselves are screen geometry done by the caller.

use vstd::prelude::*;

verus! {

/// A corner of a layer, where its resize (or crop) handle sits.
#[derive(Clone, Copy, PartialEq, Eq, Debug, Structural)]
pub enum Corner {
    TopLeft,
    TopRight,
    BottomLeft,
    BottomRight,
}

/// Which handle of the selected layer is under the pointer.
#[derive(Clone, Copy, PartialEq, Eq, Debug, Structural)]
pub enum HandleHit {
    /// The rotation handle above the top edge.
    Rotate,
    /// The handle of this corner.
    Corner(Corner),
    /// No handle.
    Nothing,
}

/// The edit gesture that a drag starts, with the layer it acts on.
#[derive(Clone, Copy, PartialEq, Eq, Debug, Structural)]
pub enum GestureKind {
    Move(u64),
    Resize(u64, Corner),
    Rotate(u64),
    /// Crop mode: the corner moves an edge of the visible window over the
    /// content, which stays pinned to the page.
    Crop(u64, Corner),
}

/// How the selection changes when a drag starts away from the handles.
#[derive(Clone, Copy, PartialEq, Eq, Debug, Structural)]
pub enum SelectionChange {
    /// Ctrl: add the layer to the selection, or take it out.
    Toggle(u64),
    /// Shift: extend the selection along the stack up to the layer.
    ExtendTo(u64),
    /// No modifier: the selection becomes just this layer (or nothing).
    Replace(Option<u64>),
    /// The selection stays as it is.
    Keep,
}

/// What the start of a drag asks for.
#[derive(Clone, Copy, PartialEq, Eq, Debug, Structural)]
pub struct DragStart {
    /// The gesture started, if any.
    pub gesture: Option<GestureKind>,
    pub selection: SelectionChange,
    /// Crop mode ends: the drag started on another layer than the selected one.
    pub leave_crop_mode: bool,
}

/// The start of a primary drag. `primary` is the selected layer, `handle`
/// the handle of it under the pointer (only looked at when a layer is
/// selected), `hit` the topmost layer under the pointer, `command` and
/// `shift` the modifiers held. A handle takes precedence and leaves the
/// selection and crop mode alone; otherwise the selection changes by the
/// modifiers, crop mode ends unless the hit layer is the selected one, and
/// the hit layer, if any, starts moving.
pub open spec fn spec_drag_start(
    primary: Option<u64>,
    handle: HandleHit,
    crop_mode: bool,
    hit: Option<u64>,
    command: bool,
    shift: bool,
) -> DragStart {
    match (primary, handle) {
        (Some(sel), HandleHit::Rotate) => DragStart {
            gesture: Some(GestureKind::Rotate(sel)),
            selection: SelectionChange::Keep,
            leave_crop_mode: false,
        },
        (Some(sel), HandleHit::Corner(c)) => DragStart {
            gesture: Some(
                if crop_mode {
                    GestureKind::Crop(sel, c)
                } else {
                    GestureKind::Resize(sel, c)
                },
            ),
            selection: SelectionChange::Keep,
            leave_crop_mode: false,
        },
        _ => DragStart {
            gesture: match hit {
                Some(id) => Some(GestureKind::Move(id)),
                None => None,
            },
            selection: if command {
                match hit {
                    Some(id) => SelectionChange::Toggle(id),
                    None => SelectionChange::Keep,
                }
            } else if shift {
                match hit {
                    Some(id) => SelectionChange::ExtendTo(id),
                    None => SelectionChange::Keep,
                }
            } else {
                SelectionChange::Replace(hit)
            },
            leave_crop_mode: hit != primary,
        },
    }
}

/// Decides how a primary drag starts (see `spec_drag_start`).
pub fn plan_drag_start(
    primary: Option<u64>,
    handle: HandleHit,
    crop_mode: bool,
    hit: Option<u64>,
    command: bool,
    shift: bool,
) -> (d: DragStart)
    ensures
        d == spec_drag_start(primary, handle, crop_mode, hit, command, shift),
{
    if let Some(sel) = primary {
        match handle {
            HandleHit::Rotate => {
                return DragStart {
                    gesture: Some(GestureKind::Rotate(sel)),
                    selection: SelectionChange::Keep,
                    leave_crop_mode: false,
                };
            },
            HandleHit::Corner(c) => {
                let g = if crop_mode {
                    GestureKind::Crop(sel, c)
                } else {
                    GestureKind::Resize(sel, c)
                };
                return DragStart {
                    gesture: Some(g),
                    selection: SelectionChange::Keep,
                    leave_crop_mode: false,
                };
            },
            HandleHit::Nothing => {},
        }
    }
    let gesture = match hit {
        Some(id) => Some(GestureKind::Move(id)),
        None => None,
    };
    let selection = if command {
        match hit {
            Some(id) => SelectionChange::Toggle(id),
            None => SelectionChange::Keep,
        }
    } else if shift {
        match hit {
            Some(id) => SelectionChange::ExtendTo(id),
            None => SelectionChange::Keep,
        }
    } else {
        SelectionChange::Replace(hit)
    };
    let leave_crop_mode = match (hit, primary) {
        (Some(a), Some(b)) => a != b,
        (None, None) => false,
        _ => true,
    };
    DragStart { gesture, selection, leave_crop_mode }
}

/// The pointer shape over the canvas.
#[derive(Clone, Copy, PartialEq, Eq, Debug, Structural)]
pub enum CursorShape {
    /// Over the rotation handle.
    Crosshair,
    /// Over the top-left or bottom-right corner handle.
    ResizeNwSe,
    /// Over the top-right or bottom-left corner handle.
    ResizeNeSw,
    /// Over the selected layer, with no gesture under way.
    Move,
    /// Anything else.
    Default,
}

/// The pointer shape: the handles of the selected layer first, then its body
/// while no gesture is under way.
pub open spec fn spec_cursor(
    selected: bool,
    handle: HandleHit,
    inside_selected: bool,
    gesture_idle: bool,
) -> CursorShape {
    if !selected {
        CursorShape::Default
    } else {
        match handle {
            HandleHit::Rotate => CursorShape::Crosshair,
            HandleHit::Corner(Corner::TopLeft) | HandleHit::Corner(Corner::BottomRight) => {
                CursorShape::ResizeNwSe
            },
            HandleHit::Corner(_) => CursorShape::ResizeNeSw,
            HandleHit::Nothing => if inside_selected && gesture_idle {
                CursorShape::Move
            } else {
                CursorShape::Default
            },
        }
    }
}

/// Decides the pointer shape (see `spec_cursor`).
pub fn plan_cursor(selected: bool, handle: HandleHit, inside_selected: bool, gesture_idle: bool) -> (c:
    CursorShape)
    ensures
        c == spec_cursor(selected, handle, inside_selected, gesture_idle),
{
    if !selected {
        return CursorShape::Default;
    }
    match handle {
        HandleHit::Rotate => CursorShape::Crosshair,
        HandleHit::Corner(Corner::TopLeft) | HandleHit::Corner(Corner::BottomRight) => {
            CursorShape::ResizeNwSe
        },
        HandleHit::Corner(_) => CursorShape::ResizeNeSw,
        HandleHit::Nothing => if inside_selected && gesture_idle {
            CursorShape::Move
        } else {
            CursorShape::Default
        },
    }
}

/// The layer a gesture acts on.
pub open spec fn gesture_layer(g: GestureKind) -> u64 {
    match g {
        GestureKind::Move(l) => l,
        GestureKind::Resize(l, _) => l,
        GestureKind::Rotate(l) => l,
        GestureKind::Crop(l, _) => l,
    }
}

/// A drag that starts on a handle of the selected layer acts on that layer
/// and changes neither the selection nor crop mode; one that starts away
/// from the handles moves the layer under the pointer, and without modifiers
/// the selection becomes exactly that layer (or nothing, on empty canvas);
/// crop mode survives only a drag on the selected layer itself.
pub proof fn lemma_drag_start_rules(
    primary: Option<u64>,
    handle: HandleHit,
    crop_mode: bool,
    hit: Option<u64>,
    command: bool,
    shift: bool,
)
    ensures
        ({
            let d = spec_drag_start(primary, handle, crop_mode, hit, command, shift);
            &&& primary is Some && handle != HandleHit::Nothing ==> d.selection
                == SelectionChange::Keep && !d.leave_crop_mode && (d.gesture matches Some(g)
                && gesture_layer(g) == primary->0 && !(g is Move))
            &&& (primary is None || handle == HandleHit::Nothing) ==> {
                &&& (d.gesture is Some <==> hit is Some)
                &&& (hit matches Some(id) ==> d.gesture == Some(GestureKind::Move(id)))
                &&& (!command && !shift ==> d.selection == SelectionChange::Replace(hit))
                &&& (d.leave_crop_mode <==> hit != primary)
            }
        }),
{
}

/// On a handle of the selected layer: the rotation handle rotates it, a
/// corner handle resizes it from that corner, or crops from that corner in
/// crop mode. The pointer shows a crosshair on the rotation handle, and the
/// same diagonal arrows on opposite corners: top-left and bottom-right one
/// way, top-right and bottom-left the other.
pub proof fn lemma_handles_act_on_the_selection(
    sel: u64,
    c: Corner,
    crop_mode: bool,
    hit: Option<u64>,
    command: bool,
    shift: bool,
    inside: bool,
    idle: bool,
)
    ensures
        spec_drag_start(Some(sel), HandleHit::Rotate, crop_mode, hit, command, shift).gesture
            == Some(GestureKind::Rotate(sel)),
        spec_drag_start(Some(sel), HandleHit::Corner(c), crop_mode, hit, command, shift).gesture
            == Some(
            if crop_mode {
                GestureKind::Crop(sel, c)
            } else {
                GestureKind::Resize(sel, c)
            },
        ),
        spec_cursor(true, HandleHit::Rotate, inside, idle) == CursorShape::Crosshair,
        spec_cursor(true, HandleHit::Corner(Corner::TopLeft), inside, idle) == spec_cursor(
            true,
            HandleHit::Corner(Corner::BottomRight),
            inside,
            idle,
        ),
        spec_cursor(true, HandleHit::Corner(Corner::TopRight), inside, idle) == spec_cursor(
            true,
            HandleHit::Corner(Corner::BottomLeft),
            inside,
            idle,
        ),
        spec_cursor(true, HandleHit::Corner(Corner::TopLeft), inside, idle)
            == CursorShape::ResizeNwSe,
        spec_cursor(true, HandleHit::Corner(Corner::TopRight), inside, idle)
            == CursorShape::ResizeNeSw,
        spec_cursor(true, HandleHit::Nothing, inside, idle) == (if inside && idle {
            CursorShape::Move
        } else {
            CursorShape::Default
        }),
        spec_cursor(false, HandleHit::Corner(c), inside, idle) == CursorShape::Default,
{
}

} // verus!
