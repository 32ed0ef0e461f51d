//! Which edge of the window a strip or panel is docked to.

use vstd::prelude::*;

verus! {

/// Edge of the window a panel is docked to.
#[derive(Clone, Copy, PartialEq, Eq, Debug, Structural)]
pub enum StripSide {
    Left,
    Right,
    Top,
    Bottom,
}

/// The side that comes after `side` when cycling clockwise, starting from
/// the left edge: left, bottom, right, top, and back to left.
pub open spec fn spec_next_side(side: StripSide) -> StripSide {
    match side {
        StripSide::Left => StripSide::Bottom,
        StripSide::Bottom => StripSide::Right,
        StripSide::Right => StripSide::Top,
        StripSide::Top => StripSide::Left,
    }
}

/// Next position of the folder panel when the user asks to change its view.
pub fn next_folder_panel_side(side: StripSide) -> (next: StripSide)
    ensures
        next == spec_next_side(side),
{
    match side {
        StripSide::Left => StripSide::Bottom,
        StripSide::Bottom => StripSide::Right,
        StripSide::Right => StripSide::Top,
        StripSide::Top => StripSide::Left,
    }
}

/// Cycling the folder panel always moves it, and four steps bring it back to
/// where it started: every side is visited once per cycle.
pub proof fn lemma_panel_side_cycle(side: StripSide)
    ensures
        spec_next_side(side) != side,
        spec_next_side(spec_next_side(side)) != side,
        spec_next_side(spec_next_side(spec_next_side(side))) != side,
        spec_next_side(spec_next_side(spec_next_side(spec_next_side(side)))) == side,
{
}

/// The panel turns clockwise: from the left edge it goes to the bottom, and
/// every step moves it a quarter turn from a side to the adjacent one
/// (never to the opposite side): a vertical strip (left, right) becomes a
/// horizontal one (top, bottom) and back.
pub proof fn lemma_panel_turns_clockwise(side: StripSide)
    ensures
        spec_next_side(StripSide::Left) == StripSide::Bottom,
        (side == StripSide::Left || side == StripSide::Right) <==> (spec_next_side(side)
            == StripSide::Top || spec_next_side(side) == StripSide::Bottom),
        spec_next_side(spec_next_side(side)) == (match side {
            StripSide::Left => StripSide::Right,
            StripSide::Right => StripSide::Left,
            StripSide::Top => StripSide::Bottom,
            StripSide::Bottom => StripSide::Top,
        }),
{
}

} // verus!
