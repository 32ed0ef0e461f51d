//! Stacking order of a layer among its siblings: index 0 is the bottom of
//! the stack, the last index is the front.

use vstd::prelude::*;

verus! {

/// Where to move a layer among its siblings.
#[derive(Clone, Copy, PartialEq, Eq, Debug, Structural)]
pub enum ZOrder {
    /// To the front.
    Front,
    /// One step toward the front.
    Forward,
    /// One step toward the back.
    Backward,
    /// To the back.
    Back,
}

/// Index a layer at `current`, among siblings whose last index is `last`,
/// moves to.
pub open spec fn spec_reorder_target(to: ZOrder, current: nat, last: nat) -> nat {
    match to {
        ZOrder::Front => last,
        ZOrder::Forward => if current + 1 <= last {
            current + 1
        } else {
            last
        },
        ZOrder::Backward => if current >= 1 {
            (current - 1) as nat
        } else {
            0
        },
        ZOrder::Back => 0,
    }
}

/// Index a layer moves to (see `spec_reorder_target`).
pub fn reorder_target(to: ZOrder, current: usize, last: usize) -> (t: usize)
    requires
        current <= last,
    ensures
        t == spec_reorder_target(to, current as nat, last as nat),
        t <= last,
{
    match to {
        ZOrder::Front => last,
        ZOrder::Forward => if current < last {
            current + 1
        } else {
            last
        },
        ZOrder::Backward => if current >= 1 {
            current - 1
        } else {
            0
        },
        ZOrder::Back => 0,
    }
}

/// The move a reorder asks for, given the layer's position among its
/// siblings (`(current, last)`; `None` when the layer is not found): the new
/// index, or `None` when the layer would stay where it is (no undo step).
pub fn reorder_move(to: ZOrder, position: Option<(usize, usize)>) -> (m: Option<usize>)
    requires
        position matches Some((c, l)) ==> c <= l,
    ensures
        position is None ==> m is None,
        position matches Some((c, l)) ==> {
            let t = spec_reorder_target(to, c as nat, l as nat);
            &&& (t == c ==> m is None)
            &&& (t != c ==> m == Some(t as usize))
        },
{
    match position {
        None => None,
        Some((current, last)) => {
            let target = reorder_target(to, current, last);
            if target == current {
                None
            } else {
                Some(target)
            }
        },
    }
}

/// Bring to Front / Move Forward have an effect.
pub fn can_go_forward(position: Option<(usize, usize)>) -> (b: bool)
    ensures
        b == (position matches Some((c, l)) && c < l),
{
    match position {
        Some((current, last)) => current < last,
        None => false,
    }
}

/// Move Backward / Send to Back have an effect.
pub fn can_go_backward(position: Option<(usize, usize)>) -> (b: bool)
    ensures
        b == (position matches Some((c, _)) && c > 0),
{
    match position {
        Some((current, _)) => current > 0,
        None => false,
    }
}

/// A reorder stays among the siblings and reaches the ends in one step for
/// Front/Back; moving forward and then backward returns to the start when
/// there was room ahead; and a move has an effect exactly when the menu
/// enables it.
pub proof fn lemma_reorder_laws(to: ZOrder, current: nat, last: nat)
    requires
        current <= last,
    ensures
        spec_reorder_target(to, current, last) <= last,
        spec_reorder_target(ZOrder::Front, current, last) == last,
        spec_reorder_target(ZOrder::Back, current, last) == 0,
        current < last ==> spec_reorder_target(ZOrder::Forward, current, last) == current + 1,
        current > 0 ==> spec_reorder_target(ZOrder::Backward, current, last) == current - 1,
        current < last ==> spec_reorder_target(
            ZOrder::Backward,
            spec_reorder_target(ZOrder::Forward, current, last),
            last,
        ) == current,
        current > 0 ==> spec_reorder_target(
            ZOrder::Forward,
            spec_reorder_target(ZOrder::Backward, current, last),
            last,
        ) == current,
        (to == ZOrder::Front || to == ZOrder::Forward) ==> (spec_reorder_target(
            to,
            current,
            last,
        ) != current <==> current < last),
        (to == ZOrder::Back || to == ZOrder::Backward) ==> (spec_reorder_target(
            to,
            current,
            last,
        ) != current <==> current > 0),
{
}

} // verus!
