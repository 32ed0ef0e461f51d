//! Edits in progress in the properties panel (position, opacity, blur,
//! colour, content, shadow). Each one remembers the layer it started on and
//! the value before it; the document changes live, and the edit is closed
//! into one undo step later. An edit whose layer is no longer the selected
//! one is stale and is closed before the panel is drawn again.

use vstd::prelude::*;

verus! {

/// An edit in progress on layer `id` is stale when that layer is not the
/// primary selection any more.
pub open spec fn is_stale<B>(edit: Option<(u64, B)>, current: Option<u64>) -> bool {
    match edit {
        Some((id, _)) => current != Some(id),
        None => false,
    }
}

/// Takes the edit out of `edit` if it is stale, for the caller to close into
/// an undo step (when its value changed); otherwise leaves it in place and
/// returns `None`.
pub fn take_stale<B>(edit: &mut Option<(u64, B)>, current: Option<u64>) -> (taken: Option<(u64, B)>)
    ensures
        is_stale(*old(edit), current) ==> taken == *old(edit) && *final(edit) is None,
        !is_stale(*old(edit), current) ==> taken is None && *final(edit) == *old(edit),
{
    let stale = match edit {
        Some((id, _)) => match current {
            Some(c) => c != *id,
            None => true,
        },
        None => false,
    };
    if stale {
        edit.take()
    } else {
        None
    }
}

/// An edit stays open exactly while its layer is the primary selection:
/// selecting another layer, or nothing, makes it stale; no edit is never
/// stale.
pub proof fn lemma_stale_edits<B>(id: u64, before: B, current: Option<u64>)
    ensures
        is_stale(Some((id, before)), current) <==> current != Some(id),
        !is_stale(None::<(u64, B)>, current),
{
}

} // verus!
