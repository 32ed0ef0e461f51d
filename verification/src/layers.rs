//! Rules that pick layers by their id in the active document: the initial
//! selection of a restored document, the source of the blurred background,
//! which layers a delete removes, which images a sidecar embeds. The
//! document itself (layers, groups, commands) is kept by the caller, which
//! describes its layers here in stacking order, bottom first.

use vstd::prelude::*;

verus! {

/// What the rules need to know of a layer.
#[derive(Clone, Copy, PartialEq, Eq, Debug, Structural)]
pub struct LayerInfo {
    pub id: u64,
    /// It is an image layer.
    pub is_image: bool,
    /// Its pixels are loaded.
    pub has_pixels: bool,
    /// It is locked, by itself or by a group that contains it.
    pub locked: bool,
}

/// Some layer has this id.
pub open spec fn has_layer(layers: Seq<LayerInfo>, id: u64) -> bool {
    exists|i: int| 0 <= i < layers.len() && #[trigger] layers[i].id == id
}

/// Layer ids are unique within a document.
pub open spec fn unique_ids(layers: Seq<LayerInfo>) -> bool {
    forall|i: int, j: int|
        0 <= i < layers.len() && 0 <= j < layers.len() && #[trigger] layers[i].id == #[trigger] layers[j].id
            ==> i == j
}

/// Id of the top-most layer of `layers` that is not `skip`.
pub open spec fn top_not(layers: Seq<LayerInfo>, skip: Option<u64>) -> Option<u64>
    decreases layers.len(),
{
    if layers.len() == 0 {
        None
    } else if Some(layers.last().id) != skip {
        Some(layers.last().id)
    } else {
        top_not(layers.drop_last(), skip)
    }
}

/// The top-most layer that is not `skip`, or else the top-most layer.
pub open spec fn spec_initial_selection(layers: Seq<LayerInfo>, skip: Option<u64>) -> Option<u64> {
    match top_not(layers, skip) {
        Some(id) => Some(id),
        None => if layers.len() > 0 {
            Some(layers.last().id)
        } else {
            None
        },
    }
}

/// The layer selected when a document is restored from its sidecar: the
/// top-most layer that is not the blurred background, or else the top-most
/// layer; nothing in an empty document.
pub fn initial_selection(layers: &Vec<LayerInfo>, background: Option<u64>) -> (sel: Option<u64>)
    ensures
        sel == spec_initial_selection(layers@, background),
        background is None && layers@.len() > 0 ==> sel == Some(layers@.last().id),
        layers@.len() == 0 ==> sel is None,
{
    let n = layers.len();
    let mut i: usize = n;
    proof {
        assert(layers@.take(n as int) =~= layers@);
    }
    while i > 0
        invariant
            i <= n,
            n == layers@.len(),
            top_not(layers@, background) == top_not(layers@.take(i as int), background),
        decreases i,
    {
        let ghost pre = layers@.take(i as int);
        proof {
            assert(pre.drop_last() =~= layers@.take(i - 1));
            assert(pre.last() == layers@[i - 1]);
        }
        if Some(layers[i - 1].id) != background {
            return Some(layers[i - 1].id);
        }
        i -= 1;
    }
    proof {
        assert(layers@.take(0) =~= Seq::<LayerInfo>::empty());
    }
    if n == 0 {
        None
    } else {
        Some(layers[n - 1].id)
    }
}

/// A layer can feed the blurred background: an image that is not the
/// background itself.
pub open spec fn is_source_candidate(l: LayerInfo, background: Option<u64>) -> bool {
    l.is_image && Some(l.id) != background
}

/// Id of the top-most candidate of `layers`.
pub open spec fn top_candidate(layers: Seq<LayerInfo>, background: Option<u64>) -> Option<u64>
    decreases layers.len(),
{
    if layers.len() == 0 {
        None
    } else if is_source_candidate(layers.last(), background) {
        Some(layers.last().id)
    } else {
        top_candidate(layers.drop_last(), background)
    }
}

/// The image layer the blurred background is made from: the selected layer
/// if it is a candidate, else the top-most candidate.
pub open spec fn spec_background_source(
    layers: Seq<LayerInfo>,
    selected: Option<u64>,
    background: Option<u64>,
) -> Option<u64> {
    match selected {
        Some(sel) => if exists|i: int|
            0 <= i < layers.len() && #[trigger] layers[i].id == sel && is_source_candidate(
                layers[i],
                background,
            ) {
            Some(sel)
        } else {
            top_candidate(layers, background)
        },
        None => top_candidate(layers, background),
    }
}

/// Picks the source of the blurred background (see `spec_background_source`).
pub fn background_source(
    layers: &Vec<LayerInfo>,
    selected: Option<u64>,
    background: Option<u64>,
) -> (src: Option<u64>)
    ensures
        src == spec_background_source(layers@, selected, background),
{
    let n = layers.len();
    match selected {
        Some(sel) => {
            let mut i: usize = 0;
            while i < n
                invariant
                    i <= n,
                    n == layers@.len(),
                    selected == Some(sel),
                    forall|k: int|
                        0 <= k < i ==> !(#[trigger] layers@[k].id == sel && is_source_candidate(
                            layers@[k],
                            background,
                        )),
                decreases n - i,
            {
                let l = layers[i];
                if l.id == sel && l.is_image && Some(l.id) != background {
                    proof {
                        assert(layers@[i as int].id == sel && is_source_candidate(
                            layers@[i as int],
                            background,
                        ));
                    }
                    return Some(sel);
                }
                i += 1;
            }
        },
        None => {},
    }
    let mut k: usize = n;
    proof {
        assert(layers@.take(n as int) =~= layers@);
        assert(spec_background_source(layers@, selected, background) == top_candidate(
            layers@,
            background,
        ));
    }
    while k > 0
        invariant
            k <= n,
            n == layers@.len(),
            spec_background_source(layers@, selected, background) == top_candidate(
                layers@,
                background,
            ),
            top_candidate(layers@, background) == top_candidate(layers@.take(k as int), background),
        decreases k,
    {
        let ghost pre = layers@.take(k as int);
        proof {
            assert(pre.drop_last() =~= layers@.take(k - 1));
            assert(pre.last() == layers@[k - 1]);
        }
        let l = layers[k - 1];
        if l.is_image && Some(l.id) != background {
            return Some(l.id);
        }
        k -= 1;
    }
    proof {
        assert(layers@.take(0) =~= Seq::<LayerInfo>::empty());
        assert(layers@.take(n as int) =~= layers@);
    }
    None
}

/// Whether `id` names a layer of the document.
pub fn contains_layer(layers: &Vec<LayerInfo>, id: u64) -> (b: bool)
    ensures
        b == has_layer(layers@, id),
{
    let n = layers.len();
    let mut i: usize = 0;
    while i < n
        invariant
            i <= n,
            n == layers@.len(),
            forall|k: int| 0 <= k < i ==> #[trigger] layers@[k].id != id,
        decreases n - i,
    {
        if layers[i].id == id {
            return true;
        }
        i += 1;
    }
    false
}

/// The blurred background is active: it is set and its layer is still in
/// the document (it may have gone with an undo).
pub fn background_active(layers: &Vec<LayerInfo>, background: Option<u64>) -> (b: bool)
    ensures
        b == (background matches Some(id) && has_layer(layers@, id)),
{
    match background {
        Some(id) => contains_layer(layers, id),
        None => false,
    }
}

/// What a delete of the selection does: the selected layers that exist and
/// are not locked go, in selection order; the selected layers that exist and
/// are locked stay, and stay selected.
pub open spec fn deletes(layers: Seq<LayerInfo>, id: u64) -> bool {
    exists|i: int| 0 <= i < layers.len() && #[trigger] layers[i].id == id && !layers[i].locked
}

pub open spec fn survives_selected(layers: Seq<LayerInfo>, id: u64) -> bool {
    has_layer(layers, id) && !deletes(layers, id)
}

/// The ids a delete of `selection` removes, in selection order.
pub open spec fn deleted_ids(layers: Seq<LayerInfo>, selection: Seq<u64>) -> Seq<u64> {
    selection.filter(|id: u64| deletes(layers, id))
}

/// The selection left after a delete of `selection`.
pub open spec fn kept_ids(layers: Seq<LayerInfo>, selection: Seq<u64>) -> Seq<u64> {
    selection.filter(|id: u64| survives_selected(layers, id))
}

/// Whether the layer with `id` exists and is unlocked.
fn deletable_layer(layers: &Vec<LayerInfo>, id: u64) -> (b: bool)
    ensures
        b == deletes(layers@, id),
{
    let n = layers.len();
    let mut i: usize = 0;
    while i < n
        invariant
            i <= n,
            n == layers@.len(),
            forall|k: int| 0 <= k < i ==> !(#[trigger] layers@[k].id == id && !layers@[k].locked),
        decreases n - i,
    {
        if layers[i].id == id && !layers[i].locked {
            return true;
        }
        i += 1;
    }
    false
}

/// Splits the selection for a delete (see `deletes`): returns the ids to
/// delete and the selection left afterwards. A delete with nothing to
/// delete must leave no undo step.
pub fn deletion_plan(layers: &Vec<LayerInfo>, selection: &Vec<u64>) -> (r: (Vec<u64>, Vec<u64>))
    ensures
        r.0@ == deleted_ids(layers@, selection@),
        r.1@ == kept_ids(layers@, selection@),
{
    let mut gone: Vec<u64> = Vec::new();
    let mut kept: Vec<u64> = Vec::new();
    let n = selection.len();
    let mut i: usize = 0;
    while i < n
        invariant
            i <= n,
            n == selection@.len(),
            gone@ == selection@.take(i as int).filter(|id: u64| deletes(layers@, id)),
            kept@ == selection@.take(i as int).filter(|id: u64| survives_selected(layers@, id)),
        decreases n - i,
    {
        proof {
            reveal_with_fuel(Seq::<_>::filter, 1);
            assert(selection@.take(i + 1).drop_last() =~= selection@.take(i as int));
        }
        let id = selection[i];
        if deletable_layer(layers, id) {
            gone.push(id);
        } else if contains_layer(layers, id) {
            kept.push(id);
        }
        i += 1;
    }
    proof {
        assert(selection@.take(n as int) =~= selection@);
    }
    (gone, kept)
}

/// The delete button is enabled only when something selected can go.
pub fn has_deletable_selection(layers: &Vec<LayerInfo>, selection: &Vec<u64>) -> (b: bool)
    ensures
        b == exists|i: int| 0 <= i < selection@.len() && deletes(layers@, #[trigger] selection@[i]),
{
    let n = selection.len();
    let mut i: usize = 0;
    while i < n
        invariant
            i <= n,
            n == selection@.len(),
            forall|k: int| 0 <= k < i ==> !deletes(layers@, #[trigger] selection@[k]),
        decreases n - i,
    {
        if deletable_layer(layers, selection[i]) {
            return true;
        }
        i += 1;
    }
    false
}

/// The images a sidecar embeds: only those of layers that exist in the
/// document saved (an image kept for an in-session undo of a removed layer
/// would be an orphan once reloaded), in the given order.
pub fn live_images<T>(images: Vec<(u64, T)>, layers: &Vec<LayerInfo>) -> (r: Vec<(u64, T)>)
    ensures
        r@ == images@.filter(|e: (u64, T)| has_layer(layers@, e.0)),
{
    let ghost all = images@;
    let mut rest = images;
    let mut out: Vec<(u64, T)> = Vec::new();
    // Taken from the back, then restored to the front-to-back order.
    let mut rev: Vec<(u64, T)> = Vec::new();
    while rest.len() > 0
        invariant
            all == rest@ + rev@.reverse(),
        decreases rest.len(),
    {
        let ghost before = rest@;
        let e = rest.pop().unwrap();
        proof {
            assert(before == rest@.push(e));
        }
        rev.push(e);
        proof {
            assert(all =~= rest@ + rev@.reverse());
        }
    }
    proof {
        assert(rev@.reverse() =~= all);
    }
    let n = rev.len();
    let mut i: usize = 0;
    while i < n
        invariant
            i <= n,
            n == all.len(),
            rev@.len() == n - i,
            forall|k: int| 0 <= k < n - i ==> #[trigger] rev@[k] == all[n - 1 - k],
            out@ == all.take(i as int).filter(|e: (u64, T)| has_layer(layers@, e.0)),
        decreases n - i,
    {
        let e = rev.pop().unwrap();
        proof {
            assert(e == all[i as int]);
            reveal_with_fuel(Seq::<_>::filter, 1);
            assert(all.take(i + 1).drop_last() =~= all.take(i as int));
        }
        if contains_layer(layers, e.0) {
            out.push(e);
        }
        i += 1;
    }
    proof {
        assert(all.take(n as int) =~= all);
    }
    out
}

/// The images of this design other than `target` whose pixels are loaded:
/// the sources offered by "Replace > From this design".
pub fn replace_sources(layers: &Vec<LayerInfo>, target: u64) -> (r: Vec<u64>)
    ensures
        r@ == layers@.filter(|l: LayerInfo| l.id != target && l.is_image && l.has_pixels).map_values(
            |l: LayerInfo| l.id,
        ),
{
    let mut out: Vec<u64> = Vec::new();
    let n = layers.len();
    let mut i: usize = 0;
    while i < n
        invariant
            i <= n,
            n == layers@.len(),
            out@ == layers@.take(i as int).filter(
                |l: LayerInfo| l.id != target && l.is_image && l.has_pixels,
            ).map_values(|l: LayerInfo| l.id),
        decreases n - i,
    {
        proof {
            reveal_with_fuel(Seq::<_>::filter, 1);
            assert(layers@.take(i + 1).drop_last() =~= layers@.take(i as int));
        }
        let l = layers[i];
        if l.id != target && l.is_image && l.has_pixels {
            out.push(l.id);
            proof {
                assert(out@ =~= layers@.take(i + 1).filter(
                    |l: LayerInfo| l.id != target && l.is_image && l.has_pixels,
                ).map_values(|l: LayerInfo| l.id));
            }
        }
        i += 1;
    }
    proof {
        assert(layers@.take(n as int) =~= layers@);
    }
    out
}

/// A delete never removes a locked layer, keeps every selected layer that
/// survives it selected, and deletes something exactly when the delete
/// button is enabled — so a delete of a wholly locked selection leaves no
/// undo step.
pub proof fn lemma_deletion_rules(layers: Seq<LayerInfo>, selection: Seq<u64>)
    requires
        unique_ids(layers),
    ensures
        forall|i: int, k: int|
            0 <= i < deleted_ids(layers, selection).len() && 0 <= k < layers.len() && layers[k].id
                == #[trigger] deleted_ids(layers, selection)[i] ==> !(#[trigger] layers[k]).locked,
        forall|i: int, k: int|
            0 <= i < kept_ids(layers, selection).len() && 0 <= k < layers.len() && layers[k].id
                == #[trigger] kept_ids(layers, selection)[i] ==> (#[trigger] layers[k]).locked,
        (exists|i: int| 0 <= i < selection.len() && deletes(layers, #[trigger] selection[i]))
            <==> deleted_ids(layers, selection).len() > 0,
{
    let pd = |id: u64| deletes(layers, id);
    let ps = |id: u64| survives_selected(layers, id);
    assert forall|i: int, k: int|
        0 <= i < deleted_ids(layers, selection).len() && 0 <= k < layers.len() && layers[k].id
            == #[trigger] deleted_ids(layers, selection)[i] implies !(#[trigger] layers[k]).locked by {
        selection.lemma_filter_pred(pd, i);
        let id = deleted_ids(layers, selection)[i];
        assert(deletes(layers, id));
        let j = choose|j: int| 0 <= j < layers.len() && #[trigger] layers[j].id == id && !layers[j].locked;
        assert(j == k);
    }
    assert forall|i: int, k: int|
        0 <= i < kept_ids(layers, selection).len() && 0 <= k < layers.len() && layers[k].id
            == #[trigger] kept_ids(layers, selection)[i] implies (#[trigger] layers[k]).locked by {
        selection.lemma_filter_pred(ps, i);
        let id = kept_ids(layers, selection)[i];
        if !layers[k].locked {
            assert(deletes(layers, id));
        }
    }
    if exists|i: int| 0 <= i < selection.len() && deletes(layers, #[trigger] selection[i]) {
        let i = choose|i: int| 0 <= i < selection.len() && deletes(layers, #[trigger] selection[i]);
        selection.lemma_filter_contains(pd, i);
    } else {
        assert(selection.all(|x: u64| !pd(x)));
        selection.lemma_all_neg_filter_empty(pd);
    }
}

/// A restored document selects the blurred background only when it is the
/// only layer.
pub proof fn lemma_initial_selection_avoids_background(layers: Seq<LayerInfo>, bg: u64, i: int)
    requires
        0 <= i < layers.len(),
        layers[i].id != bg,
    ensures
        spec_initial_selection(layers, Some(bg)) is Some,
        spec_initial_selection(layers, Some(bg)) != Some(bg),
    decreases layers.len(),
{
    if layers.last().id == bg {
        lemma_initial_selection_avoids_background(layers.drop_last(), bg, i);
        lemma_top_not_avoids(layers.drop_last(), bg);
    }
}

/// The top-most candidate: the candidate at index `k` when no layer above it
/// is one; none exactly when no layer is a candidate.
proof fn lemma_top_candidate(layers: Seq<LayerInfo>, background: Option<u64>)
    ensures
        top_candidate(layers, background) is None <==> forall|i: int|
            0 <= i < layers.len() ==> !is_source_candidate(#[trigger] layers[i], background),
        top_candidate(layers, background) matches Some(id) ==> exists|k: int|
            0 <= k < layers.len() && #[trigger] layers[k].id == id && is_source_candidate(
                layers[k],
                background,
            ) && forall|j: int|
                k < j < layers.len() ==> !is_source_candidate(#[trigger] layers[j], background),
    decreases layers.len(),
{
    if layers.len() > 0 {
        let rest = layers.drop_last();
        lemma_top_candidate(rest, background);
        if !is_source_candidate(layers.last(), background) {
            if top_candidate(rest, background) is None {
                assert forall|i: int| 0 <= i < layers.len() implies !is_source_candidate(
                    #[trigger] layers[i],
                    background,
                ) by {
                    if i < rest.len() {
                        assert(rest[i] == layers[i]);
                    }
                }
            } else {
                let id = top_candidate(rest, background)->0;
                let k = choose|k: int|
                    0 <= k < rest.len() && #[trigger] rest[k].id == id && is_source_candidate(
                        rest[k],
                        background,
                    ) && forall|j: int|
                        k < j < rest.len() ==> !is_source_candidate(#[trigger] rest[j], background);
                assert(layers[k] == rest[k]);
                assert forall|j: int| k < j < layers.len() implies !is_source_candidate(
                    #[trigger] layers[j],
                    background,
                ) by {
                    if j < rest.len() {
                        assert(rest[j] == layers[j]);
                    }
                }
                let i0 = k;
                assert(exists|i: int| 0 <= i < layers.len() && is_source_candidate(#[trigger] layers[i], background)) by {
                    assert(is_source_candidate(layers[i0], background));
                }
            }
        } else {
            assert(layers[layers.len() - 1] == layers.last());
        }
    }
}

/// The blurred background is always made from an image layer of the
/// document that is not the background itself: the selected layer when it
/// is such an image, otherwise the top-most one; there is no source exactly
/// when the document has no such image.
pub proof fn lemma_background_source_rules(
    layers: Seq<LayerInfo>,
    selected: Option<u64>,
    background: Option<u64>,
)
    ensures
        ({
            let r = spec_background_source(layers, selected, background);
            &&& (r matches Some(id) ==> exists|i: int|
                0 <= i < layers.len() && #[trigger] layers[i].id == id && layers[i].is_image && Some(
                    id,
                ) != background)
            &&& (r is None <==> forall|i: int|
                0 <= i < layers.len() ==> !is_source_candidate(#[trigger] layers[i], background))
            &&& (forall|i: int|
                0 <= i < layers.len() && selected == Some(#[trigger] layers[i].id)
                    && is_source_candidate(layers[i], background) ==> r == selected)
            &&& (forall|k: int|
                0 <= k < layers.len() && is_source_candidate(#[trigger] layers[k], background)
                    && (forall|j: int|
                    k < j < layers.len() ==> !is_source_candidate(#[trigger] layers[j], background))
                    && !(exists|i: int|
                    0 <= i < layers.len() && selected == Some(#[trigger] layers[i].id)
                        && is_source_candidate(layers[i], background)) ==> r == Some(layers[k].id))
        }),
{
    lemma_top_candidate(layers, background);
    let r = spec_background_source(layers, selected, background);
    if let Some(sel) = selected {
        if exists|i: int|
            0 <= i < layers.len() && #[trigger] layers[i].id == sel && is_source_candidate(
                layers[i],
                background,
            ) {
            let i = choose|i: int|
                0 <= i < layers.len() && #[trigger] layers[i].id == sel && is_source_candidate(
                    layers[i],
                    background,
                );
            assert(!(forall|q: int|
                0 <= q < layers.len() ==> !is_source_candidate(#[trigger] layers[q], background)));
        }
    }
    assert forall|k: int|
        0 <= k < layers.len() && is_source_candidate(#[trigger] layers[k], background) && (forall|
            j: int,
        | k < j < layers.len() ==> !is_source_candidate(#[trigger] layers[j], background)) && !(exists|
            i: int,
        |
            0 <= i < layers.len() && selected == Some(#[trigger] layers[i].id)
                && is_source_candidate(layers[i], background)) implies r == Some(layers[k].id) by {
        assert(top_candidate(layers, background) is Some);
        let id = top_candidate(layers, background)->0;
        let k2 = choose|k2: int|
            0 <= k2 < layers.len() && #[trigger] layers[k2].id == id && is_source_candidate(
                layers[k2],
                background,
            ) && forall|j: int|
                k2 < j < layers.len() ==> !is_source_candidate(#[trigger] layers[j], background);
        if k2 < k {
            assert(!is_source_candidate(layers[k], background));
        } else if k2 > k {
            assert(!is_source_candidate(layers[k2], background));
        }
        if let Some(sel) = selected {
            assert(!(exists|i: int|
                0 <= i < layers.len() && #[trigger] layers[i].id == sel && is_source_candidate(
                    layers[i],
                    background,
                )));
        }
    }
}

/// A restored document selects its top-most layer that is not the blurred
/// background: the layer at index `k`, when it is not the background and
/// every layer above it is. Without a background that is the last layer.
/// An empty document selects nothing.
pub proof fn lemma_initial_selection_is_topmost(layers: Seq<LayerInfo>, skip: Option<u64>, k: int)
    requires
        0 <= k < layers.len(),
        Some(layers[k].id) != skip,
        forall|j: int| k < j < layers.len() ==> Some(#[trigger] layers[j].id) == skip,
    ensures
        spec_initial_selection(layers, skip) == Some(layers[k].id),
        skip is None ==> spec_initial_selection(layers, skip) == Some(layers.last().id),
        spec_initial_selection(Seq::<LayerInfo>::empty(), skip) is None,
    decreases layers.len(),
{
    if k < layers.len() - 1 {
        assert(Some(layers[layers.len() - 1].id) == skip);
        let rest = layers.drop_last();
        assert forall|j: int| k < j < rest.len() implies Some(#[trigger] rest[j].id) == skip by {
            assert(rest[j] == layers[j]);
        }
        lemma_initial_selection_is_topmost(rest, skip, k);
        assert(rest[k] == layers[k]);
    }
}

proof fn lemma_top_not_avoids(layers: Seq<LayerInfo>, bg: u64)
    ensures
        top_not(layers, Some(bg)) != Some(bg),
    decreases layers.len(),
{
    if layers.len() > 0 && layers.last().id == bg {
        lemma_top_not_avoids(layers.drop_last(), bg);
    }
}

} // verus!
