use canvas_app::layers::{
    background_active, background_source, deletion_plan, has_deletable_selection,
    initial_selection, live_images, replace_sources, LayerInfo,
};

fn shape(id: u64) -> LayerInfo {
    LayerInfo { id, is_image: false, has_pixels: false, locked: false }
}

fn image(id: u64) -> LayerInfo {
    LayerInfo { id, is_image: true, has_pixels: true, locked: false }
}

fn locked(mut l: LayerInfo) -> LayerInfo {
    l.locked = true;
    l
}

#[test]
fn deleting_a_mixed_selection_skips_the_locked_layers() {
    let libre = 1;
    let bloqueada = 2;
    let layers = vec![shape(libre), locked(shape(bloqueada))];
    let (gone, _) = deletion_plan(&layers, &vec![libre, bloqueada]);
    assert!(gone.contains(&libre), "la capa libre debía borrarse");
    assert!(!gone.contains(&bloqueada), "la capa bloqueada NO debía borrarse");
}

#[test]
fn a_layer_that_survives_the_delete_stays_selected() {
    let layers = vec![shape(1), locked(shape(2))];
    let (_, kept) = deletion_plan(&layers, &vec![1, 2]);
    assert_eq!(kept, vec![2]);
}

#[test]
fn deleting_a_fully_locked_selection_does_nothing_at_all() {
    let layers = vec![locked(shape(2))];
    let (gone, kept) = deletion_plan(&layers, &vec![2]);
    assert!(gone.is_empty(), "un borrado que no borra nada no debe dejar un paso de deshacer vacío");
    assert_eq!(kept, vec![2]);
}

#[test]
fn a_layer_locked_by_its_group_is_protected_too() {
    // The child of a locked group is described as locked.
    let layers = vec![locked(shape(1)), locked(shape(2))];
    let (gone, _) = deletion_plan(&layers, &vec![2]);
    assert!(gone.is_empty(), "una capa dentro de un grupo bloqueado no debe borrarse");
}

#[test]
fn deleting_several_layers_is_a_single_undo_step() {
    let layers = vec![shape(1), shape(2), shape(3)];
    let (gone, kept) = deletion_plan(&layers, &vec![1, 2, 3]);
    assert_eq!(gone, vec![1, 2, 3]);
    assert!(kept.is_empty());
}

#[test]
fn the_delete_button_is_disabled_when_everything_selected_is_locked() {
    let layers = vec![locked(shape(2))];
    assert!(!has_deletable_selection(&layers, &vec![2]));
}

#[test]
fn the_delete_button_is_enabled_when_something_can_go() {
    let layers = vec![shape(1), locked(shape(2))];
    assert!(has_deletable_selection(&layers, &vec![1, 2]));
}

#[test]
fn an_empty_selection_has_nothing_to_delete() {
    let layers: Vec<LayerInfo> = Vec::new();
    assert!(!has_deletable_selection(&layers, &Vec::new()));
}

#[test]
fn a_selected_id_with_no_layer_is_forgotten() {
    let layers = vec![shape(1)];
    let (gone, kept) = deletion_plan(&layers, &vec![9, 1]);
    assert_eq!(gone, vec![1]);
    assert!(kept.is_empty());
}

#[test]
fn sidecar_payload_excludes_orphaned_layer_images() {
    // The photo (1) is alive; the blurred background (2) was switched off but
    // its pixels are kept for an in-session undo.
    let layers = vec![image(1)];
    let images = vec![(1u64, "photo"), (2u64, "blur")];
    let embedded = live_images(images, &layers);
    assert_eq!(embedded, vec![(1u64, "photo")], "el sidecar debe contener exactamente las capas vivas");
    let both = live_images(vec![(2u64, "blur"), (1u64, "photo")], &vec![image(2), image(1)]);
    assert_eq!(both.len(), 2, "foto + blur deben embeberse");
}

#[test]
fn a_restored_document_selects_the_top_layer_that_is_not_the_background() {
    assert_eq!(initial_selection(&vec![image(1), image(2)], Some(2)), Some(1));
    assert_eq!(initial_selection(&vec![image(1), image(2)], Some(1)), Some(2));
    assert_eq!(initial_selection(&vec![image(2)], Some(2)), Some(2));
    assert_eq!(initial_selection(&Vec::new(), None), None);
}

#[test]
fn the_blurred_background_comes_from_the_selected_image_or_the_top_one() {
    let layers = vec![image(1), image(2), shape(3), image(4)];
    assert_eq!(background_source(&layers, Some(2), None), Some(2));
    // A shape is not a source: the top-most image is.
    assert_eq!(background_source(&layers, Some(3), None), Some(4));
    // The background itself is never its own source.
    assert_eq!(background_source(&layers, Some(4), Some(4)), Some(2));
    assert_eq!(background_source(&vec![shape(1)], None, None), None);
}

#[test]
fn the_background_is_active_only_while_its_layer_exists() {
    let layers = vec![image(1), image(2)];
    assert!(background_active(&layers, Some(2)));
    assert!(!background_active(&layers, Some(3)));
    assert!(!background_active(&layers, None));
}

#[test]
fn replace_offers_the_other_loaded_images() {
    let mut no_pixels = image(3);
    no_pixels.has_pixels = false;
    let layers = vec![image(1), shape(2), no_pixels, image(4), image(5)];
    assert_eq!(replace_sources(&layers, 4), vec![1, 5]);
}
