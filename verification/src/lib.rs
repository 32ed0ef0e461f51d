//! Verified session logic of a canvas/gallery desktop editor: folder
//! navigation, the gallery model, the global undo/redo across designs, the
//! camera fitting rules, keyboard shortcut decisions and layer z-order.

pub mod camera;
pub mod editor;
pub mod export;
pub mod gesture;
pub mod gallery;
pub mod gallery_order;
pub mod global_history;
pub mod layers;
pub mod navigation;
pub mod panel_edit;
pub mod shortcuts;
pub mod press;
pub mod side;
pub mod text;
pub mod zorder;
