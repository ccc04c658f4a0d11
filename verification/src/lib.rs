//! The decision and formatting logic of the whspr desktop app, verified with
//! Verus: the Hub's state transitions and the outside work each asks for
//! (`hub`, `link_import`, `models`, `note_desk`), the Typst note export, the
//! model selectors, device, hotkey and secret decisions, history on disk,
//! and the labels and text formatting the screens show.

pub mod text;
pub mod note_desk;
pub mod note_export;
pub mod labels;
pub mod nav;
pub mod devices;
pub mod hotkey;
pub mod string_map;
pub mod platform;
pub mod secrets;
pub mod format;
pub mod hub;
pub mod link_import;
pub mod model_menu;
pub mod history;
pub mod models;
pub mod session;
pub mod progress;
