//! The parts of the browser window.
pub mod drag_label;
pub mod entry_item;
pub mod entry_list;
pub mod file_item;
pub mod navbar;
