//! The `org.freedesktop.impl.portal.FileChooser` backend.
pub mod file_chooser;
pub mod file_chooser_backend;
