//! The browser screen.
pub mod browser;
