//! Verified core of the Nirix desktop tools: the Navi file browser and file
//! chooser, and the `org.freedesktop.impl.portal.FileChooser` backend.
//!
//! Paths are modelled as `String`s; every question about their structure
//! (file name, parent, equality) is answered by `std::path`.
use vstd::prelude::*;

pub mod text;
pub mod paths;
pub mod navi_core;
pub mod chooser;
pub mod handover;
pub mod config;
pub mod components;
pub mod screens;
pub mod app;
pub mod navi_chooser;
pub mod portal_core;
pub mod portal_backend;

verus! {

} // verus!
