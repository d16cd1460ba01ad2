//! The backend that runs the chooser as a separate `navi-chooser` process.
pub mod backend;
pub mod request;
