//! The decisions of the backend that runs the chooser inside the portal's own
//! process.
use vstd::prelude::*;
use vstd::string::*;
use crate::chooser::{ChooserRequest, ChooserResult};
use crate::portal_core::{parse_chooser_request, parse_request_spec, result_model, ChooserOptions, PortalError, PortalErrorModel};
use crate::text::join2;

verus! {

/// The D-Bus object that answers `OpenFile` calls.
pub struct FileChooserBackend;

impl FileChooserBackend {
    pub fn new() -> Self {
        FileChooserBackend
    }

    /// Reads the request of an `OpenFile` call.
    pub fn read_request(&self, title: String, options: &ChooserOptions) -> (res: Result<ChooserRequest, PortalError>)
        ensures
            result_model(res, |r: ChooserRequest| r.model()) == parse_request_spec(title@, *options),
    {
        parse_chooser_request(title, options)
    }

    /// The error for a chooser that failed to run, from the text of its error.
    pub fn chooser_failed(&self, err: &str) -> (e: PortalError)
        ensures
            e.model() == PortalErrorModel::Failed("file chooser failed: "@ + err@),
    {
        PortalError::Failed(join2("file chooser failed: ", err))
    }
}

} // verus!
