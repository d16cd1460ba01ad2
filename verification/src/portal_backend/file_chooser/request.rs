//! Reading a portal call's options into a chooser request.
use vstd::prelude::*;
use crate::chooser::ChooserRequest;
use crate::portal_core::{self, bool_option_spec, parse_request_spec, result_model, ChooserOptions, PortalError};

verus! {

/// Reads a boolean option: absent gives `Ok(None)`, a boolean gives it, and a
/// value of another type is an error that names the key.
pub fn get_bool_option(options: &ChooserOptions, key: &str) -> (res: Result<Option<bool>, PortalError>)
    ensures
        result_model(res, |b: Option<bool>| b) == bool_option_spec(options.get_spec(key@), key@),
{
    portal_core::get_bool_option(options, key)
}

/// Builds the chooser request from the portal call's title and options.
pub fn parse_chooser_request(title: String, options: &ChooserOptions) -> (res: Result<ChooserRequest, PortalError>)
    ensures
        result_model(res, |r: ChooserRequest| r.model()) == parse_request_spec(title@, *options),
{
    portal_core::parse_chooser_request(title, options)
}

} // verus!
