//! The high-level client configuration: the model, the provider
//! credential and the database target one conversion run uses.  The
//! network calls themselves are driven outside; this holds what they
//! need.

use vstd::prelude::*;

verus! {

/// Configuration for one conversion client.
#[derive(Debug)]
pub struct TextToCypherClient {
    pub model: String,
    pub api_key: String,
    pub falkordb_connection: String,
}

impl TextToCypherClient {
    /// A client for the given model, credential and database target.
    pub fn new(model: &str, api_key: &str, falkordb_connection: &str) -> (r: TextToCypherClient)
        ensures
            r.model@ == model@,
            r.api_key@ == api_key@,
            r.falkordb_connection@ == falkordb_connection@,
    {
        TextToCypherClient {
            model: String::from_str(model),
            api_key: String::from_str(api_key),
            falkordb_connection: String::from_str(falkordb_connection),
        }
    }
}

} // verus!
