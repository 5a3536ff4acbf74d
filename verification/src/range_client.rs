//! The Range Fetcher capability consumed (not implemented) by the readers.

use vstd::prelude::*;

use crate::error::HttpError;

verus! {

/// Blocking HTTP client for Range requests. Implementations perform the
/// actual transport; the core states what holds of every possible outcome,
/// so no contract is assumed here.
pub trait SyncHttpRangeClient {
    /// Send a GET range request
    fn get_range(&self, url: &str, range: &str) -> Result<Vec<u8>, HttpError>;

    /// Send a HEAD request and return the response header value
    fn head_response_header(&self, url: &str, header: &str) -> Result<
        Option<String>,
        HttpError,
    >;
}

} // verus!
