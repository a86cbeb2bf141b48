//! What the outbound HTTP client reports.

use vstd::prelude::*;

verus! {

/// A failed request.
#[derive(Clone, Debug, PartialEq, Eq)]
pub struct HttpError {
    /// What went wrong.
    pub message: String,
    /// Status code of the response, where the failure came with one.
    pub code: Option<u16>,
}

} // verus!
