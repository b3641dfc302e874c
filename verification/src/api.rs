//! The envelope the metadata lookup service answers with. The HTTP client
//! that fills it lives outside the relay core; the shape of the answer is
//! part of the library so callers and tests can speak of it.

use vstd::prelude::*;

verus! {

/// A service answer: a status code, and a payload and message that may each
/// be absent.
pub struct ApiResponse<T> {
    pub code: i32,
    pub data: Option<T>,
    pub message: Option<String>,
}

} // verus!
