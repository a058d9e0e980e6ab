pub mod auth;
pub mod middleware;
pub mod v1;

use vstd::prelude::*;

verus! {

/// The JSON body of a successful API answer.
pub struct ResponseStructure<T> {
    pub success: bool,
    pub data: Option<T>,
    pub code: i16,
    pub message: String,
}

/// The JSON body of an API answer without data, most often a failure.
pub struct ResponseStructureError {
    pub success: bool,
    pub code: i16,
    pub message: String,
}

} // verus!
