use vstd::prelude::*;

verus! {

/// Who is responsible for an error.
#[derive(Debug, Clone, Copy, PartialEq, Eq)]
pub enum CubeErrorCauseType {
    User,
    Internal,
}

/// An error reported by the library: a message and its cause.
#[derive(Debug)]
pub struct CubeError {
    pub message: String,
    pub cause: CubeErrorCauseType,
}

impl CubeError {
    /// An internal error carrying `message` unchanged.
    pub fn internal(message: String) -> (err: CubeError)
        ensures
            err.message@ == message@,
            err.cause == CubeErrorCauseType::Internal,
    {
        CubeError { message, cause: CubeErrorCauseType::Internal }
    }
}

} // verus!
