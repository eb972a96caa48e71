//! The status that ends a remote call.
use vstd::prelude::*;

verus! {

/// The status codes of remote calls.
#[derive(Debug, Clone, Copy, PartialEq, Eq, Structural)]
pub enum Code {
    Cancelled,
    Unknown,
    InvalidArgument,
    DeadlineExceeded,
    NotFound,
    AlreadyExists,
    PermissionDenied,
    ResourceExhausted,
    FailedPrecondition,
    Aborted,
    OutOfRange,
    Unimplemented,
    Internal,
    Unavailable,
    DataLoss,
    Unauthenticated,
}

/// Why a remote call failed.
#[derive(Debug, Clone)]
pub struct Status {
    pub code: Code,
    pub message: String,
}

impl Status {
    /// This status has exactly this code and this message.
    pub open spec fn says(&self, code: Code, message: Seq<char>) -> bool {
        self.code == code && self.message@ == message
    }

    /// A status with the given code and message.
    pub fn new(code: Code, message: &str) -> (res: Self)
        ensures
            res.says(code, message@),
    {
        Status { code, message: message.to_owned() }
    }
}

} // verus!
