//! Status codes handed across the C boundary.
use vstd::prelude::*;

verus! {

/// Outcome of a call through the C interface. The number of each variant
/// (see [`ErrorCode::code`]) is its value on the C side.
#[derive(Debug, Clone, Copy, PartialEq, Eq, Structural)]
pub enum ErrorCode {
    /// The call did what was asked (`Ok` on the C side).
    Success,
    BadConfig,
    StartServerError,
    InvalidServerPoint,
    ServerHasInit,
    MDNSInitFailure,
    OutOfAllocatedBounds,
}

impl ErrorCode {
    /// The C value of the code.
    pub open spec fn spec_code(self) -> u32 {
        match self {
            ErrorCode::Success => 0,
            ErrorCode::BadConfig => 1,
            ErrorCode::StartServerError => 2,
            ErrorCode::InvalidServerPoint => 3,
            ErrorCode::ServerHasInit => 4,
            ErrorCode::MDNSInitFailure => 5,
            ErrorCode::OutOfAllocatedBounds => 6,
        }
    }

    /// The printed form of the code: the name of its variant.
    pub open spec fn spec_name(self) -> Seq<char> {
        match self {
            ErrorCode::Success => "Ok"@,
            ErrorCode::BadConfig => "BadConfig"@,
            ErrorCode::StartServerError => "StartServerError"@,
            ErrorCode::InvalidServerPoint => "InvalidServerPoint"@,
            ErrorCode::ServerHasInit => "ServerHasInit"@,
            ErrorCode::MDNSInitFailure => "MDNSInitFailure"@,
            ErrorCode::OutOfAllocatedBounds => "OutOfAllocatedBounds"@,
        }
    }

    /// The value of this code on the C side.
    pub fn code(&self) -> (c: u32)
        ensures
            c == self.spec_code(),
    {
        match self {
            ErrorCode::Success => 0,
            ErrorCode::BadConfig => 1,
            ErrorCode::StartServerError => 2,
            ErrorCode::InvalidServerPoint => 3,
            ErrorCode::ServerHasInit => 4,
            ErrorCode::MDNSInitFailure => 5,
            ErrorCode::OutOfAllocatedBounds => 6,
        }
    }

    /// The printed form of the code, as its `Display` writes it.
    pub fn to_string(&self) -> (s: String)
        ensures
            s@ == self.spec_name(),
    {
        match self {
            ErrorCode::Success => String::from_str("Ok"),
            ErrorCode::BadConfig => String::from_str("BadConfig"),
            ErrorCode::StartServerError => String::from_str("StartServerError"),
            ErrorCode::InvalidServerPoint => String::from_str("InvalidServerPoint"),
            ErrorCode::ServerHasInit => String::from_str("ServerHasInit"),
            ErrorCode::MDNSInitFailure => String::from_str("MDNSInitFailure"),
            ErrorCode::OutOfAllocatedBounds => String::from_str("OutOfAllocatedBounds"),
        }
    }
}

/// Distinct codes have distinct C values, so the C side can tell every
/// outcome apart.
pub proof fn lemma_code_injective(a: ErrorCode, b: ErrorCode)
    ensures
        a.spec_code() == b.spec_code() ==> a == b,
{
}

} // verus!
