//! The C interface: its status codes and the framing of the texts it
//! writes into buffers the caller owns.
//!
//! The raw pointers stay on the C side of the boundary; this module
//! decides which bytes are to be written there and with what status.
use vstd::prelude::*;
use vstd::string::StringSliceAdditionalSpecFns;

verus! {

/// Status of a call through the C interface of the device library, which
/// adds [`ErrorCode::OperationFailure`] to the hub's codes.
#[derive(Debug, Clone, Copy, PartialEq, Eq, Structural)]
pub enum ErrorCode {
    /// The call did what was asked (`Ok` on the C side).
    Success,
    BadConfig,
    StartServerError,
    InvalidServerPoint,
    ServerHasInit,
    MDNSInitFailure,
    OutOfAllocatedBounds,
    /// A Bluetooth operation failed.
    OperationFailure,
}

impl ErrorCode {
    /// The C value of the code.
    pub open spec fn spec_code(self) -> u32 {
        match self {
            ErrorCode::Success => 0,
            ErrorCode::BadConfig => 1,
            ErrorCode::StartServerError => 2,
            ErrorCode::InvalidServerPoint => 3,
            ErrorCode::ServerHasInit => 4,
            ErrorCode::MDNSInitFailure => 5,
            ErrorCode::OutOfAllocatedBounds => 6,
            ErrorCode::OperationFailure => 7,
        }
    }

    /// The printed form of the code: the name of its variant.
    pub open spec fn spec_name(self) -> Seq<char> {
        match self {
            ErrorCode::Success => "Ok"@,
            ErrorCode::BadConfig => "BadConfig"@,
            ErrorCode::StartServerError => "StartServerError"@,
            ErrorCode::InvalidServerPoint => "InvalidServerPoint"@,
            ErrorCode::ServerHasInit => "ServerHasInit"@,
            ErrorCode::MDNSInitFailure => "MDNSInitFailure"@,
            ErrorCode::OutOfAllocatedBounds => "OutOfAllocatedBounds"@,
            ErrorCode::OperationFailure => "OperationFailure"@,
        }
    }

    /// The value of this code on the C side.
    pub fn code(&self) -> (c: u32)
        ensures
            c == self.spec_code(),
    {
        match self {
            ErrorCode::Success => 0,
            ErrorCode::BadConfig => 1,
            ErrorCode::StartServerError => 2,
            ErrorCode::InvalidServerPoint => 3,
            ErrorCode::ServerHasInit => 4,
            ErrorCode::MDNSInitFailure => 5,
            ErrorCode::OutOfAllocatedBounds => 6,
            ErrorCode::OperationFailure => 7,
        }
    }

    /// The printed form of the code, as its `Display` writes it.
    pub fn to_string(&self) -> (s: String)
        ensures
            s@ == self.spec_name(),
    {
        match self {
            ErrorCode::Success => String::from_str("Ok"),
            ErrorCode::BadConfig => String::from_str("BadConfig"),
            ErrorCode::StartServerError => String::from_str("StartServerError"),
            ErrorCode::InvalidServerPoint => String::from_str("InvalidServerPoint"),
            ErrorCode::ServerHasInit => String::from_str("ServerHasInit"),
            ErrorCode::MDNSInitFailure => String::from_str("MDNSInitFailure"),
            ErrorCode::OutOfAllocatedBounds => String::from_str("OutOfAllocatedBounds"),
            ErrorCode::OperationFailure => String::from_str("OperationFailure"),
        }
    }

    /// The same outcome among this interface's codes: the hub's codes keep
    /// their value.
    pub fn from_hub(e: crate::ErrorCode) -> (c: ErrorCode)
        ensures
            c.spec_code() == e.spec_code(),
            c.spec_name() == e.spec_name(),
    {
        match e {
            crate::ErrorCode::Success => ErrorCode::Success,
            crate::ErrorCode::BadConfig => ErrorCode::BadConfig,
            crate::ErrorCode::StartServerError => ErrorCode::StartServerError,
            crate::ErrorCode::InvalidServerPoint => ErrorCode::InvalidServerPoint,
            crate::ErrorCode::ServerHasInit => ErrorCode::ServerHasInit,
            crate::ErrorCode::MDNSInitFailure => ErrorCode::MDNSInitFailure,
            crate::ErrorCode::OutOfAllocatedBounds => ErrorCode::OutOfAllocatedBounds,
        }
    }
}

/// Distinct codes have distinct C values.
pub proof fn lemma_code_injective(a: ErrorCode, b: ErrorCode)
    ensures
        a.spec_code() == b.spec_code() ==> a == b,
{
}

/// The bytes of `text` followed by a NUL byte.
fn nul_terminated(text: &str) -> (v: Vec<u8>)
    ensures
        v@ == text.spec_bytes().push(0u8),
{
    let b = text.as_bytes();
    let mut v: Vec<u8> = Vec::new();
    let mut i: usize = 0;
    while i < b.len()
        invariant
            b@ == text.spec_bytes(),
            i <= b@.len(),
            v@ == b@.subrange(0, i as int),
        decreases b.len() - i,
    {
        v.push(b[i]);
        i = i + 1;
        assert(v@ =~= b@.subrange(0, i as int));
    }
    assert(b@.subrange(0, b@.len() as int) =~= b@);
    v.push(0u8);
    v
}

/// The bytes a C string holding `text` consists of: the text's UTF-8
/// bytes and the closing NUL. A text with a NUL byte of its own makes no C
/// string, so it is not accepted.
pub fn c_string_bytes(text: &str) -> (v: Vec<u8>)
    requires
        !text.spec_bytes().contains(0u8),
    ensures
        v@ == text.spec_bytes().push(0u8),
{
    nul_terminated(text)
}

/// Frames `text` as a C string for a buffer of `capacity` bytes: the
/// bytes to write when they fit, or [`crate::ErrorCode::OutOfAllocatedBounds`]
/// when the text and its NUL need more room.
pub fn frame_c_string(text: &str, capacity: usize) -> (r: Result<Vec<u8>, crate::ErrorCode>)
    requires
        !text.spec_bytes().contains(0u8),
    ensures
        text.spec_bytes().len() + 1 <= capacity ==> (r matches Ok(v) && v@ == text.spec_bytes().push(0u8)),
        text.spec_bytes().len() + 1 > capacity ==> r == Err::<Vec<u8>, crate::ErrorCode>(
            crate::ErrorCode::OutOfAllocatedBounds,
        ),
{
    let v = c_string_bytes(text);
    if v.len() > capacity {
        Err(crate::ErrorCode::OutOfAllocatedBounds)
    } else {
        Ok(v)
    }
}

/// The framed reply of a discovery call of the hub's C interface: the
/// JSON of the services found, framed for a buffer of `capacity` bytes as
/// [`frame_c_string`] does, or the discovery's own failure passed on.
pub fn discovery_reply(found: Result<&str, crate::ErrorCode>, capacity: usize) -> (r: Result<
    Vec<u8>,
    crate::ErrorCode,
>)
    requires
        found matches Ok(t) ==> !t.spec_bytes().contains(0u8),
    ensures
        match found {
            Ok(t) => {
                &&& t.spec_bytes().len() + 1 <= capacity ==> (r matches Ok(v) && v@
                    == t.spec_bytes().push(0u8))
                &&& t.spec_bytes().len() + 1 > capacity ==> (r matches Err(e) && e
                    == crate::ErrorCode::OutOfAllocatedBounds)
            },
            Err(e) => r matches Err(e2) && e2 == e,
        },
{
    match found {
        Ok(t) => frame_c_string(t, capacity),
        Err(e) => Err(e),
    }
}

/// The framed reply of the device library's mDNS discovery call: like
/// [`discovery_reply`], except that every failure of the discovery itself
/// is reported as `MDNSInitFailure`.
pub fn device_discovery_reply(found: Result<&str, crate::ErrorCode>, capacity: usize) -> (r: Result<
    Vec<u8>,
    ErrorCode,
>)
    requires
        found matches Ok(t) ==> !t.spec_bytes().contains(0u8),
    ensures
        match found {
            Ok(t) => {
                &&& t.spec_bytes().len() + 1 <= capacity ==> (r matches Ok(v) && v@
                    == t.spec_bytes().push(0u8))
                &&& t.spec_bytes().len() + 1 > capacity ==> (r matches Err(e) && e
                    == ErrorCode::OutOfAllocatedBounds)
            },
            Err(_) => r matches Err(e) && e == ErrorCode::MDNSInitFailure,
        },
{
    match found {
        Ok(t) => match frame_c_string(t, capacity) {
            Ok(v) => Ok(v),
            Err(_) => Err(ErrorCode::OutOfAllocatedBounds),
        },
        Err(_) => Err(ErrorCode::MDNSInitFailure),
    }
}

/// The answer of [`to_c_char`]: the number it returns, and the bytes it
/// writes into the caller's buffer (none when it returns -1).
pub struct CText {
    pub written: i32,
    pub bytes: Vec<u8>,
}

/// Copies `text` into a C buffer of `len` bytes, as the peripheral getters
/// do: it needs the text's bytes and a NUL; when `len`, compared as a C
/// `int` with that count, is smaller, nothing is written and -1 returned;
/// otherwise the bytes and the NUL are written and their count returned as
/// a C `int`.
pub fn to_c_char(text: &str, len: i32) -> (r: CText)
    requires
        text.spec_bytes().len() < usize::MAX,
    ensures
        len < ((text.spec_bytes().len() + 1) as usize) as i32 ==> r.written == -1 && r.bytes@.len()
            == 0,
        len >= ((text.spec_bytes().len() + 1) as usize) as i32 ==> r.written == ((
        text.spec_bytes().len() + 1) as usize) as i32 && r.bytes@ == text.spec_bytes().push(0u8),
{
    let required: usize = text.len() + 1;
    #[verifier::truncate]
    let as_int = required as i32;
    if len < as_int {
        CText { written: -1, bytes: Vec::new() }
    } else {
        CText { written: as_int, bytes: nul_terminated(text) }
    }
}

} // verus!
