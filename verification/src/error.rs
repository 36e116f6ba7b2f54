//! Operating-system error codes, and decoding of raw syscall results.

use vstd::prelude::*;

verus! {

/// The error code the kernel reports for invalid data or arguments.
pub const EINVAL: i32 = 22;

/// An operating-system error, carrying the original error code verbatim so
/// callers can assert on the specific condition.
#[derive(Clone, Copy, Debug, PartialEq, Eq, Hash, Structural)]
pub struct Error {
    code: i32,
}

impl Error {
    /// The raw OS error code.
    pub closed spec fn spec_code(self) -> i32 {
        self.code
    }

    /// Build an error from a raw OS error code.
    pub fn from_code(code: i32) -> (r: Self)
        ensures
            r.spec_code() == code,
    {
        Self { code }
    }

    /// The raw OS error code, as an executable value.
    pub fn code(&self) -> (r: i32)
        ensures
            r == self.spec_code(),
    {
        self.code
    }
}

/// Decode a raw syscall return value: a value within 4095 of the top of the
/// address space is a negated error code, anything else is a success value.
pub fn sc_res_decode(res: usize) -> (r: Result<usize, Error>)
    ensures
        res > usize::MAX - 4095 ==> (r matches Err(e) && e.spec_code() == usize::MAX - res
            + 1),
        res <= usize::MAX - 4095 ==> (r matches Ok(v) && v == res),
{
    if res > usize::MAX - 4095 {
        let gap = usize::MAX - res;
        Err(Error::from_code(gap as i32 + 1))
    } else {
        Ok(res)
    }
}

} // verus!
