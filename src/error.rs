//! The kinds of failure that the journal calls report.

use vstd::prelude::*;

verus! {

/// Why a journal call gave no result.
#[derive(Debug, Clone, Copy, PartialEq, Eq, Structural)]
pub enum Error {
    /// A descriptor response whose length is none of the known layouts; it
    /// carries the length observed.
    UnrecognizedSchema(usize),
    /// The control call itself reported failure; it carries the native code.
    DeviceCallFailed(u32),
    /// The call reported success but returned too few bytes to be read.
    MalformedResponse,
}

impl Error {
    /// The error for a descriptor response of `len` bytes.
    pub fn unrecognized_schema(len: usize) -> (r: Error)
        ensures
            r == Error::UnrecognizedSchema(len),
    {
        Error::UnrecognizedSchema(len)
    }

    /// The error for a failed control call that reported `code`.
    pub fn from_native_code(code: u32) -> (r: Error)
        ensures
            r == Error::DeviceCallFailed(code),
    {
        Error::DeviceCallFailed(code)
    }

    /// The native code carried, if the control call itself failed.
    pub fn native_code(&self) -> (r: Option<u32>)
        ensures
            r == (match *self {
                Error::DeviceCallFailed(code) => Some(code),
                _ => None,
            }),
    {
        match *self {
            Error::DeviceCallFailed(code) => Some(code),
            _ => None,
        }
    }
}

} // verus!
