use vstd::prelude::*;

verus! {

/// The error code for an invalid argument.
pub const EINVAL: i32 = 22;

/// Why a file operation failed.
#[derive(Debug, Clone, Copy, PartialEq, Eq, Structural)]
pub enum Error {
    /// The open options ask for no access, or for creation or truncation
    /// without write access.
    InvalidConfig,
    /// The path holds a NUL byte and cannot be handed to the kernel.
    InvalidPath,
    /// The kernel refused the call, with this error code.
    Os(i32),
}

impl Error {
    /// The operating-system error code this error stands for, if any.
    pub fn raw_os_error(&self) -> (r: Option<i32>)
        ensures
            r == match *self {
                Error::InvalidConfig => Some(EINVAL),
                Error::InvalidPath => None::<i32>,
                Error::Os(code) => Some(code),
            },
    {
        match *self {
            Error::InvalidConfig => Some(EINVAL),
            Error::InvalidPath => None,
            Error::Os(code) => Some(code),
        }
    }
}

} // verus!
