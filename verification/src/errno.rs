//! The errors that the calls of this crate report.

use vstd::prelude::*;

verus! {

/// An error of a system call, one variant for each Linux error number in use.
#[derive(Clone, Copy, Debug, PartialEq, Eq, Structural)]
pub enum Errno {
    /// `EBADF`: the descriptor registry holds nothing under the descriptor.
    BadFileDescriptor,
    /// `EFAULT`: a pointer of the caller does not lead to accessible memory.
    BadAddress,
    /// `EINVAL`: a numeric argument is negative, out of range or too short.
    InvalidArgument,
    /// `ENOTSOCK`: the descriptor is open but is not a socket.
    NotSocket,
    /// `ENOPROTOOPT`: the option is not supported at this protocol level.
    OptionNotSupported,
    /// `EPROTONOSUPPORT`: the socket type is not supported.
    ProtocolNotSupported,
    /// `EAFNOSUPPORT`: the address family is not supported.
    AddressFamilyNotSupported,
}

impl Errno {
    /// The Linux error number of this error.
    pub open spec fn spec_code(self) -> i32 {
        match self {
            Errno::BadFileDescriptor => 9,
            Errno::BadAddress => 14,
            Errno::InvalidArgument => 22,
            Errno::NotSocket => 88,
            Errno::OptionNotSupported => 92,
            Errno::ProtocolNotSupported => 93,
            Errno::AddressFamilyNotSupported => 97,
        }
    }

    /// The Linux error number of this error.
    #[verifier::when_used_as_spec(spec_code)]
    pub fn code(self) -> (code: i32)
        ensures
            code == self.spec_code(),
            code > 0,
    {
        match self {
            Errno::BadFileDescriptor => 9,
            Errno::BadAddress => 14,
            Errno::InvalidArgument => 22,
            Errno::NotSocket => 88,
            Errno::OptionNotSupported => 92,
            Errno::ProtocolNotSupported => 93,
            Errno::AddressFamilyNotSupported => 97,
        }
    }
}

/// What a system call hands back to the caller: the value on success, the
/// negated error number on failure.
pub open spec fn spec_return_value(result: Result<isize, Errno>) -> int {
    match result {
        Ok(value) => value as int,
        Err(errno) => -(errno.spec_code() as int),
    }
}

/// Folds the result of a system call into the one integer that the caller
/// receives.
pub fn return_value(result: Result<isize, Errno>) -> (ret: isize)
    ensures
        ret == spec_return_value(result),
        result is Err ==> ret < 0,
{
    match result {
        Ok(value) => value,
        Err(errno) => {
            let code: i32 = errno.code();
            -(code as isize)
        },
    }
}

} // verus!
