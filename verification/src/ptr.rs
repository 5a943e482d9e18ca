//! A pointer of the caller, as the user-memory layer resolves it.

use vstd::prelude::*;
use crate::errno::Errno;

verus! {

/// A typed pointer into the caller's memory together with what it leads to.
///
/// The user-memory layer decides whether an address is accessible. This type
/// holds its answer: the null pointer, an address that is not accessible, or
/// the value found at an accessible address. Writing through the pointer
/// replaces that value, which the kernel copies back afterwards.
#[derive(Clone, Debug, PartialEq, Eq)]
pub enum UserPtr<T> {
    /// The null pointer.
    Null,
    /// A non-null address that the caller may not access.
    Unmapped,
    /// An accessible address and the value stored there.
    Mapped(T),
}

impl<T> UserPtr<T> {
    /// Whether this is the null pointer.
    pub fn is_null(&self) -> (null: bool)
        ensures
            null == (*self is Null),
    {
        match self {
            UserPtr::Null => true,
            _ => false,
        }
    }

    /// The value behind the pointer; `BadAddress` unless it is accessible.
    pub fn get_as_ref(&self) -> (r: Result<&T, Errno>)
        ensures
            match *self {
                UserPtr::Mapped(value) => r == Ok::<&T, Errno>(&value),
                _ => r == Err::<&T, Errno>(Errno::BadAddress),
            },
    {
        match self {
            UserPtr::Mapped(value) => Ok(value),
            _ => Err(Errno::BadAddress),
        }
    }

    /// Whether the pointer can be read and written through: `BadAddress`
    /// unless it is accessible.
    pub open spec fn access(self) -> Result<(), Errno> {
        if self is Mapped {
            Ok(())
        } else {
            Err(Errno::BadAddress)
        }
    }

    /// What a call returns whose one task is to store a value behind the
    /// pointer: 0, or `BadAddress` where the pointer is not accessible.
    pub open spec fn stored(self) -> Result<isize, Errno> {
        match self.access() {
            Ok(()) => Ok(0),
            Err(errno) => Err(errno),
        }
    }

    /// The pointer after `value` was stored behind it; a pointer that is not
    /// accessible is as it was.
    pub open spec fn written(self, value: T) -> UserPtr<T> {
        if self is Mapped {
            UserPtr::Mapped(value)
        } else {
            self
        }
    }

    /// Stores `value` behind the pointer; `BadAddress`, and nothing stored,
    /// unless it is accessible.
    pub fn write(&mut self, value: T) -> (r: Result<(), Errno>)
        ensures
            r == old(self).access(),
            *final(self) == old(self).written(value),
    {
        match self {
            UserPtr::Mapped(slot) => {
                *slot = value;
                Ok(())
            },
            _ => Err(Errno::BadAddress),
        }
    }
}

impl<T> UserPtr<Vec<T>> {
    /// Whether the first `len` elements behind the pointer are accessible.
    pub open spec fn spans(&self, len: int) -> bool {
        *self matches UserPtr::Mapped(items) && len <= items.len()
    }

    /// The array behind the pointer, of which the caller asks for the first
    /// `len` elements; `BadAddress` unless all of them are accessible.
    pub fn get_as_slice(&self, len: usize) -> (r: Result<&Vec<T>, Errno>)
        ensures
            self.spans(len as int) ==> r == Ok::<&Vec<T>, Errno>(&self->Mapped_0),
            !self.spans(len as int) ==> r == Err::<&Vec<T>, Errno>(Errno::BadAddress),
    {
        match self {
            UserPtr::Mapped(items) => {
                if len <= items.len() {
                    Ok(items)
                } else {
                    Err(Errno::BadAddress)
                }
            },
            _ => Err(Errno::BadAddress),
        }
    }
}

} // verus!
