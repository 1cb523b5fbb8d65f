//! Success and failure of a system call, read from the value it returned.
use crate::platform::{BOOL, FALSE, HANDLE, INVALID_HANDLE_VALUE, NULL, TRUE};
use std::fmt::Debug;
use std::io;
use vstd::prelude::*;

verus! {

/// `std::io::Error`, carried through as it is.
#[verifier::external_type_specification]
#[verifier::external_body]
pub struct ExIoError(io::Error);

/// Calls `std::io::Error::last_os_error`, which reads the error that the
/// operating system recorded last for this thread. That depends on what ran
/// before, so nothing is claimed of the result.
#[verifier::external_body]
fn last_os_error() -> (error: io::Error) {
    io::Error::last_os_error()
}

/// Whether `error` can be what `std::io::Error::last_os_error` returned.
pub closed spec fn is_last_os_error(error: io::Error) -> bool {
    call_ensures(last_os_error, (), error)
}

/// Whether `get_last_error` can have read `error`.
pub open spec fn is_last_error<E: WinError>(error: E) -> bool {
    call_ensures(E::get_last_error, (), error)
}

/// What a system call returned.
pub trait WinResult: Sized {
    /// What a successful call hands over.
    type Ok;

    /// Whether the value is one that a system call of this kind returns.
    spec fn returnable(self) -> bool;

    /// What the value hands over, if it reports success.
    spec fn success(self) -> Option<Self::Ok>;

    /// Whether the value is one that a system call of this kind returns.
    fn can_be_returned(&self) -> (can: bool)
        ensures
            can == self.returnable(),
    ;

    /// What the call handed over, or `None` if it failed.
    fn ok(self) -> (value: Option<Self::Ok>)
        requires
            self.returnable(),
        ensures
            value == self.success(),
    ;

    /// What the call handed over, or the error that the system recorded, in
    /// the form `E`.
    fn ok_or_last_error<E: WinError>(self) -> (value: Result<Self::Ok, E>)
        requires
            self.returnable(),
        ensures
            match self.success() {
                Some(v) => value == Ok::<Self::Ok, E>(v),
                None => value matches Err(e) && is_last_error(e),
            },
    {
        match self.ok() {
            Some(v) => Ok(v),
            None => Err(E::get_last_error()),
        }
    }

    /// What the call handed over, or the error that the system recorded.
    fn result(self) -> (value: Result<Self::Ok, io::Error>)
        requires
            self.returnable(),
        ensures
            match self.success() {
                Some(v) => value == Ok::<Self::Ok, io::Error>(v),
                None => value matches Err(e) && is_last_error(e),
            },
    {
        self.ok_or_last_error::<io::Error>()
    }

    /// What the call, which must have succeeded, handed over.
    fn unwrap(self) -> (value: Self::Ok)
        requires
            self.returnable(),
            self.success() is Some,
        ensures
            self.success() == Some(value),
    {
        self.result().unwrap()
    }

    /// The error of the call, which must have failed.
    fn unwrap_err<E>(self) -> (error: E) where Self::Ok: Debug, E: WinError
        requires
            self.returnable(),
            self.success() is None,
        ensures
            is_last_error(error),
    {
        self.ok_or_last_error::<E>().unwrap_err()
    }
}

impl WinResult for BOOL {
    type Ok = ();

    open spec fn returnable(self) -> bool {
        self == FALSE || self == TRUE
    }

    open spec fn success(self) -> Option<()> {
        if self == TRUE {
            Some(())
        } else {
            None
        }
    }

    fn can_be_returned(&self) -> (can: bool) {
        *self == FALSE || *self == TRUE
    }

    fn ok(self) -> (value: Option<()>) {
        if self == FALSE {
            None
        } else {
            Some(())
        }
    }
}

impl WinResult for HANDLE {
    type Ok = HANDLE;

    open spec fn returnable(self) -> bool {
        true
    }

    open spec fn success(self) -> Option<HANDLE> {
        if self == NULL || self == INVALID_HANDLE_VALUE {
            None
        } else {
            Some(self)
        }
    }

    fn can_be_returned(&self) -> (can: bool) {
        true
    }

    fn ok(self) -> (value: Option<HANDLE>) {
        if self == NULL || self == INVALID_HANDLE_VALUE {
            None
        } else {
            Some(self)
        }
    }
}

/// A form in which the error of the last system call can be had.
pub trait WinError: Debug {
    fn get_last_error() -> Self where Self: Sized;
}

/// The error is of no interest.
impl WinError for () {
    fn get_last_error() -> Self {
        ()
    }
}

impl WinError for io::Error {
    fn get_last_error() -> (error: Self)
        ensures
            is_last_os_error(error),
    {
        last_os_error()
    }
}

/// When a call has succeeded: one that returns a truth value, if and only if
/// that is true, and it returns nothing but true and false; one that returns a
/// handle, if and only if that is neither null nor the invalid one, and it
/// hands over that very handle.
pub proof fn law_success(returned: BOOL, handle: HANDLE)
    ensures
        returned.returnable() <==> returned == 0 || returned == 1,
        returned.success() is Some <==> returned == 1,
        handle.returnable(),
        handle.success() == if handle == 0 || handle == usize::MAX {
            None
        } else {
            Some(handle)
        },
{
}

} // verus!
