//! OS error translation: the raw process and filesystem primitives signal
//! failure through a sentinel return value (`-1`), and the real cause is the
//! error code read immediately after the call. `errno` turns that pair into a
//! structured result.

use vstd::prelude::*;

verus! {

/// A raw OS error code, read from the thread's last-error state immediately
/// after a failing primitive call.
#[derive(Clone, Copy, Debug, PartialEq, Eq, Structural)]
pub struct OsError {
    pub code: i32,
}

/// Types whose value can be the platform's sentinel failure value.
pub trait IsMinusOne: Sized {
    spec fn spec_is_minus_one(&self) -> bool;

    fn is_minus_one(&self) -> (r: bool)
        ensures
            r == self.spec_is_minus_one(),
    ;
}

impl IsMinusOne for i8 {
    open spec fn spec_is_minus_one(&self) -> bool {
        *self == -1
    }

    fn is_minus_one(&self) -> (r: bool)
        ensures
            r == self.spec_is_minus_one(),
    {
        *self == -1
    }
}

impl IsMinusOne for i16 {
    open spec fn spec_is_minus_one(&self) -> bool {
        *self == -1
    }

    fn is_minus_one(&self) -> (r: bool)
        ensures
            r == self.spec_is_minus_one(),
    {
        *self == -1
    }
}

impl IsMinusOne for i32 {
    open spec fn spec_is_minus_one(&self) -> bool {
        *self == -1
    }

    fn is_minus_one(&self) -> (r: bool)
        ensures
            r == self.spec_is_minus_one(),
    {
        *self == -1
    }
}

impl IsMinusOne for i64 {
    open spec fn spec_is_minus_one(&self) -> bool {
        *self == -1
    }

    fn is_minus_one(&self) -> (r: bool)
        ensures
            r == self.spec_is_minus_one(),
    {
        *self == -1
    }
}

impl IsMinusOne for isize {
    open spec fn spec_is_minus_one(&self) -> bool {
        *self == -1
    }

    fn is_minus_one(&self) -> (r: bool)
        ensures
            r == self.spec_is_minus_one(),
    {
        *self == -1
    }
}

/// A process identifier: an opaque wrapper around the OS-assigned integer.
/// Obtained from a successful spawn or by querying the current or parent
/// process; compared by raw value.
#[derive(Clone, Copy, Debug, PartialEq, Eq, Structural, PartialOrd, Ord, Hash)]
pub struct Pid(pub i32);

impl Pid {
    /// The raw integer value of this process identifier.
    pub open spec fn spec_raw(self) -> i32 {
        self.0
    }

    /// Wraps a raw OS process id.
    pub fn from_raw(pid: i32) -> (r: Pid)
        ensures
            r.spec_raw() == pid,
    {
        Pid(pid)
    }

    /// Returns the raw process identifier of `self`.
    pub fn as_raw_pid(self) -> (r: i32)
        ensures
            r == self.spec_raw(),
    {
        self.0
    }
}

impl From<i32> for Pid {
    fn from(pid: i32) -> (r: Pid) {
        Pid(pid)
    }
}

impl vstd::std_specs::convert::FromSpecImpl<i32> for Pid {
    open spec fn obeys_from_spec() -> bool {
        true
    }

    open spec fn from_spec(pid: i32) -> Pid {
        Pid(pid)
    }
}

/// Translates the return value of an OS primitive into a structured result.
/// `last_error` is the error code read from the last-error state right after
/// the call, before anything else could overwrite it; it is consulted exactly
/// when `t` is the sentinel failure value.
pub fn errno<T: IsMinusOne>(t: T, last_error: i32) -> (r: Result<T, OsError>)
    ensures
        t.spec_is_minus_one() ==> r == Result::<T, OsError>::Err(OsError { code: last_error }),
        !t.spec_is_minus_one() ==> r == Result::<T, OsError>::Ok(t),
{
    if t.is_minus_one() {
        Err(OsError { code: last_error })
    } else {
        Ok(t)
    }
}

} // verus!
