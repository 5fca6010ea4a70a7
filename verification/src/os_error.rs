//! What the operating system reports back from a call, and how it is read.

use vstd::prelude::*;

verus! {

/// An operating-system error, identified by its `errno` value.
#[derive(Clone, Copy, Debug, PartialEq, Eq, Structural)]
pub struct OsError {
    pub code: i32,
}

/// What a system call with an `int` result returned, together with `errno`
/// as it stood right after the call. `errno` only has a meaning where the
/// call failed.
#[derive(Clone, Copy, Debug, PartialEq, Eq, Structural)]
pub struct SysReturn {
    pub ret: i32,
    pub errno: i32,
}

/// What `read` or `write` returned, together with `errno` as it stood right
/// after the call.
#[derive(Clone, Copy, Debug, PartialEq, Eq, Structural)]
pub struct IoReturn {
    pub count: isize,
    pub errno: i32,
}

impl SysReturn {
    /// The error that a failed call surfaces.
    pub open spec fn error(self) -> OsError {
        OsError { code: self.errno }
    }

    /// Reading of a call that returns zero on success (`grantpt`, `unlockpt`).
    pub open spec fn status_spec(self) -> Result<(), OsError> {
        if self.ret != 0 {
            Err(self.error())
        } else {
            Ok(())
        }
    }

    /// Reading of a call that returns a new descriptor (`open`, `dup`): a
    /// negative value is no descriptor.
    pub open spec fn descriptor_spec(self) -> Result<i32, OsError> {
        if self.ret < 0 {
            Err(self.error())
        } else {
            Ok(self.ret)
        }
    }

    /// Reading of a call that returns `-1` on failure and whose result is
    /// otherwise of no interest (`fsync`, `setsid`).
    pub open spec fn completion_spec(self) -> Result<(), OsError> {
        if self.ret == -1 {
            Err(self.error())
        } else {
            Ok(())
        }
    }

    pub fn status(self) -> (r: Result<(), OsError>)
        ensures
            r == self.status_spec(),
    {
        if self.ret != 0 {
            Err(OsError { code: self.errno })
        } else {
            Ok(())
        }
    }

    pub fn descriptor(self) -> (r: Result<i32, OsError>)
        ensures
            r == self.descriptor_spec(),
    {
        if self.ret < 0 {
            Err(OsError { code: self.errno })
        } else {
            Ok(self.ret)
        }
    }

    pub fn completion(self) -> (r: Result<(), OsError>)
        ensures
            r == self.completion_spec(),
    {
        if self.ret == -1 {
            Err(OsError { code: self.errno })
        } else {
            Ok(())
        }
    }
}

impl IoReturn {
    /// Reading of a transfer: a negative count is a failure, anything else is
    /// the number of bytes moved.
    pub open spec fn transferred_spec(self) -> Result<usize, OsError> {
        if self.count < 0 {
            Err(OsError { code: self.errno })
        } else {
            Ok(self.count as usize)
        }
    }

    pub fn transferred(self) -> (r: Result<usize, OsError>)
        ensures
            r == self.transferred_spec(),
            r matches Ok(n) ==> n == self.count,
    {
        if self.count < 0 {
            Err(OsError { code: self.errno })
        } else {
            Ok(self.count as usize)
        }
    }
}

} // verus!
