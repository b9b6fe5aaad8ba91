//! Notification endpoints: descriptors of kernel event counters, and what the
//! results of the system calls on them mean.
//!
//! The system calls themselves are made by the embedder, which hands their
//! return value and the error number here.

use vstd::prelude::*;

verus! {

/// The error number for an argument that is not accepted.
pub const EINVAL: i32 = 22;

/// A failure tagged with the error number that the system reported.
#[derive(Clone, Copy, Debug, PartialEq, Eq, Structural)]
pub struct Error {
    errno: i32,
}

impl Error {
    /// The error number that the failure is tagged with.
    pub closed spec fn code(self) -> i32 {
        self.errno
    }

    /// A failure tagged with `errno`.
    pub fn new(errno: i32) -> (e: Error)
        ensures
            e.code() == errno,
    {
        Error { errno }
    }

    /// The error number that the failure is tagged with.
    pub fn errno(&self) -> (errno: i32)
        ensures
            errno == self.code(),
    {
        self.errno
    }
}

/// A handle on a kernel event counter, named by its descriptor.
///
/// The handle does not close the descriptor: whoever made the system call that
/// opened it closes it.
#[derive(Debug, PartialEq, Eq, Structural)]
pub struct EventFd {
    fd: i32,
}

impl EventFd {
    /// The descriptor that names the counter.
    pub closed spec fn descriptor(self) -> i32 {
        self.fd
    }

    /// The handle for the outcome of opening an event counter: `ret` is what
    /// the system call returned, a descriptor or a negative number, and `errno`
    /// the error number it left.
    pub fn new(ret: i32, errno: i32) -> (r: Result<EventFd, Error>)
        ensures
            ret >= 0 ==> r is Ok && r->Ok_0.descriptor() == ret,
            ret < 0 ==> r is Err && r->Err_0.code() == errno,
    {
        if ret < 0 {
            return Err(Error::new(errno));
        }
        Ok(EventFd { fd: ret })
    }

    /// The second handle for the outcome of duplicating this one's descriptor:
    /// `ret` is what the system call returned and `errno` the error number it
    /// left. Both handles then name the same counter.
    pub fn try_clone(&self, ret: i32, errno: i32) -> (r: Result<EventFd, Error>)
        ensures
            ret >= 0 ==> r is Ok && r->Ok_0.descriptor() == ret,
            ret < 0 ==> r is Err && r->Err_0.code() == errno,
    {
        EventFd::new(ret, errno)
    }

    /// The outcome of adding to the counter: `ret` is the number of bytes that
    /// the system call wrote, or a negative number, and `errno` the error
    /// number it left. Nothing written is a failure.
    pub fn write(&self, ret: isize, errno: i32) -> (r: Result<(), Error>)
        ensures
            ret > 0 ==> r is Ok,
            ret <= 0 ==> r is Err && r->Err_0.code() == errno,
    {
        if ret <= 0 {
            return Err(Error::new(errno));
        }
        Ok(())
    }

    /// The outcome of taking the count: `ret` is the number of bytes that the
    /// system call read, or a negative number, `count` what it stored, and
    /// `errno` the error number it left. Nothing read is a failure.
    pub fn read(&self, ret: isize, count: u64, errno: i32) -> (r: Result<u64, Error>)
        ensures
            ret > 0 ==> r == Ok::<u64, Error>(count),
            ret <= 0 ==> r is Err && r->Err_0.code() == errno,
    {
        if ret <= 0 {
            return Err(Error::new(errno));
        }
        Ok(count)
    }

    /// The descriptor, for polling and for the system calls.
    pub fn as_raw_fd(&self) -> (fd: i32)
        ensures
            fd == self.descriptor(),
    {
        self.fd
    }

    /// Gives up the handle and returns its descriptor.
    pub fn into_raw_fd(self) -> (fd: i32)
        ensures
            fd == self.descriptor(),
    {
        self.fd
    }
}

} // verus!
