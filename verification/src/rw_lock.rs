//! Advisory reader-writer lock for files, with its two guard types.

use vstd::prelude::*;
use crate::error::Error;
use crate::error::ErrorKind;
use crate::sys::FlockOp;
use crate::sys::flock_fd;

verus! {

/// Advisory reader-writer lock for a file.
///
/// This type of lock allows a number of readers or at most one writer at any
/// point in time. The lock wraps an open file descriptor and coordinates with
/// every other cooperating holder of the same underlying file through the
/// kernel's advisory lock table; it never locks or unlocks outside the
/// lifetime of a guard, and carries no state of its own beyond the
/// descriptor.
#[derive(Debug)]
pub struct RwLock {
    inner: rustix::fd::OwnedFd,
}

impl View for RwLock {
    type V = rustix::fd::OwnedFd;

    closed spec fn view(&self) -> rustix::fd::OwnedFd {
        self.inner
    }
}

impl RwLock {
    /// Wrap an open file descriptor. Performs no syscall.
    pub fn new(inner: rustix::fd::OwnedFd) -> (lock: RwLock)
        ensures
            lock@ == inner,
    {
        RwLock { inner }
    }

    /// Lock with shared read access, blocking the current thread until the
    /// lock can be acquired.
    ///
    /// There may be other readers holding the lock when this method returns;
    /// no holder of exclusive access can. Exactly one lock request is issued,
    /// and a refusal is returned as the canonical error — never
    /// [`ErrorKind::WouldBlock`], which the OS reserves for non-blocking
    /// requests, but possibly [`ErrorKind::Interrupted`] if a signal handler
    /// cut the wait short.
    pub fn read<'lock>(&'lock self) -> (r: Result<RwLockReadGuard<'lock>, Error>)
        ensures
            r matches Ok(guard) ==> guard@ == self@,
            r matches Err(e) ==> e.reports_os_failure() && e.kind != ErrorKind::WouldBlock,
    {
        match flock_fd(&self.inner, FlockOp::Shared) {
            Ok(()) => Ok(RwLockReadGuard { lock: self }),
            Err(code) => Err(Error::from_raw_os_error(code)),
        }
    }

    /// Attempt to lock with shared read access, without blocking.
    ///
    /// Exactly one lock request is issued; if the lock is held exclusively
    /// the refusal is mapped to [`ErrorKind::WouldBlock`], and every other OS
    /// failure passes through with its original error number.
    pub fn try_read<'lock>(&'lock self) -> (r: Result<RwLockReadGuard<'lock>, Error>)
        ensures
            r matches Ok(guard) ==> guard@ == self@,
            r matches Err(e) ==> e.reports_os_failure(),
    {
        match flock_fd(&self.inner, FlockOp::SharedNonblock) {
            Ok(()) => Ok(RwLockReadGuard { lock: self }),
            Err(code) => Err(Error::from_raw_os_error(code)),
        }
    }

    /// Lock with exclusive write access, blocking the current thread until
    /// the lock can be acquired.
    ///
    /// This method waits until no other reader or writer holds the lock.
    /// Exactly one lock request is issued, and a refusal is returned as the
    /// canonical error — never [`ErrorKind::WouldBlock`], which the OS
    /// reserves for non-blocking requests, but possibly
    /// [`ErrorKind::Interrupted`] if a signal handler cut the wait short.
    pub fn write<'lock>(&'lock mut self) -> (r: Result<RwLockWriteGuard<'lock>, Error>)
        ensures
            *final(self) == *old(self),
            r matches Ok(guard) ==> guard@ == old(self)@,
            r matches Err(e) ==> e.reports_os_failure() && e.kind != ErrorKind::WouldBlock,
    {
        match flock_fd(&self.inner, FlockOp::Exclusive) {
            Ok(()) => Ok(RwLockWriteGuard { lock: &*self }),
            Err(code) => Err(Error::from_raw_os_error(code)),
        }
    }

    /// Attempt to lock with exclusive write access, without blocking.
    ///
    /// Exactly one lock request is issued; if any reader or writer holds the
    /// lock the refusal is mapped to [`ErrorKind::WouldBlock`], and every
    /// other OS failure passes through with its original error number.
    pub fn try_write<'lock>(&'lock mut self) -> (r: Result<RwLockWriteGuard<'lock>, Error>)
        ensures
            *final(self) == *old(self),
            r matches Ok(guard) ==> guard@ == old(self)@,
            r matches Err(e) ==> e.reports_os_failure(),
    {
        match flock_fd(&self.inner, FlockOp::ExclusiveNonblock) {
            Ok(()) => Ok(RwLockWriteGuard { lock: &*self }),
            Err(code) => Err(Error::from_raw_os_error(code)),
        }
    }

    /// Consume this lock, returning the wrapped file descriptor unchanged.
    ///
    /// Legal only while no guard is outstanding — the borrow taken by each
    /// guard enforces this — and performs no syscall.
    pub fn into_inner(self) -> (fd: rustix::fd::OwnedFd)
        ensures
            fd == self@,
    {
        self.inner
    }
}

/// RAII structure used to release the shared read access of a lock when
/// dropped.
///
/// This structure is created by the [`read`] and [`try_read`] methods on
/// [`RwLock`]. Many read guards may coexist, across independent lock handles
/// to the same file; none may coexist with a holder of exclusive access to
/// the same OS-level lock.
///
/// [`read`]: RwLock::read
/// [`try_read`]: RwLock::try_read
#[must_use]
#[derive(Debug)]
pub struct RwLockReadGuard<'lock> {
    lock: &'lock RwLock,
}

impl View for RwLockReadGuard<'_> {
    type V = rustix::fd::OwnedFd;

    closed spec fn view(&self) -> rustix::fd::OwnedFd {
        self.lock.inner
    }
}

impl core::ops::Deref for RwLockReadGuard<'_> {
    type Target = rustix::fd::OwnedFd;

    /// Access the locked file descriptor.
    fn deref(&self) -> (fd: &rustix::fd::OwnedFd)
        ensures
            *fd == self@,
    {
        &self.lock.inner
    }
}

/// Release the lock.
impl Drop for RwLockReadGuard<'_> {
    /// Relies on `rustix::fs::flock` with `FlockOperation::Unlock` to release
    /// the advisory lock; releasing never blocks, and a refusal has no return
    /// channel out of a destructor, so it is ignored.
    #[verifier::external_body]
    fn drop(&mut self)
        opens_invariants none
        no_unwind
    {
        let _ = rustix::fs::flock(&self.lock.inner, rustix::fs::FlockOperation::Unlock);
    }
}

/// RAII structure used to release the exclusive write access of a lock when
/// dropped.
///
/// This structure is created by the [`write`] and [`try_write`] methods on
/// [`RwLock`]. While it lives it holds the exclusive borrow those methods
/// take, so no other guard can be obtained from the same lock value.
///
/// [`write`]: RwLock::write
/// [`try_write`]: RwLock::try_write
#[must_use]
#[derive(Debug)]
pub struct RwLockWriteGuard<'lock> {
    lock: &'lock RwLock,
}

impl View for RwLockWriteGuard<'_> {
    type V = rustix::fd::OwnedFd;

    closed spec fn view(&self) -> rustix::fd::OwnedFd {
        self.lock.inner
    }
}

impl core::ops::Deref for RwLockWriteGuard<'_> {
    type Target = rustix::fd::OwnedFd;

    /// Access the locked file descriptor.
    fn deref(&self) -> (fd: &rustix::fd::OwnedFd)
        ensures
            *fd == self@,
    {
        &self.lock.inner
    }
}

/// Release the lock.
impl Drop for RwLockWriteGuard<'_> {
    /// Relies on `rustix::fs::flock` with `FlockOperation::Unlock` to release
    /// the advisory lock; releasing never blocks, and a refusal has no return
    /// channel out of a destructor, so it is ignored.
    #[verifier::external_body]
    fn drop(&mut self)
        opens_invariants none
        no_unwind
    {
        let _ = rustix::fs::flock(&self.lock.inner, rustix::fs::FlockOperation::Unlock);
    }
}

} // verus!
