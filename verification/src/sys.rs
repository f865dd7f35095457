//! The platform backend: the trusted boundary to the OS advisory-lock
//! syscall.
//!
//! The kernel holds the actual lock state, so nothing can be promised about
//! which requests it grants. What the backend does promise — and all the
//! lock's contracts build on — is how a refusal is reported: as a raw OS
//! error number, positive and in the platform's errno range, and never the
//! "would block" number for a request that is allowed to wait.

use vstd::prelude::*;
use crate::error::ERRNO_WOULDBLOCK;

verus! {

/// The owned file-descriptor type that the lock wraps. The lock never looks
/// inside it; it only hands it to the syscall below and back to the caller.
#[verifier::external_type_specification]
#[verifier::external_body]
pub struct ExOwnedFd(rustix::fd::OwnedFd);

/// The lock requests that the backend can issue against a descriptor.
pub(crate) enum FlockOp {
    /// Shared lock; waits until the lock is obtainable.
    Shared,
    /// Exclusive lock; waits until the lock is obtainable.
    Exclusive,
    /// Shared lock; refuses immediately if the lock is held exclusively.
    SharedNonblock,
    /// Exclusive lock; refuses immediately if the lock is held at all.
    ExclusiveNonblock,
}

impl FlockOp {
    /// Whether this request is allowed to wait for the lock.
    pub(crate) open spec fn is_blocking(self) -> bool {
        self is Shared || self is Exclusive
    }
}

/// Issue one advisory whole-file lock request against `fd`.
///
/// Relies on `rustix::fs::flock`, which performs the `flock(2)` syscall: on
/// refusal it reports an OS error number, which `Errno::raw_os_error` yields
/// as a positive value, and `flock(2)` reports `EWOULDBLOCK` only for
/// requests that carry the non-blocking flag.
#[verifier::external_body]
pub(crate) fn flock_fd(fd: &rustix::fd::OwnedFd, op: FlockOp) -> (r: Result<(), i32>)
    ensures
        r matches Err(code) ==> code > 0,
        op.is_blocking() ==> (r matches Err(code) ==> code != ERRNO_WOULDBLOCK),
{
    let operation = match op {
        FlockOp::Shared => rustix::fs::FlockOperation::LockShared,
        FlockOp::Exclusive => rustix::fs::FlockOperation::LockExclusive,
        FlockOp::SharedNonblock => rustix::fs::FlockOperation::NonBlockingLockShared,
        FlockOp::ExclusiveNonblock => rustix::fs::FlockOperation::NonBlockingLockExclusive,
    };
    match rustix::fs::flock(fd, operation) {
        Ok(()) => Ok(()),
        Err(err) => Err(err.raw_os_error()),
    }
}

} // verus!
