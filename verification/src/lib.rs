//! Advisory reader-writer locks for file descriptors.
//!
//! Advisory locks are locks which programs must opt in to adhere to. This
//! means that they can be used to coordinate file access, but not prevent
//! access. Use this to coordinate file access between multiple instances of
//! the same program. Do not use this to prevent actors from accessing or
//! modifying files.

pub mod error;
pub mod rw_lock;
pub(crate) mod sys;

pub use error::Error;
pub use error::ErrorKind;
pub use rw_lock::RwLock;
pub use rw_lock::RwLockReadGuard;
pub use rw_lock::RwLockWriteGuard;
