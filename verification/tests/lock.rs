//! Locking behaviour against real files: contention between independent
//! handles, shared access, release on drop, and consuming the lock.

use fd_lock::ErrorKind;
use fd_lock::RwLock;
use rustix::fd::OwnedFd;
use rustix::fs::Mode;
use rustix::fs::OFlags;
use std::path::Path;

/// Open an independent handle (its own open file description) to `path`,
/// creating the file if needed.
fn open_handle(path: &Path) -> OwnedFd {
    rustix::fs::open(path, OFlags::RDWR | OFlags::CREATE, Mode::RUSR | Mode::WUSR).unwrap()
}

#[test]
fn double_lock() {
    let dir = tempfile::tempdir().unwrap();
    let path = dir.path().join("lockfile");

    let mut l0 = RwLock::new(open_handle(&path));
    let mut l1 = RwLock::new(open_handle(&path));

    let g0 = l0.try_write().unwrap();

    let err = l1.try_write().unwrap_err();
    assert!(matches!(*err.kind(), ErrorKind::WouldBlock));

    drop(g0);
}

#[test]
fn write_excludes_readers_and_writers() {
    let dir = tempfile::tempdir().unwrap();
    let path = dir.path().join("lockfile");

    let mut l0 = RwLock::new(open_handle(&path));
    let mut l1 = RwLock::new(open_handle(&path));

    let g0 = l0.write().unwrap();

    let err = l1.try_write().unwrap_err();
    assert_eq!(*err.kind(), ErrorKind::WouldBlock);
    let err = l1.try_read().unwrap_err();
    assert_eq!(*err.kind(), ErrorKind::WouldBlock);

    drop(g0);

    drop(l1.try_read().unwrap());
    drop(l1.try_write().unwrap());
}

#[test]
fn concurrent_reads() {
    let dir = tempfile::tempdir().unwrap();
    let path = dir.path().join("lockfile");

    let l0 = RwLock::new(open_handle(&path));
    let l1 = RwLock::new(open_handle(&path));

    let g0 = l0.read().unwrap();
    let g1 = l1.read().unwrap();
    let g2 = l1.try_read().unwrap();

    drop(g2);
    drop(g1);
    drop(g0);
}

#[test]
fn repeated_acquire_release() {
    let dir = tempfile::tempdir().unwrap();
    let path = dir.path().join("lockfile");

    let mut l0 = RwLock::new(open_handle(&path));
    let mut l1 = RwLock::new(open_handle(&path));

    for _ in 0..10 {
        let g = l0.write().unwrap();
        drop(g);
    }
    for _ in 0..10 {
        let g = l0.read().unwrap();
        drop(g);
    }

    // No lock state leaked across the cycles: another handle can still take
    // the exclusive lock at once.
    drop(l1.try_write().unwrap());
}

#[test]
fn write_release_allows_write() {
    let dir = tempfile::tempdir().unwrap();
    let path = dir.path().join("lockfile");

    let mut l0 = RwLock::new(open_handle(&path));
    let mut l1 = RwLock::new(open_handle(&path));

    let g0 = l0.write().unwrap();
    drop(g0);

    drop(l1.try_write().unwrap());
}

#[test]
fn write_then_other_handle() {
    let dir = tempfile::tempdir().unwrap();
    let path = dir.path().join("lockfile");

    let mut l0 = RwLock::new(open_handle(&path));
    let mut l1 = RwLock::new(open_handle(&path));

    let g0 = l0.write().unwrap();

    let err = l1.try_write().unwrap_err();
    assert_eq!(*err.kind(), ErrorKind::WouldBlock);
    assert_eq!(err.code, 11);

    drop(g0);

    drop(l1.try_write().unwrap());
}

#[test]
fn shared_blocks_writer() {
    let dir = tempfile::tempdir().unwrap();
    let path = dir.path().join("lockfile");

    let l0 = RwLock::new(open_handle(&path));
    let mut l1 = RwLock::new(open_handle(&path));

    let g0 = l0.read().unwrap();
    let g1 = l1.read().unwrap();
    drop(g1);

    let err = l1.try_write().unwrap_err();
    assert_eq!(*err.kind(), ErrorKind::WouldBlock);

    drop(g0);
}

#[test]
fn into_inner_returns_resource() {
    let dir = tempfile::tempdir().unwrap();
    let path = dir.path().join("lockfile");

    let fd = open_handle(&path);
    let before = rustix::fs::fstat(&fd).unwrap();

    let lock = RwLock::new(fd);
    let fd = lock.into_inner();

    // The descriptor came back unchanged: it still describes the same file
    // and can still be locked.
    let after = rustix::fs::fstat(&fd).unwrap();
    assert_eq!(before.st_ino, after.st_ino);
    assert_eq!(before.st_dev, after.st_dev);

    let mut lock = RwLock::new(fd);
    drop(lock.try_write().unwrap());
}

#[test]
fn guard_derefs_to_locked_file() {
    let dir = tempfile::tempdir().unwrap();
    let path = dir.path().join("lockfile");

    let expected = {
        let fd = open_handle(&path);
        rustix::fs::fstat(&fd).unwrap().st_ino
    };

    let mut l0 = RwLock::new(open_handle(&path));

    let g = l0.write().unwrap();
    assert_eq!(rustix::fs::fstat(&*g).unwrap().st_ino, expected);
    drop(g);

    let g = l0.read().unwrap();
    assert_eq!(rustix::fs::fstat(&*g).unwrap().st_ino, expected);
    drop(g);
}
