//! Trusted bindings to the OS shared-memory primitives, and verified loops
//! that read or write a full byte range through a descriptor.

use vstd::prelude::*;

use crate::error::Error;

verus! {

/// Relies on nix::sys::mman::shm_open: opens a POSIX shared-memory object
/// read-write (creating it first when `create` holds), and returns a
/// nonnegative descriptor on success. A name the OS naming rules reject
/// (EINVAL, ENAMETOOLONG) is reported as `InvalidPath`, every other failure
/// as `System`.
#[verifier::external_body]
pub(crate) fn shm_open_fd(name: &str, create: bool) -> (r: Result<i32, Error>)
    ensures
        r matches Ok(fd) ==> fd >= 0,
        r matches Err(e) ==> e == Error::System || e == Error::InvalidPath,
{
    let flag = if create {
        nix::fcntl::OFlag::O_CREAT | nix::fcntl::OFlag::O_RDWR
    } else {
        nix::fcntl::OFlag::O_RDWR
    };
    let mode = nix::sys::stat::Mode::S_IRUSR | nix::sys::stat::Mode::S_IWUSR;
    match nix::sys::mman::shm_open(name, flag, mode) {
        Ok(fd) => Ok(fd),
        Err(nix::errno::Errno::EINVAL) => Err(Error::InvalidPath),
        Err(nix::errno::Errno::ENAMETOOLONG) => Err(Error::InvalidPath),
        Err(_) => Err(Error::System),
    }
}

/// Relies on nix::sys::mman::shm_unlink: removes a shared-memory name from
/// the system namespace. Name errors are reported as `InvalidPath`, every
/// other failure as `System`.
#[verifier::external_body]
pub(crate) fn shm_unlink_name(name: &str) -> (r: Result<(), Error>)
    ensures
        r matches Err(e) ==> e == Error::System || e == Error::InvalidPath,
{
    match nix::sys::mman::shm_unlink(name) {
        Ok(()) => Ok(()),
        Err(nix::errno::Errno::EINVAL) => Err(Error::InvalidPath),
        Err(nix::errno::Errno::ENAMETOOLONG) => Err(Error::InvalidPath),
        Err(_) => Err(Error::System),
    }
}

/// Relies on nix::unistd::ftruncate: sets the object behind the descriptor
/// to the given byte length. The OS rejects a negative length with EINVAL.
#[verifier::external_body]
pub(crate) fn ftruncate_fd(fd: i32, len: i64) -> (r: Result<(), Error>)
    ensures
        r matches Err(e) ==> e == Error::System,
        len < 0 ==> r is Err,
{
    match nix::unistd::ftruncate(fd, len) {
        Ok(()) => Ok(()),
        Err(_) => Err(Error::System),
    }
}

/// Relies on nix::sys::stat::fstat: returns the file status of the
/// descriptor; `st_size` is the object's current size in bytes.
#[verifier::external_body]
pub(crate) fn fstat_size(fd: i32) -> (r: Result<i64, Error>)
    ensures
        r matches Err(e) ==> e == Error::System,
{
    match nix::sys::stat::fstat(fd) {
        Ok(st) => Ok(st.st_size),
        Err(_) => Err(Error::System),
    }
}

/// Relies on nix::unistd::close: releases the descriptor.
#[verifier::external_body]
pub(crate) fn close_fd(fd: i32) -> (r: Result<(), Error>)
    ensures
        r matches Err(e) ==> e == Error::System,
{
    match nix::unistd::close(fd) {
        Ok(()) => Ok(()),
        Err(_) => Err(Error::System),
    }
}

/// Relies on nix::sys::uio::pread: reads from the descriptor at `offset`
/// into `buf[done..]`, returning how many bytes were stored, at most the
/// room it was given. The buffer keeps its length.
#[verifier::external_body]
pub(crate) fn pread_fd(fd: i32, buf: &mut Vec<u8>, done: usize, offset: i64) -> (r: Result<
    usize,
    Error,
>)
    requires
        done <= old(buf)@.len(),
    ensures
        final(buf)@.len() == old(buf)@.len(),
        r matches Ok(n) ==> done + n <= old(buf)@.len(),
        r matches Err(e) ==> e == Error::System,
{
    match nix::sys::uio::pread(fd, &mut buf[done..], offset) {
        Ok(n) => Ok(n),
        Err(_) => Err(Error::System),
    }
}

/// Relies on nix::sys::uio::pwrite: writes `buf[done..]` to the descriptor at
/// `offset`, returning how many bytes were transferred, at most the number
/// it was handed.
#[verifier::external_body]
pub(crate) fn pwrite_fd(fd: i32, buf: &[u8], done: usize, offset: i64) -> (r: Result<usize, Error>)
    requires
        done <= buf@.len(),
    ensures
        r matches Ok(n) ==> done + n <= buf@.len(),
        r matches Err(e) ==> e == Error::System,
{
    match nix::sys::uio::pwrite(fd, &buf[done..], offset) {
        Ok(n) => Ok(n),
        Err(_) => Err(Error::System),
    }
}

/// Reads exactly `len` bytes from the descriptor starting at `offset`.
/// Which bytes come back depends on the segment's current contents.
pub(crate) fn read_exact(fd: i32, len: usize, offset: i64) -> (r: Result<Vec<u8>, Error>)
    requires
        0 <= offset,
        offset + len <= i64::MAX,
    ensures
        r matches Ok(b) ==> b@.len() == len,
        r matches Err(e) ==> e == Error::System,
{
    let mut buf: Vec<u8> = vec![0u8; len];
    let mut done: usize = 0;
    while done < len
        invariant
            done <= len,
            buf@.len() == len,
            0 <= offset,
            offset + len <= i64::MAX,
        decreases len - done,
    {
        let n: usize = match pread_fd(fd, &mut buf, done, offset + (done as i64)) {
            Ok(n) => n,
            Err(e) => {
                return Err(e);
            },
        };
        if n == 0 {
            return Err(Error::System);
        }
        done = done + n;
    }
    Ok(buf)
}

/// Writes all of `data` to the descriptor starting at `offset`.
pub(crate) fn write_all(fd: i32, data: &[u8], offset: i64) -> (r: Result<(), Error>)
    requires
        0 <= offset,
        offset + data@.len() <= i64::MAX,
    ensures
        r matches Err(e) ==> e == Error::System,
{
    let len: usize = data.len();
    let mut done: usize = 0;
    while done < len
        invariant
            done <= len,
            len == data@.len(),
            0 <= offset,
            offset + len <= i64::MAX,
        decreases len - done,
    {
        let n: usize = match pwrite_fd(fd, data, done, offset + (done as i64)) {
            Ok(n) => n,
            Err(e) => {
                return Err(e);
            },
        };
        if n == 0 {
            return Err(Error::System);
        }
        done = done + n;
    }
    Ok(())
}

} // verus!
