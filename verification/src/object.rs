use vstd::prelude::*;

use crate::error::Error;
use crate::sys;

verus! {

/// A named shared-memory segment: its name, its OS descriptor, its byte
/// size, and whether this instance created it (and so owns the name).
/// Handles come only from `create` and `open`, so the descriptor and size of
/// every live handle are in range.
pub struct Object {
    path: String,
    fd: i32,
    size: isize,
    created: bool,
}

impl Object {
    #[verifier::type_invariant]
    spec fn inv(self) -> bool {
        self.fd >= 0 && self.size >= 0
    }

    /// The segment's name.
    pub closed spec fn spec_path(&self) -> Seq<char> {
        self.path@
    }

    /// The segment's descriptor, as a mathematical integer.
    pub closed spec fn spec_fd(&self) -> int {
        self.fd as int
    }

    /// The segment's byte size, as a mathematical integer.
    pub closed spec fn spec_size(&self) -> int {
        self.size as int
    }

    /// Whether this instance created the segment; the owner removes the name
    /// from the namespace when it is destroyed.
    pub closed spec fn is_owner(&self) -> bool {
        self.created
    }

    /// The segment's descriptor.
    pub fn fd(&self) -> (f: i32)
        ensures
            f == self.spec_fd(),
            f >= 0,
    {
        proof {
            use_type_invariant(self);
        }
        self.fd
    }

    /// The segment's byte size.
    pub fn size(&self) -> (s: isize)
        ensures
            s == self.spec_size(),
            0 <= s,
    {
        proof {
            use_type_invariant(self);
        }
        self.size
    }

    /// The segment's name.
    pub fn path(&self) -> (p: &str)
        ensures
            p@ == self.spec_path(),
    {
        self.path.as_str()
    }

    /// Creates a new shared segment of `size` bytes under `path`, owned by
    /// the returned handle. A negative size is rejected by the OS.
    pub fn create(path: &str, size: isize) -> (r: Result<Object, Error>)
        ensures
            r matches Ok(o) ==> o.spec_size() == size && o.is_owner() && o.spec_path() == path@,
            r matches Err(e) ==> e == Error::System || e == Error::InvalidPath,
            size < 0 ==> r is Err,
    {
        let fd: i32 = match sys::shm_open_fd(path, true) {
            Ok(fd) => fd,
            Err(e) => {
                return Err(e);
            },
        };
        match sys::ftruncate_fd(fd, size as i64) {
            Ok(()) => {},
            Err(e) => {
                // All-or-nothing construction: release the descriptor before
                // reporting the first error.
                let _ = sys::close_fd(fd);
                return Err(e);
            },
        }
        Ok(Object { path: path.to_owned(), fd, size, created: true })
    }

    /// Opens an existing shared segment under `path`; its current size is
    /// discovered from the OS. The returned handle does not own the name.
    pub fn open(path: &str) -> (r: Result<Object, Error>)
        ensures
            r matches Ok(o) ==> !o.is_owner() && o.spec_path() == path@,
            r matches Err(e) ==> e == Error::System || e == Error::InvalidPath,
    {
        let fd: i32 = match sys::shm_open_fd(path, false) {
            Ok(fd) => fd,
            Err(e) => {
                return Err(e);
            },
        };
        let size64: i64 = match sys::fstat_size(fd) {
            Ok(s) => s,
            Err(e) => {
                let _ = sys::close_fd(fd);
                return Err(e);
            },
        };
        if size64 < 0 || size64 > (isize::MAX as i64) {
            let _ = sys::close_fd(fd);
            return Err(Error::System);
        }
        Ok(Object { path: path.to_owned(), fd, size: size64 as isize, created: false })
    }

    /// Tears the handle down: the descriptor is closed unconditionally, and
    /// the name is unlinked exactly when this handle created the segment.
    /// Consuming `self` makes the teardown happen at most once; a failure is
    /// surfaced as a typed error rather than swallowed.
    pub fn destroy(self) -> (r: Result<(), Error>)
        ensures
            r matches Err(e) ==> e == Error::System || e == Error::InvalidPath,
    {
        let closed = sys::close_fd(self.fd);
        let unlinked = if self.created {
            sys::shm_unlink_name(self.path.as_str())
        } else {
            Ok(())
        };
        match closed {
            Err(e) => Err(e),
            Ok(()) => unlinked,
        }
    }
}

} // verus!
