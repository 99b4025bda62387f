use vstd::prelude::*;

use core::marker::PhantomData;

use crate::error::Error;
use crate::object::Object;
use crate::sys;
use crate::Safe;

verus! {

/// A read-only mapping from a borrowed shared segment to a single value of
/// `T`: the segment must outlive the mapping, and any number of such
/// mappings may view one segment at a time.
pub struct Reference<'a, T: Safe> {
    object: &'a Object,
    _marker: PhantomData<T>,
}

impl<'a, T: Safe> Reference<'a, T> {
    #[verifier::type_invariant]
    spec fn inv(self) -> bool {
        T::spec_size() <= self.object.spec_size()
    }

    /// The segment this mapping views.
    pub closed spec fn object_spec(&self) -> Object {
        *self.object
    }

    /// Borrows a segment read-only as a single `T`. Fails with `WrongSize`
    /// exactly when the segment is too small to hold a `T`.
    pub fn new(object: &'a Object) -> (r: Result<Reference<'a, T>, Error>)
        ensures
            r matches Ok(m) ==> m.object_spec() == *object,
            r matches Err(e) ==> e == Error::WrongSize,
            r is Err <==> T::spec_size() > object.spec_size(),
    {
        proof {
            T::lemma_size_bounds();
        }
        let size: usize = T::byte_size();
        let osize: isize = object.size();
        if size > (osize as usize) {
            return Err(Error::WrongSize);
        }
        Ok(Reference { object, _marker: PhantomData })
    }

    /// Reads the mapped value: the `T` that the segment's first bytes decode
    /// to at the moment of the call.
    pub fn get(&self) -> (r: Result<T, Error>)
        ensures
            r matches Err(e) ==> e == Error::System,
    {
        proof {
            use_type_invariant(self);
            T::lemma_size_bounds();
        }
        let n: usize = T::byte_size();
        let bytes: Vec<u8> = match sys::read_exact(self.object.fd(), n, 0) {
            Ok(b) => b,
            Err(e) => {
                return Err(e);
            },
        };
        Ok(T::of_bytes(bytes.as_slice()))
    }
}

} // verus!
