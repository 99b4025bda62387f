use vstd::prelude::*;

use core::marker::PhantomData;

use crate::error::Error;
use crate::object::Object;
use crate::sys;
use crate::Safe;

verus! {

/// A read-write mapping from an exclusively borrowed shared segment to a
/// single value of `T`: the segment must outlive the mapping, and while the
/// mapping is alive the exclusive borrow keeps every other mapping over the
/// same segment from being constructed.
pub struct Mutable<'a, T: Safe> {
    object: &'a Object,
    _marker: PhantomData<T>,
}

impl<'a, T: Safe> Mutable<'a, T> {
    #[verifier::type_invariant]
    spec fn inv(self) -> bool {
        T::spec_size() <= self.object.spec_size()
    }

    /// The segment this mapping views.
    pub closed spec fn object_spec(&self) -> Object {
        *self.object
    }

    /// Borrows a segment exclusively as a single writable `T`. Fails with
    /// `WrongSize` exactly when the segment is too small to hold a `T`.
    pub fn new(object: &'a mut Object) -> (r: Result<Mutable<'a, T>, Error>)
        ensures
            *final(object) == *old(object),
            r matches Ok(m) ==> m.object_spec() == *old(object),
            r matches Err(e) ==> e == Error::WrongSize,
            r is Err <==> T::spec_size() > old(object).spec_size(),
    {
        proof {
            T::lemma_size_bounds();
        }
        let size: usize = T::byte_size();
        let osize: isize = object.size();
        if size > (osize as usize) {
            return Err(Error::WrongSize);
        }
        Ok(Mutable { object: &*object, _marker: PhantomData })
    }

    /// Reads the mapped value: the `T` that the segment's first bytes decode
    /// to at the moment of the call.
    pub fn get(&self) -> (r: Result<T, Error>)
        ensures
            r matches Err(e) ==> e == Error::System,
    {
        proof {
            use_type_invariant(self);
            T::lemma_size_bounds();
        }
        let n: usize = T::byte_size();
        let bytes: Vec<u8> = match sys::read_exact(self.object.fd(), n, 0) {
            Ok(b) => b,
            Err(e) => {
                return Err(e);
            },
        };
        Ok(T::of_bytes(bytes.as_slice()))
    }

    /// Writes the mapped value: the segment's first bytes become the byte
    /// image of `value`.
    pub fn set(&mut self, value: T) -> (r: Result<(), Error>)
        ensures
            *final(self) == *old(self),
            r matches Err(e) ==> e == Error::System,
    {
        proof {
            use_type_invariant(&*self);
            T::lemma_size_bounds();
            value.lemma_to_bytes_len();
        }
        let bytes: Vec<u8> = value.to_bytes();
        sys::write_all(self.object.fd(), bytes.as_slice(), 0)
    }
}

} // verus!
