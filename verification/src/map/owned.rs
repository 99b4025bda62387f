use vstd::prelude::*;

use core::marker::PhantomData;

use crate::error::Error;
use crate::object::Object;
use crate::sys;
use crate::Safe;

verus! {

/// A mapping from an owned shared segment to a single value of `T`: the
/// segment lives exactly as long as the mapping.
pub struct Owned<T: Safe> {
    object: Object,
    _marker: PhantomData<T>,
}

impl<T: Safe> Owned<T> {
    #[verifier::type_invariant]
    spec fn inv(self) -> bool {
        T::spec_size() <= self.object.spec_size()
    }

    /// The segment this mapping views.
    pub closed spec fn object_spec(&self) -> Object {
        self.object
    }

    /// Maps an owned segment to a single `T`. Fails with `WrongSize` exactly
    /// when the segment is too small to hold a `T`; the segment is released
    /// on failure, as the mapping would have owned it.
    pub fn new(object: Object) -> (r: Result<Owned<T>, Error>)
        ensures
            r matches Ok(m) ==> m.object_spec() == object,
            r matches Err(e) ==> e == Error::WrongSize,
            r is Err <==> T::spec_size() > object.spec_size(),
    {
        proof {
            T::lemma_size_bounds();
        }
        let size: usize = T::byte_size();
        let osize: isize = object.size();
        if size > (osize as usize) {
            let _ = object.destroy();
            return Err(Error::WrongSize);
        }
        Ok(Owned { object, _marker: PhantomData })
    }

    /// Reads the mapped value: the `T` that the segment's first bytes decode
    /// to at the moment of the call.
    pub fn get(&self) -> (r: Result<T, Error>)
        ensures
            r matches Err(e) ==> e == Error::System,
    {
        proof {
            use_type_invariant(self);
            T::lemma_size_bounds();
        }
        let n: usize = T::byte_size();
        let bytes: Vec<u8> = match sys::read_exact(self.object.fd(), n, 0) {
            Ok(b) => b,
            Err(e) => {
                return Err(e);
            },
        };
        Ok(T::of_bytes(bytes.as_slice()))
    }

    /// Writes the mapped value: the segment's first bytes become the byte
    /// image of `value`.
    pub fn set(&mut self, value: T) -> (r: Result<(), Error>)
        ensures
            *final(self) == *old(self),
            r matches Err(e) ==> e == Error::System,
    {
        proof {
            use_type_invariant(&*self);
            T::lemma_size_bounds();
            value.lemma_to_bytes_len();
        }
        let bytes: Vec<u8> = value.to_bytes();
        sys::write_all(self.object.fd(), bytes.as_slice(), 0)
    }

    /// Tears the mapping down and destroys the segment it owns.
    pub fn destroy(self) -> (r: Result<(), Error>)
        ensures
            r matches Err(e) ==> e == Error::System || e == Error::InvalidPath,
    {
        let Owned { object, _marker } = self;
        object.destroy()
    }
}

} // verus!
