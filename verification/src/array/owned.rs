use vstd::prelude::*;

use core::marker::PhantomData;

use crate::array::lemma_elem_offset;
use crate::error::Error;
use crate::object::Object;
use crate::sys;
use crate::Safe;

verus! {

/// A mapping from an owned shared segment to a contiguous sequence of `T`:
/// the segment lives exactly as long as the mapping.
pub struct Owned<T: Safe> {
    object: Object,
    _marker: PhantomData<T>,
}

impl<T: Safe> Owned<T> {
    #[verifier::type_invariant]
    spec fn inv(self) -> bool {
        self.object.spec_size() % (T::spec_size() as int) == 0
    }

    /// The segment this mapping views.
    pub closed spec fn object_spec(&self) -> Object {
        self.object
    }

    /// The element count: the segment's byte size over the element size,
    /// derived rather than stored.
    pub open spec fn spec_len(&self) -> int {
        self.object_spec().spec_size() / (T::spec_size() as int)
    }

    /// Maps an owned segment to a sequence of `T`. Fails with `WrongSize`
    /// exactly when the segment's size is not a multiple of the element
    /// size; the segment is released on failure, as the mapping would have
    /// owned it.
    pub fn new(object: Object) -> (r: Result<Owned<T>, Error>)
        ensures
            r matches Ok(m) ==> m.object_spec() == object,
            r matches Err(e) ==> e == Error::WrongSize,
            r is Err <==> object.spec_size() % (T::spec_size() as int) != 0,
    {
        proof {
            T::lemma_size_bounds();
        }
        let size: usize = T::byte_size();
        let osize: isize = object.size();
        if (osize as usize) % size != 0 {
            let _ = object.destroy();
            return Err(Error::WrongSize);
        }
        Ok(Owned { object, _marker: PhantomData })
    }

    /// The number of mapped elements.
    pub fn len(&self) -> (n: usize)
        ensures
            n == self.spec_len(),
    {
        proof {
            use_type_invariant(self);
            T::lemma_size_bounds();
        }
        let osize: isize = self.object.size();
        (osize as usize) / T::byte_size()
    }

    /// Reads element `index`: the `T` that its bytes decode to at the moment
    /// of the call.
    pub fn get(&self, index: usize) -> (r: Result<T, Error>)
        requires
            index < self.spec_len(),
        ensures
            r matches Err(e) ==> e == Error::System,
    {
        let s: usize = T::byte_size();
        // read for its contract alone: it bounds the segment size for the
        // offset proof below
        let _osize: isize = self.object.size();
        proof {
            use_type_invariant(self);
            T::lemma_size_bounds();
            lemma_elem_offset(
                self.object.spec_size(),
                T::spec_size() as int,
                index as int,
            );
        }
        let off: usize = index * s;
        let bytes: Vec<u8> = match sys::read_exact(self.object.fd(), s, off as i64) {
            Ok(b) => b,
            Err(e) => {
                return Err(e);
            },
        };
        Ok(T::of_bytes(bytes.as_slice()))
    }

    /// Writes element `index`: its bytes become the byte image of `value`.
    pub fn set(&mut self, index: usize, value: T) -> (r: Result<(), Error>)
        requires
            index < old(self).spec_len(),
        ensures
            *final(self) == *old(self),
            r matches Err(e) ==> e == Error::System,
    {
        let s: usize = T::byte_size();
        // read for its contract alone: it bounds the segment size for the
        // offset proof below
        let _osize: isize = self.object.size();
        proof {
            use_type_invariant(&*self);
            T::lemma_size_bounds();
            value.lemma_to_bytes_len();
            lemma_elem_offset(
                self.object.spec_size(),
                T::spec_size() as int,
                index as int,
            );
        }
        let off: usize = index * s;
        let bytes: Vec<u8> = value.to_bytes();
        sys::write_all(self.object.fd(), bytes.as_slice(), off as i64)
    }

    /// Tears the mapping down and destroys the segment it owns.
    pub fn destroy(self) -> (r: Result<(), Error>)
        ensures
            r matches Err(e) ==> e == Error::System || e == Error::InvalidPath,
    {
        let Owned { object, _marker } = self;
        object.destroy()
    }
}

} // verus!
