//! Array mappings: a shared segment viewed as a contiguous sequence of a
//! `Safe` type, in the three ownership variants.

use vstd::prelude::*;

mod mutable;
mod owned;
mod reference;

pub use mutable::Mutable;
pub use owned::Owned;
pub use reference::Reference;

use crate::error::Error;
use crate::object::Object;
use crate::Safe;

verus! {

/// An element index within a segment whose size is a multiple of the element
/// size stays within the segment: `index * s + s <= sz`.
pub(crate) proof fn lemma_elem_offset(sz: int, s: int, index: int)
    requires
        0 < s,
        0 <= sz,
        sz % s == 0,
        0 <= index < sz / s,
    ensures
        0 <= index * s,
        index * s + s <= sz,
{
    vstd::arithmetic::div_mod::lemma_fundamental_div_mod(sz, s);
    vstd::arithmetic::mul::lemma_mul_inequality(index + 1, sz / s, s);
    vstd::arithmetic::mul::lemma_mul_nonnegative(index, s);
    assert((index + 1) * s == index * s + s) by (nonlinear_arith);
}

/// Creates a new shared segment holding `size` elements of `T` under `path`
/// and maps it; the mapping owns the segment.
pub fn create<T: Safe>(path: &str, size: usize) -> (r: Result<Owned<T>, Error>)
    requires
        T::spec_size() * size <= isize::MAX,
    ensures
        r matches Ok(m) ==> m.spec_len() == size && m.object_spec().is_owner()
            && m.object_spec().spec_path() == path@,
        r matches Err(e) ==> e == Error::System || e == Error::InvalidPath,
{
    proof {
        T::lemma_size_bounds();
        vstd::arithmetic::div_mod::lemma_mod_multiples_basic(size as int, T::spec_size() as int);
        vstd::arithmetic::div_mod::lemma_div_by_multiple(size as int, T::spec_size() as int);
        vstd::arithmetic::mul::lemma_mul_nonnegative(size as int, T::spec_size() as int);
    }
    let bytes: usize = T::byte_size() * size;
    let object: Object = match Object::create(path, bytes as isize) {
        Ok(o) => o,
        Err(e) => {
            return Err(e);
        },
    };
    Owned::new(object)
}

/// Opens the existing shared segment under `path` and maps it as an array of
/// `T`; the element count follows from the segment's discovered size.
pub fn open<T: Safe>(path: &str) -> (r: Result<Owned<T>, Error>)
    ensures
        r matches Ok(m) ==> !m.object_spec().is_owner() && m.object_spec().spec_path() == path@,
        r matches Err(e) ==> e == Error::System || e == Error::InvalidPath
            || e == Error::WrongSize,
{
    let object: Object = match Object::open(path) {
        Ok(o) => o,
        Err(e) => {
            return Err(e);
        },
    };
    Owned::new(object)
}

} // verus!
