//! Scalar mappings: a shared segment viewed as a single value of a `Safe`
//! type, in the three ownership variants.

use vstd::prelude::*;

mod mutable;
mod owned;
mod reference;

pub use mutable::Mutable;
pub use owned::Owned;
pub use reference::Reference;

use crate::error::Error;
use crate::object::Object;
use crate::Safe;

verus! {

/// Creates a new shared segment exactly one `T` large under `path` and maps
/// it; the mapping owns the segment.
pub fn create<T: Safe>(path: &str) -> (r: Result<Owned<T>, Error>)
    ensures
        r matches Ok(m) ==> m.object_spec().spec_size() == T::spec_size()
            && m.object_spec().is_owner() && m.object_spec().spec_path() == path@,
        r matches Err(e) ==> e == Error::System || e == Error::InvalidPath,
{
    proof {
        T::lemma_size_bounds();
    }
    let size: usize = T::byte_size();
    let object: Object = match Object::create(path, size as isize) {
        Ok(o) => o,
        Err(e) => {
            return Err(e);
        },
    };
    Owned::new(object)
}

/// Opens the existing shared segment under `path` and maps it as one `T`;
/// the mapping owns the handle it opened.
pub fn open<T: Safe>(path: &str) -> (r: Result<Owned<T>, Error>)
    ensures
        r matches Ok(m) ==> !m.object_spec().is_owner() && m.object_spec().spec_path() == path@
            && T::spec_size() <= m.object_spec().spec_size(),
        r matches Err(e) ==> e == Error::System || e == Error::InvalidPath
            || e == Error::WrongSize,
{
    let object: Object = match Object::open(path) {
        Ok(o) => o,
        Err(e) => {
            return Err(e);
        },
    };
    Owned::new(object)
}

} // verus!
