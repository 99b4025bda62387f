//! Typed access to POSIX shared-memory segments: named regions of memory
//! that independent processes can open and exchange plain values through.

use vstd::prelude::*;

mod codec;
mod error;
mod object;
mod sys;
pub mod array;
pub mod map;

pub use array::{Mutable as ArrayMut, Owned as Array, Reference as ArrayRef};
pub use codec::Pair32;
pub use error::Error;
pub use map::{create, open};
pub use map::{Mutable as MapMut, Owned as MapOwned, Reference as MapRef};
pub use object::Object;

verus! {

/// Capability marking a type as safe to place in shared memory: it has a
/// fixed byte size and an exact, address-independent byte image, so a value
/// can cross an address-space boundary as plain bytes.
pub trait Safe: Sized + Copy {
    /// The byte size of every value of the type.
    spec fn spec_size() -> nat;

    /// The byte image of a value.
    spec fn spec_to_bytes(self) -> Seq<u8>;

    /// The value a byte image of the right length stands for.
    spec fn spec_of_bytes(s: Seq<u8>) -> Self;

    /// The byte size is positive and fits the machine's signed word.
    proof fn lemma_size_bounds()
        ensures
            0 < Self::spec_size() <= isize::MAX,
    ;

    /// A byte image holds exactly `spec_size()` bytes.
    proof fn lemma_to_bytes_len(self)
        ensures
            self.spec_to_bytes().len() == Self::spec_size(),
    ;

    /// Decoding a value's byte image gives the value back.
    proof fn lemma_round_trip(self)
        ensures
            Self::spec_of_bytes(self.spec_to_bytes()) == self,
    ;

    /// Re-encoding a decoded byte image reproduces it exactly.
    proof fn lemma_byte_image(s: Seq<u8>)
        requires
            s.len() == Self::spec_size(),
        ensures
            Self::spec_of_bytes(s).spec_to_bytes() == s,
    ;

    /// The byte size, as a machine integer.
    fn byte_size() -> (n: usize)
        ensures
            n == Self::spec_size(),
    ;

    /// Encodes a value as its byte image.
    fn to_bytes(self) -> (b: Vec<u8>)
        ensures
            b@ == self.spec_to_bytes(),
    ;

    /// Decodes a byte image back into a value.
    fn of_bytes(b: &[u8]) -> (v: Self)
        requires
            b@.len() == Self::spec_size(),
        ensures
            v == Self::spec_of_bytes(b@),
    ;
}

/// Law: for every `Safe` type, a value written as its byte image and read
/// back from those bytes is the same value, and what the reader holds has
/// the identical byte pattern that was written.
pub proof fn lemma_write_read_round_trip<T: Safe>(v: T)
    ensures
        T::spec_of_bytes(v.spec_to_bytes()) == v,
        T::spec_of_bytes(v.spec_to_bytes()).spec_to_bytes() == v.spec_to_bytes(),
{
    v.lemma_round_trip();
    v.lemma_to_bytes_len();
    T::lemma_byte_image(v.spec_to_bytes());
}

} // verus!
