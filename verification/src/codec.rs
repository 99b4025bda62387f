//! `Safe` implementations for the plain fixed-layout types this crate ships:
//! the unsigned machine integers (little-endian byte image) and a pair of
//! 32-bit words, the shape of a small two-field record.

use vstd::prelude::*;

use vstd::bytes::*;
use vstd::slice::{slice_index_get, slice_subrange};

use crate::Safe;

verus! {

impl Safe for u8 {
    open spec fn spec_size() -> nat {
        1
    }

    open spec fn spec_to_bytes(self) -> Seq<u8> {
        seq![self]
    }

    open spec fn spec_of_bytes(s: Seq<u8>) -> Self {
        s[0]
    }

    proof fn lemma_size_bounds() {
    }

    proof fn lemma_to_bytes_len(self) {
    }

    proof fn lemma_round_trip(self) {
    }

    proof fn lemma_byte_image(s: Seq<u8>) {
        assert(seq![s[0]] =~= s);
    }

    fn byte_size() -> usize {
        1
    }

    fn to_bytes(self) -> (b: Vec<u8>) {
        let mut b: Vec<u8> = Vec::new();
        b.push(self);
        proof {
            assert(b@ =~= seq![self]);
        }
        b
    }

    fn of_bytes(b: &[u8]) -> (v: Self) {
        *slice_index_get(b, 0)
    }
}

impl Safe for u16 {
    open spec fn spec_size() -> nat {
        2
    }

    open spec fn spec_to_bytes(self) -> Seq<u8> {
        spec_u16_to_le_bytes(self)
    }

    open spec fn spec_of_bytes(s: Seq<u8>) -> Self {
        spec_u16_from_le_bytes(s)
    }

    proof fn lemma_size_bounds() {
    }

    proof fn lemma_to_bytes_len(self) {
        lemma_auto_spec_u16_to_from_le_bytes();
    }

    proof fn lemma_round_trip(self) {
        lemma_auto_spec_u16_to_from_le_bytes();
        assert(spec_u16_to_le_bytes(self).len() == 2);
    }

    proof fn lemma_byte_image(s: Seq<u8>) {
        lemma_auto_spec_u16_to_from_le_bytes();
    }

    fn byte_size() -> usize {
        2
    }

    fn to_bytes(self) -> (b: Vec<u8>) {
        u16_to_le_bytes(self)
    }

    fn of_bytes(b: &[u8]) -> (v: Self) {
        u16_from_le_bytes(b)
    }
}

impl Safe for u32 {
    open spec fn spec_size() -> nat {
        4
    }

    open spec fn spec_to_bytes(self) -> Seq<u8> {
        spec_u32_to_le_bytes(self)
    }

    open spec fn spec_of_bytes(s: Seq<u8>) -> Self {
        spec_u32_from_le_bytes(s)
    }

    proof fn lemma_size_bounds() {
    }

    proof fn lemma_to_bytes_len(self) {
        lemma_auto_spec_u32_to_from_le_bytes();
    }

    proof fn lemma_round_trip(self) {
        lemma_auto_spec_u32_to_from_le_bytes();
        assert(spec_u32_to_le_bytes(self).len() == 4);
    }

    proof fn lemma_byte_image(s: Seq<u8>) {
        lemma_auto_spec_u32_to_from_le_bytes();
    }

    fn byte_size() -> usize {
        4
    }

    fn to_bytes(self) -> (b: Vec<u8>) {
        u32_to_le_bytes(self)
    }

    fn of_bytes(b: &[u8]) -> (v: Self) {
        u32_from_le_bytes(b)
    }
}

impl Safe for u64 {
    open spec fn spec_size() -> nat {
        8
    }

    open spec fn spec_to_bytes(self) -> Seq<u8> {
        spec_u64_to_le_bytes(self)
    }

    open spec fn spec_of_bytes(s: Seq<u8>) -> Self {
        spec_u64_from_le_bytes(s)
    }

    proof fn lemma_size_bounds() {
    }

    proof fn lemma_to_bytes_len(self) {
        lemma_auto_spec_u64_to_from_le_bytes();
    }

    proof fn lemma_round_trip(self) {
        lemma_auto_spec_u64_to_from_le_bytes();
        assert(spec_u64_to_le_bytes(self).len() == 8);
    }

    proof fn lemma_byte_image(s: Seq<u8>) {
        lemma_auto_spec_u64_to_from_le_bytes();
    }

    fn byte_size() -> usize {
        8
    }

    fn to_bytes(self) -> (b: Vec<u8>) {
        u64_to_le_bytes(self)
    }

    fn of_bytes(b: &[u8]) -> (v: Self) {
        u64_from_le_bytes(b)
    }
}

/// A plain two-field record of 32-bit words, the smallest interesting shape
/// to place in a shared segment.
#[derive(Clone, Copy, Debug, PartialEq, Eq, Structural)]
pub struct Pair32 {
    pub first: u32,
    pub second: u32,
}

/// The two words are laid out one after the other, each little-endian.
impl Safe for Pair32 {
    open spec fn spec_size() -> nat {
        8
    }

    open spec fn spec_to_bytes(self) -> Seq<u8> {
        spec_u32_to_le_bytes(self.first) + spec_u32_to_le_bytes(self.second)
    }

    open spec fn spec_of_bytes(s: Seq<u8>) -> Self {
        Pair32 {
            first: spec_u32_from_le_bytes(s.subrange(0, 4)),
            second: spec_u32_from_le_bytes(s.subrange(4, 8)),
        }
    }

    proof fn lemma_size_bounds() {
    }

    proof fn lemma_to_bytes_len(self) {
        lemma_auto_spec_u32_to_from_le_bytes();
    }

    proof fn lemma_round_trip(self) {
        lemma_auto_spec_u32_to_from_le_bytes();
        assert(spec_u32_to_le_bytes(self.first).len() == 4);
        assert(spec_u32_to_le_bytes(self.second).len() == 4);
        assert(self.spec_to_bytes().subrange(0, 4) =~= spec_u32_to_le_bytes(self.first));
        assert(self.spec_to_bytes().subrange(4, 8) =~= spec_u32_to_le_bytes(self.second));
    }

    proof fn lemma_byte_image(s: Seq<u8>) {
        lemma_auto_spec_u32_to_from_le_bytes();
        let v = Self::spec_of_bytes(s);
        assert(v.spec_to_bytes() =~= s);
    }

    fn byte_size() -> usize {
        8
    }

    fn to_bytes(self) -> (b: Vec<u8>) {
        let mut b: Vec<u8> = u32_to_le_bytes(self.first);
        let mut c: Vec<u8> = u32_to_le_bytes(self.second);
        b.append(&mut c);
        proof {
            lemma_auto_spec_u32_to_from_le_bytes();
        }
        b
    }

    fn of_bytes(b: &[u8]) -> (v: Self) {
        let lo: u32 = u32_from_le_bytes(slice_subrange(b, 0, 4));
        let hi: u32 = u32_from_le_bytes(slice_subrange(b, 4, 8));
        Pair32 { first: lo, second: hi }
    }
}

} // verus!
