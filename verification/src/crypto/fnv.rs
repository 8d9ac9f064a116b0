//! The Fowler-Noll-Vo hash: for each byte, the state is combined with the
//! byte by exclusive or and then multiplied by a prime, modulo the width of
//! the state.

use core::hash::Hasher;
use vstd::prelude::*;

verus! {

/// The state with which the 32-bit hash starts by default.
pub const FNV32_OFFSET_BASIS: u32 = 2166136261;

/// The prime by which the 32-bit hash multiplies.
pub const FNV32_PRIME: u32 = 16777619;

/// The state with which the 64-bit hash starts by default.
pub const FNV64_OFFSET_BASIS: u64 = 14695981039346656037;

/// The prime by which the 64-bit hash multiplies.
pub const FNV64_PRIME: u64 = 1099511628211;

/// The 32-bit state after one more byte.
pub open spec fn fnv32_step(state: u32, byte: u8) -> u32 {
    (state ^ (byte as u32)).wrapping_mul(FNV32_PRIME)
}

/// The 32-bit state after the bytes of `bytes`, first to last.
pub open spec fn fnv32_fold(state: u32, bytes: Seq<u8>) -> u32
    decreases bytes.len(),
{
    if bytes.len() == 0 {
        state
    } else {
        fnv32_step(fnv32_fold(state, bytes.drop_last()), bytes.last())
    }
}

/// The 64-bit state after one more byte.
pub open spec fn fnv64_step(state: u64, byte: u8) -> u64 {
    (state ^ (byte as u64)).wrapping_mul(FNV64_PRIME)
}

/// The 64-bit state after the bytes of `bytes`, first to last.
pub open spec fn fnv64_fold(state: u64, bytes: Seq<u8>) -> u64
    decreases bytes.len(),
{
    if bytes.len() == 0 {
        state
    } else {
        fnv64_step(fnv64_fold(state, bytes.drop_last()), bytes.last())
    }
}

/// A hasher that computes the 32-bit hash.
pub struct Fnv32Hasher(u32);

/// A hasher that computes the 64-bit hash.
pub struct Fnv64Hasher(u64);

impl View for Fnv32Hasher {
    type V = u32;

    /// The state of the hash.
    closed spec fn view(&self) -> u32 {
        self.0
    }
}

impl Fnv32Hasher {
    /// A hasher that starts from the state `seed`.
    pub fn seed(seed: u32) -> (hasher: Fnv32Hasher)
        ensures
            hasher@ == seed,
    {
        Fnv32Hasher(seed)
    }

}

impl Hasher for Fnv32Hasher {
    /// Takes the bytes of `bytes` into the hash, first to last.
    fn write(&mut self, bytes: &[u8])
        ensures
            final(self)@ == fnv32_fold(old(self)@, bytes@),
    {
        for i in 0..bytes.len()
            invariant
                self@ == fnv32_fold(old(self)@, bytes@.take(i as int)),
        {
            self.0 = self.0 ^ (bytes[i] as u32);
            self.0 = self.0.wrapping_mul(FNV32_PRIME);
            assert(bytes@.take(i + 1).drop_last() =~= bytes@.take(i as int));
        }
        assert(bytes@.take(bytes@.len() as int) =~= bytes@);
    }

    /// The hash of the bytes written so far.
    fn finish(&self) -> (hash: u64)
        ensures
            hash == self@,
    {
        self.0 as u64
    }
}

impl Default for Fnv32Hasher {
    /// A hasher that starts from the offset basis.
    fn default() -> (hasher: Fnv32Hasher)
        ensures
            hasher@ == FNV32_OFFSET_BASIS,
    {
        Fnv32Hasher(FNV32_OFFSET_BASIS)
    }
}

impl View for Fnv64Hasher {
    type V = u64;

    /// The state of the hash.
    closed spec fn view(&self) -> u64 {
        self.0
    }
}

impl Fnv64Hasher {
    /// A hasher that starts from the state `seed`.
    pub fn seed(seed: u64) -> (hasher: Fnv64Hasher)
        ensures
            hasher@ == seed,
    {
        Fnv64Hasher(seed)
    }

}

impl Hasher for Fnv64Hasher {
    /// Takes the bytes of `bytes` into the hash, first to last.
    fn write(&mut self, bytes: &[u8])
        ensures
            final(self)@ == fnv64_fold(old(self)@, bytes@),
    {
        for i in 0..bytes.len()
            invariant
                self@ == fnv64_fold(old(self)@, bytes@.take(i as int)),
        {
            self.0 = self.0 ^ (bytes[i] as u64);
            self.0 = self.0.wrapping_mul(FNV64_PRIME);
            assert(bytes@.take(i + 1).drop_last() =~= bytes@.take(i as int));
        }
        assert(bytes@.take(bytes@.len() as int) =~= bytes@);
    }

    /// The hash of the bytes written so far.
    fn finish(&self) -> (hash: u64)
        ensures
            hash == self@,
    {
        self.0
    }
}

impl Default for Fnv64Hasher {
    /// A hasher that starts from the offset basis.
    fn default() -> (hasher: Fnv64Hasher)
        ensures
            hasher@ == FNV64_OFFSET_BASIS,
    {
        Fnv64Hasher(FNV64_OFFSET_BASIS)
    }
}

/// Writing `first` and then `second` gives the 32-bit state that writing
/// the two as one run of bytes gives.
pub proof fn lemma_fnv32_fold_concat(state: u32, first: Seq<u8>, second: Seq<u8>)
    ensures
        fnv32_fold(fnv32_fold(state, first), second) == fnv32_fold(state, first + second),
    decreases second.len(),
{
    if second.len() == 0 {
        assert(first + second =~= first);
    } else {
        lemma_fnv32_fold_concat(state, first, second.drop_last());
        assert((first + second).drop_last() =~= first + second.drop_last());
    }
}

/// Writing `first` and then `second` gives the 64-bit state that writing
/// the two as one run of bytes gives.
pub proof fn lemma_fnv64_fold_concat(state: u64, first: Seq<u8>, second: Seq<u8>)
    ensures
        fnv64_fold(fnv64_fold(state, first), second) == fnv64_fold(state, first + second),
    decreases second.len(),
{
    if second.len() == 0 {
        assert(first + second =~= first);
    } else {
        lemma_fnv64_fold_concat(state, first, second.drop_last());
        assert((first + second).drop_last() =~= first + second.drop_last());
    }
}

} // verus!
