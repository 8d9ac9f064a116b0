//! The Adler-32 checksum: two sums modulo a number, the first of the bytes
//! and the second of the values that the first sum takes.

use vstd::prelude::*;

verus! {

/// The modulus of the checksum as it is commonly used: the largest prime
/// below two to the sixteenth.
pub const ADLER_MODULUS: u32 = 65521;

/// The largest modulus, and the largest sum, from which the sums cannot
/// leave 32 bits.
pub const SUM_LIMIT: u32 = 0x8000_0000;

/// The state of the checksum: the modulus and the two sums.
pub struct AdlerState {
    pub modulus: u32,
    pub low: u32,
    pub high: u32,
}

/// The modulus is not zero, and neither the modulus nor a sum is so large
/// that one more byte could take a sum out of 32 bits.
pub open spec fn steady(state: AdlerState) -> bool {
    &&& 0 < state.modulus <= SUM_LIMIT
    &&& state.low <= SUM_LIMIT
    &&& state.high <= SUM_LIMIT
}

/// The state after one more byte.
pub open spec fn adler_step(state: AdlerState, byte: u8) -> AdlerState {
    let low = (state.low + byte) % (state.modulus as int);
    let high = (state.high + low) % (state.modulus as int);
    AdlerState { modulus: state.modulus, low: low as u32, high: high as u32 }
}

/// The state after the bytes of `bytes`, first to last.
pub open spec fn adler_fold(state: AdlerState, bytes: Seq<u8>) -> AdlerState
    decreases bytes.len(),
{
    if bytes.len() == 0 {
        state
    } else {
        adler_step(adler_fold(state, bytes.drop_last()), bytes.last())
    }
}

/// A hasher that returns an Adler-32 sum.
pub struct Adler32Hasher(u32, u32, u32);

impl View for Adler32Hasher {
    type V = AdlerState;

    /// The modulus and the two sums.
    closed spec fn view(&self) -> AdlerState {
        AdlerState { modulus: self.0, low: self.1, high: self.2 }
    }
}

impl Adler32Hasher {
    /// A hasher that sums modulo `seed`, with the first sum at one and the
    /// second at zero.
    pub fn seed(seed: u32) -> (hasher: Adler32Hasher)
        ensures
            hasher@ == (AdlerState { modulus: seed, low: 1, high: 0 }),
    {
        Adler32Hasher(seed, 1, 0)
    }

    /// Whether bytes can be written: whether the state is steady.
    pub fn is_steady(&self) -> (steady: bool)
        ensures
            steady == self::steady(self@),
    {
        0 < self.0 && self.0 <= SUM_LIMIT && self.1 <= SUM_LIMIT && self.2 <= SUM_LIMIT
    }

    /// Takes the bytes of `bytes` into the sums, first to last.
    pub fn write(&mut self, bytes: &[u8])
        requires
            steady(old(self)@),
        ensures
            final(self)@ == adler_fold(old(self)@, bytes@),
            steady(final(self)@),
    {
        for i in 0..bytes.len()
            invariant
                self@ == adler_fold(old(self)@, bytes@.take(i as int)),
                steady(self@),
        {
            self.1 = (self.1 + bytes[i] as u32) % self.0;
            self.2 = (self.2 + self.1) % self.0;
            assert(bytes@.take(i + 1).drop_last() =~= bytes@.take(i as int));
        }
        assert(bytes@.take(bytes@.len() as int) =~= bytes@);
    }

    /// The checksum of the bytes written so far: the second sum in the
    /// bits from the sixteenth up, the first below, where they do not
    /// overlap.
    pub fn finish(&self) -> (sum: u64)
        ensures
            sum == ((self@.high << 16) | self@.low),
            self@.low < 0x1_0000 && self@.high < 0x1_0000 ==> sum == self@.high * 0x1_0000
                + self@.low,
    {
        let low = self.1;
        let high = self.2;
        assert(low < 0x1_0000 && high < 0x1_0000 ==> ((high << 16) | low) == high * 0x1_0000
            + low) by (bit_vector);
        ((high << 16) | low) as u64
    }
}

impl Default for Adler32Hasher {
    /// A hasher that sums modulo 65521.
    fn default() -> (hasher: Adler32Hasher)
        ensures
            hasher@ == (AdlerState { modulus: ADLER_MODULUS, low: 1, high: 0 }),
            steady(hasher@),
    {
        Adler32Hasher(ADLER_MODULUS, 1, 0)
    }
}

/// Writing `first` and then `second` gives the state that writing the two
/// as one run of bytes gives.
pub proof fn lemma_adler_fold_concat(state: AdlerState, first: Seq<u8>, second: Seq<u8>)
    ensures
        adler_fold(adler_fold(state, first), second) == adler_fold(state, first + second),
    decreases second.len(),
{
    if second.len() == 0 {
        assert(first + second =~= first);
    } else {
        lemma_adler_fold_concat(state, first, second.drop_last());
        assert((first + second).drop_last() =~= first + second.drop_last());
    }
}

/// The modulus never changes, a steady state stays steady, and once a byte
/// has been written both sums are below the modulus.
pub proof fn lemma_adler_fold_bounds(state: AdlerState, bytes: Seq<u8>)
    requires
        steady(state),
    ensures
        adler_fold(state, bytes).modulus == state.modulus,
        steady(adler_fold(state, bytes)),
        bytes.len() > 0 ==> adler_fold(state, bytes).low < state.modulus && adler_fold(
            state,
            bytes,
        ).high < state.modulus,
    decreases bytes.len(),
{
    if bytes.len() > 0 {
        lemma_adler_fold_bounds(state, bytes.drop_last());
    }
}

} // verus!
