//! The accumulator: a 32-bit running state, updated one byte at a time.

use crate::model::{absorb, avalanche, mix};
use vstd::prelude::*;

verus! {

/// A one-at-a-time hash in progress.
///
/// Its view is the running state, a 32-bit word, and nothing else belongs to
/// it. Absorbing a byte replaces the state by [`mix`]; asking for a digest
/// reads the state and leaves it as it was.
#[derive(Clone, Copy)]
pub struct JoaatHasher(u32);

impl View for JoaatHasher {
    type V = u32;

    closed spec fn view(&self) -> u32 {
        self.0
    }
}

impl Default for JoaatHasher {
    /// An accumulator seeded with zero.
    #[inline]
    fn default() -> (hasher: Self)
        ensures
            hasher@ == 0,
    {
        Self(0)
    }
}

impl JoaatHasher {
    /// An accumulator whose state is `hash`. Every value is accepted.
    #[inline]
    #[must_use]
    pub fn with_initial_hash(hash: u32) -> (hasher: Self)
        ensures
            hasher@ == hash,
    {
        Self(hash)
    }

    /// Absorbs one byte. The arithmetic wraps around; it never overflows.
    #[inline]
    pub fn update(&mut self, byte: u8)
        ensures
            final(self)@ == mix(old(self)@, byte),
    {
        let summed = self.0.wrapping_add(u32::from(byte));
        let spread = summed.wrapping_add(summed.wrapping_shl(10));
        self.0 = spread ^ spread.wrapping_shr(6);
    }

    /// Absorbs `bytes` one by one, in the order given.
    #[inline]
    pub fn update_many(&mut self, bytes: &[u8])
        ensures
            final(self)@ == absorb(old(self)@, bytes@),
    {
        for byte in it: bytes.iter()
            invariant
                self@ == absorb(old(self)@, bytes@.take(it.index())),
        {
            proof {
                let i = it.index();
                assert(bytes@.take(i + 1).drop_last() =~= bytes@.take(i));
            }
            self.update(*byte);
        }
        proof {
            assert(bytes@.take(bytes@.len() as int) =~= bytes@);
        }
    }

    /// The digest of what has been absorbed so far. It is a function of the
    /// state alone, and the accumulator is left as it was: asked again it
    /// gives the same digest, and more bytes may follow.
    #[inline]
    #[must_use]
    pub fn finalize(&self) -> (digest: u32)
        ensures
            digest == avalanche(self@),
    {
        let a = self.0.wrapping_add(self.0.wrapping_shl(3));
        let b = a ^ a.wrapping_shr(11);
        b.wrapping_add(b.wrapping_shl(15))
    }
}

} // verus!
