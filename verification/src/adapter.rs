//! The accumulator as a `Hasher` of the standard library, and the map and
//! set types that hash their keys with it.

use crate::hasher::JoaatHasher;
use crate::model::{absorb, avalanche};
use core::hash::{BuildHasherDefault, Hasher};
use std::collections::{HashMap, HashSet};
use vstd::prelude::*;

verus! {

impl Hasher for JoaatHasher {
    /// The digest of what has been absorbed so far, widened to 64 bits: the
    /// upper 32 bits are zero.
    #[inline]
    fn finish(&self) -> (digest: u64)
        ensures
            digest == avalanche(self@),
    {
        self.finalize() as u64
    }

    /// Absorbs `bytes` in the order given.
    #[inline]
    fn write(&mut self, bytes: &[u8])
        ensures
            final(self)@ == absorb(old(self)@, bytes@),
    {
        self.update_many(bytes)
    }
}

/// Builds a hasher for each key that a map or set hashes; every one of
/// them starts from the seed zero.
pub type JoaatBuildHasher = BuildHasherDefault<JoaatHasher>;

/// A `HashMap` that places its keys by their one-at-a-time digest.
pub type JoaatHashMap<K, V> = HashMap<K, V, JoaatBuildHasher>;

/// A `HashSet` that places its items by their one-at-a-time digest.
pub type JoaatHashSet<T> = HashSet<T, JoaatBuildHasher>;

} // verus!
