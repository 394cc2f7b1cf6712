//! The Jenkins one-at-a-time hash: a 32-bit non-cryptographic digest of a
//! byte sequence, computed one byte at a time and finished by an avalanche
//! step.
//!
//! [`model`] defines the digest as a function of a `Seq<u8>`. [`JoaatHasher`]
//! is the accumulator; [`hash_bytes`], [`hash_ascii_lowercase`] and
//! [`hash_iter`] digest a whole input at once, and each returns exactly what
//! [`model::digest`] says. [`adapter`] makes the accumulator the hasher of
//! the standard maps and sets. [`laws`] proves what holds of every input.

pub mod adapter;
pub mod hasher;
pub mod laws;
pub mod model;
pub mod oneshot;

pub use adapter::{JoaatBuildHasher, JoaatHashMap, JoaatHashSet};
pub use hasher::JoaatHasher;
pub use oneshot::{hash_ascii_lowercase, hash_bytes, hash_iter};
