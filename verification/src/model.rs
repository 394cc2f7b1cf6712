//! The mathematical definition of the digest, over `Seq<u8>` and 32-bit words.

use vstd::prelude::*;

verus! {

/// The sum of two 32-bit words, reduced modulo 2^32.
pub open spec fn add_mod32(a: u32, b: u32) -> u32 {
    ((a + b) % 0x1_0000_0000) as u32
}

/// The state that follows `state` once `byte` has been absorbed: the byte is
/// added, the sum is added to itself shifted left by ten bits, and the result
/// is combined by exclusive or with itself shifted right by six bits. Both
/// additions are modulo 2^32, and the right shift fills with zeros.
pub open spec fn mix(state: u32, byte: u8) -> u32 {
    let summed = add_mod32(state, byte as u32);
    let spread = add_mod32(summed, summed << 10);
    spread ^ (spread >> 6)
}

/// The digest that an accumulator in `state` gives: the final mixing, which
/// spreads the state over the whole word. Additions are modulo 2^32.
pub open spec fn avalanche(state: u32) -> u32 {
    let a = add_mod32(state, state << 3);
    let b = a ^ (a >> 11);
    add_mod32(b, b << 15)
}

/// The state reached from `seed` after absorbing `bytes` from first to last.
pub open spec fn absorb(seed: u32, bytes: Seq<u8>) -> u32
    decreases bytes.len(),
{
    if bytes.len() == 0 {
        seed
    } else {
        mix(absorb(seed, bytes.drop_last()), bytes.last())
    }
}

/// The digest of `bytes`: the avalanche of the state that absorbing them
/// reaches from the default seed, zero.
pub open spec fn digest(bytes: Seq<u8>) -> u32 {
    avalanche(absorb(0, bytes))
}

/// The ASCII-only case fold of one byte: an upper-case ASCII letter (`A` is
/// 0x41, `Z` is 0x5a) becomes its lower-case counterpart, 0x20 above it, and
/// every other byte stays as it is, bytes outside ASCII included.
pub open spec fn ascii_lower(byte: u8) -> u8 {
    if 0x41 <= byte <= 0x5a {
        (byte + 0x20) as u8
    } else {
        byte
    }
}

/// The ASCII-only case fold of a byte sequence, byte by byte.
pub open spec fn ascii_case_fold(bytes: Seq<u8>) -> Seq<u8> {
    bytes.map_values(|byte: u8| ascii_lower(byte))
}

} // verus!
