//! What holds of the digest for every input.

use crate::model::{absorb, ascii_case_fold, avalanche, digest, mix};
use vstd::prelude::*;

verus! {

/// Absorbing `p` and then `q` reaches the state that absorbing `p + q` at
/// once reaches.
pub proof fn lemma_absorb_concat(seed: u32, p: Seq<u8>, q: Seq<u8>)
    ensures
        absorb(absorb(seed, p), q) == absorb(seed, p + q),
    decreases q.len(),
{
    if q.len() == 0 {
        assert(p + q =~= p);
    } else {
        lemma_absorb_concat(seed, p, q.drop_last());
        assert((p + q).drop_last() =~= p + q.drop_last());
    }
}

/// A digest taken after `p` does not disturb what follows: the digest taken
/// after a further `q` is the digest of `p + q` from the same seed, and from
/// the seed zero it is `digest(p + q)`.
pub proof fn lemma_digest_continues(seed: u32, p: Seq<u8>, q: Seq<u8>)
    ensures
        avalanche(absorb(absorb(seed, p), q)) == avalanche(absorb(seed, p + q)),
        avalanche(absorb(absorb(0, p), q)) == digest(p + q),
{
    lemma_absorb_concat(seed, p, q);
    lemma_absorb_concat(0, p, q);
}

/// The digest of the empty input is zero: the avalanche leaves a zero state
/// at zero.
pub proof fn lemma_empty_digest_is_zero()
    ensures
        avalanche(0) == 0,
        digest(Seq::<u8>::empty()) == 0,
{
    assert(avalanche(0u32) == 0u32) by (bit_vector);
}

/// The digest depends on nothing but the bytes: two inputs of one length
/// that agree byte for byte have the same digest, folded or not.
pub proof fn lemma_digest_deterministic(a: Seq<u8>, b: Seq<u8>)
    requires
        a.len() == b.len(),
        forall|i: int| 0 <= i < a.len() ==> a[i] == b[i],
    ensures
        digest(a) == digest(b),
        digest(ascii_case_fold(a)) == digest(ascii_case_fold(b)),
{
    assert(a =~= b);
}

/// The state reached by absorbing exactly two bytes.
proof fn lemma_absorb_pair(seed: u32, first: u8, second: u8)
    ensures
        absorb(seed, seq![first, second]) == mix(mix(seed, first), second),
{
    let pair = seq![first, second];
    assert(pair.drop_last() =~= seq![first]);
    reveal_with_fuel(absorb, 3);
}

/// Two different bytes hash differently in their two orders.
#[verifier::rlimit(40)]
pub proof fn lemma_swapped_pair_differs(a: u8, b: u8)
    requires
        a != b,
    ensures
        digest(seq![a, b]) != digest(seq![b, a]),
{
    lemma_absorb_pair(0, a, b);
    lemma_absorb_pair(0, b, a);
    assert(avalanche(mix(mix(0u32, a), b)) != avalanche(mix(mix(0u32, b), a))) by (bit_vector)
        requires
            a != b,
    ;
}

/// The digest is sensitive to the order of the bytes: some input differs
/// from its reverse, and so does its digest.
pub proof fn lemma_order_matters()
    ensures
        exists|x: Seq<u8>| x != x.reverse() && #[trigger] digest(x) != digest(x.reverse()),
{
    let x = seq![0x61u8, 0x62u8];
    assert(x.reverse() =~= seq![0x62u8, 0x61u8]);
    lemma_swapped_pair_differs(0x61u8, 0x62u8);
    assert(x != x.reverse() && digest(x) != digest(x.reverse()));
}

} // verus!
