//! Digests of whole inputs.

use crate::hasher::JoaatHasher;
use crate::model::{absorb, ascii_case_fold, ascii_lower, digest};
use vstd::prelude::*;
use vstd::std_specs::iter::IteratorSpec;

verus! {

/// The digest of the bytes that `input` yields, in the order in which it
/// yields them: what [`hash_bytes`] gives for the same bytes. The source is
/// used up; no copy of its bytes is kept.
///
/// `input` has to be finite: after its last item it returns `None` and goes
/// on doing so, and it carries a measure that falls with every item.
#[inline]
#[must_use]
pub fn hash_iter<I: Iterator<Item = u8>>(input: I) -> (hash: u32)
    requires
        input.obeys_prophetic_iter_laws(),
        input.decrease() is Some,
    ensures
        hash == digest(input.remaining()),
{
    let mut hasher = JoaatHasher::default();
    let mut rest = input;
    let ghost mut seen: Seq<u8> = Seq::empty();
    loop
        invariant
            rest.obeys_prophetic_iter_laws(),
            rest.decrease() is Some,
            seen + rest.remaining() == input.remaining(),
            hasher@ == absorb(0, seen),
        ensures
            seen == input.remaining(),
        decreases rest.decrease()->0,
    {
        match rest.next() {
            Some(byte) => {
                proof {
                    assert(seen.push(byte).drop_last() =~= seen);
                    seen = seen.push(byte);
                }
                hasher.update(byte);
            },
            None => {
                break ;
            },
        }
    }
    hasher.finalize()
}

/// The lower-case counterpart of an upper-case ASCII letter, and any other
/// byte unchanged.
#[inline]
fn to_ascii_lowercase(byte: u8) -> (folded: u8)
    ensures
        folded == ascii_lower(byte),
{
    if 0x41 <= byte && byte <= 0x5a {
        byte + 0x20
    } else {
        byte
    }
}

/// The digest of `bytes` after an ASCII-only case fold: what [`hash_bytes`]
/// gives for the folded bytes. Each byte is folded as it is absorbed; no
/// folded copy of the input is built.
#[inline]
#[must_use]
pub fn hash_ascii_lowercase(bytes: &[u8]) -> (hash: u32)
    ensures
        hash == digest(ascii_case_fold(bytes@)),
{
    let ghost folded = ascii_case_fold(bytes@);
    let mut hasher = JoaatHasher::default();
    for byte in it: bytes.iter()
        invariant
            folded == ascii_case_fold(bytes@),
            hasher@ == absorb(0, folded.take(it.index())),
    {
        proof {
            let i = it.index();
            assert(folded.take(i + 1).drop_last() =~= folded.take(i));
        }
        hasher.update(to_ascii_lowercase(*byte));
    }
    proof {
        assert(folded.take(folded.len() as int) =~= folded);
    }
    hasher.finalize()
}

/// The digest of `bytes`. Every input has one, the empty one too.
#[inline]
#[must_use]
pub fn hash_bytes(bytes: &[u8]) -> (hash: u32)
    ensures
        hash == digest(bytes@),
{
    let mut hasher = JoaatHasher::default();
    hasher.update_many(bytes);
    hasher.finalize()
}

} // verus!
