use crate::digest::{is_canonical, Digest};
use twenty_first::prelude::{BFieldCodec, BFieldElement, Tip5};
use vstd::prelude::*;

verus! {

/// The Tip5 hash of two digests taken together, as a function of their
/// element values. Order matters: the left digest is absorbed first.
pub uninterp spec fn tip5_hash_pair(left: Seq<u64>, right: Seq<u64>) -> Seq<u64>;

/// The Tip5 hash of a variable-length sequence of field elements, as a
/// function of their values.
pub uninterp spec fn tip5_hash_varlen(input: Seq<u64>) -> Seq<u64>;

/// Calls `Tip5::hash_pair` of `twenty_first` on the two digests.
///
/// Trusted: the result is the fixed-length Tip5 hash of `left` followed by
/// `right`, which depends on nothing but the two digests, and its elements are
/// read back in canonical form.
#[verifier::external_body]
pub(crate) fn hash_pair(left: Digest, right: Digest) -> (result: Digest)
    ensures
        result@ == tip5_hash_pair(left@, right@),
        is_canonical(result@),
{
    let left = twenty_first::prelude::Digest::new(left.values.map(BFieldElement::new));
    let right = twenty_first::prelude::Digest::new(right.values.map(BFieldElement::new));
    let hash = Tip5::hash_pair(left, right);
    Digest { values: hash.values().map(|element| element.value()) }
}

/// Calls `Tip5::hash_varlen` of `twenty_first` on the given element values.
///
/// Trusted: the result is the padded, variable-length Tip5 hash of the
/// elements, which depends on nothing but their values, and its elements are
/// read back in canonical form.
#[verifier::external_body]
pub(crate) fn hash_varlen(input: &Vec<u64>) -> (result: Digest)
    ensures
        result@ == tip5_hash_varlen(input@),
        is_canonical(result@),
{
    let elements: Vec<BFieldElement> = input.iter().map(|value| BFieldElement::new(*value)).collect();
    let hash = Tip5::hash_varlen(&elements);
    Digest { values: hash.values().map(|element| element.value()) }
}

/// Calls `BFieldCodec::encode` of `twenty_first` on the digest.
///
/// Trusted: a digest encodes as its five elements, in order, with nothing
/// added before or after.
#[verifier::external_body]
pub(crate) fn encode(digest: Digest) -> (result: Vec<u64>)
    ensures
        result@ == digest@,
{
    let digest = twenty_first::prelude::Digest::new(digest.values.map(BFieldElement::new));
    digest.encode().iter().map(|element| element.value()).collect()
}

} // verus!
