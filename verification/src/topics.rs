//! The bounded list of log topics, an `ArrayVec` of at most four hashes.

use vstd::prelude::*;
use arrayvec::ArrayVec;
use crate::word::Hash256;

verus! {

#[verifier::external_type_specification]
#[verifier::external_body]
#[verifier::reject_recursive_types(T)]
pub struct ExArrayVec<T, const CAP: usize>(ArrayVec<T, CAP>);

/// The topics that a list holds, first pushed first, each as its bytes.
pub uninterp spec fn topic_bytes(topics: ArrayVec<[u8; 32], 4>) -> Seq<Seq<u8>>;

/// Calls `ArrayVec::new`. Trusted: the new list holds nothing.
#[verifier::external_body]
pub(crate) fn topics_new() -> (topics: ArrayVec<[u8; 32], 4>)
    ensures
        topic_bytes(topics) == Seq::<Seq<u8>>::empty(),
{
    ArrayVec::new()
}

/// Calls `ArrayVec::push`. Trusted: the topic is appended behind those that
/// the list held. The outside function panics on a full list, which
/// `requires` excludes.
#[verifier::external_body]
pub(crate) fn topics_push(topics: &mut ArrayVec<[u8; 32], 4>, topic: Hash256)
    requires
        topic_bytes(*old(topics)).len() < 4,
    ensures
        topic_bytes(*final(topics)) == topic_bytes(*old(topics)).push(topic.bytes@),
{
    topics.push(topic.bytes)
}

} // verus!
