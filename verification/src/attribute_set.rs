//! A hash set of attribute identifiers, kept in the engine's `HashSet`.

use vstd::prelude::*;

verus! {

/// A set of attribute identifiers behind `bevy::utils::HashSet<u32>`, the
/// engine's alias of `hashbrown::HashSet`.
///
/// The set is opaque to the verifier; what it holds is given by
/// [`id_set_contents`].
#[verifier::external_body]
pub struct AttributeIdSet {
    inner: bevy::utils::HashSet<u32>,
}

/// The identifiers that a set holds.
pub uninterp spec fn id_set_contents(set: AttributeIdSet) -> Set<u32>;

/// `hashbrown::HashSet::new`: the new set holds nothing.
#[verifier::external_body]
pub(crate) fn id_set_new() -> (r: AttributeIdSet)
    ensures
        id_set_contents(r) == Set::<u32>::empty(),
{
    AttributeIdSet { inner: bevy::utils::HashSet::new() }
}

/// `hashbrown::HashSet::insert`: afterwards the set holds `id` beside what it
/// held, and the result tells whether `id` was absent before.
#[verifier::external_body]
pub(crate) fn id_set_insert(set: &mut AttributeIdSet, id: u32) -> (r: bool)
    ensures
        id_set_contents(*final(set)) == id_set_contents(*old(set)).insert(id),
        r == !id_set_contents(*old(set)).contains(id),
{
    set.inner.insert(id)
}

/// `hashbrown::HashSet::into_iter`, collected into a vector: every
/// identifier of the set once, in an order that is not specified.
#[verifier::external_body]
pub(crate) fn id_set_into_vec(set: AttributeIdSet) -> (r: Vec<u32>)
    ensures
        r@.no_duplicates(),
        r@.to_set() == id_set_contents(set),
{
    set.inner.into_iter().collect()
}

} // verus!
