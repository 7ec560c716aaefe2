//! The hashed collections of the `ahash` crate that the extractors keep:
//! a set of blacklisted tags and the map from pool post ids to their order.
use vstd::prelude::*;

use ahash::AHashSet;
use std::collections::HashMap;

use crate::text::strings_view;

verus! {

#[verifier::external_type_specification]
#[verifier::external_body]
#[verifier::reject_recursive_types(T)]
#[verifier::reject_recursive_types(S)]
pub struct ExAHashSet<T, S>(AHashSet<T, S>);

#[verifier::external_type_specification]
#[verifier::external_body]
pub struct ExAhashRandomState(ahash::RandomState);

/// The tags that a set of blacklisted tags holds.
pub uninterp spec fn tag_set_contents(s: AHashSet<String>) -> Set<Seq<char>>;

/// `AHashSet::new`: a set with no tags.
#[verifier::external_body]
pub(crate) fn tag_set_new() -> (r: AHashSet<String>)
    ensures
        tag_set_contents(r) == Set::<Seq<char>>::empty(),
{
    AHashSet::new()
}

/// `AHashSet::extend`: inserts every given tag; the set then holds what it
/// held and the given tags.
#[verifier::external_body]
pub(crate) fn tag_set_extend(set: &mut AHashSet<String>, items: Vec<String>)
    ensures
        tag_set_contents(*final(set)) == tag_set_contents(*old(set)).union(
            strings_view(items@).to_set(),
        ),
{
    set.extend(items)
}

/// `HashSet::contains` through `AHashSet`: whether the tag is in the set.
#[verifier::external_body]
pub(crate) fn tag_set_contains(set: &AHashSet<String>, item: &str) -> (r: bool)
    ensures
        r == tag_set_contents(*set).contains(item@),
{
    set.contains(item)
}

/// `HashSet::is_empty` through `AHashSet`: whether the set holds no tag.
#[verifier::external_body]
pub(crate) fn tag_set_is_empty(set: &AHashSet<String>) -> (r: bool)
    ensures
        r == (tag_set_contents(*set) == Set::<Seq<char>>::empty()),
{
    set.is_empty()
}

/// `ahash::HashMap`, a `HashMap` hashed by ahash's `RandomState`.
pub type PoolIndex = HashMap<u64, usize, ahash::RandomState>;

/// `HashMap::insert` on a map hashed by ahash: maps `k` to `v`, replacing
/// an earlier value of `k`.
#[verifier::external_body]
pub(crate) fn pool_index_insert(m: &mut PoolIndex, k: u64, v: usize)
    ensures
        final(m)@ == old(m)@.insert(k, v),
{
    m.insert(k, v);
}

/// `HashMap::len` on a map hashed by ahash: the number of keys.
#[verifier::external_body]
pub(crate) fn pool_index_len(m: &PoolIndex) -> (r: usize)
    ensures
        r == m@.dom().len(),
{
    m.len()
}

/// `HashMap::iter` on a map hashed by ahash, as pairs: each key once, with
/// its value. The order of the pairs depends on the hasher's random seed and
/// is left unsaid.
#[verifier::external_body]
pub(crate) fn pool_index_entries(m: &PoolIndex) -> (r: Vec<(u64, usize)>)
    ensures
        forall|i: int, j: int| 0 <= i < j < r@.len() ==> r@[i].0 != r@[j].0,
        forall|i: int| 0 <= i < r@.len() ==> m@.contains_key(#[trigger] r@[i].0) && m@[r@[i].0] == r@[i].1,
        forall|k: u64| m@.contains_key(k) ==> exists|i: int| 0 <= i < r@.len() && #[trigger] r@[i].0 == k,
{
    m.iter().map(|(k, v)| (*k, *v)).collect()
}

/// An empty map hashed by ahash.
pub fn pool_index_new() -> (r: PoolIndex)
    ensures
        r@ == Map::<u64, usize>::empty(),
{
    HashMap::default()
}

} // verus!
