use vstd::prelude::*;

verus! {

/// The sparse index-to-resource mapping behind a bitmap table, backed by
/// `hashbrown::HashMap`. The struct is opaque to the verifier: what it holds
/// is named by `cache_entries`, and each method's trusted contract states,
/// against hashbrown's source, how the call reads or changes that mapping.
#[verifier::external_body]
pub struct IndexCache {
    map: hashbrown::HashMap<usize, usize>,
}

/// The mapping from strip index to resource identifier that an `IndexCache`
/// currently holds.
pub uninterp spec fn cache_entries(c: IndexCache) -> Map<usize, usize>;

/// The cache holds nothing at all.
pub open spec fn cache_is_empty(c: IndexCache) -> bool {
    cache_entries(c) == Map::<usize, usize>::empty()
}

/// Relies on `hashbrown::HashMap::new`: a freshly made map holds nothing.
#[verifier::external_body]
pub(crate) fn cache_new() -> (r: IndexCache)
    ensures
        cache_is_empty(r),
{
    IndexCache { map: hashbrown::HashMap::new() }
}

/// Relies on `hashbrown::HashMap::get`: returns the value stored under the
/// key if the key is present, and nothing otherwise.
#[verifier::external_body]
pub(crate) fn cache_get(c: &IndexCache, index: usize) -> (r: Option<usize>)
    ensures
        cache_entries(*c).dom().contains(index) ==> r == Some(cache_entries(*c)[index]),
        !cache_entries(*c).dom().contains(index) ==> r == None::<usize>,
{
    c.map.get(&index).copied()
}

/// Relies on `hashbrown::HashMap::insert`: stores the value under the key,
/// replacing whatever the key held before.
#[verifier::external_body]
pub(crate) fn cache_insert(c: &mut IndexCache, index: usize, id: usize)
    ensures
        cache_entries(*final(c)) == cache_entries(*old(c)).insert(index, id),
{
    c.map.insert(index, id);
}

/// Relies on `hashbrown::HashMap::clone`: the copy holds exactly the same
/// key-to-value pairs as the original.
#[verifier::external_body]
pub(crate) fn cache_clone(c: &IndexCache) -> (r: IndexCache)
    ensures
        cache_entries(r) == cache_entries(*c),
{
    IndexCache { map: c.map.clone() }
}

/// Relies on `hashbrown::HashMap::len`: the number of keys the map holds.
#[verifier::external_body]
pub(crate) fn cache_len(c: &IndexCache) -> (n: usize)
    ensures
        n == cache_entries(*c).dom().len(),
{
    c.map.len()
}

} // verus!
