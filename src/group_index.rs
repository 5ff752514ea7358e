//! The insertion-ordered hash map that locates an alert group by its dedup
//! key while rows stream in.
use indexmap::IndexMap;
use vstd::prelude::*;

verus! {

#[verifier::external_type_specification]
#[verifier::external_body]
#[verifier::reject_recursive_types(K)]
#[verifier::reject_recursive_types(V)]
#[verifier::reject_recursive_types(S)]
pub struct ExIndexMap<K, V, S>(IndexMap<K, V, S>);

/// The key/value pairs held by a group index, keys read as characters.
pub uninterp spec fn group_index_entries(m: IndexMap<String, usize>) -> Map<Seq<char>, usize>;

/// Relies on `IndexMap::new`: a map with no entries.
#[verifier::external_body]
pub(crate) fn group_index_new() -> (r: IndexMap<String, usize>)
    ensures
        group_index_entries(r) =~= Map::empty(),
{
    IndexMap::new()
}

/// Relies on `IndexMap::get`: the value stored under a key equal to `k`,
/// if any (`String` keys compare and hash by their characters).
#[verifier::external_body]
pub(crate) fn group_index_get(m: &IndexMap<String, usize>, k: &String) -> (r: Option<usize>)
    ensures
        r == (if group_index_entries(*m).contains_key(k@) {
            Some(group_index_entries(*m)[k@])
        } else {
            None::<usize>
        }),
{
    m.get(k).copied()
}

/// Relies on `IndexMap::insert`: afterwards `k` maps to `v` and every other
/// key keeps its value.
#[verifier::external_body]
pub(crate) fn group_index_insert(m: &mut IndexMap<String, usize>, k: String, v: usize)
    ensures
        group_index_entries(*final(m)) == group_index_entries(*old(m)).insert(k@, v),
{
    m.insert(k, v);
}

} // verus!
