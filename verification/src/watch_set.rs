//! The concurrent set of watched paths.
//!
//! The coordinator registers paths with the monitor at most once; the set
//! that remembers them is `dashmap::DashSet`, shared between the build cycle
//! (which inserts) and teardown (which reads everything out). Its methods are
//! trusted: each wrapper states what the call does to the set's contents.

use vstd::prelude::*;

verus! {

#[verifier::external_type_specification]
#[verifier::external_body]
#[verifier::reject_recursive_types(K)]
#[verifier::reject_recursive_types(S)]
pub struct ExDashSet<K, S>(dashmap::DashSet<K, S>);

/// The contents of a watched-path set: the set of path strings it holds.
pub uninterp spec fn path_set_view(
    s: &dashmap::DashSet<String, std::hash::RandomState>,
) -> Set<Seq<char>>;

/// Relies on `dashmap::DashSet::new`: a fresh set is empty.
#[verifier::external_body]
pub fn path_set_new() -> (r: dashmap::DashSet<String, std::hash::RandomState>)
    ensures
        path_set_view(&r) == Set::<Seq<char>>::empty(),
{
    dashmap::DashSet::new()
}

/// Relies on `dashmap::DashSet::contains`: membership by string equality.
#[verifier::external_body]
pub fn path_set_contains(
    s: &dashmap::DashSet<String, std::hash::RandomState>,
    key: &String,
) -> (r: bool)
    ensures
        r == path_set_view(s).contains(key@),
{
    s.contains(key.as_str())
}

/// Relies on `dashmap::DashSet::insert`: the key is added, and the call
/// returns whether it was not already present.
#[verifier::external_body]
pub fn path_set_insert(
    s: &mut dashmap::DashSet<String, std::hash::RandomState>,
    key: String,
) -> (r: bool)
    ensures
        path_set_view(final(s)) == path_set_view(old(s)).insert(key@),
        r == !path_set_view(old(s)).contains(key@),
{
    s.insert(key)
}

/// Relies on `dashmap::DashSet::iter`: every element is yielded exactly once,
/// in no promised order.
#[verifier::external_body]
pub fn path_set_items(
    s: &dashmap::DashSet<String, std::hash::RandomState>,
) -> (r: Vec<String>)
    ensures
        r@.map_values(|p: String| p@).to_set() == path_set_view(s),
        r@.map_values(|p: String| p@).no_duplicates(),
{
    s.iter().map(|entry| entry.key().clone()).collect()
}

/// Relies on `dashmap::DashSet::clear`: afterwards the set is empty.
#[verifier::external_body]
pub fn path_set_clear(s: &mut dashmap::DashSet<String, std::hash::RandomState>)
    ensures
        path_set_view(final(s)) == Set::<Seq<char>>::empty(),
{
    s.clear()
}

} // verus!
