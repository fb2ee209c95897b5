use vstd::prelude::*;

verus! {

/// An opaque reference to a loadable resource. Two handles denote the same
/// resource exactly when their ids are equal.
#[derive(Clone, Copy, PartialEq, Eq, Structural, Hash, Debug)]
pub struct Handle {
    pub id: u64,
}

/// `bevy::platform::collections::HashSet`, carried as an opaque value.
#[verifier::external_type_specification]
#[verifier::external_body]
#[verifier::reject_recursive_types(T)]
#[verifier::reject_recursive_types(S)]
pub struct ExHashSet<T, S>(bevy::platform::collections::HashSet<T, S>);

/// `bevy::platform::hash::FixedHasher`, the hasher a set is made with by default.
#[verifier::external_type_specification]
#[verifier::external_body]
pub struct ExFixedHasher(bevy::platform::hash::FixedHasher);

/// The ids that a set of handle ids holds.
pub uninterp spec fn members(set: bevy::platform::collections::HashSet<u64>) -> Set<u64>;

/// `HashSet::new`: a set that holds nothing.
#[verifier::external_body]
pub(crate) fn set_new() -> (set: bevy::platform::collections::HashSet<u64>)
    ensures
        members(set) == Set::<u64>::empty(),
{
    bevy::platform::collections::HashSet::new()
}

/// `HashSet::insert`: the id is in the set afterwards and nothing else
/// changes; the result tells whether it was absent before.
#[verifier::external_body]
pub(crate) fn set_insert(set: &mut bevy::platform::collections::HashSet<u64>, id: u64) -> (fresh: bool)
    ensures
        members(*final(set)) == members(*old(set)).insert(id),
        fresh == !members(*old(set)).contains(id),
{
    set.insert(id)
}

/// `HashSet::remove`: the id is not in the set afterwards and nothing else
/// changes; the result tells whether it was present before.
#[verifier::external_body]
pub(crate) fn set_remove(set: &mut bevy::platform::collections::HashSet<u64>, id: u64) -> (present: bool)
    ensures
        members(*final(set)) == members(*old(set)).remove(id),
        present == members(*old(set)).contains(id),
{
    set.remove(&id)
}

/// `HashSet::contains`: whether the id is in the set.
#[verifier::external_body]
pub(crate) fn set_contains(set: &bevy::platform::collections::HashSet<u64>, id: u64) -> (present: bool)
    ensures
        present == members(*set).contains(id),
{
    set.contains(&id)
}

/// `HashSet::len`: the number of ids in the set.
#[verifier::external_body]
pub(crate) fn set_len(set: &bevy::platform::collections::HashSet<u64>) -> (n: usize)
    ensures
        n == members(*set).len(),
{
    set.len()
}

/// `HashSet::iter`: every id of the set, each once, in an order that the
/// set chooses and that nothing is claimed about.
#[verifier::external_body]
pub(crate) fn set_items(set: &bevy::platform::collections::HashSet<u64>) -> (items: Vec<u64>)
    ensures
        items@.no_duplicates(),
        items@.to_set() == members(*set),
{
    set.iter().copied().collect()
}

} // verus!
