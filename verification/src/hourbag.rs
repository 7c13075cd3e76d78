//! The hour histogram of one activity day, kept in a `hashbag::HashBag`.
//! The bag is opaque to verification: its contents are named by
//! [`hour_counts`], and each operation the fold uses states over that name
//! what the crate's source shows.

use vstd::prelude::*;
use vstd::multiset::Multiset;

verus! {

#[verifier::external_type_specification]
#[verifier::external_body]
#[verifier::reject_recursive_types(T)]
#[verifier::reject_recursive_types(S)]
pub struct ExHashBag<T, S>(hashbag::HashBag<T, S>);

/// The multiset of hour values a histogram bag holds.
pub uninterp spec fn hour_counts(
    b: hashbag::HashBag<u32, std::collections::hash_map::RandomState>,
) -> Multiset<u32>;

/// Relies on hashbag::HashBag::new: a freshly created bag is empty.
#[verifier::external_body]
pub fn hour_bag_new() -> (b: hashbag::HashBag<u32, std::collections::hash_map::RandomState>)
    ensures
        hour_counts(b) == Multiset::<u32>::empty(),
{
    hashbag::HashBag::new()
}

/// Relies on hashbag::HashBag::insert: one occurrence of the value is
/// added, and the number of occurrences previously in the bag is returned.
#[verifier::external_body]
pub fn hour_bag_insert(
    b: &mut hashbag::HashBag<u32, std::collections::hash_map::RandomState>,
    hour: u32,
) -> (prev: usize)
    ensures
        hour_counts(*final(b)) == hour_counts(*old(b)).insert(hour),
        prev == hour_counts(*old(b)).count(hour),
{
    b.insert(hour)
}

/// Relies on hashbag::HashBag::set_iter: every distinct value of the bag is
/// yielded exactly once, with its occurrence count, in arbitrary order.
#[verifier::external_body]
pub fn hour_bag_pairs(
    b: &hashbag::HashBag<u32, std::collections::hash_map::RandomState>,
) -> (v: Vec<(u32, usize)>)
    ensures
        forall|i: int|
            0 <= i < v@.len() ==> (#[trigger] v@[i]).1 == hour_counts(*b).count(v@[i].0)
                && v@[i].1 > 0,
        forall|i: int, j: int| 0 <= i < j < v@.len() ==> v@[i].0 != v@[j].0,
        forall|h: u32|
            hour_counts(*b).count(h) > 0 ==> exists|i: int|
                0 <= i < v@.len() && (#[trigger] v@[i]).0 == h,
{
    b.set_iter().map(|(k, c)| (*k, c)).collect()
}

} // verus!
