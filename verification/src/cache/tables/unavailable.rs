//! The set of guilds that are known to exist but are marked unavailable: a
//! `DashSet` of guild ids.

use dashmap::DashSet;
use vstd::prelude::*;

verus! {

/// The guild ids that the set holds.
pub uninterp spec fn unavailable_ids(set: DashSet<u64>) -> Set<u64>;

/// `DashSet::new`: an empty set.
#[verifier::external_body]
pub(crate) fn unavailable_set() -> (set: DashSet<u64>)
    ensures
        unavailable_ids(set) =~= Set::empty(),
{
    DashSet::new()
}

/// `DashSet::insert`: afterwards the set holds `guild` besides what it held.
#[verifier::external_body]
pub(crate) fn mark_unavailable(set: &mut DashSet<u64>, guild: u64)
    ensures
        unavailable_ids(*final(set)) == unavailable_ids(*old(set)).insert(guild),
{
    set.insert(guild);
}

/// `DashSet::remove`: afterwards the set holds what it held, without `guild`.
#[verifier::external_body]
pub(crate) fn unmark_unavailable(set: &mut DashSet<u64>, guild: u64)
    ensures
        unavailable_ids(*final(set)) == unavailable_ids(*old(set)).remove(guild),
{
    set.remove(&guild);
}

/// `DashSet::contains`: whether the set holds `guild`.
#[verifier::external_body]
pub(crate) fn is_marked_unavailable(set: &DashSet<u64>, guild: u64) -> (found: bool)
    ensures
        found == unavailable_ids(*set).contains(guild),
{
    set.contains(&guild)
}

} // verus!
