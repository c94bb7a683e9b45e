//! Work on one index from guild id to the ids of what the guild owns.

use dashmap::DashMap;
use std::collections::HashSet;
use vstd::prelude::*;
use vstd::std_specs::iter::IteratorSpec;
use crate::cache::tables::index::{index_rows, put_ids, take_ids};
use crate::cache::view::{index_add, index_drop, index_move};

verus! {

broadcast use vstd::std_specs::hash::group_hash_axioms;

/// Lists `id` for `guild`.
pub(crate) fn list_id(index: &mut DashMap<u64, HashSet<u64>>, guild: u64, id: u64)
    ensures
        index_rows(*final(index)) == index_add(index_rows(*old(index)), guild, id),
{
    let mut ids = match take_ids(index, guild) {
        Some(ids) => ids,
        None => HashSet::new(),
    };
    ids.insert(id);
    put_ids(index, guild, ids);
    assert(index_rows(*index) =~= index_add(index_rows(*old(index)), guild, id));
}

/// Takes `id` off the list of `guild`, if the guild has a list.
pub(crate) fn unlist_id(index: &mut DashMap<u64, HashSet<u64>>, guild: u64, id: u64)
    ensures
        index_rows(*final(index)) == index_drop(index_rows(*old(index)), guild, id),
{
    match take_ids(index, guild) {
        Some(ids) => {
            let mut ids = ids;
            ids.remove(&id);
            put_ids(index, guild, ids);
        },
        None => {},
    }
    assert(index_rows(*index) =~= index_drop(index_rows(*old(index)), guild, id));
}

/// Lists `id` for `guild`, and takes it off the list of the guild that owned
/// it before, if that was another.
pub(crate) fn relist_id(
    index: &mut DashMap<u64, HashSet<u64>>,
    owner: Option<u64>,
    guild: u64,
    id: u64,
)
    ensures
        index_rows(*final(index)) == index_move(index_rows(*old(index)), owner, guild, id),
{
    match owner {
        Some(g) => {
            if g != guild {
                unlist_id(index, g, id);
            }
        },
        None => {},
    }
    list_id(index, guild, id);
}

/// Gives `guild` an empty list, in place of the list it had.
pub(crate) fn open_list(index: &mut DashMap<u64, HashSet<u64>>, guild: u64)
    ensures
        index_rows(*final(index)) == index_rows(*old(index)).insert(guild, Set::empty()),
{
    put_ids(index, guild, HashSet::new());
}

/// The members of `set`, each once, in the order in which the set hands
/// them out.
pub(crate) fn members_of(set: &HashSet<u64>) -> (ids: Vec<u64>)
    ensures
        ids@.to_set() == set@,
        ids@.no_duplicates(),
{
    let mut ids: Vec<u64> = Vec::new();
    let ghost all = set.iter().remaining();
    for id in it: set.iter()
        invariant
            it.seq() == all,
            all == set.iter().remaining(),
            ids@.len() == it.index(),
            forall|i: int| 0 <= i < ids@.len() ==> ids@[i] == *all[i],
    {
        ids.push(*id);
    }
    proof {
        assert(ids@ =~= all.unref());
        assert(all.unref().no_duplicates());
    }
    ids
}

} // verus!
