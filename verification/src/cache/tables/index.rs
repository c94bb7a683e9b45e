//! An index from guild id to the ids of the entities of one kind that the
//! guild owns: a `DashMap` from guild id to a `HashSet` of ids.

use dashmap::DashMap;
use std::collections::HashSet;
use vstd::prelude::*;

verus! {

/// The id sets that an index holds, by guild id.
pub uninterp spec fn index_rows(table: DashMap<u64, HashSet<u64>>) -> Map<u64, Set<u64>>;

/// `DashMap::new`: an index without entries.
#[verifier::external_body]
pub(crate) fn index_table() -> (table: DashMap<u64, HashSet<u64>>)
    ensures
        index_rows(table) =~= Map::empty(),
{
    DashMap::new()
}

/// `DashMap::insert`: afterwards `ids` stands under `guild`, in place of the
/// set that stood there, if any; no other entry changes.
#[verifier::external_body]
pub(crate) fn put_ids(table: &mut DashMap<u64, HashSet<u64>>, guild: u64, ids: HashSet<u64>)
    ensures
        index_rows(*final(table)) == index_rows(*old(table)).insert(guild, ids@),
{
    table.insert(guild, ids);
}

/// `DashMap::remove`: hands out the set under `guild`, if there is one, and
/// leaves the index without it; no other entry changes.
#[verifier::external_body]
pub(crate) fn take_ids(table: &mut DashMap<u64, HashSet<u64>>, guild: u64) -> (ids: Option<
    HashSet<u64>,
>)
    ensures
        index_rows(*final(table)) == index_rows(*old(table)).remove(guild),
        ids.is_some() == index_rows(*old(table)).contains_key(guild),
        ids.is_some() ==> ids.unwrap()@ == index_rows(*old(table))[guild],
{
    match table.remove(&guild) {
        Some((_, ids)) => Some(ids),
        None => None,
    }
}

/// `DashMap::get`: a copy of the set under `guild`, if there is one.
#[verifier::external_body]
pub(crate) fn get_ids(table: &DashMap<u64, HashSet<u64>>, guild: u64) -> (ids: Option<
    HashSet<u64>,
>)
    ensures
        ids.is_some() == index_rows(*table).contains_key(guild),
        ids.is_some() ==> ids.unwrap()@ == index_rows(*table)[guild],
{
    match table.get(&guild) {
        Some(entry) => Some(entry.value().clone()),
        None => None,
    }
}

} // verus!
