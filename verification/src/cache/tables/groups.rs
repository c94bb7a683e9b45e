//! The table of groups: a `DashMap` from channel id to the group.

use dashmap::DashMap;
use vstd::prelude::*;
use crate::model::channel::Group;

verus! {

/// The rows that a table of groups holds, by channel id.
pub uninterp spec fn group_rows(table: DashMap<u64, Group>) -> Map<u64, Group>;

/// `DashMap::new`: a table without rows.
#[verifier::external_body]
pub(crate) fn group_table() -> (table: DashMap<u64, Group>)
    ensures
        group_rows(table) =~= Map::empty(),
{
    DashMap::new()
}

/// `DashMap::insert`: afterwards `row` stands under `key`, in place of the row
/// that stood there, if any; no other row changes.
#[verifier::external_body]
pub(crate) fn put_group(table: &mut DashMap<u64, Group>, key: u64, row: Group)
    ensures
        group_rows(*final(table)) == group_rows(*old(table)).insert(key, row),
{
    table.insert(key, row);
}

/// `DashMap::remove`: hands out the row under `key`, if there is one, and
/// leaves the table without it; no other row changes.
#[verifier::external_body]
pub(crate) fn take_group(table: &mut DashMap<u64, Group>, key: u64) -> (row: Option<Group>)
    ensures
        group_rows(*final(table)) == group_rows(*old(table)).remove(key),
        row == (if group_rows(*old(table)).contains_key(key) {
            Some(group_rows(*old(table))[key])
        } else {
            None
        }),
{
    match table.remove(&key) {
        Some((_, row)) => Some(row),
        None => None,
    }
}

/// `DashMap::get`: a copy of the row under `key`, if there is one.
#[verifier::external_body]
pub(crate) fn get_group(table: &DashMap<u64, Group>, key: u64) -> (row: Option<Group>)
    ensures
        row == (if group_rows(*table).contains_key(key) {
            Some(group_rows(*table)[key])
        } else {
            None
        }),
{
    match table.get(&key) {
        Some(entry) => Some(entry.value().clone()),
        None => None,
    }
}

} // verus!
