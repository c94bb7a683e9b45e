//! The presence table: a `DashMap` from guild id and user id to the presence.

use dashmap::DashMap;
use vstd::prelude::*;
use crate::model::gateway::presence::Presence;

verus! {

/// The rows that a presence table holds, by guild id and user id.
pub uninterp spec fn presence_rows(table: DashMap<(u64, u64), Presence>) -> Map<(u64, u64), Presence>;

/// `DashMap::new`: a table without rows.
#[verifier::external_body]
pub(crate) fn presence_table() -> (table: DashMap<(u64, u64), Presence>)
    ensures
        presence_rows(table) =~= Map::empty(),
{
    DashMap::new()
}

/// `DashMap::insert`: afterwards `row` stands under `key`, in place of the row
/// that stood there, if any; no other row changes.
#[verifier::external_body]
pub(crate) fn put_presence(table: &mut DashMap<(u64, u64), Presence>, key: (u64, u64), row: Presence)
    ensures
        presence_rows(*final(table)) == presence_rows(*old(table)).insert(key, row),
{
    table.insert(key, row);
}

/// `DashMap::remove`: hands out the row under `key`, if there is one, and
/// leaves the table without it; no other row changes.
#[verifier::external_body]
pub(crate) fn take_presence(table: &mut DashMap<(u64, u64), Presence>, key: (u64, u64)) -> (row: Option<Presence>)
    ensures
        presence_rows(*final(table)) == presence_rows(*old(table)).remove(key),
        row == (if presence_rows(*old(table)).contains_key(key) {
            Some(presence_rows(*old(table))[key])
        } else {
            None
        }),
{
    match table.remove(&key) {
        Some((_, row)) => Some(row),
        None => None,
    }
}

/// `DashMap::get`: a copy of the row under `key`, if there is one.
#[verifier::external_body]
pub(crate) fn get_presence(table: &DashMap<(u64, u64), Presence>, key: (u64, u64)) -> (row: Option<Presence>)
    ensures
        row == (if presence_rows(*table).contains_key(key) {
            Some(presence_rows(*table)[key])
        } else {
            None
        }),
{
    match table.get(&key) {
        Some(entry) => Some(entry.value().clone()),
        None => None,
    }
}

} // verus!
