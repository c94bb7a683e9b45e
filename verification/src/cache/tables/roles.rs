//! The role table: a `DashMap` from role id to the role and the guild that owns
//! it.

use dashmap::DashMap;
use vstd::prelude::*;
use crate::cache::model::GuildItem;
use crate::model::guild::Role;

verus! {

/// The rows that a role table holds, by role id.
pub uninterp spec fn role_rows(table: DashMap<u64, GuildItem<Role>>) -> Map<u64, GuildItem<Role>>;

/// `DashMap::new`: a table without rows.
#[verifier::external_body]
pub(crate) fn role_table() -> (table: DashMap<u64, GuildItem<Role>>)
    ensures
        role_rows(table) =~= Map::empty(),
{
    DashMap::new()
}

/// `DashMap::insert`: afterwards `row` stands under `key`, in place of the row
/// that stood there, if any; no other row changes.
#[verifier::external_body]
pub(crate) fn put_role(table: &mut DashMap<u64, GuildItem<Role>>, key: u64, row: GuildItem<Role>)
    ensures
        role_rows(*final(table)) == role_rows(*old(table)).insert(key, row),
{
    table.insert(key, row);
}

/// `DashMap::remove`: hands out the row under `key`, if there is one, and
/// leaves the table without it; no other row changes.
#[verifier::external_body]
pub(crate) fn take_role(table: &mut DashMap<u64, GuildItem<Role>>, key: u64) -> (row: Option<GuildItem<Role>>)
    ensures
        role_rows(*final(table)) == role_rows(*old(table)).remove(key),
        row == (if role_rows(*old(table)).contains_key(key) {
            Some(role_rows(*old(table))[key])
        } else {
            None
        }),
{
    match table.remove(&key) {
        Some((_, row)) => Some(row),
        None => None,
    }
}

/// `DashMap::get`: a copy of the row under `key`, if there is one.
#[verifier::external_body]
pub(crate) fn get_role(table: &DashMap<u64, GuildItem<Role>>, key: u64) -> (row: Option<GuildItem<Role>>)
    ensures
        row == (if role_rows(*table).contains_key(key) {
            Some(role_rows(*table)[key])
        } else {
            None
        }),
{
    match table.get(&key) {
        Some(entry) => Some(entry.value().clone()),
        None => None,
    }
}

} // verus!
