//! The guild table: a `DashMap` from guild id to the cached guild.

use dashmap::DashMap;
use vstd::prelude::*;
use crate::cache::model::CachedGuild;

verus! {

/// The rows that a guild table holds, by guild id.
pub uninterp spec fn guild_rows(table: DashMap<u64, CachedGuild>) -> Map<u64, CachedGuild>;

/// `DashMap::new`: a table without rows.
#[verifier::external_body]
pub(crate) fn guild_table() -> (table: DashMap<u64, CachedGuild>)
    ensures
        guild_rows(table) =~= Map::empty(),
{
    DashMap::new()
}

/// `DashMap::insert`: afterwards `row` stands under `key`, in place of the row
/// that stood there, if any; no other row changes.
#[verifier::external_body]
pub(crate) fn put_guild(table: &mut DashMap<u64, CachedGuild>, key: u64, row: CachedGuild)
    ensures
        guild_rows(*final(table)) == guild_rows(*old(table)).insert(key, row),
{
    table.insert(key, row);
}

/// `DashMap::remove`: hands out the row under `key`, if there is one, and
/// leaves the table without it; no other row changes.
#[verifier::external_body]
pub(crate) fn take_guild(table: &mut DashMap<u64, CachedGuild>, key: u64) -> (row: Option<CachedGuild>)
    ensures
        guild_rows(*final(table)) == guild_rows(*old(table)).remove(key),
        row == (if guild_rows(*old(table)).contains_key(key) {
            Some(guild_rows(*old(table))[key])
        } else {
            None
        }),
{
    match table.remove(&key) {
        Some((_, row)) => Some(row),
        None => None,
    }
}

/// `DashMap::get`: a copy of the row under `key`, if there is one.
#[verifier::external_body]
pub(crate) fn get_guild(table: &DashMap<u64, CachedGuild>, key: u64) -> (row: Option<CachedGuild>)
    ensures
        row == (if guild_rows(*table).contains_key(key) {
            Some(guild_rows(*table)[key])
        } else {
            None
        }),
{
    match table.get(&key) {
        Some(entry) => Some(entry.value().clone()),
        None => None,
    }
}

/// `DashMap::contains_key`: whether a row stands under `key`.
#[verifier::external_body]
pub(crate) fn has_guild(table: &DashMap<u64, CachedGuild>, key: u64) -> (found: bool)
    ensures
        found == guild_rows(*table).contains_key(key),
{
    table.contains_key(&key)
}

/// `DashMap::len`: the number of rows.
#[verifier::external_body]
pub(crate) fn count_guilds(table: &DashMap<u64, CachedGuild>) -> (count: usize)
    ensures
        count == guild_rows(*table).len(),
{
    table.len()
}

} // verus!
