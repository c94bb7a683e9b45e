//! The table of guild channels: a `DashMap` from channel id to the channel and
//! the guild that owns it.

use dashmap::DashMap;
use vstd::prelude::*;
use crate::cache::model::GuildItem;
use crate::model::channel::GuildChannel;

verus! {

/// The rows that a table of guild channels holds, by channel id.
pub uninterp spec fn guild_channel_rows(table: DashMap<u64, GuildItem<GuildChannel>>) -> Map<u64, GuildItem<GuildChannel>>;

/// `DashMap::new`: a table without rows.
#[verifier::external_body]
pub(crate) fn guild_channel_table() -> (table: DashMap<u64, GuildItem<GuildChannel>>)
    ensures
        guild_channel_rows(table) =~= Map::empty(),
{
    DashMap::new()
}

/// `DashMap::insert`: afterwards `row` stands under `key`, in place of the row
/// that stood there, if any; no other row changes.
#[verifier::external_body]
pub(crate) fn put_guild_channel(table: &mut DashMap<u64, GuildItem<GuildChannel>>, key: u64, row: GuildItem<GuildChannel>)
    ensures
        guild_channel_rows(*final(table)) == guild_channel_rows(*old(table)).insert(key, row),
{
    table.insert(key, row);
}

/// `DashMap::remove`: hands out the row under `key`, if there is one, and
/// leaves the table without it; no other row changes.
#[verifier::external_body]
pub(crate) fn take_guild_channel(table: &mut DashMap<u64, GuildItem<GuildChannel>>, key: u64) -> (row: Option<GuildItem<GuildChannel>>)
    ensures
        guild_channel_rows(*final(table)) == guild_channel_rows(*old(table)).remove(key),
        row == (if guild_channel_rows(*old(table)).contains_key(key) {
            Some(guild_channel_rows(*old(table))[key])
        } else {
            None
        }),
{
    match table.remove(&key) {
        Some((_, row)) => Some(row),
        None => None,
    }
}

/// `DashMap::get`: a copy of the row under `key`, if there is one.
#[verifier::external_body]
pub(crate) fn get_guild_channel(table: &DashMap<u64, GuildItem<GuildChannel>>, key: u64) -> (row: Option<GuildItem<GuildChannel>>)
    ensures
        row == (if guild_channel_rows(*table).contains_key(key) {
            Some(guild_channel_rows(*table)[key])
        } else {
            None
        }),
{
    match table.get(&key) {
        Some(entry) => Some(entry.value().clone()),
        None => None,
    }
}

/// `DashMap::len`: the number of rows.
#[verifier::external_body]
pub(crate) fn count_guild_channels(table: &DashMap<u64, GuildItem<GuildChannel>>) -> (count: usize)
    ensures
        count == guild_channel_rows(*table).len(),
{
    table.len()
}

} // verus!
