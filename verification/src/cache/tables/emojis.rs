//! The emoji table: a `DashMap` from emoji id to the emoji and the guild that
//! owns it.

use dashmap::DashMap;
use vstd::prelude::*;
use crate::cache::model::GuildItem;
use crate::model::guild::Emoji;

verus! {

/// The rows that an emoji table holds, by emoji id.
pub uninterp spec fn emoji_rows(table: DashMap<u64, GuildItem<Emoji>>) -> Map<u64, GuildItem<Emoji>>;

/// `DashMap::new`: a table without rows.
#[verifier::external_body]
pub(crate) fn emoji_table() -> (table: DashMap<u64, GuildItem<Emoji>>)
    ensures
        emoji_rows(table) =~= Map::empty(),
{
    DashMap::new()
}

/// `DashMap::insert`: afterwards `row` stands under `key`, in place of the row
/// that stood there, if any; no other row changes.
#[verifier::external_body]
pub(crate) fn put_emoji(table: &mut DashMap<u64, GuildItem<Emoji>>, key: u64, row: GuildItem<Emoji>)
    ensures
        emoji_rows(*final(table)) == emoji_rows(*old(table)).insert(key, row),
{
    table.insert(key, row);
}

/// `DashMap::remove`: hands out the row under `key`, if there is one, and
/// leaves the table without it; no other row changes.
#[verifier::external_body]
pub(crate) fn take_emoji(table: &mut DashMap<u64, GuildItem<Emoji>>, key: u64) -> (row: Option<GuildItem<Emoji>>)
    ensures
        emoji_rows(*final(table)) == emoji_rows(*old(table)).remove(key),
        row == (if emoji_rows(*old(table)).contains_key(key) {
            Some(emoji_rows(*old(table))[key])
        } else {
            None
        }),
{
    match table.remove(&key) {
        Some((_, row)) => Some(row),
        None => None,
    }
}

/// `DashMap::get`: a copy of the row under `key`, if there is one.
#[verifier::external_body]
pub(crate) fn get_emoji(table: &DashMap<u64, GuildItem<Emoji>>, key: u64) -> (row: Option<GuildItem<Emoji>>)
    ensures
        row == (if emoji_rows(*table).contains_key(key) {
            Some(emoji_rows(*table)[key])
        } else {
            None
        }),
{
    match table.get(&key) {
        Some(entry) => Some(entry.value().clone()),
        None => None,
    }
}

} // verus!
