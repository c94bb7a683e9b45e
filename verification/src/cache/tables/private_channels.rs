//! The table of private channels: a `DashMap` from channel id to the channel.

use dashmap::DashMap;
use vstd::prelude::*;
use crate::model::channel::PrivateChannel;

verus! {

/// The rows that a table of private channels holds, by channel id.
pub uninterp spec fn private_channel_rows(table: DashMap<u64, PrivateChannel>) -> Map<u64, PrivateChannel>;

/// `DashMap::new`: a table without rows.
#[verifier::external_body]
pub(crate) fn private_channel_table() -> (table: DashMap<u64, PrivateChannel>)
    ensures
        private_channel_rows(table) =~= Map::empty(),
{
    DashMap::new()
}

/// `DashMap::insert`: afterwards `row` stands under `key`, in place of the row
/// that stood there, if any; no other row changes.
#[verifier::external_body]
pub(crate) fn put_private_channel(table: &mut DashMap<u64, PrivateChannel>, key: u64, row: PrivateChannel)
    ensures
        private_channel_rows(*final(table)) == private_channel_rows(*old(table)).insert(key, row),
{
    table.insert(key, row);
}

/// `DashMap::remove`: hands out the row under `key`, if there is one, and
/// leaves the table without it; no other row changes.
#[verifier::external_body]
pub(crate) fn take_private_channel(table: &mut DashMap<u64, PrivateChannel>, key: u64) -> (row: Option<PrivateChannel>)
    ensures
        private_channel_rows(*final(table)) == private_channel_rows(*old(table)).remove(key),
        row == (if private_channel_rows(*old(table)).contains_key(key) {
            Some(private_channel_rows(*old(table))[key])
        } else {
            None
        }),
{
    match table.remove(&key) {
        Some((_, row)) => Some(row),
        None => None,
    }
}

/// `DashMap::get`: a copy of the row under `key`, if there is one.
#[verifier::external_body]
pub(crate) fn get_private_channel(table: &DashMap<u64, PrivateChannel>, key: u64) -> (row: Option<PrivateChannel>)
    ensures
        row == (if private_channel_rows(*table).contains_key(key) {
            Some(private_channel_rows(*table)[key])
        } else {
            None
        }),
{
    match table.get(&key) {
        Some(entry) => Some(entry.value().clone()),
        None => None,
    }
}

} // verus!
