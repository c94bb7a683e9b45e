//! The message table: a `DashMap` from channel id to the channel's cached
//! messages, a `BTreeMap` from message id to message.

use dashmap::DashMap;
use std::collections::BTreeMap;
use vstd::prelude::*;
use crate::cache::model::{message_views, CachedMessage, MessageView};

verus! {

/// The messages that a message table holds, by channel id and message id,
/// each message by its view.
pub uninterp spec fn message_rows(table: DashMap<u64, BTreeMap<u64, CachedMessage>>) -> Map<
    u64,
    Map<u64, MessageView>,
>;

/// `DashMap::new`: a table without rows.
#[verifier::external_body]
pub(crate) fn message_table() -> (table: DashMap<u64, BTreeMap<u64, CachedMessage>>)
    ensures
        message_rows(table) =~= Map::empty(),
{
    DashMap::new()
}

/// `DashMap::insert`: afterwards `list` stands under `channel`, in place of
/// the messages that stood there, if any; no other row changes.
#[verifier::external_body]
pub(crate) fn put_messages(
    table: &mut DashMap<u64, BTreeMap<u64, CachedMessage>>,
    channel: u64,
    list: BTreeMap<u64, CachedMessage>,
)
    ensures
        message_rows(*final(table)) == message_rows(*old(table)).insert(
            channel,
            message_views(list@),
        ),
{
    table.insert(channel, list);
}

/// `DashMap::remove`: hands out the messages under `channel`, if there are
/// any, and leaves the table without them; no other row changes.
#[verifier::external_body]
pub(crate) fn take_messages(
    table: &mut DashMap<u64, BTreeMap<u64, CachedMessage>>,
    channel: u64,
) -> (list: Option<BTreeMap<u64, CachedMessage>>)
    ensures
        message_rows(*final(table)) == message_rows(*old(table)).remove(channel),
        list.is_some() == message_rows(*old(table)).contains_key(channel),
        list.is_some() ==> message_views(list.unwrap()@) == message_rows(*old(table))[channel],
{
    match table.remove(&channel) {
        Some((_, list)) => Some(list),
        None => None,
    }
}

/// `DashMap::get`: a copy of the messages under `channel`, if there are any.
#[verifier::external_body]
pub(crate) fn get_messages(table: &DashMap<u64, BTreeMap<u64, CachedMessage>>, channel: u64) -> (list:
    Option<BTreeMap<u64, CachedMessage>>)
    ensures
        list.is_some() == message_rows(*table).contains_key(channel),
        list.is_some() ==> message_views(list.unwrap()@) == message_rows(*table)[channel],
{
    match table.get(&channel) {
        Some(entry) => Some(entry.value().clone()),
        None => None,
    }
}

/// `BTreeMap::pop_last`: takes out and hands out the entry with the greatest
/// key; nothing, and no change, where the map is empty.
#[verifier::external_body]
pub(crate) fn take_greatest(list: &mut BTreeMap<u64, CachedMessage>) -> (last: Option<
    (u64, CachedMessage),
>)
    ensures
        match last {
            Some((id, message)) => {
                &&& old(list)@.contains_key(id)
                &&& old(list)@[id] == message
                &&& forall|other: u64| old(list)@.contains_key(other) ==> other <= id
                &&& final(list)@ == old(list)@.remove(id)
            },
            None => final(list)@ == old(list)@ && forall|other: u64|
                !old(list)@.contains_key(other),
        },
{
    list.pop_last()
}

} // verus!
