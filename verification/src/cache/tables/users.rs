//! The user table: a `DashMap` from user id to the user and the set of the
//! guilds the user is known in.

use dashmap::DashMap;
use std::collections::BTreeSet;
use vstd::prelude::*;
use crate::model::user::User;

verus! {

/// The rows that a user table holds, by user id: the user, and the ids of the
/// guilds in the row's set.
pub uninterp spec fn user_rows(table: DashMap<u64, (User, BTreeSet<u64>)>) -> Map<
    u64,
    (User, Set<u64>),
>;

/// `DashMap::new`: a table without rows.
#[verifier::external_body]
pub(crate) fn user_table() -> (table: DashMap<u64, (User, BTreeSet<u64>)>)
    ensures
        user_rows(table) =~= Map::empty(),
{
    DashMap::new()
}

/// `DashMap::insert`: afterwards the user and the guild set stand under `key`,
/// in place of the row that stood there, if any; no other row changes.
#[verifier::external_body]
pub(crate) fn put_user(
    table: &mut DashMap<u64, (User, BTreeSet<u64>)>,
    key: u64,
    user: User,
    guilds: BTreeSet<u64>,
)
    ensures
        user_rows(*final(table)) == user_rows(*old(table)).insert(key, (user, guilds@)),
{
    table.insert(key, (user, guilds));
}

/// `DashMap::remove`: hands out the row under `key`, if there is one, and
/// leaves the table without it; no other row changes.
#[verifier::external_body]
pub(crate) fn take_user(table: &mut DashMap<u64, (User, BTreeSet<u64>)>, key: u64) -> (row: Option<
    (User, BTreeSet<u64>),
>)
    ensures
        user_rows(*final(table)) == user_rows(*old(table)).remove(key),
        row.is_some() == user_rows(*old(table)).contains_key(key),
        row.is_some() ==> (row.unwrap().0, row.unwrap().1@) == user_rows(*old(table))[key],
{
    match table.remove(&key) {
        Some((_, row)) => Some(row),
        None => None,
    }
}

/// `DashMap::get`: a copy of the row under `key`, if there is one.
#[verifier::external_body]
pub(crate) fn get_user(table: &DashMap<u64, (User, BTreeSet<u64>)>, key: u64) -> (row: Option<
    (User, BTreeSet<u64>),
>)
    ensures
        row.is_some() == user_rows(*table).contains_key(key),
        row.is_some() ==> (row.unwrap().0, row.unwrap().1@) == user_rows(*table)[key],
{
    match table.get(&key) {
        Some(entry) => Some(entry.value().clone()),
        None => None,
    }
}

} // verus!
