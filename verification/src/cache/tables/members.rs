//! The member table: a `DashMap` from guild id and user id to the member.

use dashmap::DashMap;
use vstd::prelude::*;
use crate::model::guild::member::Member;

verus! {

/// The rows that a member table holds, by guild id and user id.
pub uninterp spec fn member_rows(table: DashMap<(u64, u64), Member>) -> Map<(u64, u64), Member>;

/// `DashMap::new`: a table without rows.
#[verifier::external_body]
pub(crate) fn member_table() -> (table: DashMap<(u64, u64), Member>)
    ensures
        member_rows(table) =~= Map::empty(),
{
    DashMap::new()
}

/// `DashMap::insert`: afterwards `row` stands under `key`, in place of the row
/// that stood there, if any; no other row changes.
#[verifier::external_body]
pub(crate) fn put_member(table: &mut DashMap<(u64, u64), Member>, key: (u64, u64), row: Member)
    ensures
        member_rows(*final(table)) == member_rows(*old(table)).insert(key, row),
{
    table.insert(key, row);
}

/// `DashMap::remove`: hands out the row under `key`, if there is one, and
/// leaves the table without it; no other row changes.
#[verifier::external_body]
pub(crate) fn take_member(table: &mut DashMap<(u64, u64), Member>, key: (u64, u64)) -> (row: Option<Member>)
    ensures
        member_rows(*final(table)) == member_rows(*old(table)).remove(key),
        row == (if member_rows(*old(table)).contains_key(key) {
            Some(member_rows(*old(table))[key])
        } else {
            None
        }),
{
    match table.remove(&key) {
        Some((_, row)) => Some(row),
        None => None,
    }
}

/// `DashMap::get`: a copy of the row under `key`, if there is one.
#[verifier::external_body]
pub(crate) fn get_member(table: &DashMap<(u64, u64), Member>, key: (u64, u64)) -> (row: Option<Member>)
    ensures
        row == (if member_rows(*table).contains_key(key) {
            Some(member_rows(*table)[key])
        } else {
            None
        }),
{
    match table.get(&key) {
        Some(entry) => Some(entry.value().clone()),
        None => None,
    }
}

} // verus!
