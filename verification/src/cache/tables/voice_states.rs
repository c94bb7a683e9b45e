//! The table of voice states: a `DashMap` from guild id and user id to the
//! voice state.

use dashmap::DashMap;
use vstd::prelude::*;
use crate::model::voice::VoiceState;

verus! {

/// The rows that a table of voice states holds, by guild id and user id.
pub uninterp spec fn voice_state_rows(table: DashMap<(u64, u64), VoiceState>) -> Map<(u64, u64), VoiceState>;

/// `DashMap::new`: a table without rows.
#[verifier::external_body]
pub(crate) fn voice_state_table() -> (table: DashMap<(u64, u64), VoiceState>)
    ensures
        voice_state_rows(table) =~= Map::empty(),
{
    DashMap::new()
}

/// `DashMap::insert`: afterwards `row` stands under `key`, in place of the row
/// that stood there, if any; no other row changes.
#[verifier::external_body]
pub(crate) fn put_voice_state(table: &mut DashMap<(u64, u64), VoiceState>, key: (u64, u64), row: VoiceState)
    ensures
        voice_state_rows(*final(table)) == voice_state_rows(*old(table)).insert(key, row),
{
    table.insert(key, row);
}

/// `DashMap::remove`: hands out the row under `key`, if there is one, and
/// leaves the table without it; no other row changes.
#[verifier::external_body]
pub(crate) fn take_voice_state(table: &mut DashMap<(u64, u64), VoiceState>, key: (u64, u64)) -> (row: Option<VoiceState>)
    ensures
        voice_state_rows(*final(table)) == voice_state_rows(*old(table)).remove(key),
        row == (if voice_state_rows(*old(table)).contains_key(key) {
            Some(voice_state_rows(*old(table))[key])
        } else {
            None
        }),
{
    match table.remove(&key) {
        Some((_, row)) => Some(row),
        None => None,
    }
}

/// `DashMap::get`: a copy of the row under `key`, if there is one.
#[verifier::external_body]
pub(crate) fn get_voice_state(table: &DashMap<(u64, u64), VoiceState>, key: (u64, u64)) -> (row: Option<VoiceState>)
    ensures
        row == (if voice_state_rows(*table).contains_key(key) {
            Some(voice_state_rows(*table)[key])
        } else {
            None
        }),
{
    match table.get(&key) {
        Some(entry) => Some(entry.value().clone()),
        None => None,
    }
}

} // verus!
