//! Presence of a user in a guild.

use vstd::prelude::*;
use crate::model::id::{GuildId, UserId};

verus! {

#[derive(Clone, Copy, Debug, PartialEq, Eq, Hash)]
pub enum Status {
    DoNotDisturb,
    Idle,
    Invisible,
    Offline,
    Online,
}

#[derive(Clone, Copy, Debug, PartialEq, Eq, Hash)]
pub enum ActivityType {
    Playing,
    Streaming,
    Listening,
    Watching,
    Custom,
}

#[derive(Clone, Debug, PartialEq, Eq)]
pub struct Activity {
    pub kind: ActivityType,
    pub name: String,
    pub url: Option<String>,
}

#[derive(Clone, Debug, PartialEq, Eq)]
pub struct ClientStatus {
    pub desktop: Option<Status>,
    pub mobile: Option<Status>,
    pub web: Option<Status>,
}

#[derive(Clone, Debug, PartialEq, Eq)]
pub struct Presence {
    pub activities: Vec<Activity>,
    pub client_status: ClientStatus,
    pub guild_id: GuildId,
    pub status: Status,
    pub user_id: UserId,
}

} // verus!
