//! The categories of events that a connection subscribes to.

use vstd::prelude::*;

verus! {

pub const GUILDS: u64 = 0x1;

pub const GUILD_MEMBERS: u64 = 0x2;

pub const GUILD_BANS: u64 = 0x4;

pub const GUILD_EMOJIS: u64 = 0x8;

pub const GUILD_INTEGRATIONS: u64 = 0x10;

pub const GUILD_WEBHOOKS: u64 = 0x20;

pub const GUILD_INVITES: u64 = 0x40;

pub const GUILD_VOICE_STATES: u64 = 0x80;

pub const GUILD_PRESENCES: u64 = 0x100;

pub const GUILD_MESSAGES: u64 = 0x200;

pub const GUILD_MESSAGE_REACTIONS: u64 = 0x400;

pub const GUILD_MESSAGE_TYPING: u64 = 0x800;

pub const DIRECT_MESSAGES: u64 = 0x1000;

pub const DIRECT_MESSAGE_REACTIONS: u64 = 0x2000;

pub const DIRECT_MESSAGE_TYPING: u64 = 0x4000;

/// A set of event categories, one bit per category: the constants of this
/// module.
#[derive(Clone, Copy, Debug, PartialEq, Eq, Structural, Hash)]
pub struct Intents(pub u64);

} // verus!
