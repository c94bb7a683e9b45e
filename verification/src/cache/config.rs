//! Configuration of the cache: which event kinds it applies, and how many
//! messages it keeps per channel.
//!
//! Each kind of event has a bit of its own; `EventType(MESSAGE_CREATE)` is the
//! set that holds the one kind, and sets are joined with [`EventType::union`].

use vstd::prelude::*;

verus! {

pub const BAN_ADD: u64 = 0x1;

pub const BAN_REMOVE: u64 = 0x2;

pub const CHANNEL_CREATE: u64 = 0x4;

pub const CHANNEL_DELETE: u64 = 0x8;

pub const CHANNEL_PINS_UPDATE: u64 = 0x10;

pub const CHANNEL_UPDATE: u64 = 0x20;

pub const GUILD_CREATE: u64 = 0x40;

pub const GUILD_DELETE: u64 = 0x80;

pub const GUILD_EMOJIS_UPDATE: u64 = 0x100;

pub const GUILD_INTEGRATIONS_UPDATE: u64 = 0x200;

pub const GUILD_UPDATE: u64 = 0x400;

pub const INVITE_CREATE: u64 = 0x800;

pub const INVITE_DELETE: u64 = 0x1000;

pub const MEMBER_ADD: u64 = 0x2000;

pub const MEMBER_REMOVE: u64 = 0x4000;

pub const MEMBER_UPDATE: u64 = 0x8000;

pub const MEMBER_CHUNK: u64 = 0x1_0000;

pub const MESSAGE_CREATE: u64 = 0x2_0000;

pub const MESSAGE_DELETE: u64 = 0x4_0000;

pub const MESSAGE_DELETE_BULK: u64 = 0x8_0000;

pub const MESSAGE_UPDATE: u64 = 0x10_0000;

pub const PRESENCE_UPDATE: u64 = 0x20_0000;

pub const PRESENCES_REPLACE: u64 = 0x40_0000;

pub const REACTION_ADD: u64 = 0x80_0000;

pub const REACTION_REMOVE: u64 = 0x100_0000;

pub const REACTION_REMOVE_ALL: u64 = 0x200_0000;

pub const REACTION_REMOVE_EMOJI: u64 = 0x400_0000;

pub const READY: u64 = 0x800_0000;

pub const ROLE_CREATE: u64 = 0x1000_0000;

pub const ROLE_DELETE: u64 = 0x2000_0000;

pub const ROLE_UPDATE: u64 = 0x4000_0000;

pub const TYPING_START: u64 = 0x8000_0000;

pub const UNAVAILABLE_GUILD: u64 = 0x1_0000_0000;

pub const USER_UPDATE: u64 = 0x2_0000_0000;

pub const VOICE_SERVER_UPDATE: u64 = 0x4_0000_0000;

pub const VOICE_STATE_UPDATE: u64 = 0x8_0000_0000;

pub const WEBHOOKS_UPDATE: u64 = 0x10_0000_0000;

/// Every kind's bit together.
pub const ALL: u64 = 0x1f_ffff_ffff;

/// A set of event kinds, one bit per kind: the constants of this module.
#[derive(Clone, Copy, Debug, PartialEq, Eq, Structural, Hash)]
pub struct EventType(pub u64);

impl EventType {
    /// Whether every kind of `other` is in this set.
    pub open spec fn has(self, other: EventType) -> bool {
        self.0 & other.0 == other.0
    }

    /// The set of all kinds.
    pub fn all() -> (set: EventType)
        ensures
            set.0 == ALL,
    {
        EventType(ALL)
    }

    /// The set without any kind.
    pub fn empty() -> (set: EventType)
        ensures
            set.0 == 0,
    {
        EventType(0)
    }

    /// Decides [`EventType::has`].
    #[verifier::when_used_as_spec(has)]
    pub fn contains(self, other: EventType) -> (found: bool)
        ensures
            found == self.has(other),
    {
        self.0 & other.0 == other.0
    }

    /// The kinds that are in either set.
    pub fn union(self, other: EventType) -> (set: EventType)
        ensures
            set.0 == self.0 | other.0,
            set.has(self),
            set.has(other),
    {
        let a: u64 = self.0;
        let b: u64 = other.0;
        assert((a | b) & a == a) by (bit_vector);
        assert((a | b) & b == b) by (bit_vector);
        EventType(a | b)
    }
}

/// The settings a cache is built with.
#[derive(Clone, Copy, Debug, PartialEq, Eq, Structural)]
pub struct Config {
    pub event_types: EventType,
    pub message_cache_size: usize,
}

impl Config {
    /// The kinds of event that the cache applies.
    pub fn event_types(&self) -> (set: EventType)
        ensures
            set == self.event_types,
    {
        self.event_types
    }

    /// The number of messages kept per channel.
    pub fn message_cache_size(&self) -> (size: usize)
        ensures
            size == self.message_cache_size,
    {
        self.message_cache_size
    }
}

impl Default for Config {
    /// Every kind of event, and a hundred messages per channel.
    fn default() -> (config: Config)
        ensures
            config.event_types.0 == ALL,
            config.message_cache_size == 100,
    {
        Config { event_types: EventType::all(), message_cache_size: 100 }
    }
}

} // verus!
