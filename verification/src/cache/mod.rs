//! The event-driven in-memory cache.
//!
//! The cache mirrors what the gateway reports: [`InMemoryCache::update`]
//! applies one event, the queries hand out copies of rows. What the cache
//! holds is its view, a [`CacheView`]; every operation states its effect on
//! the view and keeps the invariant [`CacheView::wf`].

pub mod builder;
pub mod config;
pub mod updates;
pub mod upkeep;
pub mod laws;
pub mod model;
pub mod tables;
pub mod view;

mod channels;
mod guilds;
mod index;
mod members;
mod messages;
mod purge;

use dashmap::{DashMap, DashSet};
use std::collections::{BTreeMap, BTreeSet, HashSet};
use vstd::prelude::*;
use crate::cache::config::{Config, EventType};
use crate::cache::model::{CachedGuild, CachedMessage, GuildItem};
use crate::cache::tables::emojis::{emoji_rows, emoji_table};
use crate::cache::tables::groups::{group_rows, group_table};
use crate::cache::tables::guild_channels::{guild_channel_rows, guild_channel_table};
use crate::cache::tables::guilds::{guild_rows, guild_table};
use crate::cache::tables::index::{index_rows, index_table};
use crate::cache::tables::members::{member_rows, member_table};
use crate::cache::tables::messages::{message_rows, message_table};
use crate::cache::tables::presences::{presence_rows, presence_table};
use crate::cache::tables::private_channels::{private_channel_rows, private_channel_table};
use crate::cache::tables::roles::{role_rows, role_table};
use crate::cache::tables::unavailable::{unavailable_ids, unavailable_set};
use crate::cache::tables::users::{user_rows, user_table};
use crate::cache::tables::voice_states::{voice_state_rows, voice_state_table};
use crate::cache::view::CacheView;
use crate::model::channel::{Group, GuildChannel, PrivateChannel};
use crate::model::gateway::presence::Presence;
use crate::model::guild::member::Member;
use crate::model::guild::{Emoji, Role};
use crate::model::user::{CurrentUser, User};
use crate::model::voice::VoiceState;

verus! {

/// An in-memory mirror of the state that the gateway reports.
pub struct InMemoryCache {
    pub(crate) config: Config,
    pub(crate) current_user: Option<CurrentUser>,
    pub(crate) guilds: DashMap<u64, CachedGuild>,
    pub(crate) unavailable_guilds: DashSet<u64>,
    pub(crate) channels_guild: DashMap<u64, GuildItem<GuildChannel>>,
    pub(crate) channels_private: DashMap<u64, PrivateChannel>,
    pub(crate) groups: DashMap<u64, Group>,
    pub(crate) emojis: DashMap<u64, GuildItem<Emoji>>,
    pub(crate) roles: DashMap<u64, GuildItem<Role>>,
    pub(crate) members: DashMap<(u64, u64), Member>,
    pub(crate) presences: DashMap<(u64, u64), Presence>,
    pub(crate) voice_states: DashMap<(u64, u64), VoiceState>,
    pub(crate) messages: DashMap<u64, BTreeMap<u64, CachedMessage>>,
    pub(crate) users: DashMap<u64, (User, BTreeSet<u64>)>,
    pub(crate) guild_channels: DashMap<u64, HashSet<u64>>,
    pub(crate) guild_emojis: DashMap<u64, HashSet<u64>>,
    pub(crate) guild_roles: DashMap<u64, HashSet<u64>>,
    pub(crate) guild_members: DashMap<u64, HashSet<u64>>,
    pub(crate) guild_presences: DashMap<u64, HashSet<u64>>,
    pub(crate) guild_voice_states: DashMap<u64, HashSet<u64>>,
}

impl InMemoryCache {
    /// What the cache holds.
    pub closed spec fn view(&self) -> CacheView {
        CacheView {
            event_types: self.config.event_types,
            message_cache_size: self.config.message_cache_size,
            current_user: self.current_user,
            guilds: guild_rows(self.guilds),
            unavailable_guilds: unavailable_ids(self.unavailable_guilds),
            channels_guild: guild_channel_rows(self.channels_guild),
            channels_private: private_channel_rows(self.channels_private),
            groups: group_rows(self.groups),
            emojis: emoji_rows(self.emojis),
            roles: role_rows(self.roles),
            members: member_rows(self.members),
            presences: presence_rows(self.presences),
            voice_states: voice_state_rows(self.voice_states),
            messages: message_rows(self.messages),
            users: user_rows(self.users),
            guild_channels: index_rows(self.guild_channels),
            guild_emojis: index_rows(self.guild_emojis),
            guild_roles: index_rows(self.guild_roles),
            guild_members: index_rows(self.guild_members),
            guild_presences: index_rows(self.guild_presences),
            guild_voice_states: index_rows(self.guild_voice_states),
        }
    }

    /// The invariant of the cache: that of its view.
    pub open spec fn wf(&self) -> bool {
        self@.wf()
    }

    /// Spells the view out, for the modules that work on the tables.
    pub(crate) proof fn unfold(&self)
        ensures
            self@.event_types == self.config.event_types,
            self@.message_cache_size == self.config.message_cache_size,
            self@.current_user == self.current_user,
            self@.guilds == guild_rows(self.guilds),
            self@.unavailable_guilds == unavailable_ids(self.unavailable_guilds),
            self@.channels_guild == guild_channel_rows(self.channels_guild),
            self@.channels_private == private_channel_rows(self.channels_private),
            self@.groups == group_rows(self.groups),
            self@.emojis == emoji_rows(self.emojis),
            self@.roles == role_rows(self.roles),
            self@.members == member_rows(self.members),
            self@.presences == presence_rows(self.presences),
            self@.voice_states == voice_state_rows(self.voice_states),
            self@.messages == message_rows(self.messages),
            self@.users == user_rows(self.users),
            self@.guild_channels == index_rows(self.guild_channels),
            self@.guild_emojis == index_rows(self.guild_emojis),
            self@.guild_roles == index_rows(self.guild_roles),
            self@.guild_members == index_rows(self.guild_members),
            self@.guild_presences == index_rows(self.guild_presences),
            self@.guild_voice_states == index_rows(self.guild_voice_states),
    {
    }

    /// A cache without rows that applies every kind of event and keeps a
    /// hundred messages per channel.
    pub fn new() -> (cache: InMemoryCache)
        ensures
            cache.wf(),
            cache@ == CacheView::empty(EventType(crate::cache::config::ALL), 100),
    {
        InMemoryCache::with_config(Config::default())
    }

    /// A cache without rows that works to `config`.
    pub fn with_config(config: Config) -> (cache: InMemoryCache)
        ensures
            cache.wf(),
            cache@ == CacheView::empty(config.event_types, config.message_cache_size),
    {
        let cache = InMemoryCache {
            config,
            current_user: None,
            guilds: guild_table(),
            unavailable_guilds: unavailable_set(),
            channels_guild: guild_channel_table(),
            channels_private: private_channel_table(),
            groups: group_table(),
            emojis: emoji_table(),
            roles: role_table(),
            members: member_table(),
            presences: presence_table(),
            voice_states: voice_state_table(),
            messages: message_table(),
            users: user_table(),
            guild_channels: index_table(),
            guild_emojis: index_table(),
            guild_roles: index_table(),
            guild_members: index_table(),
            guild_presences: index_table(),
            guild_voice_states: index_table(),
        };
        assert(cache@ =~= CacheView::empty(config.event_types, config.message_cache_size));
        cache
    }

    /// The settings the cache was built with.
    pub fn config(&self) -> (config: Config)
        ensures
            config.event_types == self@.event_types,
            config.message_cache_size == self@.message_cache_size,
    {
        self.config
    }

    /// Whether the cache applies events of `kind`, one of the constants of
    /// [`crate::cache::config`].
    pub fn wants(&self, kind: u64) -> (wanted: bool)
        ensures
            wanted == self@.wants(kind),
    {
        self.config.event_types.contains(EventType(kind))
    }
}

} // verus!
