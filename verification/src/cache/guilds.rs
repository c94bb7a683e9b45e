//! Guilds in the cache, with the roles and emojis they own.

use std::collections::HashSet;
use vstd::prelude::*;
use crate::cache::index::{open_list, relist_id, unlist_id};
use crate::cache::model::{CachedGuild, GuildItem};
use crate::cache::tables::emojis::{get_emoji, put_emoji, take_emoji};
use crate::cache::tables::guilds::{count_guilds, get_guild, has_guild, put_guild, take_guild};
use crate::cache::tables::index::get_ids;
use crate::cache::tables::roles::{get_role, put_role, take_role};
use crate::cache::tables::unavailable::{
    is_marked_unavailable, mark_unavailable, unmark_unavailable,
};
use crate::cache::view::{cached_guild, ids_in, owner_of, CacheView, DEFAULT_MAX_PRESENCES};
use crate::cache::InMemoryCache;
use crate::model::channel::GuildChannel;
use crate::model::gateway::presence::Presence;
use crate::model::guild::member::Member;
use crate::model::guild::{Emoji, Guild, PartialGuild, Role};
use crate::model::id::{EmojiId, GuildId, RoleId};
use crate::model::voice::VoiceState;

verus! {

/// What a guild brings along, apart from its own row.
pub struct GuildParts {
    pub channels: Vec<GuildChannel>,
    pub emojis: Vec<Emoji>,
    pub members: Vec<Member>,
    pub presences: Vec<Presence>,
    pub roles: Vec<Role>,
    pub voice_states: Vec<VoiceState>,
}

/// Splits a guild into the row the cache keeps of it and what it owns.
pub fn split_guild(guild: Guild) -> (split: (CachedGuild, GuildParts))
    ensures
        split.0 == cached_guild(guild),
        split.1.channels == guild.channels,
        split.1.emojis == guild.emojis,
        split.1.members == guild.members,
        split.1.presences == guild.presences,
        split.1.roles == guild.roles,
        split.1.voice_states == guild.voice_states,
{
    let Guild {
        afk_channel_id,
        afk_timeout,
        application_id,
        approximate_member_count: _,
        approximate_presence_count: _,
        banner,
        channels,
        default_message_notifications,
        description,
        discovery_splash,
        emojis,
        explicit_content_filter,
        features,
        icon,
        id,
        joined_at,
        large,
        lazy,
        max_members,
        max_presences,
        max_video_channel_users: _,
        member_count,
        members,
        mfa_level,
        name,
        owner_id,
        owner,
        permissions,
        preferred_locale,
        premium_subscription_count,
        premium_tier,
        presences,
        region,
        roles,
        rules_channel_id,
        splash,
        system_channel_flags,
        system_channel_id,
        unavailable,
        vanity_url_code,
        verification_level,
        voice_states,
        widget_channel_id,
        widget_enabled,
    } = guild;
    let row = CachedGuild {
        id,
        afk_channel_id,
        afk_timeout,
        application_id,
        banner,
        default_message_notifications,
        description,
        discovery_splash,
        explicit_content_filter,
        features,
        icon,
        joined_at,
        large,
        lazy,
        max_members,
        max_presences,
        member_count,
        mfa_level,
        name,
        owner,
        owner_id,
        permissions,
        preferred_locale,
        premium_subscription_count,
        premium_tier,
        region,
        rules_channel_id,
        splash,
        system_channel_id,
        system_channel_flags,
        unavailable,
        verification_level,
        vanity_url_code,
        widget_channel_id,
        widget_enabled,
    };
    (row, GuildParts { channels, emojis, members, presences, roles, voice_states })
}

impl InMemoryCache {
    /// Gives `guild` an empty list in every index.
    pub(crate) fn open_lists(&mut self, guild: u64)
        requires
            old(self).wf(),
            old(self)@.opened(guild).wf(),
        ensures
            final(self).wf(),
            final(self)@ == old(self)@.opened(guild),
    {
        proof {
            self.unfold();
        }
        open_list(&mut self.guild_channels, guild);
        open_list(&mut self.guild_emojis, guild);
        open_list(&mut self.guild_roles, guild);
        open_list(&mut self.guild_members, guild);
        open_list(&mut self.guild_presences, guild);
        open_list(&mut self.guild_voice_states, guild);
        proof {
            self.unfold();
            assert(self@ =~= old(self)@.opened(guild));
        }
    }

    /// Caches each channel of the list as one of `guild_id`, in order.
    pub fn cache_guild_channels(&mut self, guild_id: GuildId, channels: Vec<GuildChannel>)
        requires
            old(self).wf(),
        ensures
            final(self).wf(),
            final(self)@ == old(self)@.with_guild_channels(guild_id.0, channels@),
    {
        let ghost before = self@;
        let ghost all = channels@;
        for channel in it: channels
            invariant
                it.seq() == all,
                self.wf(),
                self@ == before.with_guild_channels(guild_id.0, all.subrange(0, it.index())),
        {
            proof {
                assert(all.subrange(0, it.index() + 1).drop_last() =~= all.subrange(
                    0,
                    it.index(),
                ));
            }
            self.cache_guild_channel(guild_id, channel);
        }
        proof {
            assert(all.subrange(0, all.len() as int) =~= all);
        }
    }

    /// Caches an emoji of `guild_id`, in place of the emoji with the same id,
    /// and lists it for that guild alone.
    pub fn cache_emoji(&mut self, guild_id: GuildId, emoji: Emoji)
        requires
            old(self).wf(),
        ensures
            final(self).wf(),
            final(self)@ == old(self)@.with_emoji(guild_id.0, emoji),
    {
        proof {
            self.unfold();
        }
        let id = emoji.id.0;
        let owner = match take_emoji(&mut self.emojis, id) {
            Some(prior) => Some(prior.guild_id.0),
            None => None,
        };
        relist_id(&mut self.guild_emojis, owner, guild_id.0, id);
        let row = GuildItem { data: emoji, guild_id };
        put_emoji(&mut self.emojis, id, row);
        proof {
            self.unfold();
            old(self)@.with_emoji_keeps_wf(guild_id.0, emoji);
            assert(self@.emojis =~= old(self)@.emojis.insert(id, row));
            assert(self@ =~= old(self)@.with_emoji(guild_id.0, emoji));
        }
    }

    /// Caches each emoji of the list as one of `guild_id`, in order.
    pub fn cache_emojis(&mut self, guild_id: GuildId, emojis: Vec<Emoji>)
        requires
            old(self).wf(),
        ensures
            final(self).wf(),
            final(self)@ == old(self)@.with_emojis(guild_id.0, emojis@),
    {
        let ghost before = self@;
        let ghost all = emojis@;
        for emoji in it: emojis
            invariant
                it.seq() == all,
                self.wf(),
                self@ == before.with_emojis(guild_id.0, all.subrange(0, it.index())),
        {
            proof {
                assert(all.subrange(0, it.index() + 1).drop_last() =~= all.subrange(
                    0,
                    it.index(),
                ));
            }
            self.cache_emoji(guild_id, emoji);
        }
        proof {
            assert(all.subrange(0, all.len() as int) =~= all);
        }
    }

    /// Makes the emojis of the list the emojis of `guild_id`, and no others.
    pub fn replace_emojis(&mut self, guild_id: GuildId, emojis: Vec<Emoji>)
        requires
            old(self).wf(),
        ensures
            final(self).wf(),
            final(self)@ == old(self)@.with_emojis_replaced(guild_id.0, emojis@),
    {
        self.purge_emojis(guild_id.0);
        proof {
            self.unfold();
        }
        let ghost cleared = self@;
        open_list(&mut self.guild_emojis, guild_id.0);
        proof {
            self.unfold();
            old(self)@.without_emojis_of_keeps_wf(guild_id.0);
            assert(self@ =~= (CacheView {
                guild_emojis: cleared.guild_emojis.insert(guild_id.0, Set::empty()),
                ..cleared
            }));
            assert(self@ =~= old(self)@.with_emojis_replaced(guild_id.0, Seq::empty()));
        }
        self.cache_emojis(guild_id, emojis);
    }

    /// Caches a role of `guild_id`, in place of the role with the same id,
    /// and lists it for that guild alone.
    pub fn cache_role(&mut self, guild_id: GuildId, role: Role)
        requires
            old(self).wf(),
        ensures
            final(self).wf(),
            final(self)@ == old(self)@.with_role(guild_id.0, role),
    {
        proof {
            self.unfold();
        }
        let id = role.id.0;
        let owner = match take_role(&mut self.roles, id) {
            Some(prior) => Some(prior.guild_id.0),
            None => None,
        };
        relist_id(&mut self.guild_roles, owner, guild_id.0, id);
        let row = GuildItem { data: role, guild_id };
        put_role(&mut self.roles, id, row);
        proof {
            self.unfold();
            old(self)@.with_role_keeps_wf(guild_id.0, role);
            assert(self@.roles =~= old(self)@.roles.insert(id, row));
            assert(self@ =~= old(self)@.with_role(guild_id.0, role));
        }
    }

    /// Caches each role of the list as one of `guild_id`, in order.
    pub fn cache_roles(&mut self, guild_id: GuildId, roles: Vec<Role>)
        requires
            old(self).wf(),
        ensures
            final(self).wf(),
            final(self)@ == old(self)@.with_roles(guild_id.0, roles@),
    {
        let ghost before = self@;
        let ghost all = roles@;
        for role in it: roles
            invariant
                it.seq() == all,
                self.wf(),
                self@ == before.with_roles(guild_id.0, all.subrange(0, it.index())),
        {
            proof {
                assert(all.subrange(0, it.index() + 1).drop_last() =~= all.subrange(
                    0,
                    it.index(),
                ));
            }
            self.cache_role(guild_id, role);
        }
        proof {
            assert(all.subrange(0, all.len() as int) =~= all);
        }
    }

    /// Removes the role `id` and takes it off its guild's list.
    pub fn delete_role(&mut self, id: RoleId)
        requires
            old(self).wf(),
        ensures
            final(self).wf(),
            final(self)@ == old(self)@.without_role(id.0),
    {
        proof {
            self.unfold();
        }
        match take_role(&mut self.roles, id.0) {
            Some(row) => {
                unlist_id(&mut self.guild_roles, row.guild_id.0, id.0);
                proof {
                    self.unfold();
                    old(self)@.without_role_keeps_wf(id.0);
                }
            },
            None => {
                proof {
                    self.unfold();
                    assert(self@.roles =~= old(self)@.roles);
                }
            },
        }
        assert(self@ =~= old(self)@.without_role(id.0));
    }

    /// Caches a guild afresh: removes what it owned, caches what it brings
    /// along, and takes it off the unavailable guilds.
    pub fn cache_guild(&mut self, guild: Guild)
        requires
            old(self).wf(),
        ensures
            final(self).wf(),
            final(self)@ == old(self)@.with_guild(guild),
    {
        let id = guild.id;
        let (row, parts) = split_guild(guild);
        self.purge(id.0);
        proof {
            old(self)@.purged_opened_keeps_wf(id.0);
        }
        self.open_lists(id.0);
        self.cache_guild_channels(id, parts.channels);
        self.cache_emojis(id, parts.emojis);
        self.cache_members(id, parts.members);
        self.cache_presences(id, parts.presences);
        self.cache_roles(id, parts.roles);
        self.cache_voice_states(id, parts.voice_states);
        self.cache_guild_row(row);
    }

    /// Puts the guild's row into the table and takes the guild off the
    /// unavailable guilds.
    pub(crate) fn cache_guild_row(&mut self, row: CachedGuild)
        requires
            old(self).wf(),
        ensures
            final(self).wf(),
            final(self)@ == old(self)@.with_guild_row(row),
    {
        proof {
            self.unfold();
        }
        unmark_unavailable(&mut self.unavailable_guilds, row.id.0);
        put_guild(&mut self.guilds, row.id.0, row);
        proof {
            self.unfold();
            assert(self@ =~= old(self)@.with_guild_row(row));
        }
    }

    /// Merges a guild update into the cached guild, if the guild is cached.
    pub fn update_guild(&mut self, update: PartialGuild)
        requires
            old(self).wf(),
        ensures
            final(self).wf(),
            final(self)@ == old(self)@.with_guild_update(update),
    {
        proof {
            self.unfold();
        }
        match take_guild(&mut self.guilds, update.id.0) {
            Some(row) => {
                let mut row = row;
                row.afk_channel_id = update.afk_channel_id;
                row.afk_timeout = update.afk_timeout;
                row.banner = update.banner;
                row.default_message_notifications = update.default_message_notifications;
                row.description = update.description;
                row.features = update.features;
                row.icon = update.icon;
                row.max_members = update.max_members;
                row.max_presences = Some(
                    match update.max_presences {
                        Some(n) => n,
                        None => DEFAULT_MAX_PRESENCES,
                    },
                );
                row.mfa_level = update.mfa_level;
                row.name = update.name;
                row.owner = update.owner;
                row.owner_id = update.owner_id;
                row.permissions = update.permissions;
                row.preferred_locale = update.preferred_locale;
                row.premium_tier = update.premium_tier;
                row.premium_subscription_count = Some(
                    match update.premium_subscription_count {
                        Some(n) => n,
                        None => 0,
                    },
                );
                row.region = update.region;
                row.splash = update.splash;
                row.system_channel_id = update.system_channel_id;
                row.verification_level = update.verification_level;
                row.vanity_url_code = update.vanity_url_code;
                row.widget_channel_id = update.widget_channel_id;
                row.widget_enabled = update.widget_enabled;
                put_guild(&mut self.guilds, update.id.0, row);
            },
            None => {},
        }
        proof {
            self.unfold();
            assert(self@ =~= old(self)@.with_guild_update(update));
        }
    }

    /// Removes a guild and everything it owns.
    pub fn delete_guild(&mut self, id: GuildId)
        requires
            old(self).wf(),
        ensures
            final(self).wf(),
            final(self)@ == old(self)@.without_guild(id.0),
    {
        self.purge(id.0);
        proof {
            self.unfold();
        }
        let _ = take_guild(&mut self.guilds, id.0);
        proof {
            self.unfold();
            old(self)@.purged_keeps_wf(id.0);
            assert(self@ =~= old(self)@.without_guild(id.0));
        }
    }

    /// Marks a guild unavailable and removes its row. What it owns stays.
    pub fn unavailable_guild(&mut self, id: GuildId)
        requires
            old(self).wf(),
        ensures
            final(self).wf(),
            final(self)@ == old(self)@.with_unavailable_guild(id.0),
    {
        proof {
            self.unfold();
        }
        let _ = take_guild(&mut self.guilds, id.0);
        mark_unavailable(&mut self.unavailable_guilds, id.0);
        proof {
            self.unfold();
            assert(self@ =~= old(self)@.with_unavailable_guild(id.0));
        }
    }

    /// A copy of the guild `id`.
    pub fn guild(&self, id: GuildId) -> (guild: Option<CachedGuild>)
        ensures
            guild == (if self@.guilds.contains_key(id.0) {
                Some(self@.guilds[id.0])
            } else {
                None
            }),
    {
        proof {
            self.unfold();
        }
        get_guild(&self.guilds, id.0)
    }

    /// Whether the guild `id` is cached.
    pub fn has_guild(&self, id: GuildId) -> (found: bool)
        ensures
            found == self@.guilds.contains_key(id.0),
    {
        proof {
            self.unfold();
        }
        has_guild(&self.guilds, id.0)
    }

    /// The number of cached guilds.
    pub fn guild_count(&self) -> (count: usize)
        ensures
            count == self@.guilds.len(),
    {
        proof {
            self.unfold();
        }
        count_guilds(&self.guilds)
    }

    /// Whether the guild `id` is marked unavailable.
    pub fn is_unavailable(&self, id: GuildId) -> (marked: bool)
        ensures
            marked == self@.unavailable_guilds.contains(id.0),
    {
        proof {
            self.unfold();
        }
        is_marked_unavailable(&self.unavailable_guilds, id.0)
    }

    /// A copy of the role `id`.
    pub fn role(&self, id: RoleId) -> (role: Option<Role>)
        ensures
            role == match owner_of(self@.roles, id.0) {
                Some(_) => Some(self@.roles[id.0].data),
                None => None,
            },
    {
        proof {
            self.unfold();
        }
        match get_role(&self.roles, id.0) {
            Some(row) => Some(row.data),
            None => None,
        }
    }

    /// A copy of the emoji `id`.
    pub fn emoji(&self, id: EmojiId) -> (emoji: Option<Emoji>)
        ensures
            emoji == match owner_of(self@.emojis, id.0) {
                Some(_) => Some(self@.emojis[id.0].data),
                None => None,
            },
    {
        proof {
            self.unfold();
        }
        match get_emoji(&self.emojis, id.0) {
            Some(row) => Some(row.data),
            None => None,
        }
    }

    /// The ids of the channels listed for the guild, if it has a list.
    pub fn guild_channels(&self, id: GuildId) -> (ids: Option<HashSet<u64>>)
        ensures
            ids.is_some() == self@.guild_channels.contains_key(id.0),
            ids.is_some() ==> ids.unwrap()@ == ids_in(self@.guild_channels, id.0),
    {
        proof {
            self.unfold();
        }
        get_ids(&self.guild_channels, id.0)
    }

    /// The ids of the emojis listed for the guild, if it has a list.
    pub fn guild_emojis(&self, id: GuildId) -> (ids: Option<HashSet<u64>>)
        ensures
            ids.is_some() == self@.guild_emojis.contains_key(id.0),
            ids.is_some() ==> ids.unwrap()@ == ids_in(self@.guild_emojis, id.0),
    {
        proof {
            self.unfold();
        }
        get_ids(&self.guild_emojis, id.0)
    }

    /// The ids of the roles listed for the guild, if it has a list.
    pub fn guild_roles(&self, id: GuildId) -> (ids: Option<HashSet<u64>>)
        ensures
            ids.is_some() == self@.guild_roles.contains_key(id.0),
            ids.is_some() ==> ids.unwrap()@ == ids_in(self@.guild_roles, id.0),
    {
        proof {
            self.unfold();
        }
        get_ids(&self.guild_roles, id.0)
    }
}

} // verus!
