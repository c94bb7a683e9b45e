//! What each kind of gateway event does to the cache.
//!
//! Every kind has a bit in the cache's configuration; an event whose bit is
//! clear changes nothing.

use vstd::prelude::*;
use crate::cache::config::{
    CHANNEL_CREATE, CHANNEL_DELETE, CHANNEL_PINS_UPDATE, CHANNEL_UPDATE, GUILD_CREATE,
    GUILD_DELETE, GUILD_EMOJIS_UPDATE, GUILD_UPDATE, MEMBER_ADD, MEMBER_CHUNK, MEMBER_REMOVE,
    MEMBER_UPDATE, MESSAGE_CREATE, MESSAGE_DELETE, MESSAGE_DELETE_BULK, MESSAGE_UPDATE,
    PRESENCE_UPDATE, REACTION_ADD, REACTION_REMOVE, REACTION_REMOVE_ALL, READY, ROLE_CREATE,
    ROLE_DELETE, ROLE_UPDATE, UNAVAILABLE_GUILD, USER_UPDATE, VOICE_SERVER_UPDATE,
    VOICE_STATE_UPDATE,
};
use crate::cache::view::CacheView;
use crate::cache::InMemoryCache;
use crate::model::gateway::event::Event;
use crate::model::gateway::payload::member_add::MemberAdd;
use crate::model::gateway::payload::{
    BanAdd, BanRemove, ChannelCreate, ChannelDelete, ChannelPinsUpdate, ChannelUpdate,
    GuildCreate, GuildDelete, GuildEmojisUpdate, GuildIntegrationsUpdate, GuildUpdate,
    MemberChunk, MemberRemove, MemberUpdate, MessageCreate, MessageDelete, MessageDeleteBulk,
    MessageUpdate, PresenceUpdate, ReactionAdd, ReactionRemove, ReactionRemoveAll, Ready,
    RoleCreate, RoleDelete, RoleUpdate, TypingStart, UserUpdate, VoiceServerUpdate,
    VoiceStateUpdate, WebhooksUpdate,
};
use crate::model::gateway::presence::Presence;
use crate::model::guild::{GuildStatus, UnavailableGuild};

verus! {

/// Something that can be applied to the cache.
pub trait UpdateCache: Sized {
    /// What a cache holds after the value was applied to a cache that held
    /// `before`.
    spec fn updated(&self, before: CacheView) -> CacheView;

    /// Applies the value to the cache.
    fn update(self, cache: &mut InMemoryCache)
        requires
            old(cache).wf(),
        ensures
            final(cache).wf(),
            final(cache)@ == self.updated(old(cache)@),
    ;
}

impl InMemoryCache {
    /// Applies one event, or one event's payload, to the cache.
    pub fn update<T: UpdateCache>(&mut self, value: T)
        requires
            old(self).wf(),
        ensures
            final(self).wf(),
            final(self)@ == value.updated(old(self)@),
    {
        value.update(self)
    }
}

impl UpdateCache for BanAdd {
    open spec fn updated(&self, before: CacheView) -> CacheView {
        before
    }

    fn update(self, cache: &mut InMemoryCache) {
    }
}

impl UpdateCache for BanRemove {
    open spec fn updated(&self, before: CacheView) -> CacheView {
        before
    }

    fn update(self, cache: &mut InMemoryCache) {
    }
}

impl UpdateCache for ChannelCreate {
    open spec fn updated(&self, before: CacheView) -> CacheView {
        if before.wants(CHANNEL_CREATE) {
            before.with_channel(self.0)
        } else {
            before
        }
    }

    fn update(self, cache: &mut InMemoryCache) {
        if !cache.wants(CHANNEL_CREATE) {
            return ;
        }
        cache.cache_channel(self.0);
    }
}

impl UpdateCache for ChannelDelete {
    open spec fn updated(&self, before: CacheView) -> CacheView {
        if before.wants(CHANNEL_DELETE) {
            before.without_channel(self.0)
        } else {
            before
        }
    }

    fn update(self, cache: &mut InMemoryCache) {
        if !cache.wants(CHANNEL_DELETE) {
            return ;
        }
        cache.delete_channel(self.0);
    }
}

impl UpdateCache for ChannelPinsUpdate {
    open spec fn updated(&self, before: CacheView) -> CacheView {
        if before.wants(CHANNEL_PINS_UPDATE) {
            before.with_pins_update(self.channel_id.0, self.last_pin_timestamp)
        } else {
            before
        }
    }

    fn update(self, cache: &mut InMemoryCache) {
        if !cache.wants(CHANNEL_PINS_UPDATE) {
            return ;
        }
        cache.update_pins(self.channel_id, self.last_pin_timestamp);
    }
}

impl UpdateCache for ChannelUpdate {
    open spec fn updated(&self, before: CacheView) -> CacheView {
        if before.wants(CHANNEL_UPDATE) {
            before.with_channel(self.0)
        } else {
            before
        }
    }

    fn update(self, cache: &mut InMemoryCache) {
        if !cache.wants(CHANNEL_UPDATE) {
            return ;
        }
        cache.cache_channel(self.0);
    }
}

impl UpdateCache for GuildCreate {
    open spec fn updated(&self, before: CacheView) -> CacheView {
        if before.wants(GUILD_CREATE) {
            before.with_guild(self.0)
        } else {
            before
        }
    }

    fn update(self, cache: &mut InMemoryCache) {
        if !cache.wants(GUILD_CREATE) {
            return ;
        }
        cache.cache_guild(self.0);
    }
}

impl UpdateCache for GuildDelete {
    open spec fn updated(&self, before: CacheView) -> CacheView {
        if before.wants(GUILD_DELETE) {
            before.without_guild(self.id.0)
        } else {
            before
        }
    }

    fn update(self, cache: &mut InMemoryCache) {
        if !cache.wants(GUILD_DELETE) {
            return ;
        }
        cache.delete_guild(self.id);
    }
}

impl UpdateCache for GuildEmojisUpdate {
    open spec fn updated(&self, before: CacheView) -> CacheView {
        if before.wants(GUILD_EMOJIS_UPDATE) {
            before.with_emojis_replaced(self.guild_id.0, self.emojis@)
        } else {
            before
        }
    }

    fn update(self, cache: &mut InMemoryCache) {
        if !cache.wants(GUILD_EMOJIS_UPDATE) {
            return ;
        }
        cache.replace_emojis(self.guild_id, self.emojis);
    }
}

impl UpdateCache for GuildIntegrationsUpdate {
    open spec fn updated(&self, before: CacheView) -> CacheView {
        before
    }

    fn update(self, cache: &mut InMemoryCache) {
    }
}

impl UpdateCache for GuildUpdate {
    open spec fn updated(&self, before: CacheView) -> CacheView {
        if before.wants(GUILD_UPDATE) {
            before.with_guild_update(self.0)
        } else {
            before
        }
    }

    fn update(self, cache: &mut InMemoryCache) {
        if !cache.wants(GUILD_UPDATE) {
            return ;
        }
        cache.update_guild(self.0);
    }
}

impl UpdateCache for MemberAdd {
    open spec fn updated(&self, before: CacheView) -> CacheView {
        if before.wants(MEMBER_ADD) {
            before.with_member(self.0.guild_id.0, self.0)
        } else {
            before
        }
    }

    fn update(self, cache: &mut InMemoryCache) {
        if !cache.wants(MEMBER_ADD) {
            return ;
        }
        let guild_id = self.0.guild_id;
        cache.cache_member(guild_id, self.0);
    }
}

impl UpdateCache for MemberChunk {
    open spec fn updated(&self, before: CacheView) -> CacheView {
        if before.wants(MEMBER_CHUNK) {
            before.with_members(self.guild_id.0, self.members@)
        } else {
            before
        }
    }

    fn update(self, cache: &mut InMemoryCache) {
        if !cache.wants(MEMBER_CHUNK) {
            return ;
        }
        cache.cache_members(self.guild_id, self.members);
    }
}

impl UpdateCache for MemberRemove {
    open spec fn updated(&self, before: CacheView) -> CacheView {
        if before.wants(MEMBER_REMOVE) {
            before.without_member(self.guild_id.0, self.user.id.0)
        } else {
            before
        }
    }

    fn update(self, cache: &mut InMemoryCache) {
        if !cache.wants(MEMBER_REMOVE) {
            return ;
        }
        cache.delete_member(self.guild_id, self.user.id);
    }
}

impl UpdateCache for MemberUpdate {
    open spec fn updated(&self, before: CacheView) -> CacheView {
        if before.wants(MEMBER_UPDATE) {
            before.with_member_update(*self)
        } else {
            before
        }
    }

    fn update(self, cache: &mut InMemoryCache) {
        if !cache.wants(MEMBER_UPDATE) {
            return ;
        }
        cache.update_member(self);
    }
}

impl UpdateCache for MessageCreate {
    open spec fn updated(&self, before: CacheView) -> CacheView {
        if before.wants(MESSAGE_CREATE) {
            before.with_message_created(self.0)
        } else {
            before
        }
    }

    fn update(self, cache: &mut InMemoryCache) {
        if !cache.wants(MESSAGE_CREATE) {
            return ;
        }
        cache.create_message(self.0);
    }
}

impl UpdateCache for MessageDelete {
    open spec fn updated(&self, before: CacheView) -> CacheView {
        if before.wants(MESSAGE_DELETE) {
            before.without_message(self.channel_id.0, self.id.0)
        } else {
            before
        }
    }

    fn update(self, cache: &mut InMemoryCache) {
        if !cache.wants(MESSAGE_DELETE) {
            return ;
        }
        cache.delete_message(self.channel_id, self.id);
    }
}

impl UpdateCache for MessageDeleteBulk {
    open spec fn updated(&self, before: CacheView) -> CacheView {
        if before.wants(MESSAGE_DELETE_BULK) {
            before.without_messages(self.channel_id.0, self.ids@)
        } else {
            before
        }
    }

    fn update(self, cache: &mut InMemoryCache) {
        if !cache.wants(MESSAGE_DELETE_BULK) {
            return ;
        }
        cache.delete_messages(self.channel_id, self.ids);
    }
}

impl UpdateCache for MessageUpdate {
    open spec fn updated(&self, before: CacheView) -> CacheView {
        if before.wants(MESSAGE_UPDATE) {
            before.with_message_update(*self)
        } else {
            before
        }
    }

    fn update(self, cache: &mut InMemoryCache) {
        if !cache.wants(MESSAGE_UPDATE) {
            return ;
        }
        cache.update_message(self);
    }
}

impl PresenceUpdate {
    /// The presence that the update reports.
    pub open spec fn presence(&self) -> Presence {
        Presence {
            activities: self.activities,
            client_status: self.client_status,
            guild_id: self.guild_id,
            status: self.status,
            user_id: self.user_id,
        }
    }
}

impl UpdateCache for PresenceUpdate {
    open spec fn updated(&self, before: CacheView) -> CacheView {
        if before.wants(PRESENCE_UPDATE) {
            before.with_presence(self.guild_id.0, self.presence())
        } else {
            before
        }
    }

    fn update(self, cache: &mut InMemoryCache) {
        if !cache.wants(PRESENCE_UPDATE) {
            return ;
        }
        let guild_id = self.guild_id;
        let presence = Presence {
            activities: self.activities,
            client_status: self.client_status,
            guild_id: self.guild_id,
            status: self.status,
            user_id: self.user_id,
        };
        cache.cache_presence(guild_id, presence);
    }
}

impl UpdateCache for ReactionAdd {
    open spec fn updated(&self, before: CacheView) -> CacheView {
        if before.wants(REACTION_ADD) {
            before.with_reaction(
                self.0.channel_id.0,
                self.0.message_id.0,
                self.0.emoji,
                self.0.user_id,
            )
        } else {
            before
        }
    }

    fn update(self, cache: &mut InMemoryCache) {
        if !cache.wants(REACTION_ADD) {
            return ;
        }
        cache.add_reaction(self.0.channel_id, self.0.message_id, self.0.emoji, self.0.user_id);
    }
}

impl UpdateCache for ReactionRemove {
    open spec fn updated(&self, before: CacheView) -> CacheView {
        if before.wants(REACTION_REMOVE) {
            before.without_reaction(
                self.0.channel_id.0,
                self.0.message_id.0,
                self.0.emoji,
                self.0.user_id,
            )
        } else {
            before
        }
    }

    fn update(self, cache: &mut InMemoryCache) {
        if !cache.wants(REACTION_REMOVE) {
            return ;
        }
        cache.remove_reaction(self.0.channel_id, self.0.message_id, self.0.emoji, self.0.user_id);
    }
}

impl UpdateCache for ReactionRemoveAll {
    open spec fn updated(&self, before: CacheView) -> CacheView {
        if before.wants(REACTION_REMOVE_ALL) {
            before.without_reactions(self.channel_id.0, self.message_id.0)
        } else {
            before
        }
    }

    fn update(self, cache: &mut InMemoryCache) {
        if !cache.wants(REACTION_REMOVE_ALL) {
            return ;
        }
        cache.clear_reactions(self.channel_id, self.message_id);
    }
}

impl UpdateCache for Ready {
    open spec fn updated(&self, before: CacheView) -> CacheView {
        if before.wants(READY) {
            (CacheView { current_user: Some(self.user), ..before }).with_guild_statuses(
                self.guilds@,
            )
        } else {
            before
        }
    }

    fn update(self, cache: &mut InMemoryCache) {
        if !cache.wants(READY) {
            return ;
        }
        cache.cache_current_user(self.user);
        let ghost start = cache@;
        let ghost all = self.guilds@;
        for status in it: self.guilds
            invariant
                it.seq() == all,
                cache.wf(),
                cache@ == start.with_guild_statuses(all.subrange(0, it.index())),
        {
            proof {
                assert(all.subrange(0, it.index() + 1).drop_last() =~= all.subrange(
                    0,
                    it.index(),
                ));
            }
            match status {
                GuildStatus::Offline(u) => {
                    cache.unavailable_guild(u.id);
                },
                GuildStatus::Online(g) => {
                    cache.cache_guild(g);
                },
            }
        }
        proof {
            assert(all.subrange(0, all.len() as int) =~= all);
        }
    }
}

impl UpdateCache for RoleCreate {
    open spec fn updated(&self, before: CacheView) -> CacheView {
        if before.wants(ROLE_CREATE) {
            before.with_role(self.guild_id.0, self.role)
        } else {
            before
        }
    }

    fn update(self, cache: &mut InMemoryCache) {
        if !cache.wants(ROLE_CREATE) {
            return ;
        }
        cache.cache_role(self.guild_id, self.role);
    }
}

impl UpdateCache for RoleDelete {
    open spec fn updated(&self, before: CacheView) -> CacheView {
        if before.wants(ROLE_DELETE) {
            before.without_role(self.role_id.0)
        } else {
            before
        }
    }

    fn update(self, cache: &mut InMemoryCache) {
        if !cache.wants(ROLE_DELETE) {
            return ;
        }
        cache.delete_role(self.role_id);
    }
}

impl UpdateCache for RoleUpdate {
    open spec fn updated(&self, before: CacheView) -> CacheView {
        if before.wants(ROLE_UPDATE) {
            before.with_role(self.guild_id.0, self.role)
        } else {
            before
        }
    }

    fn update(self, cache: &mut InMemoryCache) {
        if !cache.wants(ROLE_UPDATE) {
            return ;
        }
        cache.cache_role(self.guild_id, self.role);
    }
}

impl UpdateCache for TypingStart {
    open spec fn updated(&self, before: CacheView) -> CacheView {
        before
    }

    fn update(self, cache: &mut InMemoryCache) {
    }
}

impl UpdateCache for UnavailableGuild {
    open spec fn updated(&self, before: CacheView) -> CacheView {
        if before.wants(UNAVAILABLE_GUILD) {
            before.with_unavailable_guild(self.id.0)
        } else {
            before
        }
    }

    fn update(self, cache: &mut InMemoryCache) {
        if !cache.wants(UNAVAILABLE_GUILD) {
            return ;
        }
        cache.unavailable_guild(self.id);
    }
}

impl UpdateCache for UserUpdate {
    open spec fn updated(&self, before: CacheView) -> CacheView {
        if before.wants(USER_UPDATE) {
            CacheView { current_user: Some(self.0), ..before }
        } else {
            before
        }
    }

    fn update(self, cache: &mut InMemoryCache) {
        if !cache.wants(USER_UPDATE) {
            return ;
        }
        cache.cache_current_user(self.0);
    }
}

impl UpdateCache for VoiceServerUpdate {
    open spec fn updated(&self, before: CacheView) -> CacheView {
        before
    }

    fn update(self, cache: &mut InMemoryCache) {
        if !cache.wants(VOICE_SERVER_UPDATE) {
            return ;
        }
    }
}

impl UpdateCache for VoiceStateUpdate {
    open spec fn updated(&self, before: CacheView) -> CacheView {
        if before.wants(VOICE_STATE_UPDATE) {
            before.with_voice_state(self.0)
        } else {
            before
        }
    }

    fn update(self, cache: &mut InMemoryCache) {
        if !cache.wants(VOICE_STATE_UPDATE) {
            return ;
        }
        cache.cache_voice_state(self.0);
    }
}

impl UpdateCache for WebhooksUpdate {
    open spec fn updated(&self, before: CacheView) -> CacheView {
        before
    }

    fn update(self, cache: &mut InMemoryCache) {
    }
}

impl UpdateCache for Event {
    open spec fn updated(&self, before: CacheView) -> CacheView {
        match *self {
            Event::BanAdd(v) => v.updated(before),
            Event::BanRemove(v) => v.updated(before),
            Event::ChannelCreate(v) => v.updated(before),
            Event::ChannelDelete(v) => v.updated(before),
            Event::ChannelPinsUpdate(v) => v.updated(before),
            Event::ChannelUpdate(v) => v.updated(before),
            Event::GuildCreate(v) => v.updated(before),
            Event::GuildDelete(v) => v.updated(before),
            Event::GuildEmojisUpdate(v) => v.updated(before),
            Event::GuildIntegrationsUpdate(v) => v.updated(before),
            Event::GuildUpdate(v) => v.updated(before),
            Event::MemberAdd(v) => v.updated(before),
            Event::MemberRemove(v) => v.updated(before),
            Event::MemberUpdate(v) => v.updated(before),
            Event::MemberChunk(v) => v.updated(before),
            Event::MessageCreate(v) => v.updated(before),
            Event::MessageDelete(v) => v.updated(before),
            Event::MessageDeleteBulk(v) => v.updated(before),
            Event::MessageUpdate(v) => v.updated(before),
            Event::PresenceUpdate(v) => v.updated(before),
            Event::ReactionAdd(v) => v.updated(before),
            Event::ReactionRemove(v) => v.updated(before),
            Event::ReactionRemoveAll(v) => v.updated(before),
            Event::Ready(v) => v.updated(before),
            Event::RoleCreate(v) => v.updated(before),
            Event::RoleDelete(v) => v.updated(before),
            Event::RoleUpdate(v) => v.updated(before),
            Event::TypingStart(v) => v.updated(before),
            Event::UnavailableGuild(v) => v.updated(before),
            Event::UserUpdate(v) => v.updated(before),
            Event::VoiceServerUpdate(v) => v.updated(before),
            Event::VoiceStateUpdate(v) => v.updated(before),
            Event::WebhooksUpdate(v) => v.updated(before),
            _ => before,
        }
    }

    fn update(self, cache: &mut InMemoryCache) {
        match self {
            Event::BanAdd(v) => cache.update(v),
            Event::BanRemove(v) => cache.update(v),
            Event::ChannelCreate(v) => cache.update(v),
            Event::ChannelDelete(v) => cache.update(v),
            Event::ChannelPinsUpdate(v) => cache.update(v),
            Event::ChannelUpdate(v) => cache.update(v),
            Event::GatewayHeartbeat(_) => {},
            Event::GatewayHeartbeatAck => {},
            Event::GatewayHello(_) => {},
            Event::GatewayInvalidateSession(_) => {},
            Event::GatewayReconnect => {},
            Event::GiftCodeUpdate => {},
            Event::GuildCreate(v) => cache.update(v),
            Event::GuildDelete(v) => cache.update(v),
            Event::GuildEmojisUpdate(v) => cache.update(v),
            Event::GuildIntegrationsUpdate(v) => cache.update(v),
            Event::GuildUpdate(v) => cache.update(v),
            Event::InviteCreate(_) => {},
            Event::InviteDelete(_) => {},
            Event::MemberAdd(v) => cache.update(v),
            Event::MemberRemove(v) => cache.update(v),
            Event::MemberUpdate(v) => cache.update(v),
            Event::MemberChunk(v) => cache.update(v),
            Event::MessageCreate(v) => cache.update(v),
            Event::MessageDelete(v) => cache.update(v),
            Event::MessageDeleteBulk(v) => cache.update(v),
            Event::MessageUpdate(v) => cache.update(v),
            Event::PresenceUpdate(v) => cache.update(v),
            Event::PresencesReplace => {},
            Event::ReactionAdd(v) => cache.update(v),
            Event::ReactionRemove(v) => cache.update(v),
            Event::ReactionRemoveAll(v) => cache.update(v),
            Event::ReactionRemoveEmoji(_) => {},
            Event::Ready(v) => cache.update(v),
            Event::Resumed => {},
            Event::RoleCreate(v) => cache.update(v),
            Event::RoleDelete(v) => cache.update(v),
            Event::RoleUpdate(v) => cache.update(v),
            Event::ShardConnected(_) => {},
            Event::ShardConnecting(_) => {},
            Event::ShardDisconnected(_) => {},
            Event::ShardIdentifying(_) => {},
            Event::ShardReconnecting(_) => {},
            Event::ShardPayload(_) => {},
            Event::ShardResuming(_) => {},
            Event::TypingStart(v) => cache.update(v),
            Event::UnavailableGuild(v) => cache.update(v),
            Event::UserUpdate(v) => cache.update(v),
            Event::VoiceServerUpdate(v) => cache.update(v),
            Event::VoiceStateUpdate(v) => cache.update(v),
            Event::WebhooksUpdate(v) => cache.update(v),
        }
    }
}

} // verus!
