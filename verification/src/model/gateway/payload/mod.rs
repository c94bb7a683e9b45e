//! Payloads of the gateway events, one type per event kind.

pub mod invite_create;
pub mod member_add;
pub mod update_status;

use vstd::prelude::*;
use crate::model::channel::message::{Attachment, Embed, Message, ReactionType};
use crate::model::channel::Channel;
use crate::model::gateway::presence::{Activity, ClientStatus, Status};
use crate::model::guild::member::Member;
use crate::model::guild::{Emoji, Guild, GuildStatus, PartialGuild, Role};
use crate::model::id::{ChannelId, GuildId, MessageId, RoleId, UserId};
use crate::model::user::{CurrentUser, User};
use crate::model::voice::VoiceState;

verus! {

#[derive(Clone, Debug, PartialEq, Eq)]
pub struct BanAdd {
    pub guild_id: GuildId,
    pub user: User,
}

#[derive(Clone, Debug, PartialEq, Eq)]
pub struct BanRemove {
    pub guild_id: GuildId,
    pub user: User,
}

#[derive(Clone, Debug, PartialEq, Eq)]
pub struct ChannelCreate(pub Channel);

#[derive(Clone, Debug, PartialEq, Eq)]
pub struct ChannelDelete(pub Channel);

#[derive(Clone, Debug, PartialEq, Eq)]
pub struct ChannelPinsUpdate {
    pub channel_id: ChannelId,
    pub guild_id: Option<GuildId>,
    pub last_pin_timestamp: Option<String>,
}

#[derive(Clone, Debug, PartialEq, Eq)]
pub struct ChannelUpdate(pub Channel);

#[derive(Clone, Debug, PartialEq, Eq)]
pub struct GuildCreate(pub Guild);

#[derive(Clone, Debug, PartialEq, Eq)]
pub struct GuildDelete {
    pub id: GuildId,
    pub unavailable: bool,
}

#[derive(Clone, Debug, PartialEq, Eq)]
pub struct GuildEmojisUpdate {
    pub emojis: Vec<Emoji>,
    pub guild_id: GuildId,
}

#[derive(Clone, Debug, PartialEq, Eq)]
pub struct GuildIntegrationsUpdate {
    pub guild_id: GuildId,
}

#[derive(Clone, Debug, PartialEq, Eq)]
pub struct GuildUpdate(pub PartialGuild);

#[derive(Clone, Debug, PartialEq, Eq)]
pub struct InviteDelete {
    pub channel_id: ChannelId,
    pub code: String,
    pub guild_id: GuildId,
}

#[derive(Clone, Debug, PartialEq, Eq)]
pub struct MemberChunk {
    pub chunk_count: u32,
    pub chunk_index: u32,
    pub guild_id: GuildId,
    pub members: Vec<Member>,
}

#[derive(Clone, Debug, PartialEq, Eq)]
pub struct MemberRemove {
    pub guild_id: GuildId,
    pub user: User,
}

#[derive(Clone, Debug, PartialEq, Eq)]
pub struct MemberUpdate {
    pub guild_id: GuildId,
    pub joined_at: String,
    pub nick: Option<String>,
    pub premium_since: Option<String>,
    pub roles: Vec<RoleId>,
    pub user: User,
}

#[derive(Clone, Debug, PartialEq, Eq)]
pub struct MessageCreate(pub Message);

#[derive(Clone, Debug, PartialEq, Eq)]
pub struct MessageDelete {
    pub channel_id: ChannelId,
    pub guild_id: Option<GuildId>,
    pub id: MessageId,
}

#[derive(Clone, Debug, PartialEq, Eq)]
pub struct MessageDeleteBulk {
    pub channel_id: ChannelId,
    pub guild_id: Option<GuildId>,
    pub ids: Vec<MessageId>,
}

/// A message edit: each field is present only if the edit carries it.
#[derive(Clone, Debug, PartialEq, Eq)]
pub struct MessageUpdate {
    pub attachments: Option<Vec<Attachment>>,
    pub author: Option<User>,
    pub channel_id: ChannelId,
    pub content: Option<String>,
    pub edited_timestamp: Option<String>,
    pub embeds: Option<Vec<Embed>>,
    pub guild_id: Option<GuildId>,
    pub id: MessageId,
    pub mention_everyone: Option<bool>,
    pub mention_roles: Option<Vec<RoleId>>,
    pub mentions: Option<Vec<User>>,
    pub pinned: Option<bool>,
    pub timestamp: Option<String>,
    pub tts: Option<bool>,
}

#[derive(Clone, Debug, PartialEq, Eq)]
pub struct PresenceUpdate {
    pub activities: Vec<Activity>,
    pub client_status: ClientStatus,
    pub guild_id: GuildId,
    pub status: Status,
    pub user_id: UserId,
}

/// One reaction made or withdrawn.
#[derive(Clone, Debug, PartialEq, Eq)]
pub struct Reaction {
    pub channel_id: ChannelId,
    pub emoji: ReactionType,
    pub guild_id: Option<GuildId>,
    pub member: Option<Member>,
    pub message_id: MessageId,
    pub user_id: UserId,
}

#[derive(Clone, Debug, PartialEq, Eq)]
pub struct ReactionAdd(pub Reaction);

#[derive(Clone, Debug, PartialEq, Eq)]
pub struct ReactionRemove(pub Reaction);

#[derive(Clone, Debug, PartialEq, Eq)]
pub struct ReactionRemoveAll {
    pub channel_id: ChannelId,
    pub guild_id: Option<GuildId>,
    pub message_id: MessageId,
}

#[derive(Clone, Debug, PartialEq, Eq)]
pub struct ReactionRemoveEmoji {
    pub channel_id: ChannelId,
    pub emoji: ReactionType,
    pub guild_id: GuildId,
    pub message_id: MessageId,
}

#[derive(Clone, Debug, PartialEq, Eq)]
pub struct Ready {
    pub guilds: Vec<GuildStatus>,
    pub session_id: String,
    pub shard: Option<(u64, u64)>,
    pub user: CurrentUser,
    pub version: u64,
}

#[derive(Clone, Debug, PartialEq, Eq)]
pub struct RoleCreate {
    pub guild_id: GuildId,
    pub role: Role,
}

#[derive(Clone, Debug, PartialEq, Eq)]
pub struct RoleDelete {
    pub guild_id: GuildId,
    pub role_id: RoleId,
}

#[derive(Clone, Debug, PartialEq, Eq)]
pub struct RoleUpdate {
    pub guild_id: GuildId,
    pub role: Role,
}

#[derive(Clone, Debug, PartialEq, Eq)]
pub struct TypingStart {
    pub channel_id: ChannelId,
    pub guild_id: Option<GuildId>,
    pub timestamp: u64,
    pub user_id: UserId,
}

#[derive(Clone, Debug, PartialEq, Eq)]
pub struct UserUpdate(pub CurrentUser);

#[derive(Clone, Debug, PartialEq, Eq)]
pub struct VoiceServerUpdate {
    pub endpoint: Option<String>,
    pub guild_id: Option<GuildId>,
    pub token: String,
}

#[derive(Clone, Debug, PartialEq, Eq)]
pub struct VoiceStateUpdate(pub VoiceState);

#[derive(Clone, Debug, PartialEq, Eq)]
pub struct WebhooksUpdate {
    pub channel_id: ChannelId,
    pub guild_id: GuildId,
}

} // verus!
