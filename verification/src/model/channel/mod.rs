//! Channels: guild channels, one-to-one private channels and groups.

pub mod message;

use vstd::prelude::*;
use crate::model::id::{ApplicationId, ChannelId, GuildId, MessageId, UserId};
use crate::model::user::User;

verus! {

#[derive(Clone, Copy, Debug, PartialEq, Eq, Hash)]
pub enum ChannelType {
    GuildText,
    Private,
    GuildVoice,
    Group,
    GuildCategory,
    GuildNews,
    GuildStore,
}

#[derive(Clone, Copy, Debug, PartialEq, Eq, Hash)]
pub enum PermissionOverwriteType {
    Member(UserId),
    Role(crate::model::id::RoleId),
}

#[derive(Clone, Debug, PartialEq, Eq)]
pub struct PermissionOverwrite {
    pub allow: u64,
    pub deny: u64,
    pub kind: PermissionOverwriteType,
}

#[derive(Clone, Debug, PartialEq, Eq)]
pub struct CategoryChannel {
    pub guild_id: Option<GuildId>,
    pub id: ChannelId,
    pub kind: ChannelType,
    pub name: String,
    pub permission_overwrites: Vec<PermissionOverwrite>,
    pub position: i64,
}

#[derive(Clone, Debug, PartialEq, Eq)]
pub struct TextChannel {
    pub guild_id: Option<GuildId>,
    pub id: ChannelId,
    pub kind: ChannelType,
    pub last_message_id: Option<MessageId>,
    pub last_pin_timestamp: Option<String>,
    pub name: String,
    pub nsfw: bool,
    pub parent_id: Option<ChannelId>,
    pub permission_overwrites: Vec<PermissionOverwrite>,
    pub position: i64,
    pub rate_limit_per_user: Option<u64>,
    pub topic: Option<String>,
}

#[derive(Clone, Debug, PartialEq, Eq)]
pub struct VoiceChannel {
    pub bitrate: u64,
    pub guild_id: Option<GuildId>,
    pub id: ChannelId,
    pub kind: ChannelType,
    pub name: String,
    pub parent_id: Option<ChannelId>,
    pub permission_overwrites: Vec<PermissionOverwrite>,
    pub position: i64,
    pub user_limit: Option<u64>,
}

#[derive(Clone, Debug, PartialEq, Eq)]
pub enum GuildChannel {
    Category(CategoryChannel),
    Text(TextChannel),
    Voice(VoiceChannel),
}

impl GuildChannel {
    /// The channel's own id, whatever its kind.
    pub open spec fn spec_id(&self) -> ChannelId {
        match self {
            GuildChannel::Category(c) => c.id,
            GuildChannel::Text(c) => c.id,
            GuildChannel::Voice(c) => c.id,
        }
    }

    /// The guild the channel says it belongs to.
    pub open spec fn spec_guild_id(&self) -> Option<GuildId> {
        match self {
            GuildChannel::Category(c) => c.guild_id,
            GuildChannel::Text(c) => c.guild_id,
            GuildChannel::Voice(c) => c.guild_id,
        }
    }

    /// The channel's own id, whatever its kind.
    #[verifier::when_used_as_spec(spec_id)]
    pub fn id(&self) -> (id: ChannelId)
        ensures
            id == self.spec_id(),
    {
        match self {
            GuildChannel::Category(c) => c.id,
            GuildChannel::Text(c) => c.id,
            GuildChannel::Voice(c) => c.id,
        }
    }

    /// The guild the channel says it belongs to, if the payload carried one.
    #[verifier::when_used_as_spec(spec_guild_id)]
    pub fn guild_id(&self) -> (id: Option<GuildId>)
        ensures
            id == self.spec_guild_id(),
    {
        match self {
            GuildChannel::Category(c) => c.guild_id,
            GuildChannel::Text(c) => c.guild_id,
            GuildChannel::Voice(c) => c.guild_id,
        }
    }
}

#[derive(Clone, Debug, PartialEq, Eq)]
pub struct PrivateChannel {
    pub id: ChannelId,
    pub last_message_id: Option<MessageId>,
    pub last_pin_timestamp: Option<String>,
    pub kind: ChannelType,
    pub recipients: Vec<User>,
}

#[derive(Clone, Debug, PartialEq, Eq)]
pub struct Group {
    pub application_id: Option<ApplicationId>,
    pub icon: Option<String>,
    pub id: ChannelId,
    pub kind: ChannelType,
    pub last_message_id: Option<MessageId>,
    pub last_pin_timestamp: Option<String>,
    pub name: Option<String>,
    pub owner_id: UserId,
    pub recipients: Vec<User>,
}

#[derive(Clone, Debug, PartialEq, Eq)]
pub enum Channel {
    Group(Group),
    Guild(GuildChannel),
    Private(PrivateChannel),
}

} // verus!
