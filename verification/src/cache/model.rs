//! The rows of the cache's tables.

use vstd::prelude::*;
use crate::model::channel::message::{Attachment, Embed, MessageReaction, MessageType};
use crate::model::guild::{
    DefaultMessageNotificationLevel, ExplicitContentFilter, MfaLevel, PremiumTier,
    VerificationLevel,
};
use crate::model::id::{ApplicationId, ChannelId, GuildId, MessageId, RoleId, UserId, WebhookId};
use crate::model::user::User;

verus! {

/// A row that belongs to a guild, together with that guild's id.
#[derive(Clone, Debug, PartialEq, Eq)]
pub struct GuildItem<T> {
    pub data: T,
    pub guild_id: GuildId,
}

/// A guild without the entities it owns, which have tables of their own.
#[derive(Clone, Debug, PartialEq, Eq)]
pub struct CachedGuild {
    pub id: GuildId,
    pub afk_channel_id: Option<ChannelId>,
    pub afk_timeout: u64,
    pub application_id: Option<ApplicationId>,
    pub banner: Option<String>,
    pub default_message_notifications: DefaultMessageNotificationLevel,
    pub description: Option<String>,
    pub discovery_splash: Option<String>,
    pub explicit_content_filter: ExplicitContentFilter,
    pub features: Vec<String>,
    pub icon: Option<String>,
    pub joined_at: Option<String>,
    pub large: bool,
    pub lazy: Option<bool>,
    pub max_members: Option<u64>,
    pub max_presences: Option<u64>,
    pub member_count: Option<u64>,
    pub mfa_level: MfaLevel,
    pub name: String,
    pub owner: Option<bool>,
    pub owner_id: UserId,
    pub permissions: Option<u64>,
    pub preferred_locale: String,
    pub premium_subscription_count: Option<u64>,
    pub premium_tier: PremiumTier,
    pub region: String,
    pub rules_channel_id: Option<ChannelId>,
    pub splash: Option<String>,
    pub system_channel_id: Option<ChannelId>,
    pub system_channel_flags: u64,
    pub unavailable: bool,
    pub verification_level: VerificationLevel,
    pub vanity_url_code: Option<String>,
    pub widget_channel_id: Option<ChannelId>,
    pub widget_enabled: Option<bool>,
}

/// A message as the cache keeps it: the author and the mentioned users are
/// kept by id only.
#[derive(Clone, Debug, PartialEq, Eq)]
pub struct CachedMessage {
    pub id: MessageId,
    pub attachments: Vec<Attachment>,
    pub author: UserId,
    pub channel_id: ChannelId,
    pub content: String,
    pub edited_timestamp: Option<String>,
    pub embeds: Vec<Embed>,
    pub flags: Option<u64>,
    pub kind: MessageType,
    pub mention_everyone: bool,
    pub mention_roles: Vec<RoleId>,
    pub mentions: Vec<UserId>,
    pub pinned: bool,
    pub reactions: Vec<MessageReaction>,
    pub timestamp: String,
    pub tts: bool,
    pub webhook_id: Option<WebhookId>,
}

/// What a cached message holds, with the lists that the cache changes
/// (mentions, reactions) as sequences.
pub struct MessageView {
    pub id: MessageId,
    pub attachments: Vec<Attachment>,
    pub author: UserId,
    pub channel_id: ChannelId,
    pub content: String,
    pub edited_timestamp: Option<String>,
    pub embeds: Vec<Embed>,
    pub flags: Option<u64>,
    pub kind: MessageType,
    pub mention_everyone: bool,
    pub mention_roles: Vec<RoleId>,
    pub mentions: Seq<UserId>,
    pub pinned: bool,
    pub reactions: Seq<MessageReaction>,
    pub timestamp: String,
    pub tts: bool,
    pub webhook_id: Option<WebhookId>,
}

impl View for CachedMessage {
    type V = MessageView;

    open spec fn view(&self) -> MessageView {
        MessageView {
            id: self.id,
            attachments: self.attachments,
            author: self.author,
            channel_id: self.channel_id,
            content: self.content,
            edited_timestamp: self.edited_timestamp,
            embeds: self.embeds,
            flags: self.flags,
            kind: self.kind,
            mention_everyone: self.mention_everyone,
            mention_roles: self.mention_roles,
            mentions: self.mentions@,
            pinned: self.pinned,
            reactions: self.reactions@,
            timestamp: self.timestamp,
            tts: self.tts,
            webhook_id: self.webhook_id,
        }
    }
}

/// The views of cached messages, each under the id of its message.
pub open spec fn message_views(list: Map<u64, CachedMessage>) -> Map<u64, MessageView> {
    list.map_values(|m: CachedMessage| m@)
}

/// The ids of `users`, in the same order.
pub open spec fn user_ids(users: Seq<User>) -> Seq<UserId> {
    users.map_values(|u: User| u.id)
}

/// Collects the ids of `users`.
pub fn ids_of(users: &Vec<User>) -> (ids: Vec<UserId>)
    ensures
        ids@ == user_ids(users@),
{
    let mut ids: Vec<UserId> = Vec::new();
    let mut i: usize = 0;
    while i < users.len()
        invariant
            i <= users@.len(),
            ids@ == user_ids(users@.subrange(0, i as int)),
        decreases users@.len() - i,
    {
        ids.push(users[i].id);
        i = i + 1;
        assert(ids@ =~= user_ids(users@.subrange(0, i as int)));
    }
    assert(users@.subrange(0, i as int) =~= users@);
    ids
}

} // verus!
