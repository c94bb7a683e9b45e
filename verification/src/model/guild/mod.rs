//! Guilds and the entities they own.

pub mod member;

use vstd::prelude::*;
use crate::model::channel::GuildChannel;
use crate::model::gateway::presence::Presence;
use crate::model::guild::member::Member;
use crate::model::id::{ApplicationId, ChannelId, EmojiId, GuildId, RoleId, UserId};
use crate::model::voice::VoiceState;

verus! {

#[derive(Clone, Copy, Debug, PartialEq, Eq, Hash)]
pub enum DefaultMessageNotificationLevel {
    All,
    Mentions,
}

#[derive(Clone, Copy, Debug, PartialEq, Eq, Hash)]
pub enum ExplicitContentFilter {
    Off,
    MembersWithoutRole,
    AllMembers,
}

#[derive(Clone, Copy, Debug, PartialEq, Eq, Hash)]
pub enum MfaLevel {
    Off,
    Elevated,
}

#[derive(Clone, Copy, Debug, PartialEq, Eq, Hash)]
pub enum PremiumTier {
    Tier0,
    Tier1,
    Tier2,
    Tier3,
}

#[derive(Clone, Copy, Debug, PartialEq, Eq, Hash)]
pub enum VerificationLevel {
    Off,
    Low,
    Medium,
    High,
    VeryHigh,
}

#[derive(Clone, Debug, PartialEq, Eq)]
pub struct Role {
    pub color: u32,
    pub hoist: bool,
    pub id: RoleId,
    pub managed: bool,
    pub mentionable: bool,
    pub name: String,
    pub permissions: u64,
    pub position: i64,
}

#[derive(Clone, Debug, PartialEq, Eq)]
pub struct Emoji {
    pub animated: bool,
    pub available: bool,
    pub id: EmojiId,
    pub managed: bool,
    pub name: String,
    pub require_colons: bool,
    pub roles: Vec<RoleId>,
}

/// A guild as `GuildCreate` and `Ready` deliver it, with everything it owns.
#[derive(Clone, Debug, PartialEq, Eq)]
pub struct Guild {
    pub afk_channel_id: Option<ChannelId>,
    pub afk_timeout: u64,
    pub application_id: Option<ApplicationId>,
    pub approximate_member_count: Option<u64>,
    pub approximate_presence_count: Option<u64>,
    pub banner: Option<String>,
    pub channels: Vec<GuildChannel>,
    pub default_message_notifications: DefaultMessageNotificationLevel,
    pub description: Option<String>,
    pub discovery_splash: Option<String>,
    pub emojis: Vec<Emoji>,
    pub explicit_content_filter: ExplicitContentFilter,
    pub features: Vec<String>,
    pub icon: Option<String>,
    pub id: GuildId,
    pub joined_at: Option<String>,
    pub large: bool,
    pub lazy: Option<bool>,
    pub max_members: Option<u64>,
    pub max_presences: Option<u64>,
    pub max_video_channel_users: Option<u64>,
    pub member_count: Option<u64>,
    pub members: Vec<Member>,
    pub mfa_level: MfaLevel,
    pub name: String,
    pub owner_id: UserId,
    pub owner: Option<bool>,
    pub permissions: Option<u64>,
    pub preferred_locale: String,
    pub premium_subscription_count: Option<u64>,
    pub premium_tier: PremiumTier,
    pub presences: Vec<Presence>,
    pub region: String,
    pub roles: Vec<Role>,
    pub rules_channel_id: Option<ChannelId>,
    pub splash: Option<String>,
    pub system_channel_flags: u64,
    pub system_channel_id: Option<ChannelId>,
    pub unavailable: bool,
    pub vanity_url_code: Option<String>,
    pub verification_level: VerificationLevel,
    pub voice_states: Vec<VoiceState>,
    pub widget_channel_id: Option<ChannelId>,
    pub widget_enabled: Option<bool>,
}

/// The fields of a guild that `GuildUpdate` carries.
#[derive(Clone, Debug, PartialEq, Eq)]
pub struct PartialGuild {
    pub id: GuildId,
    pub afk_channel_id: Option<ChannelId>,
    pub afk_timeout: u64,
    pub application_id: Option<ApplicationId>,
    pub banner: Option<String>,
    pub default_message_notifications: DefaultMessageNotificationLevel,
    pub description: Option<String>,
    pub discovery_splash: Option<String>,
    pub emojis: Vec<Emoji>,
    pub explicit_content_filter: ExplicitContentFilter,
    pub features: Vec<String>,
    pub icon: Option<String>,
    pub max_members: Option<u64>,
    pub max_presences: Option<u64>,
    pub member_count: Option<u64>,
    pub mfa_level: MfaLevel,
    pub name: String,
    pub owner_id: UserId,
    pub owner: Option<bool>,
    pub permissions: Option<u64>,
    pub preferred_locale: String,
    pub premium_subscription_count: Option<u64>,
    pub premium_tier: PremiumTier,
    pub region: String,
    pub roles: Vec<Role>,
    pub rules_channel_id: Option<ChannelId>,
    pub splash: Option<String>,
    pub system_channel_flags: u64,
    pub system_channel_id: Option<ChannelId>,
    pub verification_level: VerificationLevel,
    pub vanity_url_code: Option<String>,
    pub widget_channel_id: Option<ChannelId>,
    pub widget_enabled: Option<bool>,
}

/// A guild that is known to exist but whose data is not available.
#[derive(Clone, Copy, Debug, PartialEq, Eq, Hash)]
pub struct UnavailableGuild {
    pub id: GuildId,
    pub unavailable: bool,
}

/// A guild listed in `Ready`: either only its id, or the whole guild.
#[derive(Clone, Debug, PartialEq, Eq)]
pub enum GuildStatus {
    Offline(UnavailableGuild),
    Online(Guild),
}

} // verus!
