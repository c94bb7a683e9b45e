use twilight_core::cache::config::{EventType, MESSAGE_CREATE, VOICE_STATE_UPDATE};
use twilight_core::cache::InMemoryCache;
use twilight_core::model::channel::message::{Message, MessageType};
use twilight_core::model::channel::{Channel, ChannelType, GuildChannel, TextChannel};
use twilight_core::model::gateway::payload::{
    ChannelDelete, ChannelUpdate, GuildCreate, GuildUpdate, MessageCreate, VoiceStateUpdate,
};
use twilight_core::model::guild::member::PartialMember;
use twilight_core::model::guild::{
    DefaultMessageNotificationLevel, ExplicitContentFilter, Guild, MfaLevel, PartialGuild,
    PremiumTier, VerificationLevel,
};
use twilight_core::model::id::{ChannelId, GuildId, MessageId, UserId};
use twilight_core::model::user::User;
use twilight_core::model::voice::VoiceState;

fn guild_channel_text() -> (GuildId, ChannelId, GuildChannel) {
    let guild_id = GuildId(1);
    let channel_id = ChannelId(2);
    let channel = GuildChannel::Text(TextChannel {
        guild_id: Some(guild_id),
        id: channel_id,
        kind: ChannelType::GuildText,
        last_message_id: None,
        last_pin_timestamp: None,
        name: "test".to_owned(),
        nsfw: false,
        parent_id: None,
        permission_overwrites: Vec::new(),
        position: 3,
        rate_limit_per_user: None,
        topic: None,
    });

    (guild_id, channel_id, channel)
}

#[test]
fn test_guild_update() {
    let mut cache = InMemoryCache::new();
    let guild = Guild {
        afk_channel_id: None,
        afk_timeout: 0,
        application_id: None,
        approximate_member_count: None,
        approximate_presence_count: None,
        banner: None,
        channels: Vec::new(),
        default_message_notifications: DefaultMessageNotificationLevel::Mentions,
        description: None,
        discovery_splash: None,
        emojis: Vec::new(),
        explicit_content_filter: ExplicitContentFilter::Off,
        features: Vec::new(),
        icon: None,
        id: GuildId(1),
        joined_at: None,
        large: false,
        lazy: None,
        max_members: None,
        max_presences: None,
        max_video_channel_users: None,
        member_count: None,
        members: Vec::new(),
        mfa_level: MfaLevel::Off,
        name: "test".to_owned(),
        owner_id: UserId(1),
        owner: None,
        permissions: None,
        preferred_locale: "en_us".to_owned(),
        premium_subscription_count: None,
        premium_tier: PremiumTier::Tier0,
        presences: Vec::new(),
        region: "us".to_owned(),
        roles: Vec::new(),
        rules_channel_id: None,
        splash: None,
        system_channel_flags: 0,
        system_channel_id: None,
        unavailable: false,
        vanity_url_code: None,
        verification_level: VerificationLevel::VeryHigh,
        voice_states: Vec::new(),
        widget_channel_id: None,
        widget_enabled: None,
    };

    cache.update(GuildCreate(guild.clone()));

    let mutation = PartialGuild {
        id: guild.id,
        afk_channel_id: guild.afk_channel_id,
        afk_timeout: guild.afk_timeout,
        application_id: guild.application_id,
        banner: guild.banner,
        default_message_notifications: guild.default_message_notifications,
        description: guild.description,
        discovery_splash: guild.discovery_splash,
        emojis: guild.emojis,
        explicit_content_filter: guild.explicit_content_filter,
        features: guild.features,
        icon: guild.icon,
        max_members: guild.max_members,
        max_presences: guild.max_presences,
        member_count: guild.member_count,
        mfa_level: guild.mfa_level,
        name: "test2222".to_owned(),
        owner_id: UserId(2),
        owner: guild.owner,
        permissions: guild.permissions,
        preferred_locale: guild.preferred_locale,
        premium_subscription_count: guild.premium_subscription_count,
        premium_tier: guild.premium_tier,
        region: guild.region,
        roles: guild.roles,
        rules_channel_id: guild.rules_channel_id,
        splash: guild.splash,
        system_channel_flags: guild.system_channel_flags,
        system_channel_id: guild.system_channel_id,
        verification_level: guild.verification_level,
        vanity_url_code: guild.vanity_url_code,
        widget_channel_id: guild.widget_channel_id,
        widget_enabled: guild.widget_enabled,
    };

    cache.update(GuildUpdate(mutation.clone()));

    assert_eq!(cache.guild(guild.id).unwrap().name, mutation.name);
    assert_eq!(cache.guild(guild.id).unwrap().owner_id, mutation.owner_id);
    assert_eq!(cache.guild(guild.id).unwrap().id, mutation.id);
}

#[test]
fn test_channel_delete_guild() {
    let mut cache = InMemoryCache::new();
    let (guild_id, channel_id, channel) = guild_channel_text();

    cache.cache_guild_channel(guild_id, channel.clone());
    assert_eq!(1, cache.guild_channel_count());
    assert!(cache
        .guild_channels(guild_id)
        .unwrap()
        .contains(&channel_id.0));

    cache.update(ChannelDelete(Channel::Guild(channel)));
    assert_eq!(0, cache.guild_channel_count());
    assert!(cache.guild_channels(guild_id).unwrap().is_empty());
}

#[test]
fn test_channel_update_guild() {
    let mut cache = InMemoryCache::new();
    let (guild_id, channel_id, channel) = guild_channel_text();

    cache.update(ChannelUpdate(Channel::Guild(channel)));
    assert_eq!(1, cache.guild_channel_count());
    assert!(cache
        .guild_channels(guild_id)
        .unwrap()
        .contains(&channel_id.0));
}

#[test]
fn test_voice_states_with_no_cached_guilds() {
    let mut cache = InMemoryCache::builder()
        .event_types(EventType(VOICE_STATE_UPDATE))
        .build();

    cache.update(VoiceStateUpdate(VoiceState {
        channel_id: None,
        deaf: false,
        guild_id: Some(GuildId(1)),
        member: None,
        mute: false,
        self_deaf: false,
        self_mute: false,
        self_stream: false,
        session_id: "38fj3jfkh3pfho3prh2".to_string(),
        suppress: false,
        token: None,
        user_id: UserId(1),
    }));
}

#[test]
fn test_message_create() {
    let mut cache = InMemoryCache::builder()
        .event_types(EventType(MESSAGE_CREATE))
        .message_cache_size(1)
        .build();
    let msg = Message {
        attachments: Vec::new(),
        author: User {
            avatar: Some("".to_owned()),
            bot: false,
            discriminator: 1,
            email: None,
            flags: None,
            id: UserId(3),
            locale: None,
            mfa_enabled: None,
            name: "test".to_owned(),
            premium_type: None,
            public_flags: None,
            system: None,
            verified: None,
        },
        channel_id: ChannelId(2),
        content: "ping".to_owned(),
        edited_timestamp: None,
        embeds: Vec::new(),
        flags: Some(0),
        guild_id: Some(GuildId(1)),
        id: MessageId(4),
        kind: MessageType::Regular,
        member: Some(PartialMember {
            deaf: false,
            joined_at: None,
            mute: false,
            nick: Some("member nick".to_owned()),
            roles: Vec::new(),
        }),
        mention_everyone: false,
        mention_roles: Vec::new(),
        mentions: Vec::new(),
        pinned: false,
        reactions: Vec::new(),
        timestamp: String::new(),
        tts: false,
        webhook_id: None,
    };

    cache.update(MessageCreate(msg));

    {
        let guilds = cache.user_guilds(UserId(3)).unwrap();
        assert_eq!(guilds.len(), 1);
    }
    assert_eq!(
        cache.member(GuildId(1), UserId(3)).unwrap().user.name,
        "test"
    );
    {
        let count = cache.message_count(ChannelId(2)).unwrap();
        assert_eq!(count, 1);
    }
}
