use twilight_core::cache::config::{
    EventType, ALL, GUILD_CREATE, MESSAGE_CREATE, REACTION_ADD, REACTION_REMOVE,
};
use twilight_core::cache::InMemoryCache;
use twilight_core::model::channel::message::{Message, MessageReaction, MessageType, ReactionType};
use twilight_core::model::channel::{
    Channel, ChannelType, Group, GuildChannel, PrivateChannel, TextChannel, VoiceChannel,
};
use twilight_core::model::gateway::event::{Event, ShardNotice};
use twilight_core::model::gateway::payload::member_add::MemberAdd;
use twilight_core::model::gateway::payload::{
    ChannelCreate, ChannelDelete, ChannelPinsUpdate, ChannelUpdate, GuildCreate, GuildDelete,
    GuildEmojisUpdate, GuildUpdate, MemberChunk, MemberRemove, MemberUpdate, MessageCreate,
    MessageDelete, MessageDeleteBulk, MessageUpdate, PresenceUpdate, Reaction, ReactionAdd,
    ReactionRemove, ReactionRemoveAll, Ready, RoleCreate, RoleDelete, RoleUpdate, UserUpdate,
    VoiceStateUpdate,
};
use twilight_core::model::gateway::presence::{ClientStatus, Presence, Status};
use twilight_core::model::guild::member::Member;
use twilight_core::model::guild::{
    DefaultMessageNotificationLevel, Emoji, ExplicitContentFilter, Guild, GuildStatus, MfaLevel,
    PartialGuild, PremiumTier, Role, UnavailableGuild, VerificationLevel,
};
use twilight_core::model::id::{ChannelId, EmojiId, GuildId, MessageId, RoleId, UserId};
use twilight_core::model::user::{CurrentUser, User};
use twilight_core::model::voice::VoiceState;

fn user(id: u64, name: &str) -> User {
    User {
        avatar: None,
        bot: false,
        discriminator: 1,
        email: None,
        flags: None,
        id: UserId(id),
        locale: None,
        mfa_enabled: None,
        name: name.to_owned(),
        premium_type: None,
        public_flags: None,
        system: None,
        verified: None,
    }
}

fn current_user(id: u64) -> CurrentUser {
    CurrentUser {
        avatar: None,
        bot: true,
        discriminator: 7,
        email: None,
        id: UserId(id),
        mfa_enabled: false,
        name: "bot".to_owned(),
        verified: true,
    }
}

fn member(guild: u64, id: u64, name: &str) -> Member {
    Member {
        deaf: false,
        guild_id: GuildId(guild),
        hoisted_role: None,
        joined_at: None,
        mute: false,
        nick: None,
        premium_since: None,
        roles: Vec::new(),
        user: user(id, name),
    }
}

fn text_channel(guild: u64, id: u64) -> GuildChannel {
    GuildChannel::Text(TextChannel {
        guild_id: Some(GuildId(guild)),
        id: ChannelId(id),
        kind: ChannelType::GuildText,
        last_message_id: None,
        last_pin_timestamp: None,
        name: "general".to_owned(),
        nsfw: false,
        parent_id: None,
        permission_overwrites: Vec::new(),
        position: 0,
        rate_limit_per_user: None,
        topic: None,
    })
}

fn voice_channel(guild: u64, id: u64) -> GuildChannel {
    GuildChannel::Voice(VoiceChannel {
        bitrate: 64000,
        guild_id: Some(GuildId(guild)),
        id: ChannelId(id),
        kind: ChannelType::GuildVoice,
        name: "voice".to_owned(),
        parent_id: None,
        permission_overwrites: Vec::new(),
        position: 1,
        user_limit: None,
    })
}

fn role(id: u64, name: &str) -> Role {
    Role {
        color: 0,
        hoist: false,
        id: RoleId(id),
        managed: false,
        mentionable: false,
        name: name.to_owned(),
        permissions: 0,
        position: 0,
    }
}

fn emoji(id: u64, name: &str) -> Emoji {
    Emoji {
        animated: false,
        available: true,
        id: EmojiId(id),
        managed: false,
        name: name.to_owned(),
        require_colons: true,
        roles: Vec::new(),
    }
}

fn presence(guild: u64, user: u64) -> Presence {
    Presence {
        activities: Vec::new(),
        client_status: ClientStatus { desktop: Some(Status::Online), mobile: None, web: None },
        guild_id: GuildId(guild),
        status: Status::Online,
        user_id: UserId(user),
    }
}

fn voice_state(guild: Option<u64>, user: u64) -> VoiceState {
    VoiceState {
        channel_id: Some(ChannelId(50)),
        deaf: false,
        guild_id: guild.map(GuildId),
        member: None,
        mute: false,
        self_deaf: false,
        self_mute: false,
        self_stream: false,
        session_id: "session".to_owned(),
        suppress: false,
        token: None,
        user_id: UserId(user),
    }
}

fn guild(id: u64) -> Guild {
    Guild {
        afk_channel_id: None,
        afk_timeout: 0,
        application_id: None,
        approximate_member_count: None,
        approximate_presence_count: None,
        banner: None,
        channels: Vec::new(),
        default_message_notifications: DefaultMessageNotificationLevel::Mentions,
        description: None,
        discovery_splash: None,
        emojis: Vec::new(),
        explicit_content_filter: ExplicitContentFilter::Off,
        features: Vec::new(),
        icon: None,
        id: GuildId(id),
        joined_at: None,
        large: false,
        lazy: None,
        max_members: None,
        max_presences: None,
        max_video_channel_users: None,
        member_count: None,
        members: Vec::new(),
        mfa_level: MfaLevel::Off,
        name: "guild".to_owned(),
        owner_id: UserId(1),
        owner: None,
        permissions: None,
        preferred_locale: "en_us".to_owned(),
        premium_subscription_count: None,
        premium_tier: PremiumTier::Tier0,
        presences: Vec::new(),
        region: "us".to_owned(),
        roles: Vec::new(),
        rules_channel_id: None,
        splash: None,
        system_channel_flags: 0,
        system_channel_id: None,
        unavailable: false,
        vanity_url_code: None,
        verification_level: VerificationLevel::Low,
        voice_states: Vec::new(),
        widget_channel_id: None,
        widget_enabled: None,
    }
}

fn full_guild(id: u64) -> Guild {
    let mut g = guild(id);
    g.channels = vec![text_channel(id, 100 + id), voice_channel(id, 200 + id)];
    g.emojis = vec![emoji(300 + id, "smile")];
    g.members = vec![member(id, 10, "ann"), member(id, 11, "bob")];
    g.presences = vec![presence(id, 10)];
    g.roles = vec![role(400 + id, "admin")];
    g.voice_states = vec![voice_state(None, 11)];
    g
}

fn partial_guild(id: u64, name: &str) -> PartialGuild {
    PartialGuild {
        id: GuildId(id),
        afk_channel_id: None,
        afk_timeout: 300,
        application_id: None,
        banner: None,
        default_message_notifications: DefaultMessageNotificationLevel::All,
        description: Some("described".to_owned()),
        discovery_splash: None,
        emojis: Vec::new(),
        explicit_content_filter: ExplicitContentFilter::Off,
        features: vec!["NEWS".to_owned()],
        icon: None,
        max_members: Some(1000),
        max_presences: None,
        member_count: None,
        mfa_level: MfaLevel::Elevated,
        name: name.to_owned(),
        owner_id: UserId(9),
        owner: Some(false),
        permissions: Some(8),
        preferred_locale: "de".to_owned(),
        premium_subscription_count: None,
        premium_tier: PremiumTier::Tier2,
        region: "eu".to_owned(),
        roles: Vec::new(),
        rules_channel_id: None,
        splash: None,
        system_channel_flags: 0,
        system_channel_id: None,
        verification_level: VerificationLevel::High,
        vanity_url_code: None,
        widget_channel_id: None,
        widget_enabled: Some(true),
    }
}

fn message(channel: u64, id: u64, author: u64, guild: Option<u64>) -> Message {
    Message {
        attachments: Vec::new(),
        author: user(author, "author"),
        channel_id: ChannelId(channel),
        content: format!("message {}", id),
        edited_timestamp: None,
        embeds: Vec::new(),
        flags: None,
        guild_id: guild.map(GuildId),
        id: MessageId(id),
        kind: MessageType::Regular,
        member: None,
        mention_everyone: false,
        mention_roles: Vec::new(),
        mentions: vec![user(70, "mentioned"), user(71, "also")],
        pinned: false,
        reactions: Vec::new(),
        timestamp: "then".to_owned(),
        tts: false,
        webhook_id: None,
    }
}

fn unicode(name: &str) -> ReactionType {
    ReactionType::Unicode { name: name.to_owned() }
}

fn reaction(channel: u64, message: u64, emoji: ReactionType, user: u64) -> Reaction {
    Reaction {
        channel_id: ChannelId(channel),
        emoji,
        guild_id: None,
        member: None,
        message_id: MessageId(message),
        user_id: UserId(user),
    }
}

fn sized(size: usize) -> InMemoryCache {
    InMemoryCache::builder().message_cache_size(size).build()
}

#[test]
fn message_eviction_drops_the_greatest_cached_id() {
    let mut cache = sized(1);
    cache.update(MessageCreate(message(2, 10, 3, None)));
    cache.update(MessageCreate(message(2, 20, 3, None)));

    assert_eq!(cache.message_count(ChannelId(2)), Some(1));
    assert!(cache.message(ChannelId(2), MessageId(10)).is_none());
    assert!(cache.message(ChannelId(2), MessageId(20)).is_some());
}

#[test]
fn message_eviction_keeps_every_lesser_id() {
    let mut cache = sized(3);
    for id in [10u64, 20, 30] {
        cache.update(MessageCreate(message(2, id, 3, None)));
    }
    cache.update(MessageCreate(message(2, 40, 3, None)));
    for (id, kept) in [(10u64, true), (20, true), (30, false), (40, true)] {
        assert_eq!(cache.message(ChannelId(2), MessageId(id)).is_some(), kept);
    }
    assert_eq!(cache.message(ChannelId(2), MessageId(10)).unwrap().content, "message 10");

    cache.update(MessageCreate(message(2, 10, 3, None)));
    for (id, kept) in [(10u64, true), (20, true), (30, false), (40, false)] {
        assert_eq!(cache.message(ChannelId(2), MessageId(id)).is_some(), kept);
    }
}

#[test]
fn message_with_lesser_id_displaces_the_greatest() {
    let mut cache = sized(2);
    cache.update(MessageCreate(message(2, 10, 3, None)));
    cache.update(MessageCreate(message(2, 30, 3, None)));
    cache.update(MessageCreate(message(2, 20, 3, None)));

    assert_eq!(cache.message_count(ChannelId(2)), Some(2));
    assert!(cache.message(ChannelId(2), MessageId(10)).is_some());
    assert!(cache.message(ChannelId(2), MessageId(20)).is_some());
    assert!(cache.message(ChannelId(2), MessageId(30)).is_none());
}

#[test]
fn message_with_known_id_is_replaced() {
    let mut cache = sized(1);
    cache.update(MessageCreate(message(2, 10, 3, None)));
    let mut again = message(2, 10, 3, None);
    again.content = "edited".to_owned();
    cache.update(MessageCreate(again));

    assert_eq!(cache.message_count(ChannelId(2)), Some(1));
    assert_eq!(cache.message(ChannelId(2), MessageId(10)).unwrap().content, "edited");
}

#[test]
fn cache_of_size_zero_keeps_no_message() {
    let mut cache = sized(0);
    cache.update(MessageCreate(message(2, 10, 3, Some(1))));

    assert_eq!(cache.message_count(ChannelId(2)), Some(0));
    assert!(cache.message(ChannelId(2), MessageId(10)).is_none());
}

#[test]
fn message_of_a_non_member_refreshes_only_a_known_author() {
    let mut cache = sized(5);
    cache.update(MessageCreate(message(2, 10, 3, Some(1))));
    assert!(cache.user(UserId(3)).is_none());

    cache.update(MemberAdd(member(1, 3, "old name")));
    cache.update(MessageCreate(message(2, 11, 3, Some(9))));
    assert_eq!(cache.user(UserId(3)).unwrap().name, "author");
    assert_eq!(cache.user_guilds(UserId(3)).unwrap().into_iter().collect::<Vec<u64>>(), vec![1]);
}

#[test]
fn guild_delete_takes_the_guild_off_its_users() {
    let mut cache = InMemoryCache::new();
    cache.update(GuildCreate(full_guild(1)));
    cache.update(MemberAdd(member(2, 10, "ann")));
    assert_eq!(cache.user_guilds(UserId(10)).unwrap().into_iter().collect::<Vec<u64>>(), vec![1, 2]);
    assert_eq!(cache.user_guilds(UserId(11)).unwrap().into_iter().collect::<Vec<u64>>(), vec![1]);

    cache.update(GuildDelete { id: GuildId(1), unavailable: false });

    assert_eq!(cache.user_guilds(UserId(10)).unwrap().into_iter().collect::<Vec<u64>>(), vec![2]);
    assert_eq!(cache.user(UserId(10)).unwrap().name, "ann");
    assert!(cache.user(UserId(11)).is_none());
    assert!(cache.user_guilds(UserId(11)).is_none());
}

#[test]
fn guild_create_again_forgets_users_that_are_members_no_more() {
    let mut cache = InMemoryCache::new();
    cache.update(GuildCreate(full_guild(1)));
    let mut again = guild(1);
    again.members = vec![member(1, 11, "bob")];
    cache.update(GuildCreate(again));

    assert!(cache.user(UserId(10)).is_none());
    assert_eq!(cache.user_guilds(UserId(11)).unwrap().into_iter().collect::<Vec<u64>>(), vec![1]);
}

#[test]
fn messages_never_exceed_the_limit() {
    let mut cache = sized(3);
    for id in [5u64, 1, 9, 3, 7, 2, 8, 4, 6, 10] {
        cache.update(Event::MessageCreate(MessageCreate(message(2, id, 3, None))));
        assert!(cache.message_count(ChannelId(2)).unwrap() <= 3);
        cache.update(Event::MessageCreate(MessageCreate(message(4, id, 3, None))));
        assert!(cache.message_count(ChannelId(4)).unwrap() <= 3);
    }
    assert_eq!(cache.message_count(ChannelId(2)), Some(3));
    for id in [1u64, 2, 10] {
        assert!(cache.message(ChannelId(2), MessageId(id)).is_some());
    }
    cache.update(Event::MessageDelete(MessageDelete {
        channel_id: ChannelId(2),
        guild_id: None,
        id: MessageId(2),
    }));
    assert_eq!(cache.message_count(ChannelId(2)), Some(2));
}

#[test]
fn message_keeps_mentions_by_id() {
    let mut cache = sized(5);
    cache.update(MessageCreate(message(2, 10, 3, None)));

    let cached = cache.message(ChannelId(2), MessageId(10)).unwrap();
    assert_eq!(cached.mentions, vec![UserId(70), UserId(71)]);
    assert_eq!(cached.author, UserId(3));
    assert_eq!(cached.content, "message 10");
}

#[test]
fn message_without_guild_does_not_intern_an_unknown_author() {
    let mut cache = sized(5);
    cache.update(MessageCreate(message(2, 10, 3, None)));

    assert!(cache.user(UserId(3)).is_none());
}

#[test]
fn message_delete_and_bulk_delete_remove_messages() {
    let mut cache = sized(10);
    for id in 1..=5u64 {
        cache.update(MessageCreate(message(2, id, 3, None)));
    }
    cache.update(MessageDelete { channel_id: ChannelId(2), guild_id: None, id: MessageId(3) });
    assert!(cache.message(ChannelId(2), MessageId(3)).is_none());
    assert_eq!(cache.message_count(ChannelId(2)), Some(4));

    cache.update(MessageDeleteBulk {
        channel_id: ChannelId(2),
        guild_id: None,
        ids: vec![MessageId(1), MessageId(5), MessageId(42)],
    });
    assert_eq!(cache.message_count(ChannelId(2)), Some(2));
    assert!(cache.message(ChannelId(2), MessageId(2)).is_some());
    assert!(cache.message(ChannelId(2), MessageId(4)).is_some());

    cache.update(MessageDelete { channel_id: ChannelId(9), guild_id: None, id: MessageId(3) });
    assert_eq!(cache.message_count(ChannelId(9)), None);
}

#[test]
fn message_update_changes_only_what_it_carries() {
    let mut cache = sized(10);
    cache.update(MessageCreate(message(2, 10, 3, None)));
    cache.update(MessageUpdate {
        attachments: None,
        author: None,
        channel_id: ChannelId(2),
        content: Some("new".to_owned()),
        edited_timestamp: Some("now".to_owned()),
        embeds: None,
        guild_id: None,
        id: MessageId(10),
        mention_everyone: Some(true),
        mention_roles: Some(vec![RoleId(4)]),
        mentions: Some(vec![user(80, "x")]),
        pinned: Some(true),
        timestamp: None,
        tts: None,
    });

    let cached = cache.message(ChannelId(2), MessageId(10)).unwrap();
    assert_eq!(cached.content, "new");
    assert_eq!(cached.edited_timestamp, Some("now".to_owned()));
    assert!(cached.mention_everyone);
    assert_eq!(cached.mention_roles, vec![RoleId(4)]);
    assert_eq!(cached.mentions, vec![UserId(80)]);
    assert!(cached.pinned);
    assert_eq!(cached.timestamp, "then");
    assert!(!cached.tts);
}

#[test]
fn message_update_of_unknown_message_changes_nothing() {
    let mut cache = sized(10);
    cache.update(MessageCreate(message(2, 10, 3, None)));
    cache.update(MessageUpdate {
        attachments: None,
        author: None,
        channel_id: ChannelId(2),
        content: Some("new".to_owned()),
        edited_timestamp: None,
        embeds: None,
        guild_id: None,
        id: MessageId(11),
        mention_everyone: None,
        mention_roles: None,
        mentions: None,
        pinned: None,
        timestamp: None,
        tts: None,
    });

    assert_eq!(cache.message_count(ChannelId(2)), Some(1));
    assert_eq!(cache.message(ChannelId(2), MessageId(10)).unwrap().content, "message 10");
}

#[test]
fn reaction_add_then_remove_restores_the_reactions() {
    let mut cache = sized(10);
    let mut first = message(2, 10, 3, None);
    first.reactions = vec![MessageReaction { count: 2, emoji: unicode("a"), me: false }];
    cache.update(MessageCreate(first));
    let before = cache.message(ChannelId(2), MessageId(10)).unwrap().reactions;

    cache.update(ReactionAdd(reaction(2, 10, unicode("b"), 5)));
    assert_eq!(
        cache.message(ChannelId(2), MessageId(10)).unwrap().reactions,
        vec![
            MessageReaction { count: 2, emoji: unicode("a"), me: false },
            MessageReaction { count: 1, emoji: unicode("b"), me: false },
        ]
    );
    cache.update(ReactionRemove(reaction(2, 10, unicode("b"), 5)));
    assert_eq!(cache.message(ChannelId(2), MessageId(10)).unwrap().reactions, before);

    cache.update(ReactionAdd(reaction(2, 10, unicode("a"), 5)));
    assert_eq!(
        cache.message(ChannelId(2), MessageId(10)).unwrap().reactions,
        vec![MessageReaction { count: 3, emoji: unicode("a"), me: false }]
    );
    cache.update(ReactionRemove(reaction(2, 10, unicode("a"), 5)));
    assert_eq!(cache.message(ChannelId(2), MessageId(10)).unwrap().reactions, before);
}

#[test]
fn reaction_by_the_current_user_is_marked() {
    let mut cache = sized(10);
    cache.update(UserUpdate(current_user(5)));
    cache.update(MessageCreate(message(2, 10, 3, None)));

    cache.update(ReactionAdd(reaction(2, 10, unicode("a"), 6)));
    cache.update(ReactionAdd(reaction(2, 10, unicode("a"), 5)));
    assert_eq!(
        cache.message(ChannelId(2), MessageId(10)).unwrap().reactions,
        vec![MessageReaction { count: 2, emoji: unicode("a"), me: true }]
    );
    cache.update(ReactionRemove(reaction(2, 10, unicode("a"), 5)));
    assert_eq!(
        cache.message(ChannelId(2), MessageId(10)).unwrap().reactions,
        vec![MessageReaction { count: 1, emoji: unicode("a"), me: false }]
    );
    cache.update(ReactionRemove(reaction(2, 10, unicode("a"), 6)));
    assert!(cache.message(ChannelId(2), MessageId(10)).unwrap().reactions.is_empty());
    cache.update(ReactionRemove(reaction(2, 10, unicode("a"), 6)));
    assert!(cache.message(ChannelId(2), MessageId(10)).unwrap().reactions.is_empty());
}

#[test]
fn reaction_emojis_are_told_apart_by_kind_and_attributes() {
    let mut cache = sized(10);
    cache.update(MessageCreate(message(2, 10, 3, None)));
    let custom = ReactionType::Custom { animated: false, id: EmojiId(1), name: Some("a".to_owned()) };
    let other = ReactionType::Custom { animated: false, id: EmojiId(2), name: Some("a".to_owned()) };

    cache.update(ReactionAdd(reaction(2, 10, unicode("a"), 5)));
    cache.update(ReactionAdd(reaction(2, 10, custom.clone(), 5)));
    cache.update(ReactionAdd(reaction(2, 10, other, 5)));
    cache.update(ReactionAdd(reaction(2, 10, custom, 6)));

    let reactions = cache.message(ChannelId(2), MessageId(10)).unwrap().reactions;
    assert_eq!(reactions.len(), 3);
    assert_eq!(reactions[0].count, 1);
    assert_eq!(reactions[1].count, 2);
    assert_eq!(reactions[2].count, 1);
}

#[test]
fn reaction_count_stays_at_the_greatest_number() {
    let mut cache = sized(10);
    let mut first = message(2, 10, 3, None);
    first.reactions = vec![MessageReaction { count: u64::MAX, emoji: unicode("a"), me: false }];
    cache.update(MessageCreate(first));
    cache.update(ReactionAdd(reaction(2, 10, unicode("a"), 5)));

    assert_eq!(cache.message(ChannelId(2), MessageId(10)).unwrap().reactions[0].count, u64::MAX);
}

#[test]
fn reaction_remove_all_clears_the_reactions() {
    let mut cache = sized(10);
    cache.update(MessageCreate(message(2, 10, 3, None)));
    cache.update(ReactionAdd(reaction(2, 10, unicode("a"), 5)));
    cache.update(ReactionAdd(reaction(2, 10, unicode("b"), 5)));
    cache.update(ReactionRemoveAll {
        channel_id: ChannelId(2),
        guild_id: None,
        message_id: MessageId(10),
    });

    assert!(cache.message(ChannelId(2), MessageId(10)).unwrap().reactions.is_empty());
}

#[test]
fn reaction_on_unknown_message_changes_nothing() {
    let mut cache = sized(10);
    cache.update(ReactionAdd(reaction(2, 10, unicode("a"), 5)));

    assert_eq!(cache.message_count(ChannelId(2)), None);
}

#[test]
fn guild_delete_leaves_nothing_of_the_guild() {
    let mut cache = InMemoryCache::new();
    cache.update(GuildCreate(full_guild(1)));
    cache.update(GuildCreate(full_guild(2)));
    assert!(cache.channel(ChannelId(101)).is_some());
    assert!(cache.voice_state(GuildId(1), UserId(11)).is_some());

    cache.update(GuildDelete { id: GuildId(1), unavailable: false });

    assert!(cache.guild(GuildId(1)).is_none());
    assert!(cache.channel(ChannelId(101)).is_none());
    assert!(cache.channel(ChannelId(201)).is_none());
    assert!(cache.emoji(EmojiId(301)).is_none());
    assert!(cache.role(RoleId(401)).is_none());
    assert!(cache.member(GuildId(1), UserId(10)).is_none());
    assert!(cache.member(GuildId(1), UserId(11)).is_none());
    assert!(cache.presence(GuildId(1), UserId(10)).is_none());
    assert!(cache.voice_state(GuildId(1), UserId(11)).is_none());
    assert!(cache.guild_channels(GuildId(1)).is_none());
    assert!(cache.guild_emojis(GuildId(1)).is_none());
    assert!(cache.guild_roles(GuildId(1)).is_none());
    assert!(cache.members(GuildId(1)).is_none());
    assert!(cache.presences(GuildId(1)).is_none());
    assert!(cache.voice_states(GuildId(1)).is_none());

    assert!(cache.guild(GuildId(2)).is_some());
    assert!(cache.channel(ChannelId(102)).is_some());
    assert!(cache.emoji(EmojiId(302)).is_some());
    assert!(cache.role(RoleId(402)).is_some());
    assert_eq!(cache.members(GuildId(2)).unwrap().len(), 2);
    assert!(cache.member(GuildId(2), UserId(10)).is_some());
    assert!(cache.voice_state(GuildId(2), UserId(11)).is_some());
}

#[test]
fn guild_create_caches_what_the_guild_owns() {
    let mut cache = InMemoryCache::new();
    cache.update(Event::GuildCreate(GuildCreate(full_guild(1))));

    assert_eq!(cache.guild(GuildId(1)).unwrap().name, "guild");
    assert_eq!(cache.guild_count(), 1);
    assert_eq!(cache.guild_channel_count(), 2);
    assert_eq!(cache.guild_channels(GuildId(1)).unwrap().len(), 2);
    assert!(cache.guild_emojis(GuildId(1)).unwrap().contains(&301));
    assert!(cache.guild_roles(GuildId(1)).unwrap().contains(&401));
    assert_eq!(cache.role(RoleId(401)).unwrap().name, "admin");
    assert_eq!(cache.emoji(EmojiId(301)).unwrap().name, "smile");
    assert_eq!(cache.member(GuildId(1), UserId(10)).unwrap().user.name, "ann");
    assert!(cache.presences(GuildId(1)).unwrap().contains(&10));
    assert_eq!(cache.voice_state(GuildId(1), UserId(11)).unwrap().guild_id, Some(GuildId(1)));
    assert!(cache.voice_states(GuildId(1)).unwrap().contains(&11));
    assert_eq!(cache.user(UserId(10)).unwrap().name, "ann");
    assert!(cache.user_guilds(UserId(10)).unwrap().contains(&1));
}

#[test]
fn guild_create_again_replaces_what_the_guild_owned() {
    let mut cache = InMemoryCache::new();
    cache.update(GuildCreate(full_guild(1)));
    let mut again = guild(1);
    again.channels = vec![text_channel(1, 777)];
    cache.update(GuildCreate(again));

    assert!(cache.channel(ChannelId(101)).is_none());
    assert!(cache.channel(ChannelId(777)).is_some());
    assert_eq!(cache.guild_channel_count(), 1);
    assert!(cache.member(GuildId(1), UserId(10)).is_none());
    assert!(cache.members(GuildId(1)).unwrap().is_empty());
    assert!(cache.role(RoleId(401)).is_none());
}

#[test]
fn guild_update_of_unknown_guild_changes_nothing() {
    let mut cache = InMemoryCache::new();
    cache.update(GuildUpdate(partial_guild(1, "new")));

    assert!(cache.guild(GuildId(1)).is_none());
    assert_eq!(cache.guild_count(), 0);
}

#[test]
fn guild_update_sets_defaults_for_missing_limits() {
    let mut cache = InMemoryCache::new();
    let mut first = guild(1);
    first.max_presences = Some(7);
    first.premium_subscription_count = Some(3);
    first.joined_at = Some("joined".to_owned());
    cache.update(GuildCreate(first));
    cache.update(GuildUpdate(partial_guild(1, "new")));

    let cached = cache.guild(GuildId(1)).unwrap();
    assert_eq!(cached.max_presences, Some(25000));
    assert_eq!(cached.premium_subscription_count, Some(0));
    assert_eq!(cached.name, "new");
    assert_eq!(cached.afk_timeout, 300);
    assert_eq!(cached.owner_id, UserId(9));
    assert_eq!(cached.features, vec!["NEWS".to_owned()]);
    assert_eq!(cached.description, Some("described".to_owned()));
    assert_eq!(cached.region, "eu");
    assert_eq!(cached.preferred_locale, "de");
    assert_eq!(cached.premium_tier, PremiumTier::Tier2);
    assert_eq!(cached.verification_level, VerificationLevel::High);
    assert_eq!(cached.widget_enabled, Some(true));
    assert_eq!(cached.max_members, Some(1000));
    assert_eq!(cached.permissions, Some(8));
    assert_eq!(cached.joined_at, Some("joined".to_owned()));
}

#[test]
fn guild_update_keeps_given_limits() {
    let mut cache = InMemoryCache::new();
    cache.update(GuildCreate(guild(1)));
    let mut update = partial_guild(1, "new");
    update.max_presences = Some(12);
    update.premium_subscription_count = Some(4);
    cache.update(GuildUpdate(update));

    let cached = cache.guild(GuildId(1)).unwrap();
    assert_eq!(cached.max_presences, Some(12));
    assert_eq!(cached.premium_subscription_count, Some(4));
}

#[test]
fn unavailable_guild_is_never_also_cached() {
    let mut cache = InMemoryCache::new();
    cache.update(GuildCreate(full_guild(1)));
    cache.update(UnavailableGuild { id: GuildId(1), unavailable: true });
    assert!(cache.guild(GuildId(1)).is_none());
    assert!(cache.is_unavailable(GuildId(1)));
    assert!(cache.channel(ChannelId(101)).is_some());

    cache.update(GuildCreate(guild(1)));
    assert!(cache.has_guild(GuildId(1)));
    assert!(!cache.is_unavailable(GuildId(1)));
}

#[test]
fn ready_sets_the_current_user_and_the_guilds() {
    let mut cache = InMemoryCache::new();
    cache.update(Event::Ready(Ready {
        guilds: vec![
            GuildStatus::Offline(UnavailableGuild { id: GuildId(1), unavailable: true }),
            GuildStatus::Online(full_guild(2)),
        ],
        session_id: "s".to_owned(),
        shard: Some((0, 1)),
        user: current_user(5),
        version: 6,
    }));

    assert_eq!(cache.current_user().unwrap().id, UserId(5));
    assert!(cache.is_unavailable(GuildId(1)));
    assert!(cache.guild(GuildId(1)).is_none());
    assert!(cache.guild(GuildId(2)).is_some());
    assert!(cache.channel(ChannelId(102)).is_some());
}

#[test]
fn user_update_overwrites_the_current_user() {
    let mut cache = InMemoryCache::new();
    assert!(cache.current_user().is_none());
    cache.update(UserUpdate(current_user(5)));
    cache.update(UserUpdate(current_user(6)));

    assert_eq!(cache.current_user(), Some(current_user(6)));
}

#[test]
fn member_remove_forgets_a_user_known_nowhere_else() {
    let mut cache = InMemoryCache::new();
    cache.update(MemberAdd(member(1, 10, "ann")));
    assert_eq!(cache.user(UserId(10)).unwrap().name, "ann");
    assert!(cache.members(GuildId(1)).unwrap().contains(&10));

    cache.update(MemberRemove { guild_id: GuildId(1), user: user(10, "ann") });

    assert!(cache.member(GuildId(1), UserId(10)).is_none());
    assert!(cache.user(UserId(10)).is_none());
    assert!(cache.user_guilds(UserId(10)).is_none());
    assert!(cache.members(GuildId(1)).unwrap().is_empty());
}

#[test]
fn member_remove_keeps_a_user_known_elsewhere() {
    let mut cache = InMemoryCache::new();
    cache.update(MemberAdd(member(1, 10, "ann")));
    cache.update(MemberAdd(member(2, 10, "ann")));
    cache.update(MemberAdd(member(3, 10, "ann")));

    cache.update(Event::MemberRemove(MemberRemove { guild_id: GuildId(1), user: user(10, "ann") }));

    assert!(cache.member(GuildId(1), UserId(10)).is_none());
    assert!(cache.member(GuildId(2), UserId(10)).is_some());
    let guilds = cache.user_guilds(UserId(10)).unwrap();
    assert_eq!(guilds.into_iter().collect::<Vec<u64>>(), vec![2, 3]);
}

#[test]
fn member_remove_of_unknown_member_changes_nothing() {
    let mut cache = InMemoryCache::new();
    cache.update(MemberAdd(member(1, 10, "ann")));
    cache.update(MemberRemove { guild_id: GuildId(1), user: user(11, "bob") });
    cache.update(MemberRemove { guild_id: GuildId(5), user: user(10, "ann") });

    assert!(cache.member(GuildId(1), UserId(10)).is_some());
    assert!(cache.user(UserId(10)).is_some());
}

#[test]
fn member_add_stores_the_member_under_its_guild() {
    let mut cache = InMemoryCache::new();
    cache.update(Event::MemberAdd(MemberAdd(member(1, 10, "ann"))));

    let cached = cache.member(GuildId(1), UserId(10)).unwrap();
    assert_eq!(cached.guild_id, GuildId(1));
    assert_eq!(cached.user.id, UserId(10));
}

#[test]
fn member_update_patches_a_cached_member() {
    let mut cache = InMemoryCache::new();
    cache.update(MemberAdd(member(1, 10, "ann")));
    let update = MemberUpdate {
        guild_id: GuildId(1),
        joined_at: "later".to_owned(),
        nick: Some("annie".to_owned()),
        premium_since: None,
        roles: vec![RoleId(4), RoleId(5)],
        user: user(10, "ann"),
    };
    cache.update(update.clone());
    let cached = cache.member(GuildId(1), UserId(10)).unwrap();
    assert_eq!(cached.nick, Some("annie".to_owned()));
    assert_eq!(cached.roles, vec![RoleId(4), RoleId(5)]);
    assert_eq!(cached.joined_at, Some("later".to_owned()));

    let mut unknown = update;
    unknown.guild_id = GuildId(2);
    cache.update(unknown);
    assert!(cache.member(GuildId(2), UserId(10)).is_none());
}

#[test]
fn member_chunk_caches_every_member() {
    let mut cache = InMemoryCache::new();
    cache.update(MemberChunk {
        chunk_count: 1,
        chunk_index: 0,
        guild_id: GuildId(1),
        members: vec![member(1, 10, "ann"), member(1, 11, "bob"), member(1, 10, "anne")],
    });

    assert_eq!(cache.members(GuildId(1)).unwrap().len(), 2);
    assert_eq!(cache.member(GuildId(1), UserId(10)).unwrap().user.name, "anne");
    assert_eq!(cache.user(UserId(11)).unwrap().name, "bob");

    cache.update(MemberChunk {
        chunk_count: 1,
        chunk_index: 0,
        guild_id: GuildId(9),
        members: Vec::new(),
    });
    assert!(cache.members(GuildId(9)).is_none());
}

#[test]
fn presence_update_upserts_by_guild_and_user() {
    let mut cache = InMemoryCache::new();
    cache.update(PresenceUpdate {
        activities: Vec::new(),
        client_status: ClientStatus { desktop: None, mobile: None, web: None },
        guild_id: GuildId(1),
        status: Status::Idle,
        user_id: UserId(10),
    });
    assert_eq!(cache.presence(GuildId(1), UserId(10)).unwrap().status, Status::Idle);
    cache.update(PresenceUpdate {
        activities: Vec::new(),
        client_status: ClientStatus { desktop: None, mobile: None, web: None },
        guild_id: GuildId(1),
        status: Status::Offline,
        user_id: UserId(10),
    });

    assert_eq!(cache.presence(GuildId(1), UserId(10)).unwrap().status, Status::Offline);
    assert_eq!(cache.presences(GuildId(1)).unwrap().len(), 1);
}

#[test]
fn voice_state_without_guild_is_dropped() {
    let mut cache = InMemoryCache::new();
    cache.update(VoiceStateUpdate(voice_state(None, 10)));
    assert!(cache.voice_states(GuildId(1)).is_none());

    cache.update(Event::VoiceStateUpdate(VoiceStateUpdate(voice_state(Some(1), 10))));
    assert!(cache.voice_state(GuildId(1), UserId(10)).is_some());
    assert!(cache.voice_states(GuildId(1)).unwrap().contains(&10));
}

#[test]
fn roles_are_upserted_and_deleted_with_their_index() {
    let mut cache = InMemoryCache::new();
    cache.update(RoleCreate { guild_id: GuildId(1), role: role(4, "a") });
    cache.update(RoleUpdate { guild_id: GuildId(1), role: role(4, "b") });
    cache.update(RoleUpdate { guild_id: GuildId(1), role: role(5, "c") });
    assert_eq!(cache.role(RoleId(4)).unwrap().name, "b");
    assert_eq!(cache.guild_roles(GuildId(1)).unwrap().len(), 2);

    cache.update(RoleDelete { guild_id: GuildId(1), role_id: RoleId(4) });
    assert!(cache.role(RoleId(4)).is_none());
    assert_eq!(cache.guild_roles(GuildId(1)).unwrap().into_iter().collect::<Vec<u64>>(), vec![5]);

    cache.update(RoleDelete { guild_id: GuildId(1), role_id: RoleId(99) });
    assert_eq!(cache.guild_roles(GuildId(1)).unwrap().len(), 1);
}

#[test]
fn role_that_changes_guild_leaves_the_old_guilds_list() {
    let mut cache = InMemoryCache::new();
    cache.update(RoleCreate { guild_id: GuildId(1), role: role(4, "a") });
    cache.update(RoleCreate { guild_id: GuildId(2), role: role(4, "a") });

    assert!(cache.guild_roles(GuildId(1)).unwrap().is_empty());
    assert!(cache.guild_roles(GuildId(2)).unwrap().contains(&4));
    cache.update(GuildDelete { id: GuildId(1), unavailable: false });
    assert!(cache.role(RoleId(4)).is_some());
}

#[test]
fn emojis_update_replaces_the_guilds_emojis() {
    let mut cache = InMemoryCache::new();
    cache.update(GuildCreate(full_guild(1)));
    cache.update(GuildCreate(full_guild(2)));
    cache.update(GuildEmojisUpdate {
        emojis: vec![emoji(7, "x"), emoji(8, "y")],
        guild_id: GuildId(1),
    });

    assert!(cache.emoji(EmojiId(301)).is_none());
    assert_eq!(cache.emoji(EmojiId(7)).unwrap().name, "x");
    assert_eq!(cache.guild_emojis(GuildId(1)).unwrap().len(), 2);
    assert!(cache.emoji(EmojiId(302)).is_some());

    cache.update(GuildEmojisUpdate { emojis: Vec::new(), guild_id: GuildId(1) });
    assert!(cache.emoji(EmojiId(7)).is_none());
    assert!(cache.guild_emojis(GuildId(1)).unwrap().is_empty());
}

#[test]
fn channel_update_twice_is_the_same_as_once() {
    let mut cache = InMemoryCache::new();
    cache.update(ChannelUpdate(Channel::Guild(text_channel(1, 2))));
    cache.update(ChannelUpdate(Channel::Guild(text_channel(1, 2))));

    assert_eq!(cache.guild_channel_count(), 1);
    assert_eq!(cache.guild_channels(GuildId(1)).unwrap().into_iter().collect::<Vec<u64>>(), vec![2]);
    assert_eq!(cache.channel(ChannelId(2)), Some(text_channel(1, 2)));
}

#[test]
fn channel_without_guild_is_not_cached() {
    let mut cache = InMemoryCache::new();
    let channel = match text_channel(1, 2) {
        GuildChannel::Text(mut text) => {
            text.guild_id = None;
            GuildChannel::Text(text)
        }
        other => other,
    };
    cache.update(ChannelCreate(Channel::Guild(channel)));

    assert_eq!(cache.guild_channel_count(), 0);
}

#[test]
fn private_channels_and_groups_are_cached_and_deleted() {
    let mut cache = InMemoryCache::new();
    let private = PrivateChannel {
        id: ChannelId(5),
        last_message_id: None,
        last_pin_timestamp: None,
        kind: ChannelType::Private,
        recipients: vec![user(10, "ann")],
    };
    let group = Group {
        application_id: None,
        icon: None,
        id: ChannelId(6),
        kind: ChannelType::Group,
        last_message_id: None,
        last_pin_timestamp: None,
        name: Some("friends".to_owned()),
        owner_id: UserId(10),
        recipients: Vec::new(),
    };
    cache.update(ChannelCreate(Channel::Private(private.clone())));
    cache.update(ChannelCreate(Channel::Group(group.clone())));
    assert_eq!(cache.private_channel(ChannelId(5)), Some(private.clone()));
    assert_eq!(cache.group(ChannelId(6)), Some(group.clone()));

    cache.update(ChannelPinsUpdate {
        channel_id: ChannelId(5),
        guild_id: None,
        last_pin_timestamp: Some("pinned".to_owned()),
    });
    cache.update(ChannelPinsUpdate {
        channel_id: ChannelId(6),
        guild_id: None,
        last_pin_timestamp: Some("pinned too".to_owned()),
    });
    assert_eq!(
        cache.private_channel(ChannelId(5)).unwrap().last_pin_timestamp,
        Some("pinned".to_owned())
    );
    assert_eq!(cache.group(ChannelId(6)).unwrap().last_pin_timestamp, Some("pinned too".to_owned()));

    cache.update(ChannelDelete(Channel::Private(private)));
    cache.update(ChannelDelete(Channel::Group(group)));
    assert!(cache.private_channel(ChannelId(5)).is_none());
    assert!(cache.group(ChannelId(6)).is_none());
}

#[test]
fn pins_update_changes_text_channels_only() {
    let mut cache = InMemoryCache::new();
    cache.update(ChannelCreate(Channel::Guild(text_channel(1, 2))));
    cache.update(ChannelCreate(Channel::Guild(voice_channel(1, 3))));
    cache.update(ChannelPinsUpdate {
        channel_id: ChannelId(2),
        guild_id: Some(GuildId(1)),
        last_pin_timestamp: Some("pinned".to_owned()),
    });
    cache.update(ChannelPinsUpdate {
        channel_id: ChannelId(3),
        guild_id: Some(GuildId(1)),
        last_pin_timestamp: Some("pinned".to_owned()),
    });
    cache.update(ChannelPinsUpdate {
        channel_id: ChannelId(4),
        guild_id: Some(GuildId(1)),
        last_pin_timestamp: Some("pinned".to_owned()),
    });

    match cache.channel(ChannelId(2)).unwrap() {
        GuildChannel::Text(text) => assert_eq!(text.last_pin_timestamp, Some("pinned".to_owned())),
        _ => panic!("a text channel was cached"),
    }
    assert_eq!(cache.channel(ChannelId(3)), Some(voice_channel(1, 3)));
    assert!(cache.channel(ChannelId(4)).is_none());
    assert_eq!(cache.guild_channels(GuildId(1)).unwrap().len(), 2);
}

#[test]
fn events_whose_kind_is_not_wanted_change_nothing() {
    let mut cache = InMemoryCache::builder().event_types(EventType(MESSAGE_CREATE)).build();
    cache.update(GuildCreate(full_guild(1)));
    cache.update(MemberAdd(member(1, 10, "ann")));
    cache.update(ReactionAdd(reaction(2, 10, unicode("a"), 5)));
    assert!(cache.guild(GuildId(1)).is_none());
    assert!(cache.member(GuildId(1), UserId(10)).is_none());

    cache.update(MessageCreate(message(2, 10, 3, None)));
    cache.update(ReactionAdd(reaction(2, 10, unicode("a"), 5)));
    assert!(cache.message(ChannelId(2), MessageId(10)).unwrap().reactions.is_empty());
}

#[test]
fn event_kinds_can_be_joined() {
    let kinds = EventType(GUILD_CREATE).union(EventType(REACTION_ADD));
    assert!(kinds.contains(EventType(GUILD_CREATE)));
    assert!(kinds.contains(EventType(REACTION_ADD)));
    assert!(!kinds.contains(EventType(REACTION_REMOVE)));
    assert!(EventType::all().contains(kinds));
    assert!(!EventType::empty().contains(EventType(GUILD_CREATE)));
    assert_eq!(EventType::all(), EventType(ALL));

    let cache = InMemoryCache::builder().event_types(kinds).message_cache_size(4).build();
    assert!(cache.wants(GUILD_CREATE));
    assert!(!cache.wants(MESSAGE_CREATE));
    assert_eq!(cache.config().message_cache_size(), 4);
    assert_eq!(cache.config().event_types(), kinds);
    assert_eq!(InMemoryCache::new().config().message_cache_size(), 100);
}

#[test]
fn events_that_carry_no_state_change_nothing() {
    let mut cache = InMemoryCache::new();
    cache.update(GuildCreate(full_guild(1)));
    cache.update(Event::GatewayHeartbeatAck);
    cache.update(Event::GatewayHeartbeat(4));
    cache.update(Event::Resumed);
    cache.update(Event::PresencesReplace);
    cache.update(Event::ShardConnected(ShardNotice { shard_id: 0 }));
    cache.update(Event::ShardPayload(vec![1, 2, 3]));

    assert_eq!(cache.guild_count(), 1);
    assert_eq!(cache.guild_channel_count(), 2);
}

#[test]
fn reactions_stay_tidy() {
    let mut cache = sized(10);
    cache.update(MessageCreate(message(2, 10, 3, None)));
    for (emoji, user, add) in [
        ("a", 1, true),
        ("b", 1, true),
        ("a", 2, true),
        ("c", 3, true),
        ("b", 1, false),
        ("a", 1, false),
        ("d", 9, false),
        ("a", 2, false),
        ("c", 3, true),
    ] {
        if add {
            cache.update(Event::ReactionAdd(ReactionAdd(reaction(2, 10, unicode(emoji), user))));
        } else {
            cache.update(Event::ReactionRemove(ReactionRemove(reaction(2, 10, unicode(emoji), user))));
        }
        let reactions = cache.message(ChannelId(2), MessageId(10)).unwrap().reactions;
        for (i, one) in reactions.iter().enumerate() {
            assert!(one.count >= 1);
            for other in &reactions[i + 1..] {
                assert!(!one.emoji.is_same(&other.emoji));
            }
        }
    }
    assert_eq!(
        cache.message(ChannelId(2), MessageId(10)).unwrap().reactions,
        vec![MessageReaction { count: 2, emoji: unicode("c"), me: false }]
    );
}
