//! What a cache holds, as mathematical maps and sets, and what each change
//! to it means.

use vstd::prelude::*;
use crate::cache::config::EventType;
use crate::cache::model::{user_ids, CachedGuild, GuildItem, MessageView};
use crate::model::channel::message::{Message, MessageReaction, ReactionType};
use crate::model::gateway::payload::MessageUpdate;
use crate::model::guild::member::PartialMember;
use crate::model::id::{GuildId, MessageId, UserId};
use crate::model::channel::{Channel, Group, GuildChannel, PrivateChannel, TextChannel};
use crate::model::guild::GuildStatus;
use crate::model::gateway::payload::MemberUpdate;
use crate::model::gateway::presence::Presence;
use crate::model::guild::member::Member;
use crate::model::guild::{Emoji, Guild, PartialGuild, Role};
use crate::model::user::{CurrentUser, User};
use crate::model::voice::VoiceState;

verus! {

/// The ids that `index` lists for `guild`: none where it has no entry.
pub open spec fn ids_in(index: Map<u64, Set<u64>>, guild: u64) -> Set<u64> {
    if index.contains_key(guild) {
        index[guild]
    } else {
        Set::empty()
    }
}

/// `index` with `id` listed for `guild`.
pub open spec fn index_add(index: Map<u64, Set<u64>>, guild: u64, id: u64) -> Map<u64, Set<u64>> {
    index.insert(guild, ids_in(index, guild).insert(id))
}

/// `index` with `id` no longer listed for `guild`. An entry that becomes
/// empty stays.
pub open spec fn index_drop(index: Map<u64, Set<u64>>, guild: u64, id: u64) -> Map<u64, Set<u64>> {
    if index.contains_key(guild) {
        index.insert(guild, index[guild].remove(id))
    } else {
        index
    }
}

/// `index` with `id` listed for `guild` and for no other guild that `owner`
/// names.
pub open spec fn index_move(
    index: Map<u64, Set<u64>>,
    owner: Option<u64>,
    guild: u64,
    id: u64,
) -> Map<u64, Set<u64>> {
    match owner {
        Some(g) if g != guild => index_add(index_drop(index, g, id), guild, id),
        _ => index_add(index, guild, id),
    }
}

/// The guild that owns the row under `id`, if there is such a row.
pub open spec fn owner_of<T>(rows: Map<u64, GuildItem<T>>, id: u64) -> Option<u64> {
    if rows.contains_key(id) {
        Some(rows[id].guild_id.0)
    } else {
        None
    }
}

/// The rows of `rows` that guilds other than `guild` own.
pub open spec fn rows_outside<T>(rows: Map<u64, GuildItem<T>>, guild: u64) -> Map<
    u64,
    GuildItem<T>,
> {
    Map::new(|id: u64| rows.contains_key(id) && rows[id].guild_id.0 != guild, |id: u64| rows[id])
}

/// The rows of `rows` whose key names a guild other than `guild`.
pub open spec fn pairs_outside<T>(rows: Map<(u64, u64), T>, guild: u64) -> Map<(u64, u64), T> {
    Map::new(|k: (u64, u64)| rows.contains_key(k) && k.0 != guild, |k: (u64, u64)| rows[k])
}

/// The users that are known in a guild other than `guild`, each known in
/// the guilds it was known in but for `guild`.
pub open spec fn users_outside(users: Map<u64, (User, Set<u64>)>, guild: u64) -> Map<
    u64,
    (User, Set<u64>),
> {
    Map::new(
        |u: u64| users.contains_key(u) && !users[u].1.remove(guild).is_empty(),
        |u: u64| (users[u].0, users[u].1.remove(guild)),
    )
}

/// The users after those of `gone` left `guild`: each of them is known in the
/// guilds it was known in but for `guild`, and forgotten if that leaves none.
pub open spec fn users_without(
    users: Map<u64, (User, Set<u64>)>,
    guild: u64,
    gone: Set<u64>,
) -> Map<u64, (User, Set<u64>)> {
    Map::new(
        |u: u64|
            users.contains_key(u) && (gone.contains(u) ==> !users[u].1.remove(guild).is_empty()),
        |u: u64|
            if gone.contains(u) {
                (users[u].0, users[u].1.remove(guild))
            } else {
                users[u]
            },
    )
}

/// `index` lists for each guild exactly the ids of the rows that the guild
/// owns.
pub open spec fn lockstep<T>(rows: Map<u64, GuildItem<T>>, index: Map<u64, Set<u64>>) -> bool {
    &&& forall|id: u64| #[trigger]
        rows.contains_key(id) ==> ids_in(index, rows[id].guild_id.0).contains(id)
    &&& forall|g: u64, id: u64|
        index.contains_key(g) && #[trigger] index[g].contains(id) ==> rows.contains_key(id)
            && rows[id].guild_id.0 == g
}

/// `index` lists for each guild exactly the second halves of the keys whose
/// first half is the guild.
pub open spec fn paired(keys: Set<(u64, u64)>, index: Map<u64, Set<u64>>) -> bool {
    &&& forall|g: u64, u: u64| #[trigger] keys.contains((g, u)) ==> ids_in(index, g).contains(u)
    &&& forall|g: u64, u: u64|
        index.contains_key(g) && #[trigger] index[g].contains(u) ==> keys.contains((g, u))
}

/// Whether `id` is the greatest id of the messages.
pub open spec fn is_greatest(list: Map<u64, MessageView>, id: u64) -> bool {
    list.contains_key(id) && forall|other: u64| list.contains_key(other) ==> other <= id
}

/// The greatest id of the messages, where there are any.
pub open spec fn greatest(list: Map<u64, MessageView>) -> u64 {
    choose|id: u64| is_greatest(list, id)
}

/// The messages with room for one more within `limit`: without the message
/// with the greatest id, where there are `limit` messages or more.
pub open spec fn with_room(list: Map<u64, MessageView>, limit: int) -> Map<u64, MessageView> {
    if list.len() >= limit && (exists|id: u64| is_greatest(list, id)) {
        list.remove(greatest(list))
    } else {
        list
    }
}

/// The messages after `message` was cached within `limit`. Where there are
/// as many messages as the limit allows, the one with the greatest id is
/// evicted first, whatever the id of the new message; then the new message
/// stands under its id. A message whose id is already cached takes the place
/// of the cached one, likewise after the eviction. With a limit of zero
/// nothing is cached and the messages stay as they are.
pub open spec fn with_message(list: Map<u64, MessageView>, message: MessageView, limit: int) -> Map<
    u64,
    MessageView,
> {
    if limit <= 0 {
        list
    } else {
        with_room(list, limit).insert(message.id.0, message)
    }
}

/// What the cache keeps of `message`: the author and the mentioned users by
/// id only.
pub open spec fn cached_message(message: Message) -> MessageView {
    MessageView {
        id: message.id,
        attachments: message.attachments,
        author: message.author.id,
        channel_id: message.channel_id,
        content: message.content,
        edited_timestamp: message.edited_timestamp,
        embeds: message.embeds,
        flags: message.flags,
        kind: message.kind,
        mention_everyone: message.mention_everyone,
        mention_roles: message.mention_roles,
        mentions: user_ids(message.mentions@),
        pinned: message.pinned,
        reactions: message.reactions@,
        timestamp: message.timestamp,
        tts: message.tts,
        webhook_id: message.webhook_id,
    }
}

/// `message` with each field that `update` carries taken from it.
pub open spec fn patched_message(message: MessageView, update: MessageUpdate) -> MessageView {
    MessageView {
        attachments: match update.attachments {
            Some(v) => v,
            None => message.attachments,
        },
        content: match update.content {
            Some(v) => v,
            None => message.content,
        },
        edited_timestamp: match update.edited_timestamp {
            Some(v) => Some(v),
            None => message.edited_timestamp,
        },
        embeds: match update.embeds {
            Some(v) => v,
            None => message.embeds,
        },
        mention_everyone: match update.mention_everyone {
            Some(v) => v,
            None => message.mention_everyone,
        },
        mention_roles: match update.mention_roles {
            Some(v) => v,
            None => message.mention_roles,
        },
        mentions: match update.mentions {
            Some(v) => user_ids(v@),
            None => message.mentions,
        },
        pinned: match update.pinned {
            Some(v) => v,
            None => message.pinned,
        },
        timestamp: match update.timestamp {
            Some(v) => v,
            None => message.timestamp,
        },
        tts: match update.tts {
            Some(v) => v,
            None => message.tts,
        },
        ..message
    }
}

/// The member that a message's author is, by what the message carries.
pub open spec fn member_of_message(guild: GuildId, part: PartialMember, author: User) -> Member {
    Member {
        deaf: part.deaf,
        guild_id: guild,
        hoisted_role: None,
        joined_at: part.joined_at,
        mute: part.mute,
        nick: part.nick,
        premium_since: None,
        roles: part.roles,
        user: author,
    }
}

/// The place of the first reaction made with `emoji`: the length of the list
/// where there is none.
pub open spec fn place(reactions: Seq<MessageReaction>, emoji: ReactionType) -> int
    decreases reactions.len(),
{
    if reactions.len() == 0 || reactions[0].emoji.same(&emoji) {
        0
    } else {
        1 + place(reactions.drop_first(), emoji)
    }
}

/// The reactions that were not made with `emoji`, in their order.
pub open spec fn without_emoji(reactions: Seq<MessageReaction>, emoji: ReactionType) -> Seq<
    MessageReaction,
>
    decreases reactions.len(),
{
    if reactions.len() == 0 {
        reactions
    } else if reactions.last().emoji.same(&emoji) {
        without_emoji(reactions.drop_last(), emoji)
    } else {
        without_emoji(reactions.drop_last(), emoji).push(reactions.last())
    }
}

/// The reactions after one more was made with `emoji`, by the client's own
/// account if `by_me`. The first entry for the emoji counts one more, as far
/// as the count can go; where there is no entry, a new one comes last.
pub open spec fn reacted(reactions: Seq<MessageReaction>, emoji: ReactionType, by_me: bool) -> Seq<
    MessageReaction,
> {
    let at = place(reactions, emoji);
    if at < reactions.len() {
        reactions.update(
            at,
            MessageReaction {
                count: if reactions[at].count < u64::MAX {
                    (reactions[at].count + 1) as u64
                } else {
                    reactions[at].count
                },
                me: reactions[at].me || by_me,
                ..reactions[at]
            },
        )
    } else {
        reactions.push(MessageReaction { count: 1, emoji, me: by_me })
    }
}

/// The reactions after one made with `emoji` was withdrawn, by the client's
/// own account if `by_me`. The first entry for the emoji counts one less;
/// where it counted one or less, every entry for the emoji goes.
pub open spec fn unreacted(reactions: Seq<MessageReaction>, emoji: ReactionType, by_me: bool) -> Seq<
    MessageReaction,
> {
    let at = place(reactions, emoji);
    if at < reactions.len() {
        if reactions[at].count > 1 {
            reactions.update(
                at,
                MessageReaction {
                    count: (reactions[at].count - 1) as u64,
                    me: reactions[at].me && !by_me,
                    ..reactions[at]
                },
            )
        } else {
            without_emoji(reactions, emoji)
        }
    } else {
        reactions
    }
}

/// No two reactions are made with the same emoji, and each counts at least
/// one.
pub open spec fn tidy(reactions: Seq<MessageReaction>) -> bool {
    &&& forall|i: int| 0 <= i < reactions.len() ==> #[trigger] reactions[i].count >= 1
    &&& forall|i: int, j: int|
        0 <= i < j < reactions.len() ==> !(#[trigger] reactions[i]).emoji.same(
            &(#[trigger] reactions[j]).emoji,
        )
}

/// The row that the cache keeps of `guild`.
pub open spec fn cached_guild(guild: Guild) -> CachedGuild {
    CachedGuild {
        id: guild.id,
        afk_channel_id: guild.afk_channel_id,
        afk_timeout: guild.afk_timeout,
        application_id: guild.application_id,
        banner: guild.banner,
        default_message_notifications: guild.default_message_notifications,
        description: guild.description,
        discovery_splash: guild.discovery_splash,
        explicit_content_filter: guild.explicit_content_filter,
        features: guild.features,
        icon: guild.icon,
        joined_at: guild.joined_at,
        large: guild.large,
        lazy: guild.lazy,
        max_members: guild.max_members,
        max_presences: guild.max_presences,
        member_count: guild.member_count,
        mfa_level: guild.mfa_level,
        name: guild.name,
        owner: guild.owner,
        owner_id: guild.owner_id,
        permissions: guild.permissions,
        preferred_locale: guild.preferred_locale,
        premium_subscription_count: guild.premium_subscription_count,
        premium_tier: guild.premium_tier,
        region: guild.region,
        rules_channel_id: guild.rules_channel_id,
        splash: guild.splash,
        system_channel_id: guild.system_channel_id,
        system_channel_flags: guild.system_channel_flags,
        unavailable: guild.unavailable,
        verification_level: guild.verification_level,
        vanity_url_code: guild.vanity_url_code,
        widget_channel_id: guild.widget_channel_id,
        widget_enabled: guild.widget_enabled,
    }
}

/// The number of presences a guild may have where the platform names none.
pub const DEFAULT_MAX_PRESENCES: u64 = 25000;

/// `row` with the fields that a guild update carries taken from `update`.
/// An update that names no presence limit sets the default limit, and one
/// that names no subscription count sets the count to zero.
pub open spec fn patched_guild(row: CachedGuild, update: PartialGuild) -> CachedGuild {
    CachedGuild {
        afk_channel_id: update.afk_channel_id,
        afk_timeout: update.afk_timeout,
        banner: update.banner,
        default_message_notifications: update.default_message_notifications,
        description: update.description,
        features: update.features,
        icon: update.icon,
        max_members: update.max_members,
        max_presences: Some(
            match update.max_presences {
                Some(n) => n,
                None => DEFAULT_MAX_PRESENCES,
            },
        ),
        mfa_level: update.mfa_level,
        name: update.name,
        owner: update.owner,
        owner_id: update.owner_id,
        permissions: update.permissions,
        preferred_locale: update.preferred_locale,
        premium_tier: update.premium_tier,
        premium_subscription_count: Some(
            match update.premium_subscription_count {
                Some(n) => n,
                None => 0,
            },
        ),
        region: update.region,
        splash: update.splash,
        system_channel_id: update.system_channel_id,
        verification_level: update.verification_level,
        vanity_url_code: update.vanity_url_code,
        widget_channel_id: update.widget_channel_id,
        widget_enabled: update.widget_enabled,
        ..row
    }
}

/// The state of a cache.
#[verifier::ext_equal]
pub struct CacheView {
    pub event_types: EventType,
    pub message_cache_size: usize,
    pub current_user: Option<CurrentUser>,
    pub guilds: Map<u64, CachedGuild>,
    pub unavailable_guilds: Set<u64>,
    pub channels_guild: Map<u64, GuildItem<GuildChannel>>,
    pub channels_private: Map<u64, PrivateChannel>,
    pub groups: Map<u64, Group>,
    pub emojis: Map<u64, GuildItem<Emoji>>,
    pub roles: Map<u64, GuildItem<Role>>,
    pub members: Map<(u64, u64), Member>,
    pub presences: Map<(u64, u64), Presence>,
    pub voice_states: Map<(u64, u64), VoiceState>,
    pub messages: Map<u64, Map<u64, MessageView>>,
    pub users: Map<u64, (User, Set<u64>)>,
    pub guild_channels: Map<u64, Set<u64>>,
    pub guild_emojis: Map<u64, Set<u64>>,
    pub guild_roles: Map<u64, Set<u64>>,
    pub guild_members: Map<u64, Set<u64>>,
    pub guild_presences: Map<u64, Set<u64>>,
    pub guild_voice_states: Map<u64, Set<u64>>,
}

impl CacheView {
    /// The state of a cache without rows.
    pub open spec fn empty(event_types: EventType, message_cache_size: usize) -> CacheView {
        CacheView {
            event_types,
            message_cache_size,
            current_user: None,
            guilds: Map::empty(),
            unavailable_guilds: Set::empty(),
            channels_guild: Map::empty(),
            channels_private: Map::empty(),
            groups: Map::empty(),
            emojis: Map::empty(),
            roles: Map::empty(),
            members: Map::empty(),
            presences: Map::empty(),
            voice_states: Map::empty(),
            messages: Map::empty(),
            users: Map::empty(),
            guild_channels: Map::empty(),
            guild_emojis: Map::empty(),
            guild_roles: Map::empty(),
            guild_members: Map::empty(),
            guild_presences: Map::empty(),
            guild_voice_states: Map::empty(),
        }
    }

    /// Every row stands under its own id.
    pub open spec fn keyed(self) -> bool {
        &&& forall|g: u64| #[trigger] self.guilds.contains_key(g) ==> self.guilds[g].id.0 == g
        &&& forall|c: u64| #[trigger]
            self.channels_guild.contains_key(c) ==> self.channels_guild[c].data.id().0 == c
        &&& forall|c: u64| #[trigger]
            self.channels_private.contains_key(c) ==> self.channels_private[c].id.0 == c
        &&& forall|c: u64| #[trigger] self.groups.contains_key(c) ==> self.groups[c].id.0 == c
        &&& forall|e: u64| #[trigger] self.emojis.contains_key(e) ==> self.emojis[e].data.id.0 == e
        &&& forall|r: u64| #[trigger] self.roles.contains_key(r) ==> self.roles[r].data.id.0 == r
        &&& forall|k: (u64, u64)| #[trigger]
            self.members.contains_key(k) ==> self.members[k].guild_id.0 == k.0
                && self.members[k].user.id.0 == k.1
        &&& forall|k: (u64, u64)| #[trigger]
            self.presences.contains_key(k) ==> self.presences[k].guild_id.0 == k.0
                && self.presences[k].user_id.0 == k.1
        &&& forall|k: (u64, u64)| #[trigger]
            self.voice_states.contains_key(k) ==> self.voice_states[k].user_id.0 == k.1
                && self.voice_states[k].guild_id == Some(GuildId(k.0))
        &&& forall|u: u64| #[trigger] self.users.contains_key(u) ==> self.users[u].0.id.0 == u
    }

    /// Each index lists exactly the rows of its table, guild by guild.
    pub open spec fn indexed(self) -> bool {
        &&& lockstep(self.channels_guild, self.guild_channels)
        &&& lockstep(self.emojis, self.guild_emojis)
        &&& lockstep(self.roles, self.guild_roles)
        &&& paired(self.members.dom(), self.guild_members)
        &&& paired(self.presences.dom(), self.guild_presences)
        &&& paired(self.voice_states.dom(), self.guild_voice_states)
    }

    /// Each channel's messages are no more than the limit, and each stands
    /// under its own id.
    pub open spec fn bounded(self) -> bool {
        &&& forall|c: u64| #[trigger]
            self.messages.contains_key(c) ==> self.messages[c].dom().finite()
                && self.messages[c].len() <= self.message_cache_size
        &&& forall|c: u64, id: u64|
            self.messages.contains_key(c) && #[trigger] self.messages[c].contains_key(id)
                ==> self.messages[c][id].id.0 == id
    }

    /// Every user row names at least one guild: a user is kept only while a
    /// guild references it.
    pub open spec fn anchored(self) -> bool {
        forall|u: u64| #[trigger]
            self.users.contains_key(u) ==> exists|g: u64| self.users[u].1.contains(g)
    }

    /// The guilds that a user row names are exactly those in which the user
    /// is a cached member: the row reports no membership that is not there,
    /// and every member's user has a row that names the member's guild.
    pub open spec fn linked(self) -> bool {
        &&& forall|g: u64, u: u64| #[trigger]
            self.members.contains_key((g, u)) ==> self.users.contains_key(u)
                && self.users[u].1.contains(g)
        &&& forall|u: u64, g: u64|
            self.users.contains_key(u) && #[trigger] self.users[u].1.contains(g)
                ==> self.members.contains_key((g, u))
    }

    /// No guild is both cached and marked unavailable.
    pub open spec fn disjoint(self) -> bool {
        forall|g: u64| !(self.guilds.contains_key(g) && self.unavailable_guilds.contains(g))
    }

    /// The invariant of the cache.
    pub open spec fn wf(self) -> bool {
        &&& self.keyed()
        &&& self.indexed()
        &&& self.bounded()
        &&& self.anchored()
        &&& self.linked()
        &&& self.disjoint()
    }

    /// The reactions of every cached message are tidy.
    pub open spec fn tidy_reactions(self) -> bool {
        forall|c: u64, id: u64|
            self.messages.contains_key(c) && #[trigger] self.messages[c].contains_key(id)
                ==> tidy(self.messages[c][id].reactions)
    }

    /// Whether `other` is a state of a cache with the same settings.
    pub open spec fn configured_as(self, other: CacheView) -> bool {
        self.event_types == other.event_types && self.message_cache_size
            == other.message_cache_size
    }

    /// Whether the cache applies events of `kind`.
    pub open spec fn wants(self, kind: u64) -> bool {
        self.event_types.has(EventType(kind))
    }

    // Channels

    /// The guild channel is cached as one of `guild`, in place of the channel with
    /// the same id, and listed for that guild alone.
    pub open spec fn with_guild_channel(self, guild: u64, channel: GuildChannel) -> CacheView {
        let id = channel.id().0;
        CacheView {
            guild_channels: index_move(
                self.guild_channels,
                owner_of(self.channels_guild, id),
                guild,
                id,
            ),
            channels_guild: self.channels_guild.insert(
                id,
                GuildItem { data: channel, guild_id: crate::model::id::GuildId(guild) },
            ),
            ..self
        }
    }

    /// The guild channel `id` is gone, from the table and from its guild's list.
    pub open spec fn without_guild_channel(self, id: u64) -> CacheView {
        match owner_of(self.channels_guild, id) {
            Some(g) => CacheView {
                guild_channels: index_drop(self.guild_channels, g, id),
                channels_guild: self.channels_guild.remove(id),
                ..self
            },
            None => self,
        }
    }

    /// The private channel is cached, in place of the one with the same id.
    pub open spec fn with_private_channel(self, channel: PrivateChannel) -> CacheView {
        CacheView { channels_private: self.channels_private.insert(channel.id.0, channel), ..self }
    }

    /// The private channel `id` is gone.
    pub open spec fn without_private_channel(self, id: u64) -> CacheView {
        CacheView { channels_private: self.channels_private.remove(id), ..self }
    }

    /// The group is cached, in place of the one with the same id.
    pub open spec fn with_group(self, group: Group) -> CacheView {
        CacheView { groups: self.groups.insert(group.id.0, group), ..self }
    }

    /// The group `id` is gone.
    pub open spec fn without_group(self, id: u64) -> CacheView {
        CacheView { groups: self.groups.remove(id), ..self }
    }

    /// The channel is cached, whatever its kind. A guild channel that names
    /// no guild is dropped.
    pub open spec fn with_channel(self, channel: Channel) -> CacheView {
        match channel {
            Channel::Group(c) => self.with_group(c),
            Channel::Guild(c) => match c.guild_id() {
                Some(g) => self.with_guild_channel(g.0, c),
                None => self,
            },
            Channel::Private(c) => self.with_private_channel(c),
        }
    }

    /// The channel is gone, whatever its kind.
    pub open spec fn without_channel(self, channel: Channel) -> CacheView {
        match channel {
            Channel::Group(c) => self.without_group(c.id.0),
            Channel::Guild(c) => self.without_guild_channel(c.id().0),
            Channel::Private(c) => self.without_private_channel(c.id.0),
        }
    }

    // Emojis and roles

    /// The emoji is cached as one of `guild`, in place of the emoji with the same
    /// id, and listed for that guild alone.
    pub open spec fn with_emoji(self, guild: u64, emoji: Emoji) -> CacheView {
        let id = emoji.id.0;
        CacheView {
            guild_emojis: index_move(self.guild_emojis, owner_of(self.emojis, id), guild, id),
            emojis: self.emojis.insert(
                id,
                GuildItem { data: emoji, guild_id: crate::model::id::GuildId(guild) },
            ),
            ..self
        }
    }

    /// The role is cached as one of `guild`, in place of the role with the same
    /// id, and listed for that guild alone.
    pub open spec fn with_role(self, guild: u64, role: Role) -> CacheView {
        let id = role.id.0;
        CacheView {
            guild_roles: index_move(self.guild_roles, owner_of(self.roles, id), guild, id),
            roles: self.roles.insert(
                id,
                GuildItem { data: role, guild_id: crate::model::id::GuildId(guild) },
            ),
            ..self
        }
    }

    /// The role `id` is gone, from the table and from its guild's list.
    pub open spec fn without_role(self, id: u64) -> CacheView {
        match owner_of(self.roles, id) {
            Some(g) => CacheView {
                guild_roles: index_drop(self.guild_roles, g, id),
                roles: self.roles.remove(id),
                ..self
            },
            None => self,
        }
    }

    // Users and members

    /// The row of a user that is known holds the user as given; a user that
    /// is not known stays so, since no guild references it.
    pub open spec fn with_user(self, user: User) -> CacheView {
        let id = user.id.0;
        if self.users.contains_key(id) {
            CacheView { users: self.users.insert(id, (user, self.users[id].1)), ..self }
        } else {
            self
        }
    }

    /// The user is known in `guild`, besides the guilds it was known in, and
    /// its row holds the user as given. This is one half of caching a
    /// member; by itself it does not keep the invariant.
    pub open spec fn with_user_in(self, user: User, guild: u64) -> CacheView {
        let id = user.id.0;
        CacheView {
            users: self.users.insert(
                id,
                (
                    user,
                    if self.users.contains_key(id) {
                        self.users[id].1.insert(guild)
                    } else {
                        Set::empty().insert(guild)
                    },
                ),
            ),
            ..self
        }
    }

    /// The member stands in `guild`, and its user is known there.
    pub open spec fn with_member(self, guild: u64, member: Member) -> CacheView {
        let user = member.user.id.0;
        let known = self.with_user_in(member.user, guild);
        CacheView {
            members: known.members.insert(
                (guild, user),
                Member { guild_id: crate::model::id::GuildId(guild), ..member },
            ),
            guild_members: index_add(known.guild_members, guild, user),
            ..known
        }
    }

    /// The member `user` of `guild` is gone, and `guild` with it from what
    /// the user is known in; a user known nowhere else is forgotten.
    pub open spec fn without_member(self, guild: u64, user: u64) -> CacheView {
        CacheView {
            members: self.members.remove((guild, user)),
            guild_members: index_drop(self.guild_members, guild, user),
            users: if self.users.contains_key(user) {
                let left = self.users[user].1.remove(guild);
                if left =~= Set::empty() {
                    self.users.remove(user)
                } else {
                    self.users.insert(user, (self.users[user].0, left))
                }
            } else {
                self.users
            },
            ..self
        }
    }

    /// The cached member takes the update's nickname, roles and join time; a
    /// member that is not cached stays so.
    pub open spec fn with_member_update(self, update: MemberUpdate) -> CacheView {
        let key = (update.guild_id.0, update.user.id.0);
        if self.members.contains_key(key) {
            CacheView {
                members: self.members.insert(
                    key,
                    Member {
                        nick: update.nick,
                        roles: update.roles,
                        joined_at: Some(update.joined_at),
                        ..self.members[key]
                    },
                ),
                ..self
            }
        } else {
            self
        }
    }

    // Presences and voice states

    /// The presence is cached as one of `guild`, in place of the presence of the
    /// same user there, and the user is listed for the guild.
    pub open spec fn with_presence(self, guild: u64, presence: Presence) -> CacheView {
        let user = presence.user_id.0;
        CacheView {
            presences: self.presences.insert(
                (guild, user),
                Presence { guild_id: crate::model::id::GuildId(guild), ..presence },
            ),
            guild_presences: index_add(self.guild_presences, guild, user),
            ..self
        }
    }

    /// A voice state that names no guild changes nothing.
    pub open spec fn with_voice_state(self, state: VoiceState) -> CacheView {
        match state.guild_id {
            Some(g) => CacheView {
                voice_states: self.voice_states.insert((g.0, state.user_id.0), state),
                guild_voice_states: index_add(self.guild_voice_states, g.0, state.user_id.0),
                ..self
            },
            None => self,
        }
    }

    // Guilds

    /// No guild channel of `guild` is left, nor the guild's list of them.
    pub open spec fn without_channels_of(self, guild: u64) -> CacheView {
        CacheView {
            channels_guild: rows_outside(self.channels_guild, guild),
            guild_channels: self.guild_channels.remove(guild),
            ..self
        }
    }

    /// No emoji of `guild` is left, nor the guild's list of them.
    pub open spec fn without_emojis_of(self, guild: u64) -> CacheView {
        CacheView {
            emojis: rows_outside(self.emojis, guild),
            guild_emojis: self.guild_emojis.remove(guild),
            ..self
        }
    }

    /// No role of `guild` is left, nor the guild's list of them.
    pub open spec fn without_roles_of(self, guild: u64) -> CacheView {
        CacheView {
            roles: rows_outside(self.roles, guild),
            guild_roles: self.guild_roles.remove(guild),
            ..self
        }
    }

    /// No member of `guild` is left, nor the guild's list of them; no user
    /// is known in the guild any more, and a user that was known nowhere else
    /// is forgotten.
    pub open spec fn without_members_of(self, guild: u64) -> CacheView {
        CacheView {
            members: pairs_outside(self.members, guild),
            guild_members: self.guild_members.remove(guild),
            users: users_outside(self.users, guild),
            ..self
        }
    }

    /// No presence in `guild` is left, nor the guild's list of them.
    pub open spec fn without_presences_of(self, guild: u64) -> CacheView {
        CacheView {
            presences: pairs_outside(self.presences, guild),
            guild_presences: self.guild_presences.remove(guild),
            ..self
        }
    }

    /// No voice state in `guild` is left, nor the guild's list of them.
    pub open spec fn without_voice_states_of(self, guild: u64) -> CacheView {
        CacheView {
            voice_states: pairs_outside(self.voice_states, guild),
            guild_voice_states: self.guild_voice_states.remove(guild),
            ..self
        }
    }

    /// Nothing that `guild` owns is left, nor its index entries. The guild's
    /// own row is not touched, nor are messages. No user is known in the guild
    /// any more, and a user that was known nowhere else is forgotten.
    pub open spec fn purged(self, guild: u64) -> CacheView {
        self.without_channels_of(guild).without_emojis_of(guild).without_roles_of(
            guild,
        ).without_members_of(guild).without_presences_of(guild).without_voice_states_of(guild)
    }

    /// Each index has an empty entry for `guild`.
    pub open spec fn opened(self, guild: u64) -> CacheView {
        CacheView {
            guild_channels: self.guild_channels.insert(guild, Set::empty()),
            guild_emojis: self.guild_emojis.insert(guild, Set::empty()),
            guild_roles: self.guild_roles.insert(guild, Set::empty()),
            guild_members: self.guild_members.insert(guild, Set::empty()),
            guild_presences: self.guild_presences.insert(guild, Set::empty()),
            guild_voice_states: self.guild_voice_states.insert(guild, Set::empty()),
            ..self
        }
    }

    /// The guild is cached afresh: what it owned before is gone, what it
    /// brings along is cached in its place, and the guild is no longer marked
    /// unavailable.
    pub open spec fn with_guild(self, guild: Guild) -> CacheView {
        let g = guild.id.0;
        self.purged(g).opened(g).with_guild_channels(g, guild.channels@).with_emojis(
            g,
            guild.emojis@,
        ).with_members(g, guild.members@).with_presences(g, guild.presences@).with_roles(
            g,
            guild.roles@,
        ).with_voice_states(g, guild.voice_states@).with_guild_row(cached_guild(guild))
    }

    /// The cached guild takes the update's fields; a guild that is not cached
    /// stays so.
    pub open spec fn with_guild_update(self, update: PartialGuild) -> CacheView {
        if self.guilds.contains_key(update.id.0) {
            CacheView {
                guilds: self.guilds.insert(
                    update.id.0,
                    patched_guild(self.guilds[update.id.0], update),
                ),
                ..self
            }
        } else {
            self
        }
    }

    /// Each guild of the list is marked unavailable or cached afresh, in
    /// order.
    pub open spec fn with_guild_statuses(self, list: Seq<GuildStatus>) -> CacheView
        decreases list.len(),
    {
        if list.len() == 0 {
            self
        } else {
            let done = self.with_guild_statuses(list.drop_last());
            match list.last() {
                GuildStatus::Offline(u) => done.with_unavailable_guild(u.id.0),
                GuildStatus::Online(g) => done.with_guild(g),
            }
        }
    }

    /// The guild is gone, with everything it owned.
    pub open spec fn without_guild(self, guild: u64) -> CacheView {
        let purged = self.purged(guild);
        CacheView { guilds: purged.guilds.remove(guild), ..purged }
    }

    /// The guild is marked unavailable and its row is gone. What it owns stays.
    pub open spec fn with_unavailable_guild(self, guild: u64) -> CacheView {
        CacheView {
            guilds: self.guilds.remove(guild),
            unavailable_guilds: self.unavailable_guilds.insert(guild),
            ..self
        }
    }

    /// The guild's row is cached, and the guild is not marked unavailable.
    pub open spec fn with_guild_row(self, row: CachedGuild) -> CacheView {
        CacheView {
            guilds: self.guilds.insert(row.id.0, row),
            unavailable_guilds: self.unavailable_guilds.remove(row.id.0),
            ..self
        }
    }

    // Lists of entities, applied in order

    /// Each channel of the list is cached as one of `guild`, in order.
    pub open spec fn with_guild_channels(self, guild: u64, list: Seq<GuildChannel>) -> CacheView
        decreases list.len(),
    {
        if list.len() == 0 {
            self
        } else {
            self.with_guild_channels(guild, list.drop_last()).with_guild_channel(guild, list.last())
        }
    }

    /// Each emoji of the list is cached as one of `guild`, in order.
    pub open spec fn with_emojis(self, guild: u64, list: Seq<Emoji>) -> CacheView
        decreases list.len(),
    {
        if list.len() == 0 {
            self
        } else {
            self.with_emojis(guild, list.drop_last()).with_emoji(guild, list.last())
        }
    }

    /// Each role of the list is cached as one of `guild`, in order.
    pub open spec fn with_roles(self, guild: u64, list: Seq<Role>) -> CacheView
        decreases list.len(),
    {
        if list.len() == 0 {
            self
        } else {
            self.with_roles(guild, list.drop_last()).with_role(guild, list.last())
        }
    }

    /// Each member of the list is cached as one of `guild`, in order.
    pub open spec fn with_members(self, guild: u64, list: Seq<Member>) -> CacheView
        decreases list.len(),
    {
        if list.len() == 0 {
            self
        } else {
            self.with_members(guild, list.drop_last()).with_member(guild, list.last())
        }
    }

    /// Each presence of the list is cached as one of `guild`, in order.
    pub open spec fn with_presences(self, guild: u64, list: Seq<Presence>) -> CacheView
        decreases list.len(),
    {
        if list.len() == 0 {
            self
        } else {
            self.with_presences(guild, list.drop_last()).with_presence(guild, list.last())
        }
    }

    /// Each voice state is taken to be one of `guild`, whatever it names.
    pub open spec fn with_voice_states(self, guild: u64, list: Seq<VoiceState>) -> CacheView
        decreases list.len(),
    {
        if list.len() == 0 {
            self
        } else {
            self.with_voice_states(guild, list.drop_last()).with_voice_state(
                VoiceState { guild_id: Some(crate::model::id::GuildId(guild)), ..list.last() },
            )
        }
    }

    /// The emojis of `guild` are those of `list` and no others.
    pub open spec fn with_emojis_replaced(self, guild: u64, list: Seq<Emoji>) -> CacheView {
        let cleared = self.without_emojis_of(guild);
        CacheView {
            guild_emojis: cleared.guild_emojis.insert(guild, Set::empty()),
            ..cleared
        }.with_emojis(guild, list)
    }

    // Messages

    /// The messages of `channel`, by id: none where the channel has no
    /// entry.
    pub open spec fn messages_in(self, channel: u64) -> Map<u64, MessageView> {
        if self.messages.contains_key(channel) {
            self.messages[channel]
        } else {
            Map::empty()
        }
    }

    /// The message is cached for `channel`, within the limit of the cache:
    /// see [`with_message`] for what is evicted.
    pub open spec fn with_message(self, channel: u64, message: MessageView) -> CacheView {
        CacheView {
            messages: self.messages.insert(
                channel,
                with_message(
                    self.messages_in(channel),
                    message,
                    self.message_cache_size as int,
                ),
            ),
            ..self
        }
    }

    /// The message `id` of `channel` is gone. A channel without an entry
    /// stays without one.
    pub open spec fn without_message(self, channel: u64, id: u64) -> CacheView {
        if self.messages.contains_key(channel) {
            CacheView {
                messages: self.messages.insert(channel, self.messages[channel].remove(id)),
                ..self
            }
        } else {
            self
        }
    }

    /// The message `id` of `channel`, if the cache holds it.
    pub open spec fn message(self, channel: u64, id: u64) -> Option<MessageView> {
        let list = self.messages_in(channel);
        if list.contains_key(id) {
            Some(list[id])
        } else {
            None
        }
    }

    /// The messages `ids` of `channel` are gone, one after the other.
    pub open spec fn without_messages(self, channel: u64, ids: Seq<MessageId>) -> CacheView
        decreases ids.len(),
    {
        if ids.len() == 0 {
            self
        } else {
            self.without_messages(channel, ids.drop_last()).without_message(
                channel,
                ids.last().0,
            )
        }
    }

    /// Whether `user` is the account the client is logged in as.
    pub open spec fn is_me(self, user: UserId) -> bool {
        match self.current_user {
            Some(me) => me.id == user,
            None => false,
        }
    }

    /// The message takes the fields that the update carries.
    pub open spec fn with_message_update(self, update: MessageUpdate) -> CacheView {
        match self.message(update.channel_id.0, update.id.0) {
            Some(m) => self.with_message_changed(
                update.channel_id.0,
                update.id.0,
                patched_message(m, update),
            ),
            None => self,
        }
    }

    /// One more reaction with `emoji` by `user` on the message.
    pub open spec fn with_reaction(
        self,
        channel: u64,
        id: u64,
        emoji: ReactionType,
        user: UserId,
    ) -> CacheView {
        match self.message(channel, id) {
            Some(m) => self.with_message_changed(
                channel,
                id,
                MessageView { reactions: reacted(m.reactions, emoji, self.is_me(user)), ..m },
            ),
            None => self,
        }
    }

    /// One reaction with `emoji` by `user` less on the message.
    pub open spec fn without_reaction(
        self,
        channel: u64,
        id: u64,
        emoji: ReactionType,
        user: UserId,
    ) -> CacheView {
        match self.message(channel, id) {
            Some(m) => self.with_message_changed(
                channel,
                id,
                MessageView { reactions: unreacted(m.reactions, emoji, self.is_me(user)), ..m },
            ),
            None => self,
        }
    }

    /// No reactions on the message.
    pub open spec fn without_reactions(self, channel: u64, id: u64) -> CacheView {
        match self.message(channel, id) {
            Some(m) => self.with_message_changed(
                channel,
                id,
                MessageView { reactions: Seq::empty(), ..m },
            ),
            None => self,
        }
    }

    /// The message is cached. Where it names a guild and carries the
    /// author's member attributes, the author is a member of that guild and
    /// known there. Otherwise the author's row, if the author is known, holds
    /// the author as the message gives it; an author that is not known stays
    /// so, since only a membership makes a user known.
    pub open spec fn with_message_created(self, message: Message) -> CacheView {
        let stored = self.with_message(message.channel_id.0, cached_message(message));
        match (message.member, message.guild_id) {
            (Some(part), Some(g)) => stored.with_member(
                g.0,
                member_of_message(g, part, message.author),
            ),
            _ => stored.with_user(message.author),
        }
    }

    /// The channel `id` has the time of its last pin changed: a guild channel
    /// if it is a text channel, else a private channel or a group. A guild
    /// channel of another kind stays as it is.
    pub open spec fn with_pins_update(self, id: u64, at: Option<String>) -> CacheView {
        if self.channels_guild.contains_key(id) {
            match self.channels_guild[id].data {
                GuildChannel::Text(text) => CacheView {
                    channels_guild: self.channels_guild.insert(
                        id,
                        GuildItem {
                            data: GuildChannel::Text(
                                TextChannel { last_pin_timestamp: at, ..text },
                            ),
                            guild_id: self.channels_guild[id].guild_id,
                        },
                    ),
                    ..self
                },
                _ => self,
            }
        } else if self.channels_private.contains_key(id) {
            CacheView {
                channels_private: self.channels_private.insert(
                    id,
                    PrivateChannel { last_pin_timestamp: at, ..self.channels_private[id] },
                ),
                ..self
            }
        } else if self.groups.contains_key(id) {
            CacheView {
                groups: self.groups.insert(
                    id,
                    Group { last_pin_timestamp: at, ..self.groups[id] },
                ),
                ..self
            }
        } else {
            self
        }
    }

    /// The message `id` of `channel` is `message`; nothing changes where the
    /// cache does not hold that message.
    pub open spec fn with_message_changed(self, channel: u64, id: u64, message: MessageView) -> CacheView {
        let list = self.messages_in(channel);
        if list.contains_key(id) {
            CacheView { messages: self.messages.insert(channel, list.insert(id, message)), ..self }
        } else {
            self
        }
    }
}

} // verus!
