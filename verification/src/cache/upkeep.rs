//! Each change to the cache keeps the cache's invariant.

use vstd::prelude::*;
use crate::cache::model::GuildItem;
use crate::cache::model::MessageView;
use crate::cache::view::{
    greatest, index_add, index_drop, index_move, is_greatest, lockstep, owner_of, paired,
    pairs_outside, rows_outside, with_message, with_room, CacheView,
};
use crate::model::id::MessageId;
use crate::model::channel::{Group, GuildChannel, PrivateChannel};
use crate::model::gateway::presence::Presence;
use crate::model::guild::member::Member;
use crate::model::guild::{Emoji, Role};
use crate::model::user::User;
use crate::model::voice::VoiceState;

verus! {

/// Putting a row under its id, and listing the id for the row's guild alone,
/// keeps table and index in lockstep.
pub proof fn lockstep_after_put<T>(
    rows: Map<u64, GuildItem<T>>,
    index: Map<u64, Set<u64>>,
    id: u64,
    row: GuildItem<T>,
)
    requires
        lockstep(rows, index),
    ensures
        lockstep(rows.insert(id, row), index_move(index, owner_of(rows, id), row.guild_id.0, id)),
{
}

/// Removing a row, and taking its id off the list of the row's guild, keeps
/// table and index in lockstep.
pub proof fn lockstep_after_remove<T>(
    rows: Map<u64, GuildItem<T>>,
    index: Map<u64, Set<u64>>,
    id: u64,
)
    requires
        lockstep(rows, index),
        rows.contains_key(id),
    ensures
        lockstep(rows.remove(id), index_drop(index, rows[id].guild_id.0, id)),
{
}

/// Removing the rows that a guild's list names removes the guild's rows and
/// no others; without the list, table and index are in lockstep again.
pub proof fn lockstep_after_purge<T>(
    rows: Map<u64, GuildItem<T>>,
    index: Map<u64, Set<u64>>,
    guild: u64,
)
    requires
        lockstep(rows, index),
    ensures
        rows.remove_keys(crate::cache::view::ids_in(index, guild)) == rows_outside(rows, guild),
        lockstep(rows_outside(rows, guild), index.remove(guild)),
        lockstep(rows_outside(rows, guild), index.insert(guild, Set::empty())),
{
    assert(rows.remove_keys(crate::cache::view::ids_in(index, guild)) =~= rows_outside(
        rows,
        guild,
    ));
}

/// Adding a key, and listing its second half for its first, keeps keys and
/// index paired.
pub proof fn paired_after_put(keys: Set<(u64, u64)>, index: Map<u64, Set<u64>>, g: u64, u: u64)
    requires
        paired(keys, index),
    ensures
        paired(keys.insert((g, u)), index_add(index, g, u)),
{
}

/// Removing a key, and taking its second half off the list of its first,
/// keeps keys and index paired.
pub proof fn paired_after_remove(keys: Set<(u64, u64)>, index: Map<u64, Set<u64>>, g: u64, u: u64)
    requires
        paired(keys, index),
    ensures
        paired(keys.remove((g, u)), index_drop(index, g, u)),
{
}

/// Removing the keys that a guild's list names removes the guild's keys and
/// no others; without the list, keys and index are paired again.
pub proof fn paired_after_purge<T>(
    rows: Map<(u64, u64), T>,
    index: Map<u64, Set<u64>>,
    guild: u64,
)
    requires
        paired(rows.dom(), index),
    ensures
        rows.remove_keys(
            Set::new(|k: (u64, u64)| k.0 == guild && crate::cache::view::ids_in(index, guild).contains(k.1)),
        ) == pairs_outside(rows, guild),
        paired(pairs_outside(rows, guild).dom(), index.remove(guild)),
        paired(pairs_outside(rows, guild).dom(), index.insert(guild, Set::empty())),
{
    assert(rows.remove_keys(
        Set::new(|k: (u64, u64)| k.0 == guild && crate::cache::view::ids_in(index, guild).contains(k.1)),
    ) =~= pairs_outside(rows, guild));
}

/// Among finitely many ids, and at least one, one is the greatest.
pub proof fn some_id_is_greatest(ids: Set<u64>)
    requires
        ids.finite(),
        ids.len() > 0,
    ensures
        exists|id: u64| ids.contains(id) && forall|other: u64| ids.contains(other) ==> other <= id,
    decreases ids.len(),
{
    let one = ids.choose();
    let rest = ids.remove(one);
    if rest.len() == 0 {
        assert forall|other: u64| ids.contains(other) implies other <= one by {
            if other != one {
                assert(rest.contains(other));
                assert(rest =~= Set::empty());
            }
        }
    } else {
        some_id_is_greatest(rest);
        let top = choose|id: u64|
            rest.contains(id) && forall|other: u64| rest.contains(other) ==> other <= id;
        let best = if one > top {
            one
        } else {
            top
        };
        assert forall|other: u64| ids.contains(other) implies other <= best by {
            if other != one {
                assert(rest.contains(other));
            }
        }
        assert(ids.contains(best));
    }
}

/// The greatest id of messages is one of their ids, and no id of theirs is
/// above it.
pub proof fn greatest_is_greatest(list: Map<u64, MessageView>)
    requires
        list.dom().finite(),
        list.len() > 0,
    ensures
        is_greatest(list, greatest(list)),
{
    some_id_is_greatest(list.dom());
    let id = choose|id: u64|
        list.dom().contains(id) && forall|other: u64| list.dom().contains(other) ==> other <= id;
    assert(is_greatest(list, id));
}

/// Caching a message keeps messages within a limit they were within, and
/// each under its own id.
pub proof fn with_message_keeps_bound(list: Map<u64, MessageView>, message: MessageView, limit: int)
    requires
        list.dom().finite(),
        list.len() <= limit,
        forall|id: u64| #[trigger] list.contains_key(id) ==> list[id].id.0 == id,
    ensures
        with_message(list, message, limit).dom().finite(),
        with_message(list, message, limit).len() <= limit,
        forall|id: u64| #[trigger]
            with_message(list, message, limit).contains_key(id) ==> with_message(
                list,
                message,
                limit,
            )[id].id.0 == id,
{
    if limit > 0 {
        if list.len() >= limit {
            greatest_is_greatest(list);
        }
        let room = with_room(list, limit);
        assert(room.dom().finite());
        assert(room.len() <= limit - 1);
    }
}

impl CacheView {
    /// [`CacheView::with_message`] keeps the invariant.
    pub proof fn with_message_keeps_wf(self, channel: u64, message: MessageView)
        requires
            self.wf(),
        ensures
            self.with_message(channel, message).wf(),
    {
        with_message_keeps_bound(
            self.messages_in(channel),
            message,
            self.message_cache_size as int,
        );
    }

    /// [`CacheView::without_message`] keeps the invariant.
    pub proof fn without_message_keeps_wf(self, channel: u64, id: u64)
        requires
            self.wf(),
        ensures
            self.without_message(channel, id).wf(),
    {
        if self.messages.contains_key(channel) {
            let list = self.messages[channel];
            assert(list.remove(id).dom().finite());
            assert(list.remove(id).len() <= list.len());
        }
    }

    /// [`CacheView::without_messages`] keeps the invariant.
    pub proof fn without_messages_keeps_wf(self, channel: u64, ids: Seq<MessageId>)
        requires
            self.wf(),
        ensures
            self.without_messages(channel, ids).wf(),
            self.without_messages(channel, ids).configured_as(self),
        decreases ids.len(),
    {
        if ids.len() > 0 {
            self.without_messages_keeps_wf(channel, ids.drop_last());
            self.without_messages(channel, ids.drop_last()).without_message_keeps_wf(
                channel,
                ids.last().0,
            );
        }
    }

    /// A message may change in all but its id.
    pub proof fn with_message_changed_keeps_wf(self, channel: u64, id: u64, message: MessageView)
        requires
            self.wf(),
            message.id.0 == id,
        ensures
            self.with_message_changed(channel, id, message).wf(),
    {
        let list = self.messages_in(channel);
        if list.contains_key(id) {
            assert(self.messages.contains_key(channel));
            assert(list.insert(id, message).dom() =~= list.dom());
        }
    }

    /// [`CacheView::with_message_update`] keeps the invariant.
    pub proof fn with_message_update_keeps_wf(
        self,
        update: crate::model::gateway::payload::MessageUpdate,
    )
        requires
            self.wf(),
        ensures
            self.with_message_update(update).wf(),
    {
        match self.message(update.channel_id.0, update.id.0) {
            Some(m) => {
                self.with_message_changed_keeps_wf(
                    update.channel_id.0,
                    update.id.0,
                    crate::cache::view::patched_message(m, update),
                );
            },
            None => {},
        }
    }

    /// Making or withdrawing a reaction keeps the invariant.
    pub proof fn with_reaction_keeps_wf(
        self,
        channel: u64,
        id: u64,
        emoji: crate::model::channel::message::ReactionType,
        user: crate::model::id::UserId,
    )
        requires
            self.wf(),
        ensures
            self.with_reaction(channel, id, emoji, user).wf(),
            self.without_reaction(channel, id, emoji, user).wf(),
    {
        match self.message(channel, id) {
            Some(m) => {
                self.with_message_changed_keeps_wf(
                    channel,
                    id,
                    MessageView {
                        reactions: crate::cache::view::reacted(
                            m.reactions,
                            emoji,
                            self.is_me(user),
                        ),
                        ..m
                    },
                );
                self.with_message_changed_keeps_wf(
                    channel,
                    id,
                    MessageView {
                        reactions: crate::cache::view::unreacted(
                            m.reactions,
                            emoji,
                            self.is_me(user),
                        ),
                        ..m
                    },
                );
            },
            None => {},
        }
    }

    /// [`CacheView::without_reactions`] keeps the invariant.
    pub proof fn without_reactions_keeps_wf(self, channel: u64, id: u64)
        requires
            self.wf(),
        ensures
            self.without_reactions(channel, id).wf(),
    {
        match self.message(channel, id) {
            Some(m) => {
                self.with_message_changed_keeps_wf(
                    channel,
                    id,
                    MessageView { reactions: Seq::empty(), ..m },
                );
            },
            None => {},
        }
    }

    /// [`CacheView::with_message_created`] keeps the invariant.
    pub proof fn with_message_created_keeps_wf(
        self,
        message: crate::model::channel::message::Message,
    )
        requires
            self.wf(),
        ensures
            self.with_message_created(message).wf(),
    {
        self.with_message_keeps_wf(
            message.channel_id.0,
            crate::cache::view::cached_message(message),
        );
        let stored = self.with_message(
            message.channel_id.0,
            crate::cache::view::cached_message(message),
        );
        match (message.member, message.guild_id) {
            (Some(part), Some(g)) => {
                stored.with_member_keeps_wf(
                    g.0,
                    crate::cache::view::member_of_message(g, part, message.author),
                );
            },
            _ => {
                stored.with_user_keeps_wf(message.author);
            },
        }
    }

    /// [`CacheView::with_pins_update`] keeps the invariant.
    pub proof fn with_pins_update_keeps_wf(self, id: u64, at: Option<String>)
        requires
            self.wf(),
        ensures
            self.with_pins_update(id, at).wf(),
    {
    }

    /// [`CacheView::with_guild_channel`] keeps the invariant.
    pub proof fn with_guild_channel_keeps_wf(self, guild: u64, channel: GuildChannel)
        requires
            self.wf(),
        ensures
            self.with_guild_channel(guild, channel).wf(),
    {
        let row = GuildItem { data: channel, guild_id: crate::model::id::GuildId(guild) };
        lockstep_after_put(self.channels_guild, self.guild_channels, channel.id().0, row);
    }

    /// [`CacheView::without_guild_channel`] keeps the invariant.
    pub proof fn without_guild_channel_keeps_wf(self, id: u64)
        requires
            self.wf(),
        ensures
            self.without_guild_channel(id).wf(),
    {
        if self.channels_guild.contains_key(id) {
            lockstep_after_remove(self.channels_guild, self.guild_channels, id);
        }
    }

    /// [`CacheView::with_private_channel`] keeps the invariant.
    pub proof fn with_private_channel_keeps_wf(self, channel: PrivateChannel)
        requires
            self.wf(),
        ensures
            self.with_private_channel(channel).wf(),
    {
    }

    /// [`CacheView::with_group`] keeps the invariant.
    pub proof fn with_group_keeps_wf(self, group: Group)
        requires
            self.wf(),
        ensures
            self.with_group(group).wf(),
    {
    }

    /// Removing a private channel or a group keeps the invariant.
    pub proof fn without_private_channel_keeps_wf(self, id: u64)
        requires
            self.wf(),
        ensures
            self.without_private_channel(id).wf(),
            self.without_group(id).wf(),
    {
    }

    /// [`CacheView::with_emoji`] keeps the invariant.
    pub proof fn with_emoji_keeps_wf(self, guild: u64, emoji: Emoji)
        requires
            self.wf(),
        ensures
            self.with_emoji(guild, emoji).wf(),
    {
        let row = GuildItem { data: emoji, guild_id: crate::model::id::GuildId(guild) };
        lockstep_after_put(self.emojis, self.guild_emojis, emoji.id.0, row);
    }

    /// [`CacheView::with_role`] keeps the invariant.
    pub proof fn with_role_keeps_wf(self, guild: u64, role: Role)
        requires
            self.wf(),
        ensures
            self.with_role(guild, role).wf(),
    {
        let row = GuildItem { data: role, guild_id: crate::model::id::GuildId(guild) };
        lockstep_after_put(self.roles, self.guild_roles, role.id.0, row);
    }

    /// [`CacheView::without_role`] keeps the invariant.
    pub proof fn without_role_keeps_wf(self, id: u64)
        requires
            self.wf(),
        ensures
            self.without_role(id).wf(),
    {
        if self.roles.contains_key(id) {
            lockstep_after_remove(self.roles, self.guild_roles, id);
        }
    }

    /// [`CacheView::with_user`] keeps the invariant.
    pub proof fn with_user_keeps_wf(self, user: User)
        requires
            self.wf(),
        ensures
            self.with_user(user).wf(),
    {
        let after = self.with_user(user);
        assert forall|u: u64| #[trigger] after.users.contains_key(u) implies exists|g: u64|
            after.users[u].1.contains(g) by {
            let g = choose|g: u64| self.users[u].1.contains(g);
            assert(after.users[u].1.contains(g));
        }
        assert forall|u: u64, g: u64|
            after.users.contains_key(u) && #[trigger] after.users[u].1.contains(
                g,
            ) implies after.members.contains_key((g, u)) by {
            assert(self.users[u].1.contains(g));
        }
    }

    /// [`CacheView::with_member`] keeps the invariant.
    pub proof fn with_member_keeps_wf(self, guild: u64, member: Member)
        requires
            self.wf(),
        ensures
            self.with_member(guild, member).wf(),
    {
        let user = member.user.id.0;
        paired_after_put(self.members.dom(), self.guild_members, guild, user);
        let after = self.with_member(guild, member);
        assert(after.members.dom() =~= self.members.dom().insert((guild, user)));
        assert forall|u: u64| #[trigger] after.users.contains_key(u) implies exists|g: u64|
            after.users[u].1.contains(g) by {
            if u == user {
                assert(after.users[u].1.contains(guild));
            } else {
                let g = choose|g: u64| self.users[u].1.contains(g);
                assert(after.users[u].1.contains(g));
            }
        }
        assert forall|g: u64, u: u64| #[trigger]
            after.members.contains_key((g, u)) implies after.users.contains_key(u)
            && after.users[u].1.contains(g) by {
            if !(g == guild && u == user) {
                assert(self.members.contains_key((g, u)));
            }
        }
        assert forall|u: u64, g: u64|
            after.users.contains_key(u) && #[trigger] after.users[u].1.contains(
                g,
            ) implies after.members.contains_key((g, u)) by {
            if !(g == guild && u == user) {
                assert(self.users.contains_key(u) && self.users[u].1.contains(g));
            }
        }
    }

    /// [`CacheView::without_member`] keeps the invariant.
    pub proof fn without_member_keeps_wf(self, guild: u64, user: u64)
        requires
            self.wf(),
        ensures
            self.without_member(guild, user).wf(),
    {
        paired_after_remove(self.members.dom(), self.guild_members, guild, user);
        let after = self.without_member(guild, user);
        assert(after.members.dom() =~= self.members.dom().remove((guild, user)));
        assert forall|u: u64| #[trigger] after.users.contains_key(u) implies exists|g: u64|
            after.users[u].1.contains(g) by {
            if u == user {
                let left = self.users[user].1.remove(guild);
                assert(!(left =~= Set::empty()));
                let g = choose|g: u64| left.contains(g);
                assert(after.users[u].1.contains(g));
            } else {
                let g = choose|g: u64| self.users[u].1.contains(g);
                assert(after.users[u].1.contains(g));
            }
        }
        assert forall|g: u64, u: u64| #[trigger]
            after.members.contains_key((g, u)) implies after.users.contains_key(u)
            && after.users[u].1.contains(g) by {
            assert(self.members.contains_key((g, u)));
            if u == user {
                assert(self.users[user].1.remove(guild).contains(g));
            }
        }
        assert forall|u: u64, g: u64|
            after.users.contains_key(u) && #[trigger] after.users[u].1.contains(
                g,
            ) implies after.members.contains_key((g, u)) by {
            assert(self.users[u].1.contains(g));
        }
    }

    /// [`CacheView::with_member_update`] keeps the invariant.
    pub proof fn with_member_update_keeps_wf(
        self,
        update: crate::model::gateway::payload::MemberUpdate,
    )
        requires
            self.wf(),
        ensures
            self.with_member_update(update).wf(),
    {
        let key = (update.guild_id.0, update.user.id.0);
        if self.members.contains_key(key) {
            assert(self.with_member_update(update).members.dom() =~= self.members.dom());
        }
    }

    /// [`CacheView::with_presence`] keeps the invariant.
    pub proof fn with_presence_keeps_wf(self, guild: u64, presence: Presence)
        requires
            self.wf(),
        ensures
            self.with_presence(guild, presence).wf(),
    {
        paired_after_put(self.presences.dom(), self.guild_presences, guild, presence.user_id.0);
        let after = self.with_presence(guild, presence);
        assert(after.presences.dom() =~= self.presences.dom().insert(
            (guild, presence.user_id.0),
        ));
    }

    /// [`CacheView::with_voice_state`] keeps the invariant.
    pub proof fn with_voice_state_keeps_wf(self, state: VoiceState)
        requires
            self.wf(),
        ensures
            self.with_voice_state(state).wf(),
    {
        match state.guild_id {
            Some(g) => {
                paired_after_put(
                    self.voice_states.dom(),
                    self.guild_voice_states,
                    g.0,
                    state.user_id.0,
                );
                let after = self.with_voice_state(state);
                assert(after.voice_states.dom() =~= self.voice_states.dom().insert(
                    (g.0, state.user_id.0),
                ));
            },
            None => {},
        }
    }

    /// [`CacheView::without_channels_of`] keeps the invariant.
    pub proof fn without_channels_of_keeps_wf(self, guild: u64)
        requires
            self.wf(),
        ensures
            self.without_channels_of(guild).wf(),
    {
        lockstep_after_purge(self.channels_guild, self.guild_channels, guild);
    }

    /// [`CacheView::without_emojis_of`] keeps the invariant.
    pub proof fn without_emojis_of_keeps_wf(self, guild: u64)
        requires
            self.wf(),
        ensures
            self.without_emojis_of(guild).wf(),
            self.with_emojis_replaced(guild, Seq::empty()).wf(),
    {
        lockstep_after_purge(self.emojis, self.guild_emojis, guild);
    }

    /// [`CacheView::without_roles_of`] keeps the invariant.
    pub proof fn without_roles_of_keeps_wf(self, guild: u64)
        requires
            self.wf(),
        ensures
            self.without_roles_of(guild).wf(),
    {
        lockstep_after_purge(self.roles, self.guild_roles, guild);
    }

    /// The users that are known in a guild are those that the guild lists as
    /// members: once each of them has left the guild, no user is known in it.
    pub proof fn users_leave_with_members(self, guild: u64)
        requires
            self.wf(),
        ensures
            crate::cache::view::users_without(
                self.users,
                guild,
                crate::cache::view::ids_in(self.guild_members, guild),
            ) == crate::cache::view::users_outside(self.users, guild),
    {
        let gone = crate::cache::view::ids_in(self.guild_members, guild);
        let left = crate::cache::view::users_without(self.users, guild, gone);
        let right = crate::cache::view::users_outside(self.users, guild);
        assert forall|u: u64| self.users.contains_key(u) && !gone.contains(u) implies {
            &&& self.users[u].1.remove(guild) == self.users[u].1
            &&& !self.users[u].1.remove(guild).is_empty()
        } by {
            if self.users[u].1.contains(guild) {
                assert(self.members.contains_key((guild, u)));
                assert(self.members.dom().contains((guild, u)));
            }
            assert(self.users[u].1.remove(guild) =~= self.users[u].1);
            let g = choose|g: u64| self.users[u].1.contains(g);
            assert(self.users[u].1.remove(guild).contains(g));
        }
        assert(left =~= right);
    }

    /// [`CacheView::without_members_of`] keeps the invariant.
    pub proof fn without_members_of_keeps_wf(self, guild: u64)
        requires
            self.wf(),
        ensures
            self.without_members_of(guild).wf(),
    {
        paired_after_purge(self.members, self.guild_members, guild);
        let after = self.without_members_of(guild);
        assert forall|u: u64| #[trigger] after.users.contains_key(u) implies exists|g: u64|
            after.users[u].1.contains(g) by {
            let left = self.users[u].1.remove(guild);
            assert(!(left =~= Set::empty()));
            let g = choose|g: u64| left.contains(g);
            assert(after.users[u].1.contains(g));
        }
        assert forall|g: u64, u: u64| #[trigger]
            after.members.contains_key((g, u)) implies after.users.contains_key(u)
            && after.users[u].1.contains(g) by {
            assert(self.members.contains_key((g, u)));
            assert(self.users[u].1.remove(guild).contains(g));
        }
        assert forall|u: u64, g: u64|
            after.users.contains_key(u) && #[trigger] after.users[u].1.contains(
                g,
            ) implies after.members.contains_key((g, u)) by {
            assert(self.users[u].1.contains(g));
        }
    }

    /// [`CacheView::without_presences_of`] keeps the invariant.
    pub proof fn without_presences_of_keeps_wf(self, guild: u64)
        requires
            self.wf(),
        ensures
            self.without_presences_of(guild).wf(),
    {
        paired_after_purge(self.presences, self.guild_presences, guild);
    }

    /// [`CacheView::without_voice_states_of`] keeps the invariant.
    pub proof fn without_voice_states_of_keeps_wf(self, guild: u64)
        requires
            self.wf(),
        ensures
            self.without_voice_states_of(guild).wf(),
    {
        paired_after_purge(self.voice_states, self.guild_voice_states, guild);
    }

    /// Removing what a guild owns, and the guild with it, keeps the invariant.
    pub proof fn purged_keeps_wf(self, guild: u64)
        requires
            self.wf(),
        ensures
            self.purged(guild).wf(),
            self.without_guild(guild).wf(),
    {
        self.without_channels_of_keeps_wf(guild);
        let a = self.without_channels_of(guild);
        a.without_emojis_of_keeps_wf(guild);
        let b = a.without_emojis_of(guild);
        b.without_roles_of_keeps_wf(guild);
        let c = b.without_roles_of(guild);
        c.without_members_of_keeps_wf(guild);
        let d = c.without_members_of(guild);
        d.without_presences_of_keeps_wf(guild);
        let e = d.without_presences_of(guild);
        e.without_voice_states_of_keeps_wf(guild);
    }

    /// Emptying a guild's lists after removing what it owns keeps the invariant.
    pub proof fn purged_opened_keeps_wf(self, guild: u64)
        requires
            self.wf(),
        ensures
            self.purged(guild).opened(guild).wf(),
    {
        self.purged_keeps_wf(guild);
        lockstep_after_purge(self.channels_guild, self.guild_channels, guild);
        lockstep_after_purge(self.emojis, self.guild_emojis, guild);
        lockstep_after_purge(self.roles, self.guild_roles, guild);
        paired_after_purge(self.members, self.guild_members, guild);
        paired_after_purge(self.presences, self.guild_presences, guild);
        paired_after_purge(self.voice_states, self.guild_voice_states, guild);
        let after = self.purged(guild).opened(guild);
        assert(after.guild_channels =~= self.guild_channels.insert(guild, Set::empty()));
        assert(after.guild_emojis =~= self.guild_emojis.insert(guild, Set::empty()));
        assert(after.guild_roles =~= self.guild_roles.insert(guild, Set::empty()));
        assert(after.guild_members =~= self.guild_members.insert(guild, Set::empty()));
        assert(after.guild_presences =~= self.guild_presences.insert(guild, Set::empty()));
        assert(after.guild_voice_states =~= self.guild_voice_states.insert(guild, Set::empty()));
    }

    /// [`CacheView::with_guild_channels`] keeps the invariant.
    pub proof fn with_guild_channels_keeps_wf(self, guild: u64, list: Seq<GuildChannel>)
        requires
            self.wf(),
        ensures
            self.with_guild_channels(guild, list).wf(),
            self.with_guild_channels(guild, list).configured_as(self),
            self.with_guild_channels(guild, list).messages == self.messages,
        decreases list.len(),
    {
        if list.len() > 0 {
            self.with_guild_channels_keeps_wf(guild, list.drop_last());
            self.with_guild_channels(guild, list.drop_last()).with_guild_channel_keeps_wf(
                guild,
                list.last(),
            );
        }
    }

    /// [`CacheView::with_emojis`] keeps the invariant.
    pub proof fn with_emojis_keeps_wf(self, guild: u64, list: Seq<Emoji>)
        requires
            self.wf(),
        ensures
            self.with_emojis(guild, list).wf(),
            self.with_emojis(guild, list).configured_as(self),
            self.with_emojis(guild, list).messages == self.messages,
        decreases list.len(),
    {
        if list.len() > 0 {
            self.with_emojis_keeps_wf(guild, list.drop_last());
            self.with_emojis(guild, list.drop_last()).with_emoji_keeps_wf(guild, list.last());
        }
    }

    /// [`CacheView::with_roles`] keeps the invariant.
    pub proof fn with_roles_keeps_wf(self, guild: u64, list: Seq<Role>)
        requires
            self.wf(),
        ensures
            self.with_roles(guild, list).wf(),
            self.with_roles(guild, list).configured_as(self),
            self.with_roles(guild, list).messages == self.messages,
        decreases list.len(),
    {
        if list.len() > 0 {
            self.with_roles_keeps_wf(guild, list.drop_last());
            self.with_roles(guild, list.drop_last()).with_role_keeps_wf(guild, list.last());
        }
    }

    /// [`CacheView::with_members`] keeps the invariant.
    pub proof fn with_members_keeps_wf(self, guild: u64, list: Seq<Member>)
        requires
            self.wf(),
        ensures
            self.with_members(guild, list).wf(),
            self.with_members(guild, list).configured_as(self),
            self.with_members(guild, list).messages == self.messages,
        decreases list.len(),
    {
        if list.len() > 0 {
            self.with_members_keeps_wf(guild, list.drop_last());
            self.with_members(guild, list.drop_last()).with_member_keeps_wf(guild, list.last());
        }
    }

    /// [`CacheView::with_presences`] keeps the invariant.
    pub proof fn with_presences_keeps_wf(self, guild: u64, list: Seq<Presence>)
        requires
            self.wf(),
        ensures
            self.with_presences(guild, list).wf(),
            self.with_presences(guild, list).configured_as(self),
            self.with_presences(guild, list).messages == self.messages,
        decreases list.len(),
    {
        if list.len() > 0 {
            self.with_presences_keeps_wf(guild, list.drop_last());
            self.with_presences(guild, list.drop_last()).with_presence_keeps_wf(
                guild,
                list.last(),
            );
        }
    }

    /// [`CacheView::with_voice_states`] keeps the invariant.
    pub proof fn with_voice_states_keeps_wf(self, guild: u64, list: Seq<VoiceState>)
        requires
            self.wf(),
        ensures
            self.with_voice_states(guild, list).wf(),
            self.with_voice_states(guild, list).configured_as(self),
            self.with_voice_states(guild, list).messages == self.messages,
        decreases list.len(),
    {
        if list.len() > 0 {
            self.with_voice_states_keeps_wf(guild, list.drop_last());
            self.with_voice_states(guild, list.drop_last()).with_voice_state_keeps_wf(
                VoiceState { guild_id: Some(crate::model::id::GuildId(guild)), ..list.last() },
            );
        }
    }

    /// [`CacheView::with_emojis_replaced`] keeps the invariant.
    pub proof fn with_emojis_replaced_keeps_wf(self, guild: u64, list: Seq<Emoji>)
        requires
            self.wf(),
        ensures
            self.with_emojis_replaced(guild, list).wf(),
            self.with_emojis_replaced(guild, list).configured_as(self),
            self.with_emojis_replaced(guild, list).messages == self.messages,
    {
        self.without_emojis_of_keeps_wf(guild);
        self.with_emojis_replaced(guild, Seq::empty()).with_emojis_keeps_wf(guild, list);
    }

    /// [`CacheView::with_guild`] keeps the invariant.
    pub proof fn with_guild_keeps_wf(self, guild: crate::model::guild::Guild)
        requires
            self.wf(),
        ensures
            self.with_guild(guild).wf(),
            self.with_guild(guild).configured_as(self),
            self.with_guild(guild).messages == self.messages,
    {
        let g = guild.id.0;
        self.purged_opened_keeps_wf(g);
        let a = self.purged(g).opened(g);
        a.with_guild_channels_keeps_wf(g, guild.channels@);
        let b = a.with_guild_channels(g, guild.channels@);
        b.with_emojis_keeps_wf(g, guild.emojis@);
        let c = b.with_emojis(g, guild.emojis@);
        c.with_members_keeps_wf(g, guild.members@);
        let d = c.with_members(g, guild.members@);
        d.with_presences_keeps_wf(g, guild.presences@);
        let e = d.with_presences(g, guild.presences@);
        e.with_roles_keeps_wf(g, guild.roles@);
        let f = e.with_roles(g, guild.roles@);
        f.with_voice_states_keeps_wf(g, guild.voice_states@);
        f.with_voice_states(g, guild.voice_states@).with_guild_row_keeps_wf(
            crate::cache::view::cached_guild(guild),
        );
    }

    /// [`CacheView::with_guild_statuses`] keeps the invariant.
    pub proof fn with_guild_statuses_keeps_wf(
        self,
        list: Seq<crate::model::guild::GuildStatus>,
    )
        requires
            self.wf(),
        ensures
            self.with_guild_statuses(list).wf(),
            self.with_guild_statuses(list).configured_as(self),
            self.with_guild_statuses(list).messages == self.messages,
        decreases list.len(),
    {
        if list.len() > 0 {
            self.with_guild_statuses_keeps_wf(list.drop_last());
            let done = self.with_guild_statuses(list.drop_last());
            match list.last() {
                crate::model::guild::GuildStatus::Offline(u) => {
                    done.with_unavailable_guild_keeps_wf(u.id.0);
                },
                crate::model::guild::GuildStatus::Online(g) => {
                    done.with_guild_keeps_wf(g);
                },
            }
        }
    }

    /// Caching or removing a channel of any kind keeps the invariant.
    pub proof fn with_channel_keeps_wf(self, channel: crate::model::channel::Channel)
        requires
            self.wf(),
        ensures
            self.with_channel(channel).wf(),
            self.without_channel(channel).wf(),
    {
        match channel {
            crate::model::channel::Channel::Group(c) => {
                self.with_group_keeps_wf(c);
                self.without_private_channel_keeps_wf(c.id.0);
            },
            crate::model::channel::Channel::Guild(c) => {
                match c.guild_id() {
                    Some(g) => {
                        self.with_guild_channel_keeps_wf(g.0, c);
                    },
                    None => {},
                }
                self.without_guild_channel_keeps_wf(c.id().0);
            },
            crate::model::channel::Channel::Private(c) => {
                self.with_private_channel_keeps_wf(c);
                self.without_private_channel_keeps_wf(c.id.0);
            },
        }
    }

    /// [`CacheView::with_guild_update`] keeps the invariant.
    pub proof fn with_guild_update_keeps_wf(self, update: crate::model::guild::PartialGuild)
        requires
            self.wf(),
        ensures
            self.with_guild_update(update).wf(),
    {
    }

    /// [`CacheView::with_unavailable_guild`] keeps the invariant.
    pub proof fn with_unavailable_guild_keeps_wf(self, guild: u64)
        requires
            self.wf(),
        ensures
            self.with_unavailable_guild(guild).wf(),
    {
    }

    /// [`CacheView::with_guild_row`] keeps the invariant.
    pub proof fn with_guild_row_keeps_wf(self, row: crate::cache::model::CachedGuild)
        requires
            self.wf(),
        ensures
            self.with_guild_row(row).wf(),
    {
    }
}

} // verus!
