//! What holds of the cache whatever events it is given.

use vstd::prelude::*;
use crate::cache::config::{GUILD_DELETE, MEMBER_REMOVE, REACTION_ADD, REACTION_REMOVE};
use crate::cache::updates::UpdateCache;
use crate::cache::model::MessageView;
use crate::cache::view::{
    cached_message, patched_message, place, reacted, tidy, unreacted, with_message,
    without_emoji, CacheView,
};
use crate::model::id::MessageId;
use crate::model::channel::message::{MessageReaction, ReactionType};
use crate::model::gateway::event::Event;
use crate::model::gateway::payload::{
    GuildDelete, MemberRemove, MessageCreate, Reaction, ReactionAdd, ReactionRemove,
};
use crate::model::id::GuildId;

verus! {

/// What a cache holds after the events were applied, in order, to a cache
/// that held `start`.
pub open spec fn after_all(start: CacheView, events: Seq<Event>) -> CacheView
    decreases events.len(),
{
    if events.len() == 0 {
        start
    } else {
        events.last().updated(after_all(start, events.drop_last()))
    }
}

/// An event keeps the cache's invariant and its settings.
pub proof fn event_keeps_invariant(event: Event, before: CacheView)
    requires
        before.wf(),
    ensures
        event.updated(before).wf(),
        event.updated(before).configured_as(before),
{
    match event {
        Event::ChannelCreate(v) => {
            before.with_channel_keeps_wf(v.0);
        },
        Event::ChannelDelete(v) => {
            before.with_channel_keeps_wf(v.0);
        },
        Event::ChannelPinsUpdate(v) => {
            before.with_pins_update_keeps_wf(v.channel_id.0, v.last_pin_timestamp);
        },
        Event::ChannelUpdate(v) => {
            before.with_channel_keeps_wf(v.0);
        },
        Event::GuildCreate(v) => {
            before.with_guild_keeps_wf(v.0);
        },
        Event::GuildDelete(v) => {
            before.purged_keeps_wf(v.id.0);
        },
        Event::GuildEmojisUpdate(v) => {
            before.with_emojis_replaced_keeps_wf(v.guild_id.0, v.emojis@);
        },
        Event::GuildUpdate(v) => {
            before.with_guild_update_keeps_wf(v.0);
        },
        Event::MemberAdd(v) => {
            before.with_member_keeps_wf(v.0.guild_id.0, v.0);
        },
        Event::MemberRemove(v) => {
            before.without_member_keeps_wf(v.guild_id.0, v.user.id.0);
        },
        Event::MemberUpdate(v) => {
            before.with_member_update_keeps_wf(v);
        },
        Event::MemberChunk(v) => {
            before.with_members_keeps_wf(v.guild_id.0, v.members@);
        },
        Event::MessageCreate(v) => {
            before.with_message_created_keeps_wf(v.0);
        },
        Event::MessageDelete(v) => {
            before.without_message_keeps_wf(v.channel_id.0, v.id.0);
        },
        Event::MessageDeleteBulk(v) => {
            before.without_messages_keeps_wf(v.channel_id.0, v.ids@);
        },
        Event::MessageUpdate(v) => {
            before.with_message_update_keeps_wf(v);
        },
        Event::PresenceUpdate(v) => {
            before.with_presence_keeps_wf(v.guild_id.0, v.presence());
        },
        Event::ReactionAdd(v) => {
            before.with_reaction_keeps_wf(
                v.0.channel_id.0,
                v.0.message_id.0,
                v.0.emoji,
                v.0.user_id,
            );
        },
        Event::ReactionRemove(v) => {
            before.with_reaction_keeps_wf(
                v.0.channel_id.0,
                v.0.message_id.0,
                v.0.emoji,
                v.0.user_id,
            );
        },
        Event::ReactionRemoveAll(v) => {
            before.without_reactions_keeps_wf(v.channel_id.0, v.message_id.0);
        },
        Event::Ready(v) => {
            (CacheView { current_user: Some(v.user), ..before }).with_guild_statuses_keeps_wf(
                v.guilds@,
            );
        },
        Event::RoleCreate(v) => {
            before.with_role_keeps_wf(v.guild_id.0, v.role);
        },
        Event::RoleDelete(v) => {
            before.without_role_keeps_wf(v.role_id.0);
        },
        Event::RoleUpdate(v) => {
            before.with_role_keeps_wf(v.guild_id.0, v.role);
        },
        Event::UnavailableGuild(v) => {
            before.with_unavailable_guild_keeps_wf(v.id.0);
        },
        Event::VoiceStateUpdate(v) => {
            before.with_voice_state_keeps_wf(v.0);
        },
        _ => {},
    }
}

/// Any sequence of events keeps the cache's invariant and its settings.
pub proof fn events_keep_invariant(start: CacheView, events: Seq<Event>)
    requires
        start.wf(),
    ensures
        after_all(start, events).wf(),
        after_all(start, events).configured_as(start),
    decreases events.len(),
{
    if events.len() > 0 {
        events_keep_invariant(start, events.drop_last());
        event_keeps_invariant(events.last(), after_all(start, events.drop_last()));
    }
}

/// After any sequence of events, no channel holds more messages than the
/// limit the cache was built with.
pub proof fn messages_stay_within_limit(start: CacheView, events: Seq<Event>, channel: u64)
    requires
        start.wf(),
    ensures
        after_all(start, events).messages_in(channel).len() <= start.message_cache_size,
{
    events_keep_invariant(start, events);
}

/// What a new message does to the messages of its channel. Where the channel
/// holds as many messages as the limit allows, and the limit is at least
/// one, exactly the message with the greatest cached id is evicted and the
/// new message is cached: the messages are the old ones without that one,
/// with the new one under its id. Where there is room, the old messages all
/// stay. With a limit of zero nothing is cached.
pub proof fn message_create_evicts_the_greatest(before: CacheView, event: MessageCreate)
    requires
        before.wf(),
        before.wants(crate::cache::config::MESSAGE_CREATE),
    ensures
        ({
            let after = event.updated(before);
            let channel = event.0.channel_id.0;
            let old = before.messages_in(channel);
            let new = cached_message(event.0);
            let limit = before.message_cache_size;
            &&& after.messages.contains_key(channel)
            &&& forall|c: u64|
                c != channel ==> after.messages.contains_key(c) == before.messages.contains_key(c)
                    && (after.messages.contains_key(c) ==> #[trigger] after.messages[c]
                    == before.messages[c])
            &&& limit == 0 ==> after.messages[channel] == old
            &&& 0 < limit && old.len() < limit ==> after.messages[channel] == old.insert(
                new.id.0,
                new,
            )
            &&& 0 < limit <= old.len() ==> crate::cache::view::is_greatest(
                old,
                crate::cache::view::greatest(old),
            ) && after.messages[channel] == old.remove(crate::cache::view::greatest(old)).insert(
                new.id.0,
                new,
            )
        }),
{
    let channel = event.0.channel_id.0;
    let old = before.messages_in(channel);
    if 0 < before.message_cache_size <= old.len() {
        assert(before.messages.contains_key(channel));
        crate::cache::upkeep::greatest_is_greatest(old);
    }
}

/// After a guild was deleted, the guild is not cached, no channel, emoji,
/// role, member, presence or voice state names it as its guild, no index
/// lists anything for it, and no user is known in it: each user is known in
/// the guilds it was known in but for the deleted one, and a user is
/// forgotten only if that leaves no guild.
pub proof fn guild_delete_leaves_nothing(before: CacheView, event: GuildDelete)
    requires
        before.wf(),
        before.wants(GUILD_DELETE),
    ensures
        ({
            let after = event.updated(before);
            let g = event.id.0;
            &&& !after.guilds.contains_key(g)
            &&& forall|id: u64| #[trigger]
                after.channels_guild.contains_key(id) ==> after.channels_guild[id].guild_id.0
                    != g
            &&& forall|id: u64| #[trigger]
                after.emojis.contains_key(id) ==> after.emojis[id].guild_id.0 != g
            &&& forall|id: u64| #[trigger]
                after.roles.contains_key(id) ==> after.roles[id].guild_id.0 != g
            &&& forall|k: (u64, u64)| #[trigger]
                after.members.contains_key(k) ==> k.0 != g && after.members[k].guild_id.0 != g
            &&& forall|k: (u64, u64)| #[trigger]
                after.presences.contains_key(k) ==> k.0 != g && after.presences[k].guild_id.0
                    != g
            &&& forall|k: (u64, u64)| #[trigger]
                after.voice_states.contains_key(k) ==> k.0 != g
                    && after.voice_states[k].guild_id != Some(GuildId(g))
            &&& forall|u: u64| #[trigger]
                after.users.contains_key(u) ==> !after.users[u].1.contains(g)
                    && before.users.contains_key(u) && after.users[u].0 == before.users[u].0
                    && after.users[u].1 == before.users[u].1.remove(g)
            &&& forall|u: u64|
                before.users.contains_key(u) && !(#[trigger] after.users.contains_key(u))
                    ==> before.users[u].1.remove(g).is_empty()
            &&& !after.guild_channels.contains_key(g)
            &&& !after.guild_emojis.contains_key(g)
            &&& !after.guild_roles.contains_key(g)
            &&& !after.guild_members.contains_key(g)
            &&& !after.guild_presences.contains_key(g)
            &&& !after.guild_voice_states.contains_key(g)
        }),
{
    before.purged_keeps_wf(event.id.0);
}

/// After a member was removed, the user is forgotten if it was known in no
/// other guild; else it is still known, in the guilds it was known in but
/// for the one it was removed from.
pub proof fn member_remove_settles_user(before: CacheView, event: MemberRemove)
    requires
        before.wf(),
        before.wants(MEMBER_REMOVE),
    ensures
        ({
            let after = event.updated(before);
            let g = event.guild_id.0;
            let u = event.user.id.0;
            let elsewhere = before.users.contains_key(u) && exists|h: u64|
                h != g && before.users[u].1.contains(h);
            &&& !after.members.contains_key((g, u))
            &&& !ids_listed(after.guild_members, g, u)
            &&& elsewhere ==> after.users.contains_key(u) && after.users[u].0
                == before.users[u].0 && after.users[u].1 == before.users[u].1.remove(g)
            &&& !elsewhere ==> !after.users.contains_key(u)
        }),
{
    let g = event.guild_id.0;
    let u = event.user.id.0;
    if before.users.contains_key(u) {
        let left = before.users[u].1.remove(g);
        if exists|h: u64| h != g && before.users[u].1.contains(h) {
            let h = choose|h: u64| h != g && before.users[u].1.contains(h);
            assert(left.contains(h));
        }
    }
}

/// Whether `index` lists `id` for `guild`.
pub open spec fn ids_listed(index: Map<u64, Set<u64>>, guild: u64, id: u64) -> bool {
    index.contains_key(guild) && index[guild].contains(id)
}

/// The place of an emoji is a place in the list or its length; no reaction
/// before it is made with the emoji, and the one at it, if any, is.
pub proof fn place_bounds(reactions: Seq<MessageReaction>, emoji: ReactionType)
    ensures
        0 <= place(reactions, emoji) <= reactions.len(),
        forall|k: int| 0 <= k < place(reactions, emoji) ==> !reactions[k].emoji.same(&emoji),
        place(reactions, emoji) < reactions.len() ==> reactions[place(
            reactions,
            emoji,
        )].emoji.same(&emoji),
    decreases reactions.len(),
{
    if reactions.len() == 0 || reactions[0].emoji.same(&emoji) {
    } else {
        place_bounds(reactions.drop_first(), emoji);
        assert forall|k: int| 0 <= k < place(reactions, emoji) implies !reactions[k].emoji.same(
            &emoji,
        ) by {
            if k > 0 {
                assert(reactions[k] == reactions.drop_first()[k - 1]);
            }
        }
    }
}

/// The first place at which a reaction is made with the emoji is the place
/// of the emoji.
pub proof fn place_found(reactions: Seq<MessageReaction>, emoji: ReactionType, at: int)
    requires
        0 <= at <= reactions.len(),
        forall|k: int| 0 <= k < at ==> !reactions[k].emoji.same(&emoji),
        at < reactions.len() ==> reactions[at].emoji.same(&emoji),
    ensures
        place(reactions, emoji) == at,
    decreases reactions.len(),
{
    if reactions.len() == 0 || reactions[0].emoji.same(&emoji) {
    } else {
        let rest = reactions.drop_first();
        assert forall|k: int| 0 <= k < at - 1 implies !rest[k].emoji.same(&emoji) by {
            assert(rest[k] == reactions[k + 1]);
        }
        place_found(rest, emoji, at - 1);
    }
}

/// Taking an emoji out of reactions of which none is made with it changes
/// nothing.
pub proof fn without_absent_emoji(reactions: Seq<MessageReaction>, emoji: ReactionType)
    requires
        forall|k: int| 0 <= k < reactions.len() ==> !reactions[k].emoji.same(&emoji),
    ensures
        without_emoji(reactions, emoji) == reactions,
    decreases reactions.len(),
{
    if reactions.len() > 0 {
        without_absent_emoji(reactions.drop_last(), emoji);
        assert(reactions.drop_last().push(reactions.last()) =~= reactions);
    }
}

/// Withdrawing a reaction that was just made restores the reactions, as long
/// as the count had room for one more and the client's own account had not
/// reacted with the emoji before when it is the one that reacts.
pub proof fn unreact_undoes_react(
    reactions: Seq<MessageReaction>,
    emoji: ReactionType,
    by_me: bool,
)
    requires
        place(reactions, emoji) < reactions.len() ==> {
            let entry = reactions[place(reactions, emoji)];
            1 <= entry.count < u64::MAX && !(entry.me && by_me)
        },
    ensures
        unreacted(reacted(reactions, emoji, by_me), emoji, by_me) == reactions,
{
    let at = place(reactions, emoji);
    place_bounds(reactions, emoji);
    let made = reacted(reactions, emoji, by_me);
    if at < reactions.len() {
        assert forall|k: int| 0 <= k < at implies !made[k].emoji.same(&emoji) by {
            assert(made[k] == reactions[k]);
        }
        place_found(made, emoji, at);
        assert(unreacted(made, emoji, by_me) =~= reactions);
    } else {
        assert forall|k: int| 0 <= k < at implies !made[k].emoji.same(&emoji) by {
            assert(made[k] == reactions[k]);
        }
        place_found(made, emoji, at);
        assert(made.drop_last() =~= reactions);
        without_absent_emoji(reactions, emoji);
    }
}

/// Whether two lists of reactions have the same length and, place by place,
/// the same emoji and the same count.
pub open spec fn same_counts(a: Seq<MessageReaction>, b: Seq<MessageReaction>) -> bool {
    a.len() == b.len() && forall|i: int|
        0 <= i < a.len() ==> (#[trigger] a[i]).emoji == b[i].emoji && a[i].count == b[i].count
}

/// Withdrawing a reaction that was just made restores the length, the order,
/// the emojis and the counts of the reactions, whoever reacts, as long as
/// the count of the emoji was at least one and had room for one more within
/// 64 bits. The flag of the client's own reaction is as it was too, but for
/// the one entry of the emoji where the flag was set and the client's own
/// account is the one that reacts: withdrawing clears it there.
pub proof fn unreact_after_react_keeps_counts(
    reactions: Seq<MessageReaction>,
    emoji: ReactionType,
    by_me: bool,
)
    requires
        place(reactions, emoji) < reactions.len() ==> 1 <= reactions[place(
            reactions,
            emoji,
        )].count < u64::MAX,
    ensures
        ({
            let after = unreacted(reacted(reactions, emoji, by_me), emoji, by_me);
            &&& same_counts(after, reactions)
            &&& forall|i: int|
                0 <= i < reactions.len() ==> (#[trigger] after[i]).me == (reactions[i].me && !(i
                    == place(reactions, emoji) && by_me))
        }),
{
    let at = place(reactions, emoji);
    place_bounds(reactions, emoji);
    let made = reacted(reactions, emoji, by_me);
    assert forall|k: int| 0 <= k < at implies !made[k].emoji.same(&emoji) by {
        assert(made[k] == reactions[k]);
    }
    place_found(made, emoji, at);
    if at >= reactions.len() {
        assert(made.drop_last() =~= reactions);
        without_absent_emoji(reactions, emoji);
    }
}

/// A reaction added and then removed by the same user leaves the cache as it
/// was, as long as the count of the emoji on the message had room for one
/// more and was at least one, and the client's own account had not reacted
/// with the emoji before when it is the one that reacts.
pub proof fn reaction_round_trip(before: CacheView, reaction: Reaction)
    requires
        before.wf(),
        before.wants(REACTION_ADD),
        before.wants(REACTION_REMOVE),
        match before.message(reaction.channel_id.0, reaction.message_id.0) {
            Some(m) => place(m.reactions, reaction.emoji) < m.reactions.len() ==> {
                let entry = m.reactions[place(m.reactions, reaction.emoji)];
                1 <= entry.count < u64::MAX && !(entry.me && before.is_me(reaction.user_id))
            },
            None => true,
        },
    ensures
        ReactionRemove(reaction).updated(ReactionAdd(reaction).updated(before)) == before,
{
    let channel = reaction.channel_id.0;
    let id = reaction.message_id.0;
    let by_me = before.is_me(reaction.user_id);
    match before.message(channel, id) {
        Some(m) => {
            let list = before.messages_in(channel);
            assert(before.messages.contains_key(channel));
            let made = crate::cache::model::MessageView {
                reactions: reacted(m.reactions, reaction.emoji, by_me),
                ..m
            };
            let middle = ReactionAdd(reaction).updated(before);
            let changed = list.insert(id, made);
            assert(middle.messages_in(channel) == changed);
            unreact_undoes_react(m.reactions, reaction.emoji, by_me);
            let after = ReactionRemove(reaction).updated(middle);
            assert(changed.insert(id, m) =~= list);
            assert(after.messages =~= before.messages);
            assert(after =~= before);
        },
        None => {},
    }
}

/// A reaction added and then removed by the same user restores the length,
/// the order, the emojis and the counts of the message's reactions, whoever
/// reacts, and changes nothing else in the cache but the flag of the
/// client's own reaction with that emoji, which withdrawing clears where the
/// client's own account is the one that reacts. This holds as long as the
/// count of the emoji on the message was at least one and had room for one
/// more within 64 bits.
pub proof fn reaction_round_trip_restores_counts(before: CacheView, reaction: Reaction)
    requires
        before.wf(),
        before.wants(REACTION_ADD),
        before.wants(REACTION_REMOVE),
        match before.message(reaction.channel_id.0, reaction.message_id.0) {
            Some(m) => place(m.reactions, reaction.emoji) < m.reactions.len() ==> 1
                <= m.reactions[place(m.reactions, reaction.emoji)].count < u64::MAX,
            None => true,
        },
    ensures
        ({
            let after = ReactionRemove(reaction).updated(ReactionAdd(reaction).updated(before));
            let by_me = before.is_me(reaction.user_id);
            match before.message(reaction.channel_id.0, reaction.message_id.0) {
                Some(m) => {
                    let left = unreacted(
                        reacted(m.reactions, reaction.emoji, by_me),
                        reaction.emoji,
                        by_me,
                    );
                    &&& after == before.with_message_changed(
                        reaction.channel_id.0,
                        reaction.message_id.0,
                        crate::cache::model::MessageView { reactions: left, ..m },
                    )
                    &&& same_counts(left, m.reactions)
                    &&& forall|i: int|
                        0 <= i < m.reactions.len() ==> (#[trigger] left[i]).me == (
                        m.reactions[i].me && !(i == place(m.reactions, reaction.emoji) && by_me))
                },
                None => after == before,
            }
        }),
{
    let channel = reaction.channel_id.0;
    let id = reaction.message_id.0;
    let by_me = before.is_me(reaction.user_id);
    match before.message(channel, id) {
        Some(m) => {
            let list = before.messages_in(channel);
            assert(before.messages.contains_key(channel));
            let made = crate::cache::model::MessageView {
                reactions: reacted(m.reactions, reaction.emoji, by_me),
                ..m
            };
            let middle = ReactionAdd(reaction).updated(before);
            let changed = list.insert(id, made);
            assert(middle.messages_in(channel) == changed);
            unreact_after_react_keeps_counts(m.reactions, reaction.emoji, by_me);
            let left = unreacted(made.reactions, reaction.emoji, by_me);
            let after = ReactionRemove(reaction).updated(middle);
            let wanted = before.with_message_changed(
                channel,
                id,
                crate::cache::model::MessageView { reactions: left, ..m },
            );
            assert(changed.insert(id, crate::cache::model::MessageView { reactions: left, ..m })
                =~= list.insert(id, crate::cache::model::MessageView { reactions: left, ..m }));
            assert(after.messages =~= wanted.messages);
            assert(after =~= wanted);
        },
        None => {},
    }
}

/// Making a reaction keeps the reactions tidy.
pub proof fn react_keeps_tidy(reactions: Seq<MessageReaction>, emoji: ReactionType, by_me: bool)
    requires
        tidy(reactions),
    ensures
        tidy(reacted(reactions, emoji, by_me)),
{
    let at = place(reactions, emoji);
    place_bounds(reactions, emoji);
    let made = reacted(reactions, emoji, by_me);
    assert forall|i: int, j: int| 0 <= i < j < made.len() implies !(#[trigger] made[i]).emoji.same(
        &(#[trigger] made[j]).emoji,
    ) by {
        if at < reactions.len() {
            assert(made[i].emoji == reactions[i].emoji);
            assert(made[j].emoji == reactions[j].emoji);
            assert(!reactions[i].emoji.same(&reactions[j].emoji));
        } else if j < reactions.len() {
            assert(!reactions[i].emoji.same(&reactions[j].emoji));
        } else {
            assert(!reactions[i].emoji.same(&emoji));
        }
    }
}

/// The reactions that are left when an emoji is taken out are reactions of
/// the list, in their order.
pub proof fn without_emoji_picks(reactions: Seq<MessageReaction>, emoji: ReactionType)
    ensures
        ({
            let kept = without_emoji(reactions, emoji);
            &&& kept.len() <= reactions.len()
            &&& forall|i: int|
                0 <= i < kept.len() ==> !(#[trigger] kept[i]).emoji.same(&emoji)
            &&& exists|from: Seq<int>|
                from.len() == kept.len() && (forall|i: int|
                    0 <= i < kept.len() ==> 0 <= #[trigger] from[i] < reactions.len() && kept[i]
                        == reactions[from[i]]) && (forall|i: int, j: int|
                    0 <= i < j < kept.len() ==> from[i] < from[j])
        }),
    decreases reactions.len(),
{
    let kept = without_emoji(reactions, emoji);
    if reactions.len() == 0 {
        let from = Seq::<int>::empty();
        assert(from.len() == kept.len());
    } else {
        let rest = reactions.drop_last();
        without_emoji_picks(rest, emoji);
        let before = without_emoji(rest, emoji);
        let from = choose|from: Seq<int>|
            from.len() == before.len() && (forall|i: int|
                0 <= i < before.len() ==> 0 <= #[trigger] from[i] < rest.len() && before[i]
                    == rest[from[i]]) && (forall|i: int, j: int|
                0 <= i < j < before.len() ==> from[i] < from[j]);
        if reactions.last().emoji.same(&emoji) {
            assert forall|i: int| 0 <= i < kept.len() implies 0 <= #[trigger] from[i]
                < reactions.len() && kept[i] == reactions[from[i]] by {
                assert(rest[from[i]] == reactions[from[i]]);
            }
        } else {
            let more = from.push(reactions.len() - 1);
            assert forall|i: int| 0 <= i < kept.len() implies 0 <= #[trigger] more[i]
                < reactions.len() && kept[i] == reactions[more[i]] by {
                if i < before.len() {
                    assert(more[i] == from[i]);
                    assert(rest[from[i]] == reactions[from[i]]);
                }
            }
            assert forall|i: int, j: int| 0 <= i < j < kept.len() implies more[i] < more[j] by {
                if j < before.len() {
                    assert(more[i] == from[i] && more[j] == from[j]);
                } else {
                    assert(more[i] == from[i]);
                }
            }
            assert(more.len() == kept.len());
        }
    }
}

/// Withdrawing a reaction keeps the reactions tidy.
pub proof fn unreact_keeps_tidy(reactions: Seq<MessageReaction>, emoji: ReactionType, by_me: bool)
    requires
        tidy(reactions),
    ensures
        tidy(unreacted(reactions, emoji, by_me)),
{
    let at = place(reactions, emoji);
    place_bounds(reactions, emoji);
    let left = unreacted(reactions, emoji, by_me);
    if at < reactions.len() {
        if reactions[at].count > 1 {
            assert forall|i: int, j: int| 0 <= i < j < left.len() implies !(
            #[trigger] left[i]).emoji.same(&(#[trigger] left[j]).emoji) by {
                assert(left[i].emoji == reactions[i].emoji);
                assert(left[j].emoji == reactions[j].emoji);
                assert(!reactions[i].emoji.same(&reactions[j].emoji));
            }
        } else {
            without_emoji_picks(reactions, emoji);
            let from = choose|from: Seq<int>|
                from.len() == left.len() && (forall|i: int|
                    0 <= i < left.len() ==> 0 <= #[trigger] from[i] < reactions.len() && left[i]
                        == reactions[from[i]]) && (forall|i: int, j: int|
                    0 <= i < j < left.len() ==> from[i] < from[j]);
            assert forall|i: int| 0 <= i < left.len() implies #[trigger] left[i].count >= 1 by {
                assert(left[i] == reactions[from[i]]);
            }
            assert forall|i: int, j: int| 0 <= i < j < left.len() implies !(
            #[trigger] left[i]).emoji.same(&(#[trigger] left[j]).emoji) by {
                assert(left[i] == reactions[from[i]]);
                assert(left[j] == reactions[from[j]]);
                assert(from[i] < from[j]);
                assert(!reactions[from[i]].emoji.same(&reactions[from[j]].emoji));
            }
        }
    }
}

/// Whether the reactions that an event brings along are tidy: those of a
/// new message.
pub open spec fn brings_tidy_reactions(event: Event) -> bool {
    match event {
        Event::MessageCreate(v) => tidy(v.0.reactions@),
        _ => true,
    }
}

/// Each message that is cached after a message was cached is that message
/// or was cached before.
pub proof fn with_message_picks(list: Map<u64, MessageView>, message: MessageView, limit: int)
    ensures
        forall|id: u64| #[trigger]
            with_message(list, message, limit).contains_key(id) ==> with_message(
                list,
                message,
                limit,
            )[id] == message || (list.contains_key(id) && list[id] == with_message(
                list,
                message,
                limit,
            )[id]),
{
}

/// Removing messages keeps the reactions of the cached messages tidy.
pub proof fn without_messages_keeps_reactions_tidy(
    before: CacheView,
    channel: u64,
    ids: Seq<MessageId>,
)
    requires
        before.tidy_reactions(),
    ensures
        before.without_messages(channel, ids).tidy_reactions(),
    decreases ids.len(),
{
    if ids.len() > 0 {
        without_messages_keeps_reactions_tidy(before, channel, ids.drop_last());
        let earlier = before.without_messages(channel, ids.drop_last());
        let after = earlier.without_message(channel, ids.last().0);
        assert forall|c: u64, id: u64|
            after.messages.contains_key(c) && #[trigger] after.messages[c].contains_key(
                id,
            ) implies tidy(after.messages[c][id].reactions) by {
            assert(earlier.messages[c].contains_key(id));
        }
    }
}

/// Changing a cached message to one with tidy reactions keeps the reactions
/// of the cached messages tidy.
pub proof fn with_message_changed_keeps_reactions_tidy(
    before: CacheView,
    channel: u64,
    id: u64,
    message: MessageView,
)
    requires
        before.tidy_reactions(),
        tidy(message.reactions),
    ensures
        before.with_message_changed(channel, id, message).tidy_reactions(),
{
    let after = before.with_message_changed(channel, id, message);
    assert forall|c: u64, k: u64|
        after.messages.contains_key(c) && #[trigger] after.messages[c].contains_key(
            k,
        ) implies tidy(after.messages[c][k].reactions) by {
        if !(c == channel && k == id) {
            assert(before.messages[c].contains_key(k));
        }
    }
}

/// An event keeps the reactions of the cached messages tidy: no two of a
/// message are made with the same emoji, and each counts at least one.
pub proof fn event_keeps_reactions_tidy(event: Event, before: CacheView)
    requires
        before.wf(),
        before.tidy_reactions(),
        brings_tidy_reactions(event),
    ensures
        event.updated(before).tidy_reactions(),
{
    let after = event.updated(before);
    match event {
        Event::GuildCreate(v) => {
            before.with_guild_keeps_wf(v.0);
        },
        Event::GuildEmojisUpdate(v) => {
            before.with_emojis_replaced_keeps_wf(v.guild_id.0, v.emojis@);
        },
        Event::MemberChunk(v) => {
            before.with_members_keeps_wf(v.guild_id.0, v.members@);
        },
        Event::Ready(v) => {
            (CacheView { current_user: Some(v.user), ..before }).with_guild_statuses_keeps_wf(
                v.guilds@,
            );
        },
        Event::MessageCreate(v) => {
            if before.wants(crate::cache::config::MESSAGE_CREATE) {
                let channel = v.0.channel_id.0;
                let message = cached_message(v.0);
                let list = before.messages_in(channel);
                with_message_picks(list, message, before.message_cache_size as int);
                let stored = before.with_message(channel, message);
                assert(after.messages == stored.messages);
                assert forall|c: u64, id: u64|
                    stored.messages.contains_key(c) && #[trigger] stored.messages[c].contains_key(
                        id,
                    ) implies tidy(stored.messages[c][id].reactions) by {
                    if c == channel {
                        let m = with_message(list, message, before.message_cache_size as int)[id];
                        if m != message {
                            assert(list.contains_key(id) && list[id] == m);
                            assert(before.messages[c].contains_key(id));
                        }
                    } else {
                        assert(before.messages[c].contains_key(id));
                    }
                }
            }
        },
        Event::MessageDelete(v) => {
            if before.wants(crate::cache::config::MESSAGE_DELETE) {
                let ids = seq![v.id];
                assert(ids.drop_last() =~= Seq::<MessageId>::empty());
                assert(before.without_messages(v.channel_id.0, ids.drop_last()) == before);
                assert(before.without_messages(v.channel_id.0, ids) == after);
                without_messages_keeps_reactions_tidy(before, v.channel_id.0, ids);
            }
        },
        Event::MessageDeleteBulk(v) => {
            without_messages_keeps_reactions_tidy(before, v.channel_id.0, v.ids@);
        },
        Event::MessageUpdate(v) => {
            match before.message(v.channel_id.0, v.id.0) {
                Some(m) => {
                    assert(before.messages[v.channel_id.0].contains_key(v.id.0));
                    with_message_changed_keeps_reactions_tidy(
                        before,
                        v.channel_id.0,
                        v.id.0,
                        patched_message(m, v),
                    );
                },
                None => {},
            }
        },
        Event::ReactionAdd(v) => {
            let channel = v.0.channel_id.0;
            let id = v.0.message_id.0;
            match before.message(channel, id) {
                Some(m) => {
                    assert(before.messages[channel].contains_key(id));
                    react_keeps_tidy(m.reactions, v.0.emoji, before.is_me(v.0.user_id));
                    with_message_changed_keeps_reactions_tidy(
                        before,
                        channel,
                        id,
                        MessageView {
                            reactions: reacted(
                                m.reactions,
                                v.0.emoji,
                                before.is_me(v.0.user_id),
                            ),
                            ..m
                        },
                    );
                },
                None => {},
            }
        },
        Event::ReactionRemove(v) => {
            let channel = v.0.channel_id.0;
            let id = v.0.message_id.0;
            match before.message(channel, id) {
                Some(m) => {
                    assert(before.messages[channel].contains_key(id));
                    unreact_keeps_tidy(m.reactions, v.0.emoji, before.is_me(v.0.user_id));
                    with_message_changed_keeps_reactions_tidy(
                        before,
                        channel,
                        id,
                        MessageView {
                            reactions: unreacted(
                                m.reactions,
                                v.0.emoji,
                                before.is_me(v.0.user_id),
                            ),
                            ..m
                        },
                    );
                },
                None => {},
            }
        },
        Event::ReactionRemoveAll(v) => {
            match before.message(v.channel_id.0, v.message_id.0) {
                Some(m) => {
                    with_message_changed_keeps_reactions_tidy(
                        before,
                        v.channel_id.0,
                        v.message_id.0,
                        MessageView { reactions: Seq::empty(), ..m },
                    );
                },
                None => {},
            }
        },
        _ => {},
    }
}

} // verus!
