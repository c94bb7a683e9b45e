//! Messages and their reactions in the cache.

use std::collections::BTreeMap;
use vstd::prelude::*;
use crate::cache::model::{ids_of, message_views, CachedMessage, MessageView};
use crate::cache::tables::messages::{
    get_messages, put_messages, take_greatest, take_messages,
};
use crate::cache::view::{
    cached_message, is_greatest, member_of_message, patched_message, place, reacted, unreacted,
    without_emoji, CacheView,
};
use crate::cache::InMemoryCache;
use crate::model::channel::message::{Message, MessageReaction, ReactionType};
use crate::model::gateway::payload::MessageUpdate;
use crate::model::guild::member::{Member, PartialMember};
use crate::model::id::{ChannelId, GuildId, MessageId, UserId};
use crate::model::user::User;

verus! {

broadcast use vstd::std_specs::btree::group_btree_axioms;

/// What a message brings along, apart from what the cache keeps of it.
pub struct MessageParts {
    pub author: User,
    pub guild_id: Option<GuildId>,
    pub member: Option<PartialMember>,
}

/// Splits a message into what the cache keeps of it and what it brings along.
pub fn split_message(message: Message) -> (split: (CachedMessage, MessageParts))
    ensures
        split.0@ == cached_message(message),
        split.1.author == message.author,
        split.1.guild_id == message.guild_id,
        split.1.member == message.member,
{
    let mentions = ids_of(&message.mentions);
    let row = CachedMessage {
        id: message.id,
        attachments: message.attachments,
        author: message.author.id,
        channel_id: message.channel_id,
        content: message.content,
        edited_timestamp: message.edited_timestamp,
        embeds: message.embeds,
        flags: message.flags,
        kind: message.kind,
        mention_everyone: message.mention_everyone,
        mention_roles: message.mention_roles,
        mentions,
        pinned: message.pinned,
        reactions: message.reactions,
        timestamp: message.timestamp,
        tts: message.tts,
        webhook_id: message.webhook_id,
    };
    (
        row,
        MessageParts {
            author: message.author,
            guild_id: message.guild_id,
            member: message.member,
        },
    )
}

/// The place of the first reaction made with `emoji`.
pub fn find_place(reactions: &Vec<MessageReaction>, emoji: &ReactionType) -> (at: usize)
    ensures
        at == place(reactions@, *emoji),
        at <= reactions@.len(),
{
    let mut at: usize = 0;
    let ghost all = reactions@;
    assert(all.subrange(0, all.len() as int) =~= all);
    while at < reactions.len() && !reactions[at].emoji.is_same(emoji)
        invariant
            at <= reactions@.len(),
            all == reactions@,
            place(all, *emoji) == at + place(all.subrange(at as int, all.len() as int), *emoji),
        decreases reactions@.len() - at,
    {
        proof {
            let rest = all.subrange(at as int, all.len() as int);
            assert(rest.drop_first() =~= all.subrange(at + 1, all.len() as int));
        }
        at = at + 1;
    }
    at
}

/// Counts one more reaction with `emoji`.
pub fn react(reactions: &mut Vec<MessageReaction>, emoji: ReactionType, by_me: bool)
    ensures
        final(reactions)@ == reacted(old(reactions)@, emoji, by_me),
{
    let at = find_place(reactions, &emoji);
    if at < reactions.len() {
        let mut entry = reactions.remove(at);
        if entry.count < u64::MAX {
            entry.count = entry.count + 1;
        }
        if by_me {
            entry.me = true;
        }
        reactions.insert(at, entry);
        assert(reactions@ =~= reacted(old(reactions)@, emoji, by_me));
    } else {
        reactions.push(MessageReaction { count: 1, emoji, me: by_me });
    }
}

/// Counts one reaction with `emoji` less.
pub fn unreact(reactions: &mut Vec<MessageReaction>, emoji: &ReactionType, by_me: bool)
    ensures
        final(reactions)@ == unreacted(old(reactions)@, *emoji, by_me),
{
    let at = find_place(reactions, emoji);
    if at < reactions.len() {
        if reactions[at].count > 1 {
            let mut entry = reactions.remove(at);
            entry.count = entry.count - 1;
            if by_me {
                entry.me = false;
            }
            reactions.insert(at, entry);
            assert(reactions@ =~= unreacted(old(reactions)@, *emoji, by_me));
        } else {
            let mut kept: Vec<MessageReaction> = Vec::new();
            let ghost all = reactions@;
            let mut rest: Vec<MessageReaction> = Vec::new();
            std::mem::swap(reactions, &mut rest);
            for entry in it: rest
                invariant
                    it.seq() == all,
                    kept@ == without_emoji(all.subrange(0, it.index()), *emoji),
            {
                proof {
                    assert(all.subrange(0, it.index() + 1).drop_last() =~= all.subrange(
                        0,
                        it.index(),
                    ));
                }
                if !entry.emoji.is_same(emoji) {
                    kept.push(entry);
                }
            }
            proof {
                assert(all.subrange(0, all.len() as int) =~= all);
            }
            *reactions = kept;
        }
    }
}

impl InMemoryCache {
    /// Caches a message of `channel`. Where the channel holds as many
    /// messages as the limit allows, the one with the greatest id is evicted
    /// first; then the message stands under its id, in place of a cached
    /// message with the same id. A cache with a limit of zero caches no
    /// message.
    pub fn cache_message(&mut self, channel: ChannelId, message: CachedMessage)
        requires
            old(self).wf(),
        ensures
            final(self).wf(),
            final(self)@ == old(self)@.with_message(channel.0, message@),
    {
        proof {
            self.unfold();
        }
        let limit = self.config.message_cache_size;
        let mut list = match take_messages(&mut self.messages, channel.0) {
            Some(list) => list,
            None => BTreeMap::new(),
        };
        let ghost before = message_views(list@);
        assert(before =~= old(self)@.messages_in(channel.0));
        assert(before.dom() =~= list@.dom());
        if limit > 0 {
            if list.len() >= limit {
                let ghost full = list@;
                match take_greatest(&mut list) {
                    Some((id, _)) => {
                        proof {
                            assert(is_greatest(before, id));
                            let top = crate::cache::view::greatest(before);
                            assert(is_greatest(before, top));
                            assert(top == id);
                            assert(message_views(list@) =~= before.remove(id));
                        }
                    },
                    None => {
                        proof {
                            assert(full.dom() =~= Set::empty());
                        }
                    },
                }
            }
            let ghost room = message_views(list@);
            assert(room == crate::cache::view::with_room(before, limit as int));
            let id = message.id.0;
            list.insert(id, message);
            assert(message_views(list@) =~= room.insert(id, message@));
        }
        put_messages(&mut self.messages, channel.0, list);
        proof {
            self.unfold();
            old(self)@.with_message_keeps_wf(channel.0, message@);
            assert(self@.messages =~= old(self)@.with_message(channel.0, message@).messages);
            assert(self@ =~= old(self)@.with_message(channel.0, message@));
        }
    }

    /// Caches a new message. Where the message names a guild and carries the
    /// author's member attributes, the author is cached as a member of the
    /// guild; otherwise the row of the author, if the author is known, is
    /// given the author as the message has it.
    pub fn create_message(&mut self, message: Message)
        requires
            old(self).wf(),
        ensures
            final(self).wf(),
            final(self)@ == old(self)@.with_message_created(message),
    {
        let channel = message.channel_id;
        let (row, parts) = split_message(message);
        self.cache_message(channel, row);
        match parts.guild_id {
            Some(g) => {
                match parts.member {
                    Some(part) => {
                        let member = Member {
                            deaf: part.deaf,
                            guild_id: g,
                            hoisted_role: None,
                            joined_at: part.joined_at,
                            mute: part.mute,
                            nick: part.nick,
                            premium_since: None,
                            roles: part.roles,
                            user: parts.author,
                        };
                        assert(member == member_of_message(g, part, message.author));
                        self.cache_member(g, member);
                    },
                    None => {
                        self.cache_user(parts.author);
                    },
                }
            },
            None => {
                self.cache_user(parts.author);
            },
        }
    }

    /// Removes the message `id` of `channel`.
    pub fn delete_message(&mut self, channel: ChannelId, id: MessageId)
        requires
            old(self).wf(),
        ensures
            final(self).wf(),
            final(self)@ == old(self)@.without_message(channel.0, id.0),
    {
        proof {
            self.unfold();
        }
        match take_messages(&mut self.messages, channel.0) {
            Some(list) => {
                let mut list = list;
                let ghost before = message_views(list@);
                let _ = list.remove(&id.0);
                assert(message_views(list@) =~= before.remove(id.0));
                put_messages(&mut self.messages, channel.0, list);
            },
            None => {},
        }
        proof {
            self.unfold();
            old(self)@.without_message_keeps_wf(channel.0, id.0);
            assert(self@.messages =~= old(self)@.without_message(channel.0, id.0).messages);
            assert(self@ =~= old(self)@.without_message(channel.0, id.0));
        }
    }

    /// Removes the messages `ids` of `channel`, one after the other.
    pub fn delete_messages(&mut self, channel: ChannelId, ids: Vec<MessageId>)
        requires
            old(self).wf(),
        ensures
            final(self).wf(),
            final(self)@ == old(self)@.without_messages(channel.0, ids@),
    {
        let ghost before = self@;
        let ghost all = ids@;
        for id in it: ids
            invariant
                it.seq() == all,
                self.wf(),
                self@ == before.without_messages(channel.0, all.subrange(0, it.index())),
        {
            proof {
                assert(all.subrange(0, it.index() + 1).drop_last() =~= all.subrange(
                    0,
                    it.index(),
                ));
            }
            self.delete_message(channel, id);
        }
        proof {
            assert(all.subrange(0, all.len() as int) =~= all);
        }
    }

    /// A copy of the message `id` of `channel`.
    pub fn message(&self, channel: ChannelId, id: MessageId) -> (message: Option<CachedMessage>)
        ensures
            message.is_some() == self@.message(channel.0, id.0).is_some(),
            message.is_some() ==> message.unwrap()@ == self@.message(channel.0, id.0).unwrap(),
    {
        proof {
            self.unfold();
        }
        match get_messages(&self.messages, channel.0) {
            Some(list) => {
                let mut list = list;
                assert(message_views(list@).dom() =~= list@.dom());
                list.remove(&id.0)
            },
            None => None,
        }
    }

    /// The number of messages cached for `channel`, if it has an entry.
    pub fn message_count(&self, channel: ChannelId) -> (count: Option<usize>)
        ensures
            count == (if self@.messages.contains_key(channel.0) {
                Some(self@.messages[channel.0].len() as usize)
            } else {
                None
            }),
    {
        proof {
            self.unfold();
        }
        match get_messages(&self.messages, channel.0) {
            Some(list) => {
                assert(message_views(list@).dom() =~= list@.dom());
                Some(list.len())
            },
            None => None,
        }
    }

    /// Takes the message `id` of `channel` out of the table, with the rest of
    /// the channel's messages. Where the cache does not hold the message,
    /// nothing changes.
    fn lift_message(&mut self, channel: u64, id: u64) -> (lifted: Option<
        (BTreeMap<u64, CachedMessage>, CachedMessage),
    >)
        requires
            old(self).wf(),
        ensures
            final(self).wf(),
            match lifted {
                Some((rest, message)) => {
                    &&& old(self)@.message(channel, id) == Some(message@)
                    &&& message.id.0 == id
                    &&& message_views(rest@) == old(self)@.messages_in(channel).remove(id)
                    &&& final(self)@ == (CacheView {
                        messages: old(self)@.messages.remove(channel),
                        ..old(self)@
                    })
                },
                None => old(self)@.message(channel, id).is_none() && final(self)@ == old(self)@,
            },
    {
        proof {
            self.unfold();
        }
        match take_messages(&mut self.messages, channel) {
            Some(list) => {
                let mut list = list;
                let ghost before = message_views(list@);
                assert(before.dom() =~= list@.dom());
                match list.remove(&id) {
                    Some(message) => {
                        proof {
                            self.unfold();
                            assert(message_views(list@) =~= before.remove(id));
                            assert(before[id] == message@);
                            assert(self@ =~= (CacheView {
                                messages: old(self)@.messages.remove(channel),
                                ..old(self)@
                            }));
                        }
                        Some((list, message))
                    },
                    None => {
                        put_messages(&mut self.messages, channel, list);
                        proof {
                            self.unfold();
                            assert(message_views(list@) =~= before);
                            assert(self@.messages =~= old(self)@.messages);
                            assert(self@ =~= old(self)@);
                        }
                        None
                    },
                }
            },
            None => {
                proof {
                    self.unfold();
                    assert(self@.messages =~= old(self)@.messages);
                    assert(self@ =~= old(self)@);
                }
                None
            },
        }
    }

    /// Puts a lifted message back under its id.
    fn settle_message(
        &mut self,
        channel: u64,
        rest: BTreeMap<u64, CachedMessage>,
        message: CachedMessage,
    )
        ensures
            final(self)@ == (CacheView {
                messages: old(self)@.messages.insert(
                    channel,
                    message_views(rest@).insert(message.id.0, message@),
                ),
                ..old(self)@
            }),
    {
        proof {
            self.unfold();
        }
        let mut list = rest;
        let id = message.id.0;
        list.insert(id, message);
        assert(message_views(list@) =~= message_views(rest@).insert(id, message@));
        put_messages(&mut self.messages, channel, list);
        proof {
            self.unfold();
            assert(self@ =~= (CacheView {
                messages: old(self)@.messages.insert(
                    channel,
                    message_views(rest@).insert(id, message@),
                ),
                ..old(self)@
            }));
        }
    }

    /// Gives the cached message the fields that the update carries; nothing
    /// changes where the message is not cached.
    pub fn update_message(&mut self, update: MessageUpdate)
        requires
            old(self).wf(),
        ensures
            final(self).wf(),
            final(self)@ == old(self)@.with_message_update(update),
    {
        let channel = update.channel_id.0;
        let id = update.id.0;
        match self.lift_message(channel, id) {
            Some((rest, message)) => {
                let mut message = message;
                let ghost prior = message@;
                match update.attachments {
                    Some(v) => {
                        message.attachments = v;
                    },
                    None => {},
                }
                match update.content {
                    Some(v) => {
                        message.content = v;
                    },
                    None => {},
                }
                match update.edited_timestamp {
                    Some(v) => {
                        message.edited_timestamp = Some(v);
                    },
                    None => {},
                }
                match update.embeds {
                    Some(v) => {
                        message.embeds = v;
                    },
                    None => {},
                }
                match update.mention_everyone {
                    Some(v) => {
                        message.mention_everyone = v;
                    },
                    None => {},
                }
                match update.mention_roles {
                    Some(v) => {
                        message.mention_roles = v;
                    },
                    None => {},
                }
                match &update.mentions {
                    Some(v) => {
                        message.mentions = ids_of(v);
                    },
                    None => {},
                }
                match update.pinned {
                    Some(v) => {
                        message.pinned = v;
                    },
                    None => {},
                }
                match update.timestamp {
                    Some(v) => {
                        message.timestamp = v;
                    },
                    None => {},
                }
                match update.tts {
                    Some(v) => {
                        message.tts = v;
                    },
                    None => {},
                }
                assert(message@ == patched_message(prior, update));
                self.settle_message(channel, rest, message);
                proof {
                    let list = old(self)@.messages_in(channel);
                    old(self)@.with_message_update_keeps_wf(update);
                    assert(list.remove(id).insert(id, message@) =~= list.insert(id, message@));
                    assert(self@.messages =~= old(self)@.with_message_update(update).messages);
                    assert(self@ =~= old(self)@.with_message_update(update));
                }
            },
            None => {},
        }
    }

    /// Counts one more reaction with `emoji` by `user` on the message;
    /// nothing changes where the message is not cached.
    pub fn add_reaction(
        &mut self,
        channel: ChannelId,
        id: MessageId,
        emoji: ReactionType,
        user: UserId,
    )
        requires
            old(self).wf(),
        ensures
            final(self).wf(),
            final(self)@ == old(self)@.with_reaction(channel.0, id.0, emoji, user),
    {
        let by_me = self.is_me(user);
        match self.lift_message(channel.0, id.0) {
            Some((rest, message)) => {
                let mut message = message;
                let ghost prior = message@;
                react(&mut message.reactions, emoji, by_me);
                assert(message@ == (MessageView {
                    reactions: reacted(prior.reactions, emoji, by_me),
                    ..prior
                }));
                self.settle_message(channel.0, rest, message);
                proof {
                    let list = old(self)@.messages_in(channel.0);
                    old(self)@.with_reaction_keeps_wf(channel.0, id.0, emoji, user);
                    assert(list.remove(id.0).insert(id.0, message@) =~= list.insert(id.0, message@));
                    assert(self@.messages =~= old(self)@.with_reaction(
                        channel.0,
                        id.0,
                        emoji,
                        user,
                    ).messages);
                    assert(self@ =~= old(self)@.with_reaction(channel.0, id.0, emoji, user));
                }
            },
            None => {},
        }
    }

    /// Counts one reaction with `emoji` by `user` less on the message;
    /// nothing changes where the message is not cached.
    pub fn remove_reaction(
        &mut self,
        channel: ChannelId,
        id: MessageId,
        emoji: ReactionType,
        user: UserId,
    )
        requires
            old(self).wf(),
        ensures
            final(self).wf(),
            final(self)@ == old(self)@.without_reaction(channel.0, id.0, emoji, user),
    {
        let by_me = self.is_me(user);
        match self.lift_message(channel.0, id.0) {
            Some((rest, message)) => {
                let mut message = message;
                let ghost prior = message@;
                unreact(&mut message.reactions, &emoji, by_me);
                assert(message@ == (MessageView {
                    reactions: unreacted(prior.reactions, emoji, by_me),
                    ..prior
                }));
                self.settle_message(channel.0, rest, message);
                proof {
                    let list = old(self)@.messages_in(channel.0);
                    old(self)@.with_reaction_keeps_wf(channel.0, id.0, emoji, user);
                    assert(list.remove(id.0).insert(id.0, message@) =~= list.insert(id.0, message@));
                    assert(self@.messages =~= old(self)@.without_reaction(
                        channel.0,
                        id.0,
                        emoji,
                        user,
                    ).messages);
                    assert(self@ =~= old(self)@.without_reaction(channel.0, id.0, emoji, user));
                }
            },
            None => {},
        }
    }

    /// Removes every reaction from the message; nothing changes where the
    /// message is not cached.
    pub fn clear_reactions(&mut self, channel: ChannelId, id: MessageId)
        requires
            old(self).wf(),
        ensures
            final(self).wf(),
            final(self)@ == old(self)@.without_reactions(channel.0, id.0),
    {
        match self.lift_message(channel.0, id.0) {
            Some((rest, message)) => {
                let mut message = message;
                let ghost prior = message@;
                message.reactions = Vec::new();
                assert(message@ == (MessageView { reactions: Seq::empty(), ..prior }));
                self.settle_message(channel.0, rest, message);
                proof {
                    let list = old(self)@.messages_in(channel.0);
                    old(self)@.without_reactions_keeps_wf(channel.0, id.0);
                    assert(list.remove(id.0).insert(id.0, message@) =~= list.insert(id.0, message@));
                    assert(self@.messages =~= old(self)@.without_reactions(
                        channel.0,
                        id.0,
                    ).messages);
                    assert(self@ =~= old(self)@.without_reactions(channel.0, id.0));
                }
            },
            None => {},
        }
    }

    /// Whether `user` is the account the client is logged in as.
    pub fn is_me(&self, user: UserId) -> (me: bool)
        ensures
            me == self@.is_me(user),
    {
        match self.current_user_id() {
            Some(id) => id.0 == user.0,
            None => false,
        }
    }
}

} // verus!
