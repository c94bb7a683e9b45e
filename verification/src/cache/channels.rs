//! Channels in the cache.

use vstd::prelude::*;
use crate::cache::index::{relist_id, unlist_id};
use crate::cache::model::GuildItem;
use crate::cache::tables::groups::{get_group, put_group, take_group};
use crate::cache::tables::guild_channels::{
    count_guild_channels, get_guild_channel, put_guild_channel, take_guild_channel,
};
use crate::cache::tables::private_channels::{
    get_private_channel, put_private_channel, take_private_channel,
};
use crate::cache::view::owner_of;
use crate::cache::InMemoryCache;
use crate::model::channel::{Channel, Group, GuildChannel, PrivateChannel};
use crate::model::id::{ChannelId, GuildId};

verus! {

impl InMemoryCache {
    /// Caches a channel of `guild_id`, in place of the channel with the same
    /// id, and lists it for that guild alone.
    pub fn cache_guild_channel(&mut self, guild_id: GuildId, channel: GuildChannel)
        requires
            old(self).wf(),
        ensures
            final(self).wf(),
            final(self)@ == old(self)@.with_guild_channel(guild_id.0, channel),
    {
        proof {
            self.unfold();
        }
        let id = channel.id().0;
        let owner = match take_guild_channel(&mut self.channels_guild, id) {
            Some(prior) => Some(prior.guild_id.0),
            None => None,
        };
        relist_id(&mut self.guild_channels, owner, guild_id.0, id);
        let row = GuildItem { data: channel, guild_id };
        put_guild_channel(&mut self.channels_guild, id, row);
        proof {
            self.unfold();
            old(self)@.with_guild_channel_keeps_wf(guild_id.0, channel);
            assert(self@.channels_guild =~= old(self)@.channels_guild.insert(id, row));
            assert(self@ =~= old(self)@.with_guild_channel(guild_id.0, channel));
        }
    }

    /// Removes the guild channel `id` and takes it off its guild's list.
    pub fn delete_guild_channel(&mut self, id: ChannelId)
        requires
            old(self).wf(),
        ensures
            final(self).wf(),
            final(self)@ == old(self)@.without_guild_channel(id.0),
    {
        proof {
            self.unfold();
        }
        match take_guild_channel(&mut self.channels_guild, id.0) {
            Some(row) => {
                unlist_id(&mut self.guild_channels, row.guild_id.0, id.0);
                proof {
                    self.unfold();
                    old(self)@.without_guild_channel_keeps_wf(id.0);
                }
            },
            None => {
                proof {
                    self.unfold();
                    assert(self@.channels_guild =~= old(self)@.channels_guild);
                }
            },
        }
        assert(self@ =~= old(self)@.without_guild_channel(id.0));
    }

    /// Caches a private channel, in place of the one with the same id.
    pub fn cache_private_channel(&mut self, channel: PrivateChannel)
        requires
            old(self).wf(),
        ensures
            final(self).wf(),
            final(self)@ == old(self)@.with_private_channel(channel),
    {
        proof {
            self.unfold();
        }
        put_private_channel(&mut self.channels_private, channel.id.0, channel);
        proof {
            self.unfold();
            assert(self@ =~= old(self)@.with_private_channel(channel));
        }
    }

    /// Removes the private channel `id`.
    pub fn delete_private_channel(&mut self, id: ChannelId)
        requires
            old(self).wf(),
        ensures
            final(self).wf(),
            final(self)@ == old(self)@.without_private_channel(id.0),
    {
        proof {
            self.unfold();
        }
        let _ = take_private_channel(&mut self.channels_private, id.0);
        proof {
            self.unfold();
            assert(self@ =~= old(self)@.without_private_channel(id.0));
        }
    }

    /// Caches a group, in place of the one with the same id.
    pub fn cache_group(&mut self, group: Group)
        requires
            old(self).wf(),
        ensures
            final(self).wf(),
            final(self)@ == old(self)@.with_group(group),
    {
        proof {
            self.unfold();
        }
        put_group(&mut self.groups, group.id.0, group);
        proof {
            self.unfold();
            assert(self@ =~= old(self)@.with_group(group));
        }
    }

    /// Removes the group `id`.
    pub fn delete_group(&mut self, id: ChannelId)
        requires
            old(self).wf(),
        ensures
            final(self).wf(),
            final(self)@ == old(self)@.without_group(id.0),
    {
        proof {
            self.unfold();
        }
        let _ = take_group(&mut self.groups, id.0);
        proof {
            self.unfold();
            assert(self@ =~= old(self)@.without_group(id.0));
        }
    }

    /// Changes the time of the last pin of the channel `id`: of a guild
    /// channel if it is a text channel, else of a private channel or a group.
    pub fn update_pins(&mut self, id: ChannelId, at: Option<String>)
        requires
            old(self).wf(),
        ensures
            final(self).wf(),
            final(self)@ == old(self)@.with_pins_update(id.0, at),
    {
        proof {
            self.unfold();
        }
        match take_guild_channel(&mut self.channels_guild, id.0) {
            Some(row) => {
                let GuildItem { data, guild_id } = row;
                let data = match data {
                    GuildChannel::Text(text) => {
                        let mut text = text;
                        text.last_pin_timestamp = at;
                        GuildChannel::Text(text)
                    },
                    other => other,
                };
                put_guild_channel(&mut self.channels_guild, id.0, GuildItem { data, guild_id });
            },
            None => {
                match take_private_channel(&mut self.channels_private, id.0) {
                    Some(channel) => {
                        let mut channel = channel;
                        channel.last_pin_timestamp = at;
                        put_private_channel(&mut self.channels_private, id.0, channel);
                    },
                    None => {
                        match take_group(&mut self.groups, id.0) {
                            Some(group) => {
                                let mut group = group;
                                group.last_pin_timestamp = at;
                                put_group(&mut self.groups, id.0, group);
                            },
                            None => {},
                        }
                    },
                }
            },
        }
        proof {
            self.unfold();
            old(self)@.with_pins_update_keeps_wf(id.0, at);
            let after = old(self)@.with_pins_update(id.0, at);
            assert(self@.channels_guild =~= after.channels_guild);
            assert(self@.channels_private =~= after.channels_private);
            assert(self@.groups =~= after.groups);
            assert(self@ =~= after);
        }
    }

    /// Caches a channel, whatever its kind. A guild channel that names no
    /// guild is dropped.
    pub fn cache_channel(&mut self, channel: Channel)
        requires
            old(self).wf(),
        ensures
            final(self).wf(),
            final(self)@ == old(self)@.with_channel(channel),
    {
        match channel {
            Channel::Group(c) => {
                self.cache_group(c);
            },
            Channel::Guild(c) => {
                match c.guild_id() {
                    Some(g) => {
                        self.cache_guild_channel(g, c);
                    },
                    None => {},
                }
            },
            Channel::Private(c) => {
                self.cache_private_channel(c);
            },
        }
    }

    /// Removes a channel, whatever its kind.
    pub fn delete_channel(&mut self, channel: Channel)
        requires
            old(self).wf(),
        ensures
            final(self).wf(),
            final(self)@ == old(self)@.without_channel(channel),
    {
        match channel {
            Channel::Group(c) => {
                self.delete_group(c.id);
            },
            Channel::Guild(c) => {
                self.delete_guild_channel(c.id());
            },
            Channel::Private(c) => {
                self.delete_private_channel(c.id);
            },
        }
    }

    /// A copy of the guild channel `id`.
    pub fn channel(&self, id: ChannelId) -> (channel: Option<GuildChannel>)
        ensures
            channel == match owner_of(self@.channels_guild, id.0) {
                Some(_) => Some(self@.channels_guild[id.0].data),
                None => None,
            },
    {
        proof {
            self.unfold();
        }
        match get_guild_channel(&self.channels_guild, id.0) {
            Some(row) => Some(row.data),
            None => None,
        }
    }

    /// A copy of the private channel `id`.
    pub fn private_channel(&self, id: ChannelId) -> (channel: Option<PrivateChannel>)
        ensures
            channel == (if self@.channels_private.contains_key(id.0) {
                Some(self@.channels_private[id.0])
            } else {
                None
            }),
    {
        proof {
            self.unfold();
        }
        get_private_channel(&self.channels_private, id.0)
    }

    /// A copy of the group `id`.
    pub fn group(&self, id: ChannelId) -> (group: Option<Group>)
        ensures
            group == (if self@.groups.contains_key(id.0) {
                Some(self@.groups[id.0])
            } else {
                None
            }),
    {
        proof {
            self.unfold();
        }
        get_group(&self.groups, id.0)
    }

    /// The number of guild channels in the cache.
    pub fn guild_channel_count(&self) -> (count: usize)
        ensures
            count == self@.channels_guild.len(),
    {
        proof {
            self.unfold();
        }
        count_guild_channels(&self.channels_guild)
    }
}

} // verus!
