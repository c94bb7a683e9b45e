//! Users, members, presences and voice states in the cache.

use std::collections::{BTreeSet, HashSet};
use vstd::prelude::*;
use crate::cache::index::{list_id, unlist_id};
use crate::cache::tables::index::get_ids;
use crate::cache::tables::members::{get_member, put_member, take_member};
use crate::cache::tables::presences::{get_presence, put_presence};
use crate::cache::tables::users::{get_user, put_user, take_user};
use crate::cache::tables::voice_states::{get_voice_state, put_voice_state};
use crate::cache::view::ids_in;
use crate::cache::InMemoryCache;
use crate::model::gateway::payload::MemberUpdate;
use crate::model::gateway::presence::Presence;
use crate::model::guild::member::Member;
use crate::model::id::{GuildId, UserId};
use crate::model::user::{CurrentUser, User};
use crate::model::voice::VoiceState;

verus! {

broadcast use vstd::std_specs::btree::group_btree_axioms;

impl InMemoryCache {
    /// Records the account the client is logged in as.
    pub fn cache_current_user(&mut self, user: CurrentUser)
        requires
            old(self).wf(),
        ensures
            final(self).wf(),
            final(self)@ == (crate::cache::view::CacheView {
                current_user: Some(user),
                ..old(self)@
            }),
    {
        proof {
            self.unfold();
        }
        self.current_user = Some(user);
        proof {
            self.unfold();
            assert(self@ =~= (crate::cache::view::CacheView {
                current_user: Some(user),
                ..old(self)@
            }));
        }
    }

    /// The id of the account the client is logged in as, if it is known.
    pub fn current_user_id(&self) -> (id: Option<UserId>)
        ensures
            id == match self@.current_user {
                Some(user) => Some(user.id),
                None => None,
            },
    {
        proof {
            self.unfold();
        }
        match &self.current_user {
            Some(user) => Some(user.id),
            None => None,
        }
    }

    /// Gives the row of a known user the user as given. A user that is not
    /// known stays so: only a membership makes a user known.
    pub fn cache_user(&mut self, user: User)
        requires
            old(self).wf(),
        ensures
            final(self).wf(),
            final(self)@ == old(self)@.with_user(user),
    {
        proof {
            self.unfold();
        }
        let id = user.id.0;
        match take_user(&mut self.users, id) {
            Some(row) => {
                put_user(&mut self.users, id, user, row.1);
            },
            None => {},
        }
        proof {
            self.unfold();
            old(self)@.with_user_keeps_wf(user);
            assert(self@.users =~= old(self)@.with_user(user).users);
            assert(self@ =~= old(self)@.with_user(user));
        }
    }

    /// Caches a member of `guild_id`, records its user as known there and
    /// lists the user for the guild.
    pub fn cache_member(&mut self, guild_id: GuildId, member: Member)
        requires
            old(self).wf(),
        ensures
            final(self).wf(),
            final(self)@ == old(self)@.with_member(guild_id.0, member),
    {
        proof {
            self.unfold();
        }
        let user = member.user.clone();
        let user_id = user.id.0;
        let mut guilds = match take_user(&mut self.users, user_id) {
            Some(row) => row.1,
            None => BTreeSet::new(),
        };
        guilds.insert(guild_id.0);
        put_user(&mut self.users, user_id, user, guilds);
        let mut row = member;
        row.guild_id = guild_id;
        put_member(&mut self.members, (guild_id.0, user_id), row);
        list_id(&mut self.guild_members, guild_id.0, user_id);
        proof {
            self.unfold();
            old(self)@.with_member_keeps_wf(guild_id.0, member);
            assert(self@.users =~= old(self)@.with_member(guild_id.0, member).users);
            assert(self@ =~= old(self)@.with_member(guild_id.0, member));
        }
    }

    /// Caches each member of the list as one of `guild_id`, in order.
    pub fn cache_members(&mut self, guild_id: GuildId, members: Vec<Member>)
        requires
            old(self).wf(),
        ensures
            final(self).wf(),
            final(self)@ == old(self)@.with_members(guild_id.0, members@),
    {
        let ghost before = self@;
        let ghost all = members@;
        for member in it: members
            invariant
                it.seq() == all,
                self.wf(),
                self@ == before.with_members(guild_id.0, all.subrange(0, it.index())),
        {
            proof {
                assert(all.subrange(0, it.index() + 1).drop_last() =~= all.subrange(
                    0,
                    it.index(),
                ));
            }
            self.cache_member(guild_id, member);
        }
        proof {
            assert(all.subrange(0, all.len() as int) =~= all);
        }
    }

    /// Removes the member `user_id` of `guild_id`, takes the user off the
    /// guild's list and the guild off what the user is known in; forgets a
    /// user that is known nowhere else.
    pub fn delete_member(&mut self, guild_id: GuildId, user_id: UserId)
        requires
            old(self).wf(),
        ensures
            final(self).wf(),
            final(self)@ == old(self)@.without_member(guild_id.0, user_id.0),
    {
        proof {
            self.unfold();
        }
        let _ = take_member(&mut self.members, (guild_id.0, user_id.0));
        unlist_id(&mut self.guild_members, guild_id.0, user_id.0);
        match take_user(&mut self.users, user_id.0) {
            Some(row) => {
                let (user, guilds) = row;
                let mut guilds = guilds;
                guilds.remove(&guild_id.0);
                if !guilds.is_empty() {
                    put_user(&mut self.users, user_id.0, user, guilds);
                }
            },
            None => {},
        }
        proof {
            self.unfold();
            old(self)@.without_member_keeps_wf(guild_id.0, user_id.0);
            assert(self@.users =~= old(self)@.without_member(guild_id.0, user_id.0).users);
            assert(self@ =~= old(self)@.without_member(guild_id.0, user_id.0));
        }
    }

    /// Gives the cached member the update's nickname, roles and join time;
    /// nothing changes where the member is not cached.
    pub fn update_member(&mut self, update: MemberUpdate)
        requires
            old(self).wf(),
        ensures
            final(self).wf(),
            final(self)@ == old(self)@.with_member_update(update),
    {
        proof {
            self.unfold();
        }
        let key = (update.guild_id.0, update.user.id.0);
        match take_member(&mut self.members, key) {
            Some(row) => {
                let mut row = row;
                row.nick = update.nick;
                row.roles = update.roles;
                row.joined_at = Some(update.joined_at);
                put_member(&mut self.members, key, row);
            },
            None => {},
        }
        proof {
            self.unfold();
            old(self)@.with_member_update_keeps_wf(update);
            assert(self@.members =~= old(self)@.with_member_update(update).members);
            assert(self@ =~= old(self)@.with_member_update(update));
        }
    }

    /// Caches a presence of `guild_id`, in place of the presence of the same
    /// user there, and lists the user for the guild.
    pub fn cache_presence(&mut self, guild_id: GuildId, presence: Presence)
        requires
            old(self).wf(),
        ensures
            final(self).wf(),
            final(self)@ == old(self)@.with_presence(guild_id.0, presence),
    {
        proof {
            self.unfold();
        }
        let user_id = presence.user_id.0;
        let mut row = presence;
        row.guild_id = guild_id;
        put_presence(&mut self.presences, (guild_id.0, user_id), row);
        list_id(&mut self.guild_presences, guild_id.0, user_id);
        proof {
            self.unfold();
            old(self)@.with_presence_keeps_wf(guild_id.0, presence);
            assert(self@ =~= old(self)@.with_presence(guild_id.0, presence));
        }
    }

    /// Caches each presence of the list as one of `guild_id`, in order.
    pub fn cache_presences(&mut self, guild_id: GuildId, presences: Vec<Presence>)
        requires
            old(self).wf(),
        ensures
            final(self).wf(),
            final(self)@ == old(self)@.with_presences(guild_id.0, presences@),
    {
        let ghost before = self@;
        let ghost all = presences@;
        for presence in it: presences
            invariant
                it.seq() == all,
                self.wf(),
                self@ == before.with_presences(guild_id.0, all.subrange(0, it.index())),
        {
            proof {
                assert(all.subrange(0, it.index() + 1).drop_last() =~= all.subrange(
                    0,
                    it.index(),
                ));
            }
            self.cache_presence(guild_id, presence);
        }
        proof {
            assert(all.subrange(0, all.len() as int) =~= all);
        }
    }

    /// Caches a voice state under the guild it names, in place of the voice
    /// state of the same user there, and lists the user for the guild. A
    /// voice state that names no guild is dropped.
    pub fn cache_voice_state(&mut self, state: VoiceState)
        requires
            old(self).wf(),
        ensures
            final(self).wf(),
            final(self)@ == old(self)@.with_voice_state(state),
    {
        proof {
            self.unfold();
        }
        match state.guild_id {
            Some(g) => {
                let user_id = state.user_id.0;
                put_voice_state(&mut self.voice_states, (g.0, user_id), state);
                list_id(&mut self.guild_voice_states, g.0, user_id);
            },
            None => {},
        }
        proof {
            self.unfold();
            old(self)@.with_voice_state_keeps_wf(state);
            assert(self@ =~= old(self)@.with_voice_state(state));
        }
    }

    /// Caches each voice state of the list as one of `guild_id`, in order.
    pub fn cache_voice_states(&mut self, guild_id: GuildId, states: Vec<VoiceState>)
        requires
            old(self).wf(),
        ensures
            final(self).wf(),
            final(self)@ == old(self)@.with_voice_states(guild_id.0, states@),
    {
        let ghost before = self@;
        let ghost all = states@;
        for state in it: states
            invariant
                it.seq() == all,
                self.wf(),
                self@ == before.with_voice_states(guild_id.0, all.subrange(0, it.index())),
        {
            proof {
                assert(all.subrange(0, it.index() + 1).drop_last() =~= all.subrange(
                    0,
                    it.index(),
                ));
            }
            let mut row = state;
            row.guild_id = Some(guild_id);
            self.cache_voice_state(row);
        }
        proof {
            assert(all.subrange(0, all.len() as int) =~= all);
        }
    }

    /// A copy of the member `user_id` of `guild_id`.
    pub fn member(&self, guild_id: GuildId, user_id: UserId) -> (member: Option<Member>)
        ensures
            member == (if self@.members.contains_key((guild_id.0, user_id.0)) {
                Some(self@.members[(guild_id.0, user_id.0)])
            } else {
                None
            }),
    {
        proof {
            self.unfold();
        }
        get_member(&self.members, (guild_id.0, user_id.0))
    }

    /// The ids of the users listed as members of the guild, if it has a list.
    pub fn members(&self, guild_id: GuildId) -> (ids: Option<HashSet<u64>>)
        ensures
            ids.is_some() == self@.guild_members.contains_key(guild_id.0),
            ids.is_some() ==> ids.unwrap()@ == ids_in(self@.guild_members, guild_id.0),
    {
        proof {
            self.unfold();
        }
        get_ids(&self.guild_members, guild_id.0)
    }

    /// A copy of the presence of `user_id` in `guild_id`.
    pub fn presence(&self, guild_id: GuildId, user_id: UserId) -> (presence: Option<Presence>)
        ensures
            presence == (if self@.presences.contains_key((guild_id.0, user_id.0)) {
                Some(self@.presences[(guild_id.0, user_id.0)])
            } else {
                None
            }),
    {
        proof {
            self.unfold();
        }
        get_presence(&self.presences, (guild_id.0, user_id.0))
    }

    /// The ids of the users listed with a presence in the guild, if it has a
    /// list.
    pub fn presences(&self, guild_id: GuildId) -> (ids: Option<HashSet<u64>>)
        ensures
            ids.is_some() == self@.guild_presences.contains_key(guild_id.0),
            ids.is_some() ==> ids.unwrap()@ == ids_in(self@.guild_presences, guild_id.0),
    {
        proof {
            self.unfold();
        }
        get_ids(&self.guild_presences, guild_id.0)
    }

    /// A copy of the voice state of `user_id` in `guild_id`.
    pub fn voice_state(&self, guild_id: GuildId, user_id: UserId) -> (state: Option<VoiceState>)
        ensures
            state == (if self@.voice_states.contains_key((guild_id.0, user_id.0)) {
                Some(self@.voice_states[(guild_id.0, user_id.0)])
            } else {
                None
            }),
    {
        proof {
            self.unfold();
        }
        get_voice_state(&self.voice_states, (guild_id.0, user_id.0))
    }

    /// The ids of the users listed with a voice state in the guild, if it has
    /// a list.
    pub fn voice_states(&self, guild_id: GuildId) -> (ids: Option<HashSet<u64>>)
        ensures
            ids.is_some() == self@.guild_voice_states.contains_key(guild_id.0),
            ids.is_some() ==> ids.unwrap()@ == ids_in(self@.guild_voice_states, guild_id.0),
    {
        proof {
            self.unfold();
        }
        get_ids(&self.guild_voice_states, guild_id.0)
    }

    /// A copy of the user `id`.
    pub fn user(&self, id: UserId) -> (user: Option<User>)
        ensures
            user == (if self@.users.contains_key(id.0) {
                Some(self@.users[id.0].0)
            } else {
                None
            }),
    {
        proof {
            self.unfold();
        }
        match get_user(&self.users, id.0) {
            Some(row) => Some(row.0),
            None => None,
        }
    }

    /// The ids of the guilds the user `id` is known in.
    pub fn user_guilds(&self, id: UserId) -> (guilds: Option<BTreeSet<u64>>)
        ensures
            guilds.is_some() == self@.users.contains_key(id.0),
            guilds.is_some() ==> guilds.unwrap()@ == self@.users[id.0].1,
    {
        proof {
            self.unfold();
        }
        match get_user(&self.users, id.0) {
            Some(row) => Some(row.1),
            None => None,
        }
    }

    /// A copy of the account the client is logged in as.
    pub fn current_user(&self) -> (user: Option<CurrentUser>)
        ensures
            user == self@.current_user,
    {
        proof {
            self.unfold();
        }
        match &self.current_user {
            Some(user) => Some(user.clone()),
            None => None,
        }
    }
}

} // verus!
