//! Removal of everything that a guild owns.

use vstd::prelude::*;
use crate::cache::index::members_of;
use crate::cache::tables::emojis::take_emoji;
use crate::cache::tables::guild_channels::take_guild_channel;
use crate::cache::tables::index::take_ids;
use crate::cache::tables::members::take_member;
use crate::cache::tables::presences::take_presence;
use crate::cache::tables::roles::take_role;
use crate::cache::tables::voice_states::take_voice_state;
use crate::cache::upkeep::{lockstep_after_purge, paired_after_purge};
use crate::cache::tables::users::{put_user, take_user};
use crate::cache::view::{ids_in, users_without, CacheView};
use crate::cache::InMemoryCache;

verus! {

broadcast use vstd::std_specs::btree::group_btree_axioms;

impl InMemoryCache {
    /// Removes the guild channels that `guild` owns, and the guild's list of them.
    pub(crate) fn purge_guild_channels(&mut self, guild: u64)
        requires
            old(self).wf(),
        ensures
            final(self).wf(),
            final(self)@ == old(self)@.without_channels_of(guild),
    {
        proof {
            self.unfold();
        }
        let ghost before = self@;
        let ghost mut gone: Set<u64> = Set::empty();
        match take_ids(&mut self.guild_channels, guild) {
            Some(set) => {
                let ids = members_of(&set);
                let mut i: usize = 0;
                proof {
                    self.unfold();
                    assert(self@ =~= (CacheView {
                        channels_guild: before.channels_guild.remove_keys(gone),
                        guild_channels: before.guild_channels.remove(guild),
                        ..before
                    }));
                }
                while i < ids.len()
                    invariant
                        i <= ids@.len(),
                        forall|j: int| 0 <= j < i ==> gone.contains(ids@[j]),
                        forall|id: u64| gone.contains(id) ==> ids@.contains(id),
                        self@ == (CacheView {
                            channels_guild: before.channels_guild.remove_keys(gone),
                            guild_channels: before.guild_channels.remove(guild),
                            ..before
                        }),
                    decreases ids@.len() - i,
                {
                    proof {
                        self.unfold();
                    }
                    let ghost prior = self@;
                    let _ = take_guild_channel(&mut self.channels_guild, ids[i]);
                    proof {
                        self.unfold();
                        gone = gone.insert(ids@[i as int]);
                        assert(self@ =~= (CacheView {
                            channels_guild: before.channels_guild.remove_keys(gone),
                            ..prior
                        }));
                    }
                    i = i + 1;
                }
                proof {
                    assert(gone =~= ids@.to_set());
                }
            },
            None => {
                proof {
                    self.unfold();
                    assert(before.channels_guild.remove_keys(gone) =~= before.channels_guild);
                    assert(self@ =~= (CacheView {
                        channels_guild: before.channels_guild.remove_keys(gone),
                        guild_channels: before.guild_channels.remove(guild),
                        ..before
                    }));
                }
            },
        }
        proof {
            assert(gone == ids_in(before.guild_channels, guild));
            lockstep_after_purge(before.channels_guild, before.guild_channels, guild);
            before.without_channels_of_keeps_wf(guild);
        }
    }

    /// Removes the emojis that `guild` owns, and the guild's list of them.
    pub(crate) fn purge_emojis(&mut self, guild: u64)
        requires
            old(self).wf(),
        ensures
            final(self).wf(),
            final(self)@ == old(self)@.without_emojis_of(guild),
    {
        proof {
            self.unfold();
        }
        let ghost before = self@;
        let ghost mut gone: Set<u64> = Set::empty();
        match take_ids(&mut self.guild_emojis, guild) {
            Some(set) => {
                let ids = members_of(&set);
                let mut i: usize = 0;
                proof {
                    self.unfold();
                    assert(self@ =~= (CacheView {
                        emojis: before.emojis.remove_keys(gone),
                        guild_emojis: before.guild_emojis.remove(guild),
                        ..before
                    }));
                }
                while i < ids.len()
                    invariant
                        i <= ids@.len(),
                        forall|j: int| 0 <= j < i ==> gone.contains(ids@[j]),
                        forall|id: u64| gone.contains(id) ==> ids@.contains(id),
                        self@ == (CacheView {
                            emojis: before.emojis.remove_keys(gone),
                            guild_emojis: before.guild_emojis.remove(guild),
                            ..before
                        }),
                    decreases ids@.len() - i,
                {
                    proof {
                        self.unfold();
                    }
                    let ghost prior = self@;
                    let _ = take_emoji(&mut self.emojis, ids[i]);
                    proof {
                        self.unfold();
                        gone = gone.insert(ids@[i as int]);
                        assert(self@ =~= (CacheView {
                            emojis: before.emojis.remove_keys(gone),
                            ..prior
                        }));
                    }
                    i = i + 1;
                }
                proof {
                    assert(gone =~= ids@.to_set());
                }
            },
            None => {
                proof {
                    self.unfold();
                    assert(before.emojis.remove_keys(gone) =~= before.emojis);
                    assert(self@ =~= (CacheView {
                        emojis: before.emojis.remove_keys(gone),
                        guild_emojis: before.guild_emojis.remove(guild),
                        ..before
                    }));
                }
            },
        }
        proof {
            assert(gone == ids_in(before.guild_emojis, guild));
            lockstep_after_purge(before.emojis, before.guild_emojis, guild);
            before.without_emojis_of_keeps_wf(guild);
        }
    }

    /// Removes the roles that `guild` owns, and the guild's list of them.
    pub(crate) fn purge_roles(&mut self, guild: u64)
        requires
            old(self).wf(),
        ensures
            final(self).wf(),
            final(self)@ == old(self)@.without_roles_of(guild),
    {
        proof {
            self.unfold();
        }
        let ghost before = self@;
        let ghost mut gone: Set<u64> = Set::empty();
        match take_ids(&mut self.guild_roles, guild) {
            Some(set) => {
                let ids = members_of(&set);
                let mut i: usize = 0;
                proof {
                    self.unfold();
                    assert(self@ =~= (CacheView {
                        roles: before.roles.remove_keys(gone),
                        guild_roles: before.guild_roles.remove(guild),
                        ..before
                    }));
                }
                while i < ids.len()
                    invariant
                        i <= ids@.len(),
                        forall|j: int| 0 <= j < i ==> gone.contains(ids@[j]),
                        forall|id: u64| gone.contains(id) ==> ids@.contains(id),
                        self@ == (CacheView {
                            roles: before.roles.remove_keys(gone),
                            guild_roles: before.guild_roles.remove(guild),
                            ..before
                        }),
                    decreases ids@.len() - i,
                {
                    proof {
                        self.unfold();
                    }
                    let ghost prior = self@;
                    let _ = take_role(&mut self.roles, ids[i]);
                    proof {
                        self.unfold();
                        gone = gone.insert(ids@[i as int]);
                        assert(self@ =~= (CacheView {
                            roles: before.roles.remove_keys(gone),
                            ..prior
                        }));
                    }
                    i = i + 1;
                }
                proof {
                    assert(gone =~= ids@.to_set());
                }
            },
            None => {
                proof {
                    self.unfold();
                    assert(before.roles.remove_keys(gone) =~= before.roles);
                    assert(self@ =~= (CacheView {
                        roles: before.roles.remove_keys(gone),
                        guild_roles: before.guild_roles.remove(guild),
                        ..before
                    }));
                }
            },
        }
        proof {
            assert(gone == ids_in(before.guild_roles, guild));
            lockstep_after_purge(before.roles, before.guild_roles, guild);
            before.without_roles_of_keeps_wf(guild);
        }
    }

    /// Removes the members of `guild` and the guild's list of them, and takes
    /// the guild off what each of their users is known in; forgets a user
    /// that is known nowhere else.
    pub(crate) fn purge_members(&mut self, guild: u64)
        requires
            old(self).wf(),
        ensures
            final(self).wf(),
            final(self)@ == old(self)@.without_members_of(guild),
    {
        proof {
            self.unfold();
        }
        let ghost before = self@;
        let ghost mut gone: Set<u64> = Set::empty();
        match take_ids(&mut self.guild_members, guild) {
            Some(set) => {
                let ids = members_of(&set);
                let mut i: usize = 0;
                proof {
                    self.unfold();
                    assert(self@ =~~= (CacheView {
                        members: before.members.remove_keys(
                            Set::new(|k: (u64, u64)| k.0 == guild && gone.contains(k.1)),
                        ),
                        guild_members: before.guild_members.remove(guild),
                        users: users_without(before.users, guild, gone),
                        ..before
                    }));
                }
                while i < ids.len()
                    invariant
                        i <= ids@.len(),
                        ids@.no_duplicates(),
                        forall|j: int| 0 <= j < i ==> gone.contains(ids@[j]),
                        forall|id: u64| gone.contains(id) ==> ids@.contains(id),
                        forall|j: int| i <= j < ids@.len() ==> !gone.contains(ids@[j]),
                        self@ == (CacheView {
                            members: before.members.remove_keys(
                                Set::new(|k: (u64, u64)| k.0 == guild && gone.contains(k.1)),
                            ),
                            guild_members: before.guild_members.remove(guild),
                            users: users_without(before.users, guild, gone),
                            ..before
                        }),
                    decreases ids@.len() - i,
                {
                    proof {
                        self.unfold();
                    }
                    let ghost prior = self@;
                    let ghost earlier = gone;
                    let id = ids[i];
                    let _ = take_member(&mut self.members, (guild, id));
                    match take_user(&mut self.users, id) {
                        Some(row) => {
                            let (user, guilds) = row;
                            let mut guilds = guilds;
                            guilds.remove(&guild);
                            if !guilds.is_empty() {
                                put_user(&mut self.users, id, user, guilds);
                            }
                        },
                        None => {},
                    }
                    proof {
                        self.unfold();
                        gone = gone.insert(id);
                        assert forall|j: int| i + 1 <= j < ids@.len() implies !gone.contains(
                            ids@[j],
                        ) by {
                            assert(ids@[j] != ids@[i as int]);
                        }
                        assert(!earlier.contains(id));
                        assert(self@.users =~~= users_without(before.users, guild, gone));
                        assert(self@ =~~= (CacheView {
                            members: before.members.remove_keys(
                                Set::new(|k: (u64, u64)| k.0 == guild && gone.contains(k.1)),
                            ),
                            users: users_without(before.users, guild, gone),
                            ..prior
                        }));
                    }
                    i = i + 1;
                }
                proof {
                    assert(gone =~= ids@.to_set());
                }
            },
            None => {
                proof {
                    self.unfold();
                    assert(before.members.remove_keys(
                        Set::new(|k: (u64, u64)| k.0 == guild && gone.contains(k.1)),
                    ) =~= before.members);
                    assert(self@ =~~= (CacheView {
                        members: before.members.remove_keys(
                            Set::new(|k: (u64, u64)| k.0 == guild && gone.contains(k.1)),
                        ),
                        guild_members: before.guild_members.remove(guild),
                        users: users_without(before.users, guild, gone),
                        ..before
                    }));
                }
            },
        }
        proof {
            assert(gone == ids_in(before.guild_members, guild));
            assert(Set::new(|k: (u64, u64)| k.0 == guild && gone.contains(k.1)) =~= Set::new(
                |k: (u64, u64)| k.0 == guild && ids_in(before.guild_members, guild).contains(k.1),
            ));
            paired_after_purge(before.members, before.guild_members, guild);
            before.users_leave_with_members(guild);
            before.without_members_of_keeps_wf(guild);
        }
    }

    /// Removes the presences of `guild`, and the guild's list of them.
    pub(crate) fn purge_presences(&mut self, guild: u64)
        requires
            old(self).wf(),
        ensures
            final(self).wf(),
            final(self)@ == old(self)@.without_presences_of(guild),
    {
        proof {
            self.unfold();
        }
        let ghost before = self@;
        let ghost mut gone: Set<u64> = Set::empty();
        match take_ids(&mut self.guild_presences, guild) {
            Some(set) => {
                let ids = members_of(&set);
                let mut i: usize = 0;
                proof {
                    self.unfold();
                    assert(self@ =~= (CacheView {
                        presences: before.presences.remove_keys(
                            Set::new(|k: (u64, u64)| k.0 == guild && gone.contains(k.1)),
                        ),
                        guild_presences: before.guild_presences.remove(guild),
                        ..before
                    }));
                }
                while i < ids.len()
                    invariant
                        i <= ids@.len(),
                        forall|j: int| 0 <= j < i ==> gone.contains(ids@[j]),
                        forall|id: u64| gone.contains(id) ==> ids@.contains(id),
                        self@ == (CacheView {
                            presences: before.presences.remove_keys(
                                Set::new(|k: (u64, u64)| k.0 == guild && gone.contains(k.1)),
                            ),
                            guild_presences: before.guild_presences.remove(guild),
                            ..before
                        }),
                    decreases ids@.len() - i,
                {
                    proof {
                        self.unfold();
                    }
                    let ghost prior = self@;
                    let _ = take_presence(&mut self.presences, (guild, ids[i]));
                    proof {
                        self.unfold();
                        gone = gone.insert(ids@[i as int]);
                        assert(self@ =~= (CacheView {
                            presences: before.presences.remove_keys(
                                Set::new(|k: (u64, u64)| k.0 == guild && gone.contains(k.1)),
                            ),
                            ..prior
                        }));
                    }
                    i = i + 1;
                }
                proof {
                    assert(gone =~= ids@.to_set());
                }
            },
            None => {
                proof {
                    self.unfold();
                    assert(before.presences.remove_keys(
                        Set::new(|k: (u64, u64)| k.0 == guild && gone.contains(k.1)),
                    ) =~= before.presences);
                    assert(self@ =~= (CacheView {
                        presences: before.presences.remove_keys(
                            Set::new(|k: (u64, u64)| k.0 == guild && gone.contains(k.1)),
                        ),
                        guild_presences: before.guild_presences.remove(guild),
                        ..before
                    }));
                }
            },
        }
        proof {
            assert(gone == ids_in(before.guild_presences, guild));
            assert(Set::new(|k: (u64, u64)| k.0 == guild && gone.contains(k.1)) =~= Set::new(
                |k: (u64, u64)| k.0 == guild && ids_in(before.guild_presences, guild).contains(k.1),
            ));
            paired_after_purge(before.presences, before.guild_presences, guild);
            before.without_presences_of_keeps_wf(guild);
        }
    }

    /// Removes the voice states of `guild`, and the guild's list of them.
    pub(crate) fn purge_voice_states(&mut self, guild: u64)
        requires
            old(self).wf(),
        ensures
            final(self).wf(),
            final(self)@ == old(self)@.without_voice_states_of(guild),
    {
        proof {
            self.unfold();
        }
        let ghost before = self@;
        let ghost mut gone: Set<u64> = Set::empty();
        match take_ids(&mut self.guild_voice_states, guild) {
            Some(set) => {
                let ids = members_of(&set);
                let mut i: usize = 0;
                proof {
                    self.unfold();
                    assert(self@ =~= (CacheView {
                        voice_states: before.voice_states.remove_keys(
                            Set::new(|k: (u64, u64)| k.0 == guild && gone.contains(k.1)),
                        ),
                        guild_voice_states: before.guild_voice_states.remove(guild),
                        ..before
                    }));
                }
                while i < ids.len()
                    invariant
                        i <= ids@.len(),
                        forall|j: int| 0 <= j < i ==> gone.contains(ids@[j]),
                        forall|id: u64| gone.contains(id) ==> ids@.contains(id),
                        self@ == (CacheView {
                            voice_states: before.voice_states.remove_keys(
                                Set::new(|k: (u64, u64)| k.0 == guild && gone.contains(k.1)),
                            ),
                            guild_voice_states: before.guild_voice_states.remove(guild),
                            ..before
                        }),
                    decreases ids@.len() - i,
                {
                    proof {
                        self.unfold();
                    }
                    let ghost prior = self@;
                    let _ = take_voice_state(&mut self.voice_states, (guild, ids[i]));
                    proof {
                        self.unfold();
                        gone = gone.insert(ids@[i as int]);
                        assert(self@ =~= (CacheView {
                            voice_states: before.voice_states.remove_keys(
                                Set::new(|k: (u64, u64)| k.0 == guild && gone.contains(k.1)),
                            ),
                            ..prior
                        }));
                    }
                    i = i + 1;
                }
                proof {
                    assert(gone =~= ids@.to_set());
                }
            },
            None => {
                proof {
                    self.unfold();
                    assert(before.voice_states.remove_keys(
                        Set::new(|k: (u64, u64)| k.0 == guild && gone.contains(k.1)),
                    ) =~= before.voice_states);
                    assert(self@ =~= (CacheView {
                        voice_states: before.voice_states.remove_keys(
                            Set::new(|k: (u64, u64)| k.0 == guild && gone.contains(k.1)),
                        ),
                        guild_voice_states: before.guild_voice_states.remove(guild),
                        ..before
                    }));
                }
            },
        }
        proof {
            assert(gone == ids_in(before.guild_voice_states, guild));
            assert(Set::new(|k: (u64, u64)| k.0 == guild && gone.contains(k.1)) =~= Set::new(
                |k: (u64, u64)| k.0 == guild && ids_in(before.guild_voice_states, guild).contains(k.1),
            ));
            paired_after_purge(before.voice_states, before.guild_voice_states, guild);
            before.without_voice_states_of_keeps_wf(guild);
        }
    }

    /// Removes everything that `guild` owns, and the guild's lists.
    pub(crate) fn purge(&mut self, guild: u64)
        requires
            old(self).wf(),
        ensures
            final(self).wf(),
            final(self)@ == old(self)@.purged(guild),
    {
        self.purge_guild_channels(guild);
        self.purge_emojis(guild);
        self.purge_roles(guild);
        self.purge_members(guild);
        self.purge_presences(guild);
        self.purge_voice_states(guild);
    }
}

} // verus!
