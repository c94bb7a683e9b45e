//! Guild members, and the assembly of members from payloads that leave the
//! guild id out.

use std::collections::HashMap;
use vstd::prelude::*;
use crate::model::id::{GuildId, RoleId};
use crate::model::user::User;

verus! {

broadcast use vstd::std_specs::hash::group_hash_axioms;

#[derive(Clone, Debug, PartialEq, Eq)]
pub struct Member {
    pub deaf: bool,
    pub guild_id: GuildId,
    pub hoisted_role: Option<RoleId>,
    pub joined_at: Option<String>,
    pub mute: bool,
    pub nick: Option<String>,
    pub premium_since: Option<String>,
    pub roles: Vec<RoleId>,
    pub user: User,
}

/// The member attributes that ride along with a message.
#[derive(Clone, Debug, PartialEq, Eq)]
pub struct PartialMember {
    pub deaf: bool,
    pub joined_at: Option<String>,
    pub mute: bool,
    pub nick: Option<String>,
    pub roles: Vec<RoleId>,
}

/// A member as payloads without a guild id carry it.
#[derive(Clone, Debug, PartialEq, Eq)]
pub struct MemberIntermediary {
    pub deaf: bool,
    pub hoisted_role: Option<RoleId>,
    pub joined_at: Option<String>,
    pub mute: bool,
    pub nick: Option<String>,
    pub premium_since: Option<String>,
    pub roles: Vec<RoleId>,
    pub user: User,
}

/// The member that `fields` describes once it is known to belong to `guild_id`.
pub open spec fn member_in(guild_id: GuildId, fields: MemberIntermediary) -> Member {
    Member {
        deaf: fields.deaf,
        guild_id,
        hoisted_role: fields.hoisted_role,
        joined_at: fields.joined_at,
        mute: fields.mute,
        nick: fields.nick,
        premium_since: fields.premium_since,
        roles: fields.roles,
        user: fields.user,
    }
}

/// The members of `guild_id` that `list` describes, keyed by user id. Where a
/// user occurs more than once, the last occurrence stands.
pub open spec fn members_by_user(guild_id: GuildId, list: Seq<MemberIntermediary>) -> Map<
    u64,
    Member,
>
    decreases list.len(),
{
    if list.len() == 0 {
        Map::empty()
    } else {
        members_by_user(guild_id, list.drop_last()).insert(
            list.last().user.id.0,
            member_in(guild_id, list.last()),
        )
    }
}

/// Completes a member whose payload lacks the guild id with a guild id that
/// is known from elsewhere.
#[derive(Clone, Debug, PartialEq, Eq)]
pub struct MemberDeserializer(pub GuildId);

impl MemberDeserializer {
    /// A seed for members of `guild_id`.
    pub fn new(guild_id: GuildId) -> (seed: Self)
        ensures
            seed.0 == guild_id,
    {
        Self(guild_id)
    }

    /// Builds the member from the fields the payload held.
    pub fn complete(&self, fields: MemberIntermediary) -> (member: Member)
        ensures
            member == member_in(self.0, fields),
    {
        Member {
            deaf: fields.deaf,
            guild_id: self.0,
            hoisted_role: fields.hoisted_role,
            joined_at: fields.joined_at,
            mute: fields.mute,
            nick: fields.nick,
            premium_since: fields.premium_since,
            roles: fields.roles,
            user: fields.user,
        }
    }
}

/// As [`MemberDeserializer`], for a payload in which the member may be absent.
#[derive(Clone, Debug, PartialEq, Eq)]
pub struct OptionalMemberDeserializer(pub GuildId);

impl OptionalMemberDeserializer {
    /// A seed for members of `guild_id`.
    pub fn new(guild_id: GuildId) -> (seed: Self)
        ensures
            seed.0 == guild_id,
    {
        Self(guild_id)
    }

    /// Builds the member if the payload held one.
    pub fn complete(&self, fields: Option<MemberIntermediary>) -> (member: Option<Member>)
        ensures
            member == match fields {
                Some(f) => Some(member_in(self.0, f)),
                None => None,
            },
    {
        match fields {
            Some(f) => Some(MemberDeserializer(self.0).complete(f)),
            None => None,
        }
    }
}

/// As [`MemberDeserializer`], for a payload that lists many members.
#[derive(Clone, Debug, PartialEq, Eq)]
pub struct MemberMapDeserializer(pub GuildId);

impl MemberMapDeserializer {
    /// A seed for members of `guild_id`.
    pub fn new(guild_id: GuildId) -> (seed: Self)
        ensures
            seed.0 == guild_id,
    {
        Self(guild_id)
    }

    /// Builds the members in the order listed and keys them by user id.
    pub fn complete(&self, list: Vec<MemberIntermediary>) -> (members: HashMap<u64, Member>)
        ensures
            members@ == members_by_user(self.0, list@),
    {
        let ghost all = list@;
        let mut list = list;
        let mut members: HashMap<u64, Member> = HashMap::new();
        let mut rest: Vec<MemberIntermediary> = Vec::new();
        // Take the entries from the back, so that each can be moved out.
        while list.len() > 0
            invariant
                list@.len() + rest@.len() == all.len(),
                forall|i: int| 0 <= i < list@.len() ==> list@[i] == all[i],
                forall|i: int|
                    0 <= i < rest@.len() ==> rest@[i] == all[all.len() - 1 - i],
            decreases list@.len(),
        {
            let fields = list.pop().unwrap();
            rest.push(fields);
        }
        let ghost mut done: Seq<MemberIntermediary> = Seq::empty();
        while rest.len() > 0
            invariant
                done.len() + rest@.len() == all.len(),
                done == all.subrange(0, done.len() as int),
                forall|i: int|
                    0 <= i < rest@.len() ==> rest@[i] == all[all.len() - 1 - i],
                members@ == members_by_user(self.0, done),
            decreases rest@.len(),
        {
            let fields = rest.pop().unwrap();
            let user_id = fields.user.id.0;
            proof {
                let next = done.push(fields);
                assert(next.drop_last() == done);
                assert(next == all.subrange(0, next.len() as int));
                done = next;
            }
            let member = MemberDeserializer(self.0).complete(fields);
            members.insert(user_id, member);
        }
        assert(done == all);
        members
    }
}

} // verus!
