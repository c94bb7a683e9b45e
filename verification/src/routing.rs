//! The routes of the REST interface, as far as rate limiting tells them
//! apart.

use vstd::prelude::*;

verus! {

/// A route template, with the id that the platform limits it by where it has
/// one. Two requests share a bucket of their own accord only if they have
/// the same path.
#[derive(Clone, Copy, Debug, PartialEq, Eq, Structural, Hash)]
pub enum Path {
    ChannelsId(u64),
    ChannelsIdInvites(u64),
    ChannelsIdMessages(u64),
    ChannelsIdMessagesBulkDelete(u64),
    ChannelsIdMessagesId(u64),
    ChannelsIdMessagesIdReactions(u64),
    ChannelsIdPermissionsOverwriteId(u64),
    ChannelsIdPins(u64),
    ChannelsIdPinsMessageId(u64),
    ChannelsIdTyping(u64),
    ChannelsIdWebhooks(u64),
    Gateway,
    GatewayBot,
    Guilds,
    GuildsId(u64),
    GuildsIdBans(u64),
    GuildsIdBansUserId(u64),
    GuildsIdChannels(u64),
    GuildsIdEmojis(u64),
    GuildsIdEmojisId(u64),
    GuildsIdInvites(u64),
    GuildsIdMembers(u64),
    GuildsIdMembersId(u64),
    GuildsIdMembersIdRolesId(u64),
    GuildsIdRoles(u64),
    GuildsIdRolesId(u64),
    GuildsIdWebhooks(u64),
    InvitesCode,
    UsersId,
    UsersIdChannels,
    UsersIdGuilds,
    UsersIdGuildsId,
    VoiceRegions,
    WebhooksId(u64),
}

/// The number of ids that a route template may be limited by.
pub const SPAN: u128 = 0x1_0000_0000_0000_0000;

impl Path {
    /// A number that stands for the path and for no other: the place of the
    /// route template among the templates, and the id after it.
    pub open spec fn spec_code(&self) -> u128 {
        match *self {
            Path::ChannelsId(id) => (0 * SPAN + id) as u128,
            Path::ChannelsIdInvites(id) => (1 * SPAN + id) as u128,
            Path::ChannelsIdMessages(id) => (2 * SPAN + id) as u128,
            Path::ChannelsIdMessagesBulkDelete(id) => (3 * SPAN + id) as u128,
            Path::ChannelsIdMessagesId(id) => (4 * SPAN + id) as u128,
            Path::ChannelsIdMessagesIdReactions(id) => (5 * SPAN + id) as u128,
            Path::ChannelsIdPermissionsOverwriteId(id) => (6 * SPAN + id) as u128,
            Path::ChannelsIdPins(id) => (7 * SPAN + id) as u128,
            Path::ChannelsIdPinsMessageId(id) => (8 * SPAN + id) as u128,
            Path::ChannelsIdTyping(id) => (9 * SPAN + id) as u128,
            Path::ChannelsIdWebhooks(id) => (10 * SPAN + id) as u128,
            Path::Gateway => (11 * SPAN) as u128,
            Path::GatewayBot => (12 * SPAN) as u128,
            Path::Guilds => (13 * SPAN) as u128,
            Path::GuildsId(id) => (14 * SPAN + id) as u128,
            Path::GuildsIdBans(id) => (15 * SPAN + id) as u128,
            Path::GuildsIdBansUserId(id) => (16 * SPAN + id) as u128,
            Path::GuildsIdChannels(id) => (17 * SPAN + id) as u128,
            Path::GuildsIdEmojis(id) => (18 * SPAN + id) as u128,
            Path::GuildsIdEmojisId(id) => (19 * SPAN + id) as u128,
            Path::GuildsIdInvites(id) => (20 * SPAN + id) as u128,
            Path::GuildsIdMembers(id) => (21 * SPAN + id) as u128,
            Path::GuildsIdMembersId(id) => (22 * SPAN + id) as u128,
            Path::GuildsIdMembersIdRolesId(id) => (23 * SPAN + id) as u128,
            Path::GuildsIdRoles(id) => (24 * SPAN + id) as u128,
            Path::GuildsIdRolesId(id) => (25 * SPAN + id) as u128,
            Path::GuildsIdWebhooks(id) => (26 * SPAN + id) as u128,
            Path::InvitesCode => (27 * SPAN) as u128,
            Path::UsersId => (28 * SPAN) as u128,
            Path::UsersIdChannels => (29 * SPAN) as u128,
            Path::UsersIdGuilds => (30 * SPAN) as u128,
            Path::UsersIdGuildsId => (31 * SPAN) as u128,
            Path::VoiceRegions => (32 * SPAN) as u128,
            Path::WebhooksId(id) => (33 * SPAN + id) as u128,
        }
    }

    /// The number that stands for the path.
    #[verifier::when_used_as_spec(spec_code)]
    pub fn code(&self) -> (code: u128)
        ensures
            code == self.spec_code(),
    {
        match self {
            Path::ChannelsId(id) => 0 * SPAN + (*id as u128),
            Path::ChannelsIdInvites(id) => 1 * SPAN + (*id as u128),
            Path::ChannelsIdMessages(id) => 2 * SPAN + (*id as u128),
            Path::ChannelsIdMessagesBulkDelete(id) => 3 * SPAN + (*id as u128),
            Path::ChannelsIdMessagesId(id) => 4 * SPAN + (*id as u128),
            Path::ChannelsIdMessagesIdReactions(id) => 5 * SPAN + (*id as u128),
            Path::ChannelsIdPermissionsOverwriteId(id) => 6 * SPAN + (*id as u128),
            Path::ChannelsIdPins(id) => 7 * SPAN + (*id as u128),
            Path::ChannelsIdPinsMessageId(id) => 8 * SPAN + (*id as u128),
            Path::ChannelsIdTyping(id) => 9 * SPAN + (*id as u128),
            Path::ChannelsIdWebhooks(id) => 10 * SPAN + (*id as u128),
            Path::Gateway => 11 * SPAN,
            Path::GatewayBot => 12 * SPAN,
            Path::Guilds => 13 * SPAN,
            Path::GuildsId(id) => 14 * SPAN + (*id as u128),
            Path::GuildsIdBans(id) => 15 * SPAN + (*id as u128),
            Path::GuildsIdBansUserId(id) => 16 * SPAN + (*id as u128),
            Path::GuildsIdChannels(id) => 17 * SPAN + (*id as u128),
            Path::GuildsIdEmojis(id) => 18 * SPAN + (*id as u128),
            Path::GuildsIdEmojisId(id) => 19 * SPAN + (*id as u128),
            Path::GuildsIdInvites(id) => 20 * SPAN + (*id as u128),
            Path::GuildsIdMembers(id) => 21 * SPAN + (*id as u128),
            Path::GuildsIdMembersId(id) => 22 * SPAN + (*id as u128),
            Path::GuildsIdMembersIdRolesId(id) => 23 * SPAN + (*id as u128),
            Path::GuildsIdRoles(id) => 24 * SPAN + (*id as u128),
            Path::GuildsIdRolesId(id) => 25 * SPAN + (*id as u128),
            Path::GuildsIdWebhooks(id) => 26 * SPAN + (*id as u128),
            Path::InvitesCode => 27 * SPAN,
            Path::UsersId => 28 * SPAN,
            Path::UsersIdChannels => 29 * SPAN,
            Path::UsersIdGuilds => 30 * SPAN,
            Path::UsersIdGuildsId => 31 * SPAN,
            Path::VoiceRegions => 32 * SPAN,
            Path::WebhooksId(id) => 33 * SPAN + (*id as u128),
        }
    }
}

/// No two paths have the same number.
pub proof fn codes_tell_paths_apart(a: Path, b: Path)
    ensures
        a.code() == b.code() <==> a == b,
{
}

} // verus!
