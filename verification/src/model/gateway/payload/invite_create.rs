//! Payload of the event that announces a new invite.

use vstd::prelude::*;
use crate::model::id::{ChannelId, GuildId, UserId};
use crate::model::invite::TargetUserType;
use crate::model::user::User;

verus! {

#[derive(Clone, Debug, PartialEq, Eq)]
pub struct InviteCreate {
    pub channel_id: ChannelId,
    pub code: String,
    pub created_at: String,
    pub guild_id: GuildId,
    pub inviter: Option<User>,
    pub max_age: u64,
    pub max_uses: u64,
    pub target_user_type: Option<TargetUserType>,
    pub target_user: Option<PartialUser>,
    pub temporary: bool,
    pub uses: u8,
}

#[derive(Clone, Debug, PartialEq, Eq)]
pub struct PartialUser {
    pub avatar: Option<String>,
    pub discriminator: u16,
    pub id: UserId,
    pub username: String,
}

} // verus!
