//! Voice connection state of a user.

use vstd::prelude::*;
use crate::model::guild::member::Member;
use crate::model::id::{ChannelId, GuildId, UserId};

verus! {

#[derive(Clone, Debug, PartialEq, Eq)]
pub struct VoiceState {
    pub channel_id: Option<ChannelId>,
    pub deaf: bool,
    pub guild_id: Option<GuildId>,
    pub member: Option<Member>,
    pub mute: bool,
    pub self_deaf: bool,
    pub self_mute: bool,
    pub self_stream: bool,
    pub session_id: String,
    pub suppress: bool,
    pub token: Option<String>,
    pub user_id: UserId,
}

} // verus!
