//! The event kinds of the gateway.

use vstd::prelude::*;
use crate::model::gateway::payload::invite_create::InviteCreate;
use crate::model::gateway::payload::member_add::MemberAdd;
use crate::model::gateway::payload::{
    BanAdd, BanRemove, ChannelCreate, ChannelDelete, ChannelPinsUpdate, ChannelUpdate,
    GuildCreate, GuildDelete, GuildEmojisUpdate, GuildIntegrationsUpdate, GuildUpdate,
    InviteDelete, MemberChunk, MemberRemove, MemberUpdate, MessageCreate, MessageDelete,
    MessageDeleteBulk, MessageUpdate, PresenceUpdate, ReactionAdd, ReactionRemove,
    ReactionRemoveAll, ReactionRemoveEmoji, Ready, RoleCreate, RoleDelete, RoleUpdate,
    TypingStart, UserUpdate, VoiceServerUpdate, VoiceStateUpdate, WebhooksUpdate,
};
use crate::model::guild::UnavailableGuild;

verus! {

/// What a shard reports about its own connection.
#[derive(Clone, Debug, PartialEq, Eq)]
pub struct ShardNotice {
    pub shard_id: u64,
}

#[derive(Clone, Debug, PartialEq, Eq)]
pub enum Event {
    BanAdd(BanAdd),
    BanRemove(BanRemove),
    ChannelCreate(ChannelCreate),
    ChannelDelete(ChannelDelete),
    ChannelPinsUpdate(ChannelPinsUpdate),
    ChannelUpdate(ChannelUpdate),
    GatewayHeartbeat(u64),
    GatewayHeartbeatAck,
    GatewayHello(u64),
    GatewayInvalidateSession(bool),
    GatewayReconnect,
    GiftCodeUpdate,
    GuildCreate(GuildCreate),
    GuildDelete(GuildDelete),
    GuildEmojisUpdate(GuildEmojisUpdate),
    GuildIntegrationsUpdate(GuildIntegrationsUpdate),
    GuildUpdate(GuildUpdate),
    InviteCreate(InviteCreate),
    InviteDelete(InviteDelete),
    MemberAdd(MemberAdd),
    MemberRemove(MemberRemove),
    MemberUpdate(MemberUpdate),
    MemberChunk(MemberChunk),
    MessageCreate(MessageCreate),
    MessageDelete(MessageDelete),
    MessageDeleteBulk(MessageDeleteBulk),
    MessageUpdate(MessageUpdate),
    PresenceUpdate(PresenceUpdate),
    PresencesReplace,
    ReactionAdd(ReactionAdd),
    ReactionRemove(ReactionRemove),
    ReactionRemoveAll(ReactionRemoveAll),
    ReactionRemoveEmoji(ReactionRemoveEmoji),
    Ready(Ready),
    Resumed,
    RoleCreate(RoleCreate),
    RoleDelete(RoleDelete),
    RoleUpdate(RoleUpdate),
    ShardConnected(ShardNotice),
    ShardConnecting(ShardNotice),
    ShardDisconnected(ShardNotice),
    ShardIdentifying(ShardNotice),
    ShardReconnecting(ShardNotice),
    ShardPayload(Vec<u8>),
    ShardResuming(ShardNotice),
    TypingStart(TypingStart),
    UnavailableGuild(UnavailableGuild),
    UserUpdate(UserUpdate),
    VoiceServerUpdate(VoiceServerUpdate),
    VoiceStateUpdate(VoiceStateUpdate),
    WebhooksUpdate(WebhooksUpdate),
}

} // verus!
