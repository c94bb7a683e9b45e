//! Opaque 64-bit identifiers minted by the platform, one newtype per entity.

use vstd::prelude::*;

verus! {

#[derive(Clone, Copy, Debug, PartialEq, Eq, Structural, Hash)]
pub struct ChannelId(pub u64);

#[derive(Clone, Copy, Debug, PartialEq, Eq, Structural, Hash)]
pub struct EmojiId(pub u64);

#[derive(Clone, Copy, Debug, PartialEq, Eq, Structural, Hash)]
pub struct GuildId(pub u64);

#[derive(Clone, Copy, Debug, PartialEq, Eq, Structural, Hash)]
pub struct MessageId(pub u64);

#[derive(Clone, Copy, Debug, PartialEq, Eq, Structural, Hash)]
pub struct RoleId(pub u64);

#[derive(Clone, Copy, Debug, PartialEq, Eq, Structural, Hash)]
pub struct UserId(pub u64);

#[derive(Clone, Copy, Debug, PartialEq, Eq, Structural, Hash)]
pub struct ApplicationId(pub u64);

#[derive(Clone, Copy, Debug, PartialEq, Eq, Structural, Hash)]
pub struct AttachmentId(pub u64);

#[derive(Clone, Copy, Debug, PartialEq, Eq, Structural, Hash)]
pub struct WebhookId(pub u64);

} // verus!
