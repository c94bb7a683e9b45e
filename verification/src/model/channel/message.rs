//! Messages as the gateway delivers them, and their reactions.

use vstd::prelude::*;
use crate::model::guild::member::PartialMember;
use crate::model::id::{AttachmentId, ChannelId, EmojiId, GuildId, MessageId, RoleId, WebhookId};
use crate::model::user::User;

verus! {

#[derive(Clone, Debug, PartialEq, Eq)]
pub struct Attachment {
    pub filename: String,
    pub id: AttachmentId,
    pub size: u64,
    pub url: String,
}

#[derive(Clone, Debug, PartialEq, Eq)]
pub struct Embed {
    pub description: Option<String>,
    pub title: Option<String>,
    pub url: Option<String>,
}

#[derive(Clone, Copy, Debug, PartialEq, Eq, Hash)]
pub enum MessageType {
    Regular,
    RecipientAdd,
    RecipientRemove,
    Call,
    ChannelNameChange,
    ChannelIconChange,
    ChannelMessagePinned,
    GuildMemberJoin,
    Reply,
}

/// The emoji a reaction was made with.
#[derive(Clone, Debug, PartialEq, Eq)]
pub enum ReactionType {
    Custom { animated: bool, id: EmojiId, name: Option<String> },
    Unicode { name: String },
}

impl ReactionType {
    /// Two reaction emojis are the same when they are of the same kind and
    /// agree on every attribute, names compared by their text.
    pub open spec fn same(&self, other: &ReactionType) -> bool {
        match (*self, *other) {
            (
                ReactionType::Custom { animated: a1, id: i1, name: n1 },
                ReactionType::Custom { animated: a2, id: i2, name: n2 },
            ) => a1 == a2 && i1 == i2 && match (n1, n2) {
                (Some(x), Some(y)) => x@ == y@,
                (None, None) => true,
                _ => false,
            },
            (ReactionType::Unicode { name: n1 }, ReactionType::Unicode { name: n2 }) => n1@ == n2@,
            _ => false,
        }
    }

    /// Decides [`ReactionType::same`].
    pub fn is_same(&self, other: &ReactionType) -> (same: bool)
        ensures
            same == self.same(other),
    {
        match self {
            ReactionType::Custom { animated: a1, id: i1, name: n1 } => match other {
                ReactionType::Custom { animated: a2, id: i2, name: n2 } => {
                    let names = match n1 {
                        Some(x) => match n2 {
                            Some(y) => *x == *y,
                            None => false,
                        },
                        None => n2.is_none(),
                    };
                    *a1 == *a2 && i1.0 == i2.0 && names
                },
                ReactionType::Unicode { .. } => false,
            },
            ReactionType::Unicode { name: n1 } => match other {
                ReactionType::Custom { .. } => false,
                ReactionType::Unicode { name: n2 } => *n1 == *n2,
            },
        }
    }
}

/// One entry of a message's reaction list.
#[derive(Clone, Debug, PartialEq, Eq)]
pub struct MessageReaction {
    pub count: u64,
    pub emoji: ReactionType,
    pub me: bool,
}

#[derive(Clone, Debug, PartialEq, Eq)]
pub struct Message {
    pub attachments: Vec<Attachment>,
    pub author: User,
    pub channel_id: ChannelId,
    pub content: String,
    pub edited_timestamp: Option<String>,
    pub embeds: Vec<Embed>,
    pub flags: Option<u64>,
    pub guild_id: Option<GuildId>,
    pub id: MessageId,
    pub kind: MessageType,
    pub member: Option<PartialMember>,
    pub mention_everyone: bool,
    pub mention_roles: Vec<RoleId>,
    pub mentions: Vec<User>,
    pub pinned: bool,
    pub reactions: Vec<MessageReaction>,
    pub timestamp: String,
    pub tts: bool,
    pub webhook_id: Option<WebhookId>,
}

} // verus!
