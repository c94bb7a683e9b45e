//! The configuration of one shard.

use vstd::prelude::*;
use vstd::string::StringExecFns;
use crate::model::gateway::intents::Intents;
use crate::model::gateway::payload::update_status::UpdateStatusInfo;
use crate::ratelimiting::text::chars_of;

verus! {

/// The least member count from which the platform may call a guild large.
pub const LEAST_LARGE_THRESHOLD: u64 = 50;

/// The greatest member count from which the platform may call a guild
/// large; the threshold of a new shard.
pub const GREATEST_LARGE_THRESHOLD: u64 = 250;

/// Why a large threshold was refused.
#[derive(Clone, Copy, Debug, PartialEq, Eq, Structural)]
pub enum LargeThresholdError {
    /// The value is below 50.
    TooFew { value: u64 },
    /// The value is above 250.
    TooMany { value: u64 },
}

/// Why a shard id was refused.
#[derive(Clone, Copy, Debug, PartialEq, Eq, Structural)]
pub enum ShardIdError {
    /// The id is not below the number of shards.
    IdTooLarge { id: u64, total: u64 },
}

/// What a shard needs in order to continue a session in place of starting
/// a new one.
#[derive(Debug, PartialEq, Eq)]
pub struct ResumeSession {
    pub session_id: String,
    pub sequence: u64,
}

impl Clone for ResumeSession {
    fn clone(&self) -> (copy: Self)
        ensures
            copy == *self,
    {
        ResumeSession { session_id: self.session_id.clone(), sequence: self.sequence }
    }
}

/// The settings of a shard.
#[derive(Clone, Debug, PartialEq, Eq)]
pub struct ShardConfig {
    pub gateway_url: Option<String>,
    pub intents: Intents,
    pub large_threshold: u64,
    pub presence: Option<UpdateStatusInfo>,
    pub sequence: Option<u64>,
    pub session_id: Option<String>,
    pub shard_id: u64,
    pub shard_total: u64,
    pub token: String,
}

/// What a shard sends to identify itself.
#[derive(Clone, Debug, PartialEq, Eq)]
pub struct Identify {
    pub intents: Intents,
    pub large_threshold: u64,
    pub presence: Option<UpdateStatusInfo>,
    pub shard: [u64; 2],
    pub token: String,
}

impl ShardConfig {
    /// What a shard with these settings sends to identify itself: its token,
    /// which has the bot prefix, what it subscribes to, from which member
    /// count on it calls a guild large, which shard it is of how many, and
    /// the presence it announces.
    pub fn into_identify(self) -> (identify: Identify)
        ensures
            identify.intents == self.intents,
            identify.large_threshold == self.large_threshold,
            identify.presence == self.presence,
            identify.shard@ == seq![self.shard_id, self.shard_total],
            identify.token@ == with_bot_prefix(self.token@),
    {
        let shard: [u64; 2] = [self.shard_id, self.shard_total];
        assert(shard@ =~= seq![self.shard_id, self.shard_total]);
        Identify {
            intents: self.intents,
            large_threshold: self.large_threshold,
            presence: self.presence,
            shard,
            token: prefixed(self.token),
        }
    }
}

/// Putting the bot prefix before a token that has it changes nothing.
pub proof fn bot_prefix_is_put_once(token: Seq<char>)
    ensures
        with_bot_prefix(with_bot_prefix(token)) == with_bot_prefix(token),
{
    let once = with_bot_prefix(token);
    if !(token.len() >= 4 && token.subrange(0, 4) == bot_prefix()) {
        assert(once.subrange(0, 4) =~= bot_prefix());
    }
}

/// The prefix that marks a bot's token.
pub open spec fn bot_prefix() -> Seq<char> {
    seq!['B', 'o', 't', ' ']
}

/// A token as it is sent: with the bot prefix, which is put before a token
/// that does not begin with it.
pub open spec fn with_bot_prefix(token: Seq<char>) -> Seq<char> {
    if token.len() >= 4 && token.subrange(0, 4) == bot_prefix() {
        token
    } else {
        bot_prefix() + token
    }
}

/// Puts the bot prefix before a token that does not begin with it.
pub fn prefixed(token: String) -> (sent: String)
    ensures
        sent@ == with_bot_prefix(token@),
{
    let chars = chars_of(token.as_str());
    if chars.len() >= 4 && chars[0] == 'B' && chars[1] == 'o' && chars[2] == 't' && chars[3]
        == ' ' {
        assert(token@.subrange(0, 4) =~= bot_prefix());
        token
    } else {
        proof {
            reveal_strlit("Bot ");
            assert("Bot "@ =~= bot_prefix());
            if token@.len() >= 4 && token@.subrange(0, 4) == bot_prefix() {
                assert(token@.subrange(0, 4)[0] == 'B');
                assert(token@.subrange(0, 4)[1] == 'o');
                assert(token@.subrange(0, 4)[2] == 't');
                assert(token@.subrange(0, 4)[3] == ' ');
            }
        }
        String::from_str("Bot ").concat(token.as_str())
    }
}

/// Builder of the settings of a shard.
#[derive(Clone, Debug, PartialEq, Eq)]
pub struct ShardBuilder(pub ShardConfig);

impl ShardBuilder {
    /// A builder for a shard that identifies with `token`, to which the bot
    /// prefix is put if it lacks it, and subscribes to `intents`. The shard
    /// is the only one, resolves its gateway by itself, calls guilds large
    /// from 250 members on and announces no presence.
    pub fn new(token: String, intents: Intents) -> (builder: Self)
        ensures
            builder.0.token@ == with_bot_prefix(token@),
            builder.0.intents == intents,
            builder.0.gateway_url.is_none(),
            builder.0.large_threshold == GREATEST_LARGE_THRESHOLD,
            builder.0.presence.is_none(),
            builder.0.sequence.is_none(),
            builder.0.session_id.is_none(),
            builder.0.shard_id == 0,
            builder.0.shard_total == 1,
    {
        ShardBuilder(
            ShardConfig {
                gateway_url: None,
                intents,
                large_threshold: GREATEST_LARGE_THRESHOLD,
                presence: None,
                sequence: None,
                session_id: None,
                shard_id: 0,
                shard_total: 1,
                token: prefixed(token),
            },
        )
    }

    /// Sets the URL of the gateway.
    pub fn gateway_url(self, gateway_url: Option<String>) -> (builder: Self)
        ensures
            builder.0 == (ShardConfig { gateway_url, ..self.0 }),
    {
        let mut config = self.0;
        config.gateway_url = gateway_url;
        ShardBuilder(config)
    }

    /// Sets the member count from which the platform calls a guild large:
    /// 50 at the least, 250 at the most.
    pub fn large_threshold(self, large_threshold: u64) -> (builder: Result<
        Self,
        LargeThresholdError,
    >)
        ensures
            match builder {
                Ok(b) => LEAST_LARGE_THRESHOLD <= large_threshold <= GREATEST_LARGE_THRESHOLD
                    && b.0 == (ShardConfig { large_threshold, ..self.0 }),
                Err(LargeThresholdError::TooFew { value }) => value == large_threshold
                    && large_threshold < LEAST_LARGE_THRESHOLD,
                Err(LargeThresholdError::TooMany { value }) => value == large_threshold
                    && large_threshold > GREATEST_LARGE_THRESHOLD,
            },
    {
        if large_threshold < LEAST_LARGE_THRESHOLD {
            return Err(LargeThresholdError::TooFew { value: large_threshold });
        }
        if large_threshold > GREATEST_LARGE_THRESHOLD {
            return Err(LargeThresholdError::TooMany { value: large_threshold });
        }
        let mut config = self.0;
        config.large_threshold = large_threshold;
        Ok(ShardBuilder(config))
    }

    /// Sets the presence that the shard announces when it identifies.
    pub fn presence(self, presence: UpdateStatusInfo) -> (builder: Self)
        ensures
            builder.0 == (ShardConfig { presence: Some(presence), ..self.0 }),
    {
        let mut config = self.0;
        config.presence = Some(presence);
        ShardBuilder(config)
    }

    /// Sets which shard this is, of how many.
    pub fn shard(self, id: u64, total: u64) -> (builder: Result<Self, ShardIdError>)
        ensures
            match builder {
                Ok(b) => id < total && b.0 == (ShardConfig {
                    shard_id: id,
                    shard_total: total,
                    ..self.0
                }),
                Err(ShardIdError::IdTooLarge { id: i, total: t }) => i == id && t == total && id
                    >= total,
            },
    {
        if id >= total {
            return Err(ShardIdError::IdTooLarge { id, total });
        }
        let mut config = self.0;
        config.shard_id = id;
        config.shard_total = total;
        Ok(ShardBuilder(config))
    }

    /// Sets the session that the shard continues.
    pub fn resume(self, session: ResumeSession) -> (builder: Self)
        ensures
            builder.0 == (ShardConfig {
                session_id: Some(session.session_id),
                sequence: Some(session.sequence),
                ..self.0
            }),
    {
        let mut config = self.0;
        config.session_id = Some(session.session_id);
        config.sequence = Some(session.sequence);
        ShardBuilder(config)
    }
}

} // verus!
