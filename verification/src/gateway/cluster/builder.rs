//! Builder of the settings of a cluster.

use std::collections::HashMap;
use vstd::prelude::*;
use crate::gateway::cluster::config::Config;
use crate::gateway::cluster::scheme::ShardScheme;
use crate::gateway::shard::{
    with_bot_prefix, LargeThresholdError, ResumeSession, ShardBuilder, ShardConfig,
    GREATEST_LARGE_THRESHOLD, LEAST_LARGE_THRESHOLD,
};
use crate::model::gateway::intents::Intents;
use crate::model::gateway::payload::update_status::UpdateStatusInfo;

verus! {

broadcast use vstd::std_specs::hash::group_hash_axioms;

/// Builder to configure a cluster: the settings of the cluster itself, and
/// the settings that each of its shards starts from.
#[derive(Debug)]
pub struct ClusterBuilder(pub Config, pub ShardBuilder);

impl ClusterBuilder {
    /// A builder for a cluster whose shards identify with `token` and
    /// subscribe to `intents`.
    pub fn new(token: String, intents: Intents) -> (builder: Self)
        ensures
            builder.1.0.token@ == with_bot_prefix(token@),
            builder.1.0.intents == intents,
            builder.1.0.gateway_url.is_none(),
            builder.1.0.large_threshold == GREATEST_LARGE_THRESHOLD,
            builder.1.0.presence.is_none(),
            builder.1.0.sequence.is_none(),
            builder.1.0.session_id.is_none(),
            builder.1.0.shard_id == 0,
            builder.1.0.shard_total == 1,
            builder.0.shard_config == builder.1.0,
            builder.0.shard_scheme == ShardScheme::Auto,
            builder.0.resume_sessions@ == Map::<u64, ResumeSession>::empty(),
    {
        Self::_new(token, intents)
    }

    fn _new(token: String, intents: Intents) -> (builder: Self)
        ensures
            builder.1.0.token@ == with_bot_prefix(token@),
            builder.1.0.intents == intents,
            builder.1.0.gateway_url.is_none(),
            builder.1.0.large_threshold == GREATEST_LARGE_THRESHOLD,
            builder.1.0.presence.is_none(),
            builder.1.0.sequence.is_none(),
            builder.1.0.session_id.is_none(),
            builder.1.0.shard_id == 0,
            builder.1.0.shard_total == 1,
            builder.0.shard_config == builder.1.0,
            builder.0.shard_scheme == ShardScheme::Auto,
            builder.0.resume_sessions@ == Map::<u64, ResumeSession>::empty(),
    {
        let shards = ShardBuilder::new(token, intents);
        let shard_config = ShardConfig {
            gateway_url: None,
            intents,
            large_threshold: GREATEST_LARGE_THRESHOLD,
            presence: None,
            sequence: None,
            session_id: None,
            shard_id: 0,
            shard_total: 1,
            token: shards.0.token.clone(),
        };
        ClusterBuilder(
            Config {
                shard_config,
                shard_scheme: ShardScheme::Auto,
                resume_sessions: HashMap::new(),
            },
            shards,
        )
    }

    /// Whether the URL of the gateway is still to be found before the
    /// cluster can start.
    pub fn needs_gateway_url(&self) -> (needed: bool)
        ensures
            needed == self.1.0.gateway_url.is_none(),
    {
        self.1.0.gateway_url.is_none()
    }

    /// The settings of the cluster, with the settings that its shards start
    /// from as they stand.
    pub fn finish(self) -> (config: Config)
        ensures
            config == (Config { shard_config: self.1.0, ..self.0 }),
    {
        let mut config = self.0;
        config.shard_config = self.1.0;
        config
    }

    /// Sets the URL that is used to connect to the gateway.
    pub fn gateway_url(self, gateway_url: Option<String>) -> (builder: Self)
        ensures
            builder.0 == self.0,
            builder.1.0 == (ShardConfig { gateway_url, ..self.1.0 }),
    {
        ClusterBuilder(self.0, self.1.gateway_url(gateway_url))
    }

    /// Sets the member count from which the platform calls a guild large:
    /// 50 at the least, 250 at the most.
    pub fn large_threshold(self, large_threshold: u64) -> (builder: Result<
        Self,
        LargeThresholdError,
    >)
        ensures
            match builder {
                Ok(b) => LEAST_LARGE_THRESHOLD <= large_threshold <= GREATEST_LARGE_THRESHOLD
                    && b.0 == self.0 && b.1.0 == (ShardConfig { large_threshold, ..self.1.0 }),
                Err(LargeThresholdError::TooFew { value }) => value == large_threshold
                    && large_threshold < LEAST_LARGE_THRESHOLD,
                Err(LargeThresholdError::TooMany { value }) => value == large_threshold
                    && large_threshold > GREATEST_LARGE_THRESHOLD,
            },
    {
        match self.1.large_threshold(large_threshold) {
            Ok(shards) => Ok(ClusterBuilder(self.0, shards)),
            Err(refused) => Err(refused),
        }
    }

    /// Sets the presence that the shards announce when they identify.
    pub fn presence(self, presence: UpdateStatusInfo) -> (builder: Self)
        ensures
            builder.0 == self.0,
            builder.1.0 == (ShardConfig { presence: Some(presence), ..self.1.0 }),
    {
        ClusterBuilder(self.0, self.1.presence(presence))
    }

    /// Sets which shards the cluster owns.
    pub fn shard_scheme(self, scheme: ShardScheme) -> (builder: Self)
        ensures
            builder.0 == (Config { shard_scheme: scheme, ..self.0 }),
            builder.1 == self.1,
    {
        let mut config = self.0;
        config.shard_scheme = scheme;
        ClusterBuilder(config, self.1)
    }

    /// Sets the sessions that shards continue, by shard id.
    pub fn resume_sessions(self, resume_sessions: HashMap<u64, ResumeSession>) -> (builder: Self)
        ensures
            builder.0 == (Config { resume_sessions, ..self.0 }),
            builder.1 == self.1,
    {
        let mut config = self.0;
        config.resume_sessions = resume_sessions;
        ClusterBuilder(config, self.1)
    }
}

} // verus!
