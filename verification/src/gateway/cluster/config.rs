//! The settings of a cluster, and the shards that they come to.

use std::collections::HashMap;
use vstd::prelude::*;
use crate::gateway::cluster::scheme::ShardScheme;
use crate::gateway::shard::{ResumeSession, ShardConfig};
use crate::model::user::copy_text;

verus! {

broadcast use vstd::std_specs::hash::group_hash_axioms;

/// The settings of a cluster.
#[derive(Clone, Debug)]
pub struct Config {
    pub shard_config: ShardConfig,
    pub shard_scheme: ShardScheme,
    pub resume_sessions: HashMap<u64, ResumeSession>,
}

/// How one shard of a cluster starts.
#[derive(Clone, Debug, PartialEq, Eq)]
pub struct ShardStart {
    /// Which shard this is.
    pub id: u64,
    /// Of how many.
    pub total: u64,
    /// The URL of the gateway, if it is known.
    pub gateway_url: Option<String>,
    /// The session that the shard continues, if there is one for it.
    pub resume: Option<ResumeSession>,
}

impl Config {
    /// How the shard `id` of `total` starts: with the gateway of the
    /// cluster, and with the session that is kept for it, if any.
    pub open spec fn start_of(&self, id: u64, total: u64) -> ShardStart {
        ShardStart {
            id,
            total,
            gateway_url: self.shard_config.gateway_url,
            resume: if self.resume_sessions@.contains_key(id) {
                Some(self.resume_sessions@[id])
            } else {
                None
            },
        }
    }

    /// How the shards of the cluster start, in the order of their ids, where
    /// the platform recommends `recommended` shards.
    pub open spec fn starts(&self, recommended: u64) -> Seq<ShardStart> {
        match self.shard_scheme.owned(recommended) {
            Some((from, to, total)) => Seq::new(
                (to - from + 1) as nat,
                |i: int| self.start_of((from + i) as u64, total),
            ),
            None => Seq::empty(),
        }
    }

    /// Decides [`Config::starts`].
    pub fn shard_starts(&self, recommended: u64) -> (plan: Vec<ShardStart>)
        ensures
            plan@ == self.starts(recommended),
    {
        let mut plan: Vec<ShardStart> = Vec::new();
        match self.shard_scheme.shards(recommended) {
            Some((from, to, total)) => {
                let mut id: u64 = from;
                loop
                    invariant_except_break
                        from <= id <= to,
                        plan@ == Seq::new(
                            (id - from) as nat,
                            |i: int| self.start_of((from + i) as u64, total),
                        ),
                    ensures
                        plan@ == Seq::new(
                            (to - from + 1) as nat,
                            |i: int| self.start_of((from + i) as u64, total),
                        ),
                    decreases to - id,
                {
                    let resume = match self.resume_sessions.get(&id) {
                        Some(session) => Some(session.clone()),
                        None => None,
                    };
                    plan.push(
                        ShardStart {
                            id,
                            total,
                            gateway_url: copy_text(&self.shard_config.gateway_url),
                            resume,
                        },
                    );
                    assert(plan@ =~= Seq::new(
                        (id - from + 1) as nat,
                        |i: int| self.start_of((from + i) as u64, total),
                    ));
                    if id == to {
                        break ;
                    }
                    id = id + 1;
                }
            },
            None => {},
        }
        plan
    }
}

} // verus!
