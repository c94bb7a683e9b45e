//! The presence that a shard announces when it identifies.

use vstd::prelude::*;
use crate::model::gateway::presence::{Activity, Status};

verus! {

#[derive(Clone, Debug, PartialEq, Eq)]
pub struct UpdateStatusInfo {
    pub activities: Option<Vec<Activity>>,
    pub afk: bool,
    pub since: Option<u64>,
    pub status: Status,
}

} // verus!
