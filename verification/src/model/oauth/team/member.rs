//! Members of a team.

use vstd::prelude::*;
use crate::model::oauth::team::{TeamId, TeamMembershipState};
use crate::model::user::User;

verus! {

#[derive(Clone, Debug, PartialEq, Eq)]
pub struct TeamMember {
    pub membership_state: TeamMembershipState,
    pub permissions: Vec<String>,
    pub team_id: TeamId,
    pub user: User,
}

} // verus!
