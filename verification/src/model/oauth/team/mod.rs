//! Teams that own applications.

pub mod member;

use vstd::prelude::*;

verus! {

#[derive(Clone, Copy, Debug, PartialEq, Eq, Structural, Hash)]
pub struct TeamId(pub u64);

#[derive(Clone, Copy, Debug, PartialEq, Eq, Hash)]
pub enum TeamMembershipState {
    Invited,
    Accepted,
}

} // verus!
