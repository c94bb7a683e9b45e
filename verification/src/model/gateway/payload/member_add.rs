//! Payload of the event that announces a new guild member.

use vstd::prelude::*;
use crate::model::guild::member::Member;

verus! {

#[derive(Clone, Debug, PartialEq, Eq)]
pub struct MemberAdd(pub Member);

} // verus!
