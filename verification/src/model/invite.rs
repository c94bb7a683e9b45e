//! Invite attributes shared by gateway payloads.

use vstd::prelude::*;

verus! {

#[derive(Clone, Copy, Debug, PartialEq, Eq, Hash)]
pub enum TargetUserType {
    Stream,
}

} // verus!
