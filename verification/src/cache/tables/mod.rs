//! The cache's tables. Each is a `dashmap` collection; what it holds is named
//! by a specification function, and the few operations the cache needs are
//! thin wrappers whose contracts restate `dashmap`'s documentation over that
//! name. The messages of a channel are a `BTreeMap` of `std`, of which one
//! more wrapper takes out the greatest key. Verus takes these contracts on
//! trust.

pub mod emojis;
pub mod groups;
pub mod guild_channels;
pub mod guilds;
pub mod index;
pub mod members;
pub mod messages;
pub mod presences;
pub mod private_channels;
pub mod roles;
pub mod unavailable;
pub mod users;
pub mod voice_states;

use dashmap::{DashMap, DashSet};
use vstd::prelude::*;

verus! {

#[verifier::external_type_specification]
#[verifier::external_body]
#[verifier::reject_recursive_types(K)]
#[verifier::reject_recursive_types(V)]
#[verifier::reject_recursive_types(S)]
pub struct ExDashMap<K, V, S>(DashMap<K, V, S>);

#[verifier::external_type_specification]
#[verifier::external_body]
#[verifier::reject_recursive_types(K)]
#[verifier::reject_recursive_types(S)]
pub struct ExDashSet<K, S>(DashSet<K, S>);

} // verus!
