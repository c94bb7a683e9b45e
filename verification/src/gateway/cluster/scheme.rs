//! Which shards a cluster owns.

use vstd::prelude::*;

verus! {

/// Which shards a cluster owns.
#[derive(Clone, Copy, Debug, PartialEq, Eq, Structural)]
pub enum ShardScheme {
    /// All the shards that the platform recommends.
    Auto,
    /// The shards `from` to `to`, both included, of `total` shards.
    Range { from: u64, to: u64, total: u64 },
}

/// Why a range of shards was refused.
#[derive(Clone, Copy, Debug, PartialEq, Eq, Structural)]
pub enum ShardSchemeRangeError {
    /// The range is not within the shards: it ends before it starts, or at
    /// or after the number of shards.
    IdTooLarge { end: u64, start: u64, total: u64 },
}

impl ShardScheme {
    /// Whether a range is within the shards.
    pub open spec fn in_order(from: u64, to: u64, total: u64) -> bool {
        from <= to < total
    }

    /// The scheme that owns the shards `from` to `to` of `total`.
    pub fn range(from: u64, to: u64, total: u64) -> (scheme: Result<
        ShardScheme,
        ShardSchemeRangeError,
    >)
        ensures
            scheme == (if ShardScheme::in_order(from, to, total) {
                Ok::<ShardScheme, ShardSchemeRangeError>(ShardScheme::Range { from, to, total })
            } else {
                Err::<ShardScheme, ShardSchemeRangeError>(
                    ShardSchemeRangeError::IdTooLarge { end: to, start: from, total },
                )
            }),
    {
        if from > to || to >= total {
            return Err(ShardSchemeRangeError::IdTooLarge { end: to, start: from, total });
        }
        Ok(ShardScheme::Range { from, to, total })
    }

    /// The shards that the scheme owns, as first id, last id and number of
    /// shards, where the platform recommends `recommended` shards: nothing
    /// where that is none at all, or where a range is out of order.
    pub open spec fn owned(self, recommended: u64) -> Option<(u64, u64, u64)> {
        match self {
            ShardScheme::Auto => if recommended > 0 {
                Some((0u64, (recommended - 1) as u64, recommended))
            } else {
                None
            },
            ShardScheme::Range { from, to, total } => if ShardScheme::in_order(from, to, total) {
                Some((from, to, total))
            } else {
                None
            },
        }
    }

    /// Decides [`ShardScheme::owned`].
    pub fn shards(&self, recommended: u64) -> (owned: Option<(u64, u64, u64)>)
        ensures
            owned == self.owned(recommended),
    {
        match self {
            ShardScheme::Auto => if recommended > 0 {
                Some((0, recommended - 1, recommended))
            } else {
                None
            },
            ShardScheme::Range { from, to, total } => if *from <= *to && *to < *total {
                Some((*from, *to, *total))
            } else {
                None
            },
        }
    }
}

} // verus!
