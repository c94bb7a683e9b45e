//! Builder of a cache.

use vstd::prelude::*;
use crate::cache::config::{Config, EventType};
use crate::cache::view::CacheView;
use crate::cache::InMemoryCache;

verus! {

/// Builder to configure and construct an [`InMemoryCache`].
#[derive(Clone, Copy, Debug, PartialEq, Eq, Structural)]
pub struct InMemoryCacheBuilder(pub Config);

impl InMemoryCacheBuilder {
    /// A builder for a cache that applies every kind of event and keeps a
    /// hundred messages per channel.
    pub fn new() -> (builder: Self)
        ensures
            builder.0.event_types.0 == crate::cache::config::ALL,
            builder.0.message_cache_size == 100,
    {
        InMemoryCacheBuilder(Config::default())
    }

    /// Builds the cache.
    pub fn build(self) -> (cache: InMemoryCache)
        ensures
            cache.wf(),
            cache@ == CacheView::empty(self.0.event_types, self.0.message_cache_size),
    {
        InMemoryCache::with_config(self.0)
    }

    /// Sets the kinds of event that the cache applies.
    pub fn event_types(self, event_types: EventType) -> (builder: Self)
        ensures
            builder.0 == (Config { event_types, ..self.0 }),
    {
        let mut config = self.0;
        config.event_types = event_types;
        InMemoryCacheBuilder(config)
    }

    /// Sets the number of messages kept per channel.
    pub fn message_cache_size(self, message_cache_size: usize) -> (builder: Self)
        ensures
            builder.0 == (Config { message_cache_size, ..self.0 }),
    {
        let mut config = self.0;
        config.message_cache_size = message_cache_size;
        InMemoryCacheBuilder(config)
    }
}

impl InMemoryCache {
    /// A builder for a cache.
    pub fn builder() -> (builder: InMemoryCacheBuilder)
        ensures
            builder.0.event_types.0 == crate::cache::config::ALL,
            builder.0.message_cache_size == 100,
    {
        InMemoryCacheBuilder::new()
    }
}

} // verus!
