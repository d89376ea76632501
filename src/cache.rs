//! The connection cache: one live handle per namespace, all opened under
//! the parameters last seen.

use crate::config::{ConfigModel, RedisConfig};
use std::collections::HashMap;
use vstd::prelude::*;

verus! {

broadcast use vstd::std_specs::hash::group_hash_axioms;

/// Cached connection handles, keyed by namespace index, together with the
/// parameters they were opened under.
///
/// The handle type is left open: the cache only keeps and hands out what
/// the caller opened. Holders serialize access to it, so that the check of
/// the parameters, a lookup and an insertion form one exclusive step.
pub struct ConnectionManager<C> {
    connections: HashMap<i64, C>,
    config: Option<RedisConfig>,
}

/// The mathematical content of a [`ConnectionManager`].
pub struct CacheModel<C> {
    pub config: Option<ConfigModel>,
    pub connections: Map<i64, C>,
}

/// The cache after parameters `c` are presented: unchanged when they equal
/// the recorded ones; otherwise emptied, with `c` recorded.
pub open spec fn after_config<C>(s: CacheModel<C>, c: ConfigModel) -> CacheModel<C> {
    if s.config == Some(c) {
        s
    } else {
        CacheModel { config: Some(c), connections: Map::empty() }
    }
}

impl<C> View for ConnectionManager<C> {
    type V = CacheModel<C>;

    closed spec fn view(&self) -> CacheModel<C> {
        CacheModel {
            config: match self.config {
                Some(c) => Some(c@),
                None => None,
            },
            connections: self.connections@,
        }
    }
}

impl<C> ConnectionManager<C> {
    /// Every cached handle was opened under recorded parameters.
    pub open spec fn wf(&self) -> bool {
        self@.connections.dom().len() > 0 ==> self@.config is Some
    }

    /// An empty cache that has seen no parameters.
    pub fn new() -> (r: Self)
        ensures
            r.wf(),
            r@.config is None,
            r@.connections == Map::<i64, C>::empty(),
    {
        ConnectionManager { connections: HashMap::new(), config: None }
    }

    /// Presents the parameters of a request: on any difference from the
    /// recorded ones, or when none were recorded, every cached handle is
    /// dropped and the new parameters are recorded.
    pub fn use_config(&mut self, config: &RedisConfig)
        requires
            old(self).wf(),
        ensures
            final(self).wf(),
            final(self)@ == after_config(old(self)@, config@),
    {
        let changed = match &self.config {
            Some(existing) => !existing.same_as(config),
            None => true,
        };
        if changed {
            self.connections.clear();
            self.config = Some(config.duplicate());
            assert(self@.connections =~= Map::<i64, C>::empty());
        }
    }

    /// The handle cached for namespace `db`, if there is one.
    pub fn cached(&self, db: i64) -> (r: Option<&C>)
        ensures
            match r {
                Some(c) => self@.connections.contains_key(db) && *c == self@.connections[db],
                None => !self@.connections.contains_key(db),
            },
    {
        self.connections.get(&db)
    }

    /// Caches a handle for namespace `db`, opened under `config`.
    pub fn store(&mut self, config: &RedisConfig, db: i64, conn: C)
        requires
            old(self).wf(),
        ensures
            final(self).wf(),
            final(self)@.config == Some(config@),
            final(self)@.connections == after_config(old(self)@, config@).connections.insert(db, conn),
    {
        self.use_config(config);
        self.connections.insert(db, conn);
        assert(self@.connections.contains_key(db));
    }
}

impl<C> Default for ConnectionManager<C> {
    /// An empty cache that has seen no parameters.
    fn default() -> (r: Self)
        ensures
            r.wf(),
            r@.config is None,
            r@.connections == Map::<i64, C>::empty(),
    {
        Self::new()
    }
}

/// Cache coherence: presenting the recorded parameters again keeps every
/// cached handle, so the same namespace yields the same handle; presenting
/// parameters that differ in any field drops the handles of every
/// namespace, not only the one requested.
pub proof fn lemma_cache_coherence<C>(s: CacheModel<C>, c: ConfigModel, other: ConfigModel, db: i64)
    requires
        s.config == Some(c),
        other != c,
    ensures
        after_config(s, c) == s,
        after_config(s, c).connections.contains_key(db) ==> after_config(s, c).connections[db]
            == s.connections[db],
        after_config(s, other).connections == Map::<i64, C>::empty(),
        after_config(s, other).config == Some(other),
{
}

} // verus!
