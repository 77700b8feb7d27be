//! Invalidation by intent: what to delete when the data behind the cache
//! has changed.
//!
//! An event yields a plan, a list of removals. Each removal is carried out
//! on its own, first on the network tier and then, with what the network
//! tier said, on the store. No removal can fail on the store, so one that
//! the network tier refused never keeps the next one from being made.

use crate::cache::cache_keys::{CacheKey, CacheQuery, EntityClass};
use crate::cache::redis_cache::{CacheState, NetworkAck, RedisCache};
use vstd::prelude::*;

verus! {

/// One removal: of a key, of every key that a pattern stands for, or of
/// everything.
#[derive(Debug, PartialEq, Eq)]
pub enum Invalidation<T> {
    Key(T),
    Pattern(T),
    Everything,
}

impl View for Invalidation<String> {
    type V = Invalidation<Seq<char>>;

    open spec fn view(&self) -> Invalidation<Seq<char>> {
        match self {
            Invalidation::Key(key) => Invalidation::Key(key@),
            Invalidation::Pattern(pattern) => Invalidation::Pattern(pattern@),
            Invalidation::Everything => Invalidation::Everything,
        }
    }
}

/// A plan as a value of the model.
pub open spec fn steps(plan: Seq<Invalidation<String>>) -> Seq<Invalidation<Seq<char>>> {
    plan.map_values(|step: Invalidation<String>| step@)
}

impl<C> CacheState<C> {
    /// The store after one removal that the network tier answered with
    /// `network`.
    pub open spec fn after_invalidation(
        self,
        step: Invalidation<Seq<char>>,
        network: NetworkAck,
    ) -> Self {
        match step {
            Invalidation::Key(key) => self.after_delete(key, network),
            Invalidation::Pattern(pattern) => self.after_delete_pattern(pattern, network),
            Invalidation::Everything => self.after_clear_all(network),
        }
    }

    /// The store after the removals of `plan`, made in order, of which the
    /// network tier answered the first with `network[0]`, and so on.
    pub open spec fn after_plan(
        self,
        plan: Seq<Invalidation<Seq<char>>>,
        network: Seq<NetworkAck>,
    ) -> Self
        recommends
            plan.len() == network.len(),
        decreases plan.len(),
    {
        if plan.len() == 0 {
            self
        } else {
            self.after_plan(plan.drop_last(), network.drop_last()).after_invalidation(
                plan.last(),
                network.last(),
            )
        }
    }
}

impl<C> RedisCache<C> {
    /// Carries out one removal of a plan, given what the network tier said
    /// to it.
    pub fn invalidate(&mut self, step: &Invalidation<String>, network: NetworkAck)
        ensures
            final(self)@ == old(self)@.after_invalidation(step@, network),
    {
        match step {
            Invalidation::Key(key) => {
                self.delete(key.as_str(), network);
            },
            Invalidation::Pattern(pattern) => {
                self.delete_pattern(pattern.as_str(), network);
            },
            Invalidation::Everything => {
                self.clear_all(network);
            },
        }
    }
}

/// The plan for a whole entity class: one sweep with the pattern of the
/// class.
pub open spec fn class_plan(class: EntityClass) -> Seq<Invalidation<Seq<char>>> {
    seq![Invalidation::Pattern(class.pattern())]
}

/// The plan for the metrics of one corridor: the one key that holds them.
pub open spec fn corridor_metrics_plan(corridor_key: Seq<char>) -> Seq<Invalidation<Seq<char>>> {
    seq![Invalidation::Key((CacheQuery::CorridorMetrics { corridor_key }).key())]
}

/// The plan for one anchor: the keys of its data, its details and its
/// assets, in this order.
pub open spec fn anchor_plan(anchor_id: Seq<char>) -> Seq<Invalidation<Seq<char>>> {
    seq![
        Invalidation::Key((CacheQuery::AnchorData { anchor_id }).key()),
        Invalidation::Key((CacheQuery::AnchorDetail { anchor_id }).key()),
        Invalidation::Key((CacheQuery::AnchorAssets { anchor_id }).key()),
    ]
}

/// The plan for a full refresh: everything goes.
pub open spec fn everything_plan() -> Seq<Invalidation<Seq<char>>> {
    seq![Invalidation::Everything]
}

/// Maps what happened to the data to what has to leave the cache. It keeps
/// nothing: every plan follows from the event alone.
#[derive(Debug)]
pub struct CacheInvalidationService;

impl CacheInvalidationService {
    /// The service.
    pub fn new() -> Self {
        CacheInvalidationService
    }

    /// Every corridor key.
    pub fn invalidate_corridors(&self) -> (plan: Vec<Invalidation<String>>)
        ensures
            steps(plan@) == class_plan(EntityClass::Corridor),
    {
        let mut plan: Vec<Invalidation<String>> = Vec::new();
        plan.push(Invalidation::Pattern(CacheKey::corridor_pattern()));
        plan
    }

    /// Every anchor key.
    pub fn invalidate_anchors(&self) -> (plan: Vec<Invalidation<String>>)
        ensures
            steps(plan@) == class_plan(EntityClass::Anchor),
    {
        let mut plan: Vec<Invalidation<String>> = Vec::new();
        plan.push(Invalidation::Pattern(CacheKey::anchor_pattern()));
        plan
    }

    /// Every dashboard key.
    pub fn invalidate_dashboard(&self) -> (plan: Vec<Invalidation<String>>)
        ensures
            steps(plan@) == class_plan(EntityClass::Dashboard),
    {
        let mut plan: Vec<Invalidation<String>> = Vec::new();
        plan.push(Invalidation::Pattern(CacheKey::dashboard_pattern()));
        plan
    }

    /// The metrics of one corridor.
    pub fn invalidate_corridor_metrics(&self, corridor_key: &str) -> (plan: Vec<
        Invalidation<String>,
    >)
        ensures
            steps(plan@) == corridor_metrics_plan(corridor_key@),
    {
        let mut plan: Vec<Invalidation<String>> = Vec::new();
        plan.push(Invalidation::Key(CacheKey::corridor_metrics(corridor_key)));
        plan
    }

    /// All that is cached of one anchor: its data, its details, its assets.
    pub fn invalidate_anchor(&self, anchor_id: &str) -> (plan: Vec<Invalidation<String>>)
        ensures
            steps(plan@) == anchor_plan(anchor_id@),
    {
        let mut plan: Vec<Invalidation<String>> = Vec::new();
        plan.push(Invalidation::Key(CacheKey::anchor_data(anchor_id)));
        plan.push(Invalidation::Key(CacheKey::anchor_detail(anchor_id)));
        plan.push(Invalidation::Key(CacheKey::anchor_assets(anchor_id)));
        plan
    }

    /// Everything.
    pub fn invalidate_all(&self) -> (plan: Vec<Invalidation<String>>)
        ensures
            steps(plan@) == everything_plan(),
    {
        let mut plan: Vec<Invalidation<String>> = Vec::new();
        plan.push(Invalidation::Everything);
        plan
    }

    /// New metrics were ingested: corridors and dashboard go.
    pub fn on_metrics_ingestion_complete(&self) -> (plan: Vec<Invalidation<String>>)
        ensures
            steps(plan@) == class_plan(EntityClass::Corridor) + class_plan(EntityClass::Dashboard),
    {
        let mut plan = self.invalidate_corridors();
        let mut rest = self.invalidate_dashboard();
        plan.append(&mut rest);
        assert(steps(plan@) =~= class_plan(EntityClass::Corridor) + class_plan(
            EntityClass::Dashboard,
        ));
        plan
    }

    /// The metrics of one anchor changed: the anchor and the dashboard go.
    pub fn on_anchor_metrics_updated(&self, anchor_id: &str) -> (plan: Vec<Invalidation<String>>)
        ensures
            steps(plan@) == anchor_plan(anchor_id@) + class_plan(EntityClass::Dashboard),
    {
        let mut plan = self.invalidate_anchor(anchor_id);
        let mut rest = self.invalidate_dashboard();
        plan.append(&mut rest);
        plan
    }

    /// The metrics of one corridor changed: they and the dashboard go.
    pub fn on_corridor_metrics_updated(&self, corridor_key: &str) -> (plan: Vec<
        Invalidation<String>,
    >)
        ensures
            steps(plan@) == corridor_metrics_plan(corridor_key@) + class_plan(
                EntityClass::Dashboard,
            ),
    {
        let mut plan = self.invalidate_corridor_metrics(corridor_key);
        let mut rest = self.invalidate_dashboard();
        plan.append(&mut rest);
        assert(steps(plan@) =~= corridor_metrics_plan(corridor_key@) + class_plan(
            EntityClass::Dashboard,
        ));
        plan
    }
}

} // verus!
