//! What holds of the plans, whatever the store holds and whatever the
//! network tier says to each removal.

use super::cache_invalidation::{anchor_plan, class_plan, corridor_metrics_plan, everything_plan, Invalidation};
use crate::cache::cache_keys::{CacheQuery, EntityClass};
use crate::cache::key_laws::lemma_class_pattern;
use crate::cache::memory_cache::Entry;
use crate::cache::redis_cache::{CacheState, NetworkAck};
use vstd::prelude::*;

verus! {

/// What a removal does to the local tier does not depend on what the
/// network tier said to it, and no removal changes the handle.
pub proof fn lemma_removal_is_unconditional<C>(
    state: CacheState<C>,
    step: Invalidation<Seq<char>>,
    network: NetworkAck,
    other: NetworkAck,
)
    ensures
        state.after_invalidation(step, network).local == state.after_invalidation(
            step,
            other,
        ).local,
        state.after_invalidation(step, network).connection == state.connection,
{
}

/// A plan made of two plans does what the first does and then what the
/// second does: the second is carried out whatever became of the first.
pub proof fn lemma_plans_compose<C>(
    state: CacheState<C>,
    first: Seq<Invalidation<Seq<char>>>,
    first_network: Seq<NetworkAck>,
    second: Seq<Invalidation<Seq<char>>>,
    second_network: Seq<NetworkAck>,
)
    requires
        first.len() == first_network.len(),
        second.len() == second_network.len(),
    ensures
        state.after_plan(first + second, first_network + second_network) == state.after_plan(
            first,
            first_network,
        ).after_plan(second, second_network),
    decreases second.len(),
{
    if second.len() > 0 {
        lemma_plans_compose(
            state,
            first,
            first_network,
            second.drop_last(),
            second_network.drop_last(),
        );
        assert((first + second).drop_last() =~= first + second.drop_last());
        assert((first_network + second_network).drop_last() =~= first_network
            + second_network.drop_last());
    }
}

/// A plan of one removal does that removal.
pub proof fn lemma_plan_of_one<C>(
    state: CacheState<C>,
    step: Invalidation<Seq<char>>,
    network: NetworkAck,
)
    ensures
        state.after_plan(seq![step], seq![network]) == state.after_invalidation(step, network),
{
    let plan = seq![step];
    let answers = seq![network];
    assert(state.after_plan(plan.drop_last(), answers.drop_last()) == state);
}

/// After the plan for a class, the local tier holds no key of that class
/// any more, and every other key of a query as before.
pub proof fn lemma_class_plan<C>(
    state: CacheState<C>,
    class: EntityClass,
    network: NetworkAck,
    query: CacheQuery,
)
    ensures
        state.after_plan(class_plan(class), seq![network]).local.contains_key(query.key()) == (
        state.local.contains_key(query.key()) && query.class() != class),
        state.after_plan(class_plan(class), seq![network]).local.contains_key(query.key())
            ==> state.after_plan(class_plan(class), seq![network]).local[query.key()]
            == state.local[query.key()],
{
    lemma_plan_of_one(state, Invalidation::Pattern(class.pattern()), network);
    lemma_class_pattern(class, query);
}

/// After the plan for one anchor, the local tier has lost the three keys of
/// that anchor and nothing else.
pub proof fn lemma_anchor_plan<C>(
    state: CacheState<C>,
    anchor_id: Seq<char>,
    network: Seq<NetworkAck>,
)
    requires
        network.len() == 3,
    ensures
        state.after_plan(anchor_plan(anchor_id), network).local == state.local.remove(
            (CacheQuery::AnchorData { anchor_id }).key(),
        ).remove((CacheQuery::AnchorDetail { anchor_id }).key()).remove(
            (CacheQuery::AnchorAssets { anchor_id }).key(),
        ),
{
    let plan = anchor_plan(anchor_id);
    let two = plan.drop_last();
    let one = two.drop_last();
    let none = one.drop_last();
    let answers_two = network.drop_last();
    let answers_one = answers_two.drop_last();
    let answers_none = answers_one.drop_last();
    assert(state.after_plan(none, answers_none) == state);
    assert(state.after_plan(one, answers_one) == state.after_invalidation(
        one.last(),
        answers_one.last(),
    ));
    assert(state.after_plan(two, answers_two) == state.after_plan(
        one,
        answers_one,
    ).after_invalidation(two.last(), answers_two.last()));
}

/// After the plan for the metrics of one corridor, the local tier has lost
/// that key and nothing else.
pub proof fn lemma_corridor_metrics_plan<C>(
    state: CacheState<C>,
    corridor_key: Seq<char>,
    network: NetworkAck,
)
    ensures
        state.after_plan(corridor_metrics_plan(corridor_key), seq![network]).local
            == state.local.remove((CacheQuery::CorridorMetrics { corridor_key }).key()),
{
    lemma_plan_of_one(
        state,
        Invalidation::Key((CacheQuery::CorridorMetrics { corridor_key }).key()),
        network,
    );
}

/// After the plan for everything, the local tier is empty.
pub proof fn lemma_everything_plan<C>(state: CacheState<C>, network: NetworkAck)
    ensures
        state.after_plan(everything_plan(), seq![network]).local == Map::<
            Seq<char>,
            Entry,
        >::empty(),
{
    lemma_plan_of_one(state, Invalidation::Everything, network);
}

} // verus!
