//! What holds of the two-tier store, whatever it holds and whatever the
//! network tier says.
//!
//! The first laws speak of the store alone and hold for every answer of the
//! network tier. The later ones put a network tier beside the store that is
//! either absent or answers faithfully, and speak of both together.

use super::memory_cache::{expiry, without_matching, Entry};
use super::pattern::pattern_matches;
use super::redis_cache::{CacheLookup, CacheState, NetworkAck, NetworkRead, Tier};
use vstd::prelude::*;

verus! {

/// A payload that the network tier serves is the one that is decoded,
/// whatever the local tier holds, and the local tier stays as it is.
pub proof fn lemma_network_is_final<C>(
    state: CacheState<C>,
    key: Seq<char>,
    payload: Seq<char>,
    now: nat,
    decoded: bool,
)
    ensures
        state.lookup(key, NetworkRead::Found(payload), now) == CacheLookup::ServedByNetwork(
            payload,
        ),
        state.after_get(key, NetworkRead::Found(payload), now, decoded).local == state.local,
{
}

/// A `set` leaves the value in one tier only. Where the network tier took
/// it, the local tier is untouched; where it did not, the local tier holds
/// it, with its expiry, and has changed under no other key.
pub proof fn lemma_set_fills_one_tier<C>(
    state: CacheState<C>,
    key: Seq<char>,
    payload: Seq<char>,
    ttl_secs: nat,
    network: NetworkAck,
    now: nat,
)
    ensures
        network.holder() == Tier::Network ==> state.after_set(
            key,
            payload,
            ttl_secs,
            network,
            now,
        ).local == state.local,
        network.holder() == Tier::Local ==> state.after_set(
            key,
            payload,
            ttl_secs,
            network,
            now,
        ).local == state.local.insert(key, Entry { payload, expires_at: expiry(now, ttl_secs) }),
        state.after_set(key, payload, ttl_secs, network, now).metrics.errors == (if network
            == NetworkAck::Failed {
            state.metrics.error().errors
        } else {
            state.metrics.errors
        }),
{
}

/// What the local tier took at `now` for `ttl_secs` seconds, it serves at
/// every instant before the expiry, as long as the network tier serves
/// nothing for the key.
pub proof fn lemma_set_then_get_locally<C>(
    state: CacheState<C>,
    key: Seq<char>,
    payload: Seq<char>,
    ttl_secs: nat,
    network: NetworkAck,
    now: nat,
    read: NetworkRead<Seq<char>>,
    later: nat,
)
    requires
        network != NetworkAck::Succeeded,
        read.found().is_none(),
        later < expiry(now, ttl_secs),
    ensures
        state.after_set(key, payload, ttl_secs, network, now).lookup(key, read, later)
            == CacheLookup::ServedByLocal(payload),
{
}

/// With a time to live of at least a second, the instant of the `set`
/// itself lies before the expiry.
pub proof fn lemma_positive_ttl_outlives_now(now: nat, ttl_secs: nat)
    requires
        ttl_secs > 0,
    ensures
        now < expiry(now, ttl_secs),
{
    assert(ttl_secs * 1_000_000_000 >= 1_000_000_000) by (nonlinear_arith)
        requires
            ttl_secs > 0,
    ;
}

/// After a `delete`, whatever the network tier said to it, a lookup that
/// the network tier does not serve finds nothing, and finds under every
/// other key what it found before.
pub proof fn lemma_delete_then_get<C>(
    state: CacheState<C>,
    key: Seq<char>,
    network: NetworkAck,
    read: NetworkRead<Seq<char>>,
    now: nat,
)
    requires
        read.found().is_none(),
    ensures
        state.after_delete(key, network).lookup(key, read, now) == CacheLookup::<
            Seq<char>,
        >::Absent,
        forall|other: Seq<char>|
            other != key ==> #[trigger] state.after_delete(key, network).lookup(other, read, now)
                == state.lookup(other, read, now),
{
}

/// An entry that has expired is served to nobody, and the lookup that finds
/// it expired takes it out of the local tier and is a miss.
pub proof fn lemma_lazy_expiry<C>(
    state: CacheState<C>,
    key: Seq<char>,
    read: NetworkRead<Seq<char>>,
    now: nat,
    decoded: bool,
)
    requires
        read.found().is_none(),
        state.local.contains_key(key),
        state.local[key].expires_at <= now,
    ensures
        state.lookup(key, read, now) == CacheLookup::<Seq<char>>::Absent,
        !state.after_get(key, read, now, decoded).local.contains_key(key),
        state.after_get(key, read, now, decoded).metrics == state.read_counted(read).miss(),
{
}

/// A lookup touches no key but its own.
pub proof fn lemma_get_keeps_other_keys<C>(
    state: CacheState<C>,
    key: Seq<char>,
    read: NetworkRead<Seq<char>>,
    now: nat,
    decoded: bool,
    other: Seq<char>,
)
    requires
        other != key,
    ensures
        state.after_get(key, read, now, decoded).local.contains_key(other)
            == state.local.contains_key(other),
        state.after_get(key, read, now, decoded).local.contains_key(other) ==> state.after_get(
            key,
            read,
            now,
            decoded,
        ).local[other] == state.local[other],
{
}

/// What a lookup counts. A payload that was decoded is one hit and no
/// miss. Where there is no payload, it is one miss and no hit. A payload
/// that could not be decoded is neither, and the local tier stays as it is.
/// In each case the errors are one up where the call to the network tier
/// failed, and only there.
pub proof fn lemma_get_counts<C>(
    state: CacheState<C>,
    key: Seq<char>,
    read: NetworkRead<Seq<char>>,
    now: nat,
    decoded: bool,
)
    ensures
        ({
            let found = state.lookup(key, read, now);
            let before = state.metrics;
            let after = state.after_get(key, read, now, decoded).metrics;
            &&& found.served().is_some() && decoded ==> after.hits == before.hit().hits
                && after.misses == before.misses
            &&& found.served().is_some() && !decoded ==> after.hits == before.hits && after.misses
                == before.misses && state.after_get(key, read, now, decoded).local == state.local
            &&& found.served().is_none() ==> after.hits == before.hits && after.misses
                == before.miss().misses
            &&& read.failed() ==> after.errors == before.error().errors
            &&& !read.failed() ==> after.errors == before.errors
            &&& after.invalidations == before.invalidations
        }),
{
}

/// A `delete_pattern` takes from the local tier every key that the pattern
/// stands for, and no other, whatever the network tier said to it.
pub proof fn lemma_delete_pattern_is_exact<C>(
    state: CacheState<C>,
    pattern: Seq<char>,
    network: NetworkAck,
    key: Seq<char>,
)
    ensures
        state.after_delete_pattern(pattern, network).local.contains_key(key) == (
        state.local.contains_key(key) && !pattern_matches(pattern, key)),
        state.after_delete_pattern(pattern, network).local.contains_key(key) ==> state.after_delete_pattern(
            pattern,
            network,
        ).local[key] == state.local[key],
{
}

/// No operation on the store but `reconnect` changes the handle: a call
/// that failed leaves the store connected.
pub proof fn lemma_only_reconnect_changes_the_handle<C>(
    state: CacheState<C>,
    key: Seq<char>,
    pattern: Seq<char>,
    payload: Seq<char>,
    read: NetworkRead<Seq<char>>,
    decoded: bool,
    ttl_secs: nat,
    network: NetworkAck,
    now: nat,
)
    ensures
        state.after_get(key, read, now, decoded).connection == state.connection,
        state.after_set(key, payload, ttl_secs, network, now).connection == state.connection,
        state.after_delete(key, network).connection == state.connection,
        state.after_delete_pattern(pattern, network).connection == state.connection,
        state.after_clear_all(network).connection == state.connection,
{
}

/// A store together with its network tier. `network` is what the network
/// tier holds; it is `None` where there is no network tier. A network tier
/// that is there answers faithfully: it keeps what it is given until the
/// expiry, serves what it keeps, and removes what it is told to remove.
pub struct Deployment<C> {
    pub cache: CacheState<C>,
    pub network: Option<Map<Seq<char>, Entry>>,
}

impl<C> Deployment<C> {
    /// What the network tier says to a lookup of `key` at `now`.
    pub open spec fn network_read(self, key: Seq<char>, now: nat) -> NetworkRead<Seq<char>> {
        match self.network {
            Some(held) => if held.contains_key(key) && held[key].live_at(now) {
                NetworkRead::Found(held[key].payload)
            } else {
                NetworkRead::NotFound
            },
            None => NetworkRead::NotAttempted,
        }
    }

    /// What the network tier says to a write or a removal.
    pub open spec fn network_ack(self) -> NetworkAck {
        if self.network.is_some() {
            NetworkAck::Succeeded
        } else {
            NetworkAck::NotAttempted
        }
    }

    /// Both tiers after a `set`.
    pub open spec fn set(self, key: Seq<char>, payload: Seq<char>, ttl_secs: nat, now: nat) -> Self {
        Deployment {
            cache: self.cache.after_set(key, payload, ttl_secs, self.network_ack(), now),
            network: match self.network {
                Some(held) => Some(
                    held.insert(key, Entry { payload, expires_at: expiry(now, ttl_secs) }),
                ),
                None => None,
            },
        }
    }

    /// The payload that a `get` hands to the decoder, and the tier it
    /// comes from.
    pub open spec fn get(self, key: Seq<char>, now: nat) -> CacheLookup<Seq<char>> {
        self.cache.lookup(key, self.network_read(key, now), now)
    }

    /// Both tiers after a `get`; `decoded` says whether the payload could
    /// be decoded.
    pub open spec fn after_get(self, key: Seq<char>, now: nat, decoded: bool) -> Self {
        Deployment {
            cache: self.cache.after_get(key, self.network_read(key, now), now, decoded),
            network: self.network,
        }
    }

    /// Both tiers after a `delete`.
    pub open spec fn delete(self, key: Seq<char>) -> Self {
        Deployment {
            cache: self.cache.after_delete(key, self.network_ack()),
            network: match self.network {
                Some(held) => Some(held.remove(key)),
                None => None,
            },
        }
    }

    /// Both tiers after a `delete_pattern`.
    pub open spec fn delete_pattern(self, pattern: Seq<char>) -> Self {
        Deployment {
            cache: self.cache.after_delete_pattern(pattern, self.network_ack()),
            network: match self.network {
                Some(held) => Some(without_matching(held, pattern)),
                None => None,
            },
        }
    }

    /// Both tiers after a `clear_all`.
    pub open spec fn clear_all(self) -> Self {
        Deployment {
            cache: self.cache.after_clear_all(self.network_ack()),
            network: match self.network {
                Some(held) => Some(Map::empty()),
                None => None,
            },
        }
    }
}

/// What was set with a time to live of at least a second is what a `get`
/// of the same key hands to the decoder right away, and at every instant
/// before the expiry, with a network tier and without one.
pub proof fn lemma_set_then_get<C>(
    deployment: Deployment<C>,
    key: Seq<char>,
    payload: Seq<char>,
    ttl_secs: nat,
    now: nat,
    later: nat,
)
    requires
        ttl_secs > 0,
        now <= later < expiry(now, ttl_secs),
    ensures
        deployment.set(key, payload, ttl_secs, now).get(key, now).served() == Some(payload),
        deployment.set(key, payload, ttl_secs, now).get(key, later).served() == Some(payload),
{
    lemma_positive_ttl_outlives_now(now, ttl_secs);
}

/// Without a network tier, what was set comes back from the local tier.
pub proof fn lemma_fallback_round_trip<C>(
    deployment: Deployment<C>,
    key: Seq<char>,
    payload: Seq<char>,
    ttl_secs: nat,
    now: nat,
)
    requires
        deployment.network.is_none(),
        ttl_secs > 0,
    ensures
        deployment.set(key, payload, ttl_secs, now).get(key, now) == CacheLookup::ServedByLocal(
            payload,
        ),
{
    lemma_positive_ttl_outlives_now(now, ttl_secs);
}

/// After a `delete` of a key, a `get` of it finds nothing, with a network
/// tier and without one.
pub proof fn lemma_delete_then_get_absent<C>(deployment: Deployment<C>, key: Seq<char>, now: nat)
    ensures
        deployment.delete(key).get(key, now) == CacheLookup::<Seq<char>>::Absent,
{
}

/// After a `delete_pattern`, a `get` finds nothing under a key that the
/// pattern stands for, and under any other key what it found before.
pub proof fn lemma_delete_pattern_then_get<C>(
    deployment: Deployment<C>,
    pattern: Seq<char>,
    key: Seq<char>,
    now: nat,
)
    ensures
        pattern_matches(pattern, key) ==> deployment.delete_pattern(pattern).get(key, now)
            == CacheLookup::<Seq<char>>::Absent,
        !pattern_matches(pattern, key) ==> deployment.delete_pattern(pattern).get(key, now)
            == deployment.get(key, now),
{
}

/// After a `clear_all`, a `get` finds nothing.
pub proof fn lemma_clear_all_then_get<C>(deployment: Deployment<C>, key: Seq<char>, now: nat)
    ensures
        deployment.clear_all().get(key, now) == CacheLookup::<Seq<char>>::Absent,
{
}

} // verus!
