//! The two-tier store: a shared network tier first, a local tier behind it.
//!
//! The store does no I/O. Whoever drives it talks to the network tier,
//! with the handle that the store keeps, and tells the store what came
//! back: a `NetworkRead` for a lookup, a `NetworkAck` for everything else.
//! The store then decides what the caller gets, what the local tier holds
//! afterwards, and what is counted. A failed call never changes the handle:
//! only `reconnect` does.
//!
//! Payloads are text to the store. A lookup takes the decoder of the caller
//! and runs it on the payload it comes upon, so that the store knows how
//! the lookup ended before it counts: a decoded payload is a hit, no
//! payload is a miss, and a payload that cannot be decoded is the caller's
//! error and neither. A read from the network tier that failed is an error
//! on top, and so is a write that failed; a removal that failed is not.

use super::memory_cache::{expiry, without_matching, CachedValue, Entry, MemoryCache};
use super::metrics::{CacheMetrics, CacheMetricsSummary, Counters};
use vstd::prelude::*;
use vstd::string::*;

verus! {

/// Where the network tier is looked for when nothing else is configured.
pub const DEFAULT_REDIS_URL: &'static str = "redis://127.0.0.1:6379";

/// What the network tier said to a lookup.
#[derive(Debug, PartialEq, Eq)]
pub enum NetworkRead<P> {
    /// There was no handle, so nothing was asked.
    NotAttempted,
    /// The network tier holds this payload under the key.
    Found(P),
    /// The network tier holds nothing under the key.
    NotFound,
    /// The call failed.
    Failed,
}

impl View for NetworkRead<String> {
    type V = NetworkRead<Seq<char>>;

    open spec fn view(&self) -> NetworkRead<Seq<char>> {
        match self {
            NetworkRead::NotAttempted => NetworkRead::NotAttempted,
            NetworkRead::Found(payload) => NetworkRead::Found(payload@),
            NetworkRead::NotFound => NetworkRead::NotFound,
            NetworkRead::Failed => NetworkRead::Failed,
        }
    }
}

impl<P> NetworkRead<P> {
    /// The payload that the network tier served, if it served one.
    pub open spec fn found(self) -> Option<P> {
        match self {
            NetworkRead::Found(payload) => Some(payload),
            _ => None,
        }
    }

    /// Whether the network tier was asked and the call failed. That it
    /// holds nothing under the key is no failure, nor that it was not
    /// asked.
    pub open spec fn failed(self) -> bool {
        self is Failed
    }
}

/// What the network tier said to a write, a delete, a sweep or a flush.
#[derive(Clone, Copy, Debug, PartialEq, Eq, Structural)]
pub enum NetworkAck {
    /// There was no handle, so nothing was asked.
    NotAttempted,
    /// The network tier did what it was asked.
    Succeeded,
    /// The call failed.
    Failed,
}

/// The tier that took a value.
#[derive(Clone, Copy, Debug, PartialEq, Eq, Structural)]
pub enum Tier {
    Network,
    Local,
}

impl NetworkAck {
    /// The tier that holds a value after a write that the network tier
    /// answered with this: the network tier where it took the value, the
    /// local tier in every other case.
    pub open spec fn holder(self) -> Tier {
        if self == NetworkAck::Succeeded {
            Tier::Network
        } else {
            Tier::Local
        }
    }
}

/// The outcome of a lookup, and the tier that served it.
#[derive(Debug, PartialEq, Eq)]
pub enum CacheLookup<P> {
    ServedByNetwork(P),
    ServedByLocal(P),
    Absent,
}

impl View for CacheLookup<String> {
    type V = CacheLookup<Seq<char>>;

    open spec fn view(&self) -> CacheLookup<Seq<char>> {
        match self {
            CacheLookup::ServedByNetwork(payload) => CacheLookup::ServedByNetwork(payload@),
            CacheLookup::ServedByLocal(payload) => CacheLookup::ServedByLocal(payload@),
            CacheLookup::Absent => CacheLookup::Absent,
        }
    }
}

impl<P> CacheLookup<P> {
    /// The payload that was served, if any.
    pub open spec fn served(self) -> Option<P> {
        match self {
            CacheLookup::ServedByNetwork(payload) => Some(payload),
            CacheLookup::ServedByLocal(payload) => Some(payload),
            CacheLookup::Absent => None,
        }
    }

    /// The payload that was served, if any.
    pub fn payload(self) -> (payload: Option<P>)
        ensures
            payload == self.served(),
    {
        match self {
            CacheLookup::ServedByNetwork(payload) => Some(payload),
            CacheLookup::ServedByLocal(payload) => Some(payload),
            CacheLookup::Absent => None,
        }
    }

    /// The same outcome from the same tier, with `value` in place of what
    /// was served.
    pub open spec fn carrying<T>(self, value: T) -> CacheLookup<T> {
        match self {
            CacheLookup::ServedByNetwork(_) => CacheLookup::ServedByNetwork(value),
            CacheLookup::ServedByLocal(_) => CacheLookup::ServedByLocal(value),
            CacheLookup::Absent => CacheLookup::Absent,
        }
    }
}

/// Whether `decoder`, handed a payload that reads `text`, may give `result`.
pub open spec fn decodes_to<T, E, F: FnOnce(String) -> Result<T, E>>(
    decoder: F,
    text: Seq<char>,
    result: Result<T, E>,
) -> bool {
    exists|payload: String| payload@ == text && call_ensures(decoder, (payload,), result)
}

/// The store as a value of the model: the handle, the counts, and what the
/// local tier holds.
pub struct CacheState<C> {
    pub connection: Option<C>,
    pub metrics: Counters,
    pub local: Map<Seq<char>, Entry>,
}

impl<C> CacheState<C> {
    /// Whether the local tier holds an entry for `key` that counts at `now`.
    pub open spec fn local_live(self, key: Seq<char>, now: nat) -> bool {
        self.local.contains_key(key) && self.local[key].live_at(now)
    }

    /// The payload that a lookup of `key` at `now` comes upon, and the tier
    /// that holds it, when the network tier said `network`. A payload from
    /// the network tier is final; the local tier is asked only without
    /// one, and an expired entry there counts as none.
    pub open spec fn lookup(
        self,
        key: Seq<char>,
        network: NetworkRead<Seq<char>>,
        now: nat,
    ) -> CacheLookup<Seq<char>> {
        match network.found() {
            Some(payload) => CacheLookup::ServedByNetwork(payload),
            None => if self.local_live(key, now) {
                CacheLookup::ServedByLocal(self.local[key].payload)
            } else {
                CacheLookup::Absent
            },
        }
    }

    /// The counts once the answer of the network tier to a lookup is taken
    /// in: a call that failed is one more error.
    pub open spec fn read_counted(self, network: NetworkRead<Seq<char>>) -> Counters {
        if network.failed() {
            self.metrics.error()
        } else {
            self.metrics
        }
    }

    /// The store after that lookup; `decoded` says whether the payload it
    /// came upon could be decoded. A failed call to the network tier is
    /// counted first. Then a payload that was decoded is a hit, and nothing
    /// else changes. A payload that could not be decoded is neither a hit
    /// nor a miss, and stays where it is. Where there is no payload, a miss
    /// is counted, and whatever the local tier still had under the key is
    /// gone.
    pub open spec fn after_get(
        self,
        key: Seq<char>,
        network: NetworkRead<Seq<char>>,
        now: nat,
        decoded: bool,
    ) -> Self {
        match self.lookup(key, network, now) {
            CacheLookup::Absent => CacheState {
                metrics: self.read_counted(network).miss(),
                local: self.local.remove(key),
                ..self
            },
            _ => CacheState {
                metrics: if decoded {
                    self.read_counted(network).hit()
                } else {
                    self.read_counted(network)
                },
                ..self
            },
        }
    }

    /// The store after a `set`. Where the network tier took the value,
    /// nothing changes here. Otherwise the local tier takes it, to expire
    /// `ttl_secs` seconds after `now`, and a failed call is counted as an
    /// error.
    pub open spec fn after_set(
        self,
        key: Seq<char>,
        payload: Seq<char>,
        ttl_secs: nat,
        network: NetworkAck,
        now: nat,
    ) -> Self {
        let stored = self.local.insert(key, Entry { payload, expires_at: expiry(now, ttl_secs) });
        match network {
            NetworkAck::Succeeded => self,
            NetworkAck::Failed => CacheState {
                metrics: self.metrics.error(),
                local: stored,
                ..self
            },
            NetworkAck::NotAttempted => CacheState { local: stored, ..self },
        }
    }

    /// The counts after a removal that the network tier answered with
    /// `network`: one more invalidation where it succeeded.
    pub open spec fn removal_counted(self, network: NetworkAck) -> Counters {
        if network == NetworkAck::Succeeded {
            self.metrics.invalidation()
        } else {
            self.metrics
        }
    }

    /// The store after a `delete`: the local tier has lost the key.
    pub open spec fn after_delete(self, key: Seq<char>, network: NetworkAck) -> Self {
        CacheState {
            metrics: self.removal_counted(network),
            local: self.local.remove(key),
            ..self
        }
    }

    /// The store after a `delete_pattern`: the local tier has lost every
    /// key that the pattern stands for, and no other.
    pub open spec fn after_delete_pattern(self, pattern: Seq<char>, network: NetworkAck) -> Self {
        CacheState {
            metrics: self.removal_counted(network),
            local: without_matching(self.local, pattern),
            ..self
        }
    }

    /// The store after a `clear_all`: the local tier is empty.
    pub open spec fn after_clear_all(self, network: NetworkAck) -> Self {
        CacheState { metrics: self.removal_counted(network), local: Map::empty(), ..self }
    }
}

/// The address of the network tier: the configured one, or the default.
pub fn redis_url(configured: Option<String>) -> (url: String)
    ensures
        url@ == (match configured {
            Some(address) => address@,
            None => DEFAULT_REDIS_URL@,
        }),
{
    match configured {
        Some(address) => address,
        None => String::from_str(DEFAULT_REDIS_URL),
    }
}

/// The two-tier store. `C` is the handle to the network tier; the store
/// keeps it and never looks inside.
pub struct RedisCache<C> {
    redis_connection: Option<C>,
    metrics: CacheMetrics,
    memory_cache: MemoryCache,
}

impl<C> View for RedisCache<C> {
    type V = CacheState<C>;

    closed spec fn view(&self) -> CacheState<C> {
        CacheState {
            connection: self.redis_connection,
            metrics: self.metrics@,
            local: self.memory_cache@,
        }
    }
}

impl<C> RedisCache<C> {
    /// A fresh store, from the outcome of the first attempt to reach the
    /// network tier. A failed attempt is no error: the store then works on
    /// the local tier alone.
    pub fn new<E>(attempt: Result<C, E>) -> (cache: Self)
        ensures
            cache@.connection == (match attempt {
                Ok(connection) => Some(connection),
                Err(_) => None,
            }),
            cache@.metrics == Counters::zero(),
            cache@.local == Map::<Seq<char>, Entry>::empty(),
    {
        let redis_connection = match attempt {
            Ok(connection) => Some(connection),
            Err(_) => None,
        };
        RedisCache { redis_connection, metrics: CacheMetrics::new(), memory_cache: MemoryCache::new() }
    }

    /// What the local tier serves for `key` at `now`: a copy of the payload
    /// of an entry that still counts.
    fn local_lookup(&self, key: &str, now: u64) -> (lookup: CacheLookup<String>)
        ensures
            lookup@ == self@.lookup(key@, NetworkRead::NotFound, now as nat),
    {
        match self.memory_cache.get(key) {
            Some(cached) => if cached.is_live(now) {
                CacheLookup::ServedByLocal(cached.data.clone())
            } else {
                CacheLookup::Absent
            },
            None => CacheLookup::Absent,
        }
    }

    /// Looks `key` up, given what the network tier said, and decodes the
    /// payload it comes upon with the decoder of the caller.
    ///
    /// A lookup is a hit only once its payload is decoded: the value then
    /// comes back with the tier that served it. A payload that cannot be
    /// decoded is the decoder's error, never a miss; it is not counted and
    /// stays stored. Without a payload the lookup is a miss, the decoder is
    /// not called, and an expired entry under the key is removed. A call
    /// to the network tier that failed is counted as an error in each case.
    pub fn get<T, E, F: FnOnce(String) -> Result<T, E>>(
        &mut self,
        key: &str,
        network: NetworkRead<String>,
        now: u64,
        decoder: F,
    ) -> (outcome: Result<CacheLookup<T>, E>)
        requires
            forall|payload: String|
                old(self)@.lookup(key@, network@, now as nat).served() == Some(payload@)
                    ==> #[trigger] call_requires(decoder, (payload,)),
        ensures
            ({
                let found = old(self)@.lookup(key@, network@, now as nat);
                match outcome {
                    Ok(lookup) => {
                        &&& final(self)@ == old(self)@.after_get(key@, network@, now as nat, true)
                        &&& match lookup.served() {
                            Some(value) => {
                                &&& found.served() matches Some(text)
                                &&& decodes_to(decoder, text, Ok::<T, E>(value))
                                &&& lookup == found.carrying(value)
                            },
                            None => found == CacheLookup::<Seq<char>>::Absent,
                        }
                    },
                    Err(error) => {
                        &&& final(self)@ == old(self)@.after_get(key@, network@, now as nat, false)
                        &&& found.served() matches Some(text)
                        &&& decodes_to(decoder, text, Err::<T, E>(error))
                    },
                }
            }),
    {
        let found = match network {
            NetworkRead::Found(payload) => CacheLookup::ServedByNetwork(payload),
            NetworkRead::Failed => {
                self.metrics.record_error();
                self.local_lookup(key, now)
            },
            _ => self.local_lookup(key, now),
        };
        match found {
            CacheLookup::ServedByNetwork(payload) => {
                let ghost text = payload@;
                match decoder(payload) {
                    Ok(value) => {
                        self.metrics.record_hit();
                        assert(decodes_to(decoder, text, Ok::<T, E>(value)));
                        Ok(CacheLookup::ServedByNetwork(value))
                    },
                    Err(error) => {
                        assert(decodes_to(decoder, text, Err::<T, E>(error)));
                        Err(error)
                    },
                }
            },
            CacheLookup::ServedByLocal(payload) => {
                let ghost text = payload@;
                match decoder(payload) {
                    Ok(value) => {
                        self.metrics.record_hit();
                        assert(decodes_to(decoder, text, Ok::<T, E>(value)));
                        Ok(CacheLookup::ServedByLocal(value))
                    },
                    Err(error) => {
                        assert(decodes_to(decoder, text, Err::<T, E>(error)));
                        Err(error)
                    },
                }
            },
            CacheLookup::Absent => {
                self.memory_cache.remove(key);
                self.metrics.record_miss();
                Ok(CacheLookup::Absent)
            },
        }
    }

    /// Stores `payload` under `key` for `ttl_secs` seconds, given what the
    /// network tier said to the write, and returns the tier that holds it.
    pub fn set(
        &mut self,
        key: &str,
        payload: String,
        ttl_secs: usize,
        network: NetworkAck,
        now: u64,
    ) -> (tier: Tier)
        ensures
            tier == network.holder(),
            final(self)@ == old(self)@.after_set(
                key@,
                payload@,
                ttl_secs as nat,
                network,
                now as nat,
            ),
    {
        match network {
            NetworkAck::Succeeded => {
                return Tier::Network;
            },
            NetworkAck::Failed => {
                self.metrics.record_error();
            },
            NetworkAck::NotAttempted => {},
        }
        self.memory_cache.insert(key, CachedValue::new(payload, now, ttl_secs));
        Tier::Local
    }

    /// Counts a removal that the network tier carried out.
    fn count_removal(&mut self, network: NetworkAck)
        ensures
            final(self)@ == (CacheState { metrics: old(self)@.removal_counted(network), ..old(self)@ }),
    {
        match network {
            NetworkAck::Succeeded => {
                self.metrics.record_invalidation();
            },
            _ => {},
        }
    }

    /// Deletes `key`, given what the network tier said to the delete.
    pub fn delete(&mut self, key: &str, network: NetworkAck)
        ensures
            final(self)@ == old(self)@.after_delete(key@, network),
    {
        self.count_removal(network);
        self.memory_cache.remove(key);
    }

    /// Deletes every key that `pattern` stands for, given what the network
    /// tier said to the sweep, and returns how many the local tier lost.
    pub fn delete_pattern(&mut self, pattern: &str, network: NetworkAck) -> (removed: usize)
        ensures
            final(self)@ == old(self)@.after_delete_pattern(pattern@, network),
            old(self)@.local.dom().finite(),
            removed == old(self)@.local.len() - final(self)@.local.len(),
    {
        self.count_removal(network);
        self.memory_cache.remove_matching(pattern)
    }

    /// Deletes everything, given what the network tier said to the flush.
    pub fn clear_all(&mut self, network: NetworkAck)
        ensures
            final(self)@ == old(self)@.after_clear_all(network),
    {
        self.count_removal(network);
        self.memory_cache.clear();
    }

    /// The counts as they stand, and the hit rate.
    pub fn metrics(&self) -> (summary: CacheMetricsSummary)
        ensures
            summary.shows(self@.metrics),
    {
        self.metrics.summary()
    }

    /// Whether the store has a handle to the network tier. A handle that
    /// no longer works still counts, until `reconnect` replaces it.
    pub fn is_redis_connected(&self) -> (connected: bool)
        ensures
            connected == self@.connection.is_some(),
    {
        self.redis_connection.is_some()
    }

    /// The handle to the network tier, if there is one.
    pub fn connection(&self) -> (handle: Option<&C>)
        ensures
            match handle {
                Some(connection) => self@.connection == Some(*connection),
                None => self@.connection.is_none(),
            },
    {
        self.redis_connection.as_ref()
    }

    /// The local tier, to look into.
    pub fn memory_cache(&self) -> (local: &MemoryCache)
        ensures
            local@ == self@.local,
    {
        &self.memory_cache
    }

    /// Takes the outcome of an attempt to reach the network tier anew. A
    /// new handle replaces the old one. A failed attempt is handed back and
    /// leaves the store as it was.
    pub fn reconnect<E>(&mut self, attempt: Result<C, E>) -> (outcome: Result<(), E>)
        ensures
            match attempt {
                Ok(connection) => outcome.is_ok() && final(self)@ == (CacheState {
                    connection: Some(connection),
                    ..old(self)@
                }),
                Err(error) => outcome == Err::<(), E>(error) && final(self)@ == old(self)@,
            },
    {
        match attempt {
            Ok(connection) => {
                self.redis_connection = Some(connection);
                Ok(())
            },
            Err(error) => Err(error),
        }
    }
}

} // verus!
