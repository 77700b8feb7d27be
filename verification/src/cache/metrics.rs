//! Counters of what the cache did: hits, misses, errors and invalidations.
//!
//! A recorder is a plain value. Whoever shares one between callers guards
//! it; a recording needs exclusive access, so none can be lost.

use vstd::prelude::*;

verus! {

/// The four counts of a recorder.
pub struct Counters {
    pub hits: nat,
    pub misses: nat,
    pub errors: nat,
    pub invalidations: nat,
}

/// A counter one step further. A counter at the top of `u64` starts again
/// at zero.
pub open spec fn bumped(n: nat) -> nat {
    if n >= u64::MAX {
        0
    } else {
        n + 1
    }
}

/// The four kinds of recording.
pub enum Recording {
    Hit,
    Miss,
    Error,
    Invalidation,
}

/// How many recordings of one kind a row of recordings holds.
pub open spec fn count_of(recordings: Seq<Recording>, kind: Recording) -> nat
    decreases recordings.len(),
{
    if recordings.len() == 0 {
        0
    } else {
        count_of(recordings.drop_last(), kind) + if recordings.last() == kind {
            1nat
        } else {
            0nat
        }
    }
}

impl Counters {
    /// A recorder that has seen nothing.
    pub open spec fn zero() -> Counters {
        Counters { hits: 0, misses: 0, errors: 0, invalidations: 0 }
    }

    /// The counts after one more hit: no other count moves.
    pub open spec fn hit(self) -> Counters {
        Counters { hits: bumped(self.hits), ..self }
    }

    /// The counts after one more miss.
    pub open spec fn miss(self) -> Counters {
        Counters { misses: bumped(self.misses), ..self }
    }

    /// The counts after one more error.
    pub open spec fn error(self) -> Counters {
        Counters { errors: bumped(self.errors), ..self }
    }

    /// The counts after one more invalidation.
    pub open spec fn invalidation(self) -> Counters {
        Counters { invalidations: bumped(self.invalidations), ..self }
    }

    /// The counts after one more recording of the given kind.
    pub open spec fn record(self, recording: Recording) -> Counters {
        match recording {
            Recording::Hit => self.hit(),
            Recording::Miss => self.miss(),
            Recording::Error => self.error(),
            Recording::Invalidation => self.invalidation(),
        }
    }

    /// The counts after a row of recordings, taken in order. Callers that
    /// record at the same time are served one after the other, in some
    /// order: that order is the row.
    pub open spec fn record_all(self, recordings: Seq<Recording>) -> Counters
        decreases recordings.len(),
    {
        if recordings.len() == 0 {
            self
        } else {
            self.record_all(recordings.drop_last()).record(recordings.last())
        }
    }

    /// All lookups counted: hits and misses together.
    pub open spec fn lookups(self) -> nat {
        self.hits + self.misses
    }

    /// The hit rate as a fraction: `.0` hits out of `.1` lookups. With no
    /// lookup yet it is zero out of one, so that the rate is zero and the
    /// fraction still has a value.
    pub open spec fn hit_fraction(self) -> (nat, nat) {
        if self.lookups() == 0 {
            (0, 1)
        } else {
            (self.hits, self.lookups())
        }
    }

    /// The hit rate in whole percent, rounded down.
    pub open spec fn hit_percent(self) -> nat {
        100 * self.hit_fraction().0 / self.hit_fraction().1
    }
}

/// A hit rate: `hits` lookups out of `out_of` were hits. The rate in
/// percent is `100 * hits / out_of`; `out_of` is never zero.
#[derive(Clone, Copy, Debug, PartialEq, Eq, Structural)]
pub struct HitRate {
    hits: u64,
    out_of: u128,
}

impl HitRate {
    #[verifier::type_invariant]
    spec fn well_formed(self) -> bool {
        0 < self.out_of && self.hits <= self.out_of
    }

    /// The fraction as a pair, hits first.
    pub closed spec fn view(self) -> (nat, nat) {
        (self.hits as nat, self.out_of as nat)
    }

    /// The number of hits.
    pub fn hits(&self) -> (hits: u64)
        ensures
            hits == self@.0,
    {
        self.hits
    }

    /// The number of lookups that the hits are a share of, at least one.
    pub fn out_of(&self) -> (out_of: u128)
        ensures
            out_of == self@.1,
            out_of > 0,
    {
        proof {
            use_type_invariant(self);
        }
        self.out_of
    }

    /// The rate in whole percent, rounded down.
    pub fn percent(&self) -> (percent: u64)
        ensures
            percent == 100 * self@.0 / self@.1,
            percent <= 100,
    {
        proof {
            use_type_invariant(self);
        }
        let scaled: u128 = 100u128 * (self.hits as u128);
        let percent: u128 = scaled / self.out_of;
        assert(percent <= 100) by (nonlinear_arith)
            requires
                percent == scaled / self.out_of,
                scaled <= 100 * self.out_of,
                self.out_of > 0,
        ;
        percent as u64
    }
}

/// A snapshot of a recorder, with the hit rate that goes with it.
#[derive(Clone, Copy, Debug, PartialEq, Eq, Structural)]
pub struct CacheMetricsSummary {
    pub hits: u64,
    pub misses: u64,
    pub errors: u64,
    pub invalidations: u64,
    pub hit_rate: HitRate,
}

impl CacheMetricsSummary {
    /// Whether the snapshot shows exactly these counts, and the hit rate
    /// that follows from them.
    pub open spec fn shows(self, counters: Counters) -> bool {
        &&& self.hits == counters.hits
        &&& self.misses == counters.misses
        &&& self.errors == counters.errors
        &&& self.invalidations == counters.invalidations
        &&& self.hit_rate@ == counters.hit_fraction()
    }
}

/// The recorder: four counters that go up by one with each recording,
/// until `reset`. A counter at the top of `u64` starts again at zero.
#[derive(Debug)]
pub struct CacheMetrics {
    hits: u64,
    misses: u64,
    errors: u64,
    invalidations: u64,
}

impl View for CacheMetrics {
    type V = Counters;

    closed spec fn view(&self) -> Counters {
        Counters {
            hits: self.hits as nat,
            misses: self.misses as nat,
            errors: self.errors as nat,
            invalidations: self.invalidations as nat,
        }
    }
}

impl CacheMetrics {
    /// A recorder with every counter at zero.
    pub fn new() -> (metrics: Self)
        ensures
            metrics@ == Counters::zero(),
    {
        CacheMetrics { hits: 0, misses: 0, errors: 0, invalidations: 0 }
    }

    /// Counts one lookup that found its value.
    pub fn record_hit(&mut self)
        ensures
            final(self)@ == old(self)@.hit(),
    {
        self.hits = self.hits.wrapping_add(1);
    }

    /// Counts one lookup that found nothing.
    pub fn record_miss(&mut self)
        ensures
            final(self)@ == old(self)@.miss(),
    {
        self.misses = self.misses.wrapping_add(1);
    }

    /// Counts one failed call to the network tier.
    pub fn record_error(&mut self)
        ensures
            final(self)@ == old(self)@.error(),
    {
        self.errors = self.errors.wrapping_add(1);
    }

    /// Counts one invalidation.
    pub fn record_invalidation(&mut self)
        ensures
            final(self)@ == old(self)@.invalidation(),
    {
        self.invalidations = self.invalidations.wrapping_add(1);
    }

    /// The number of hits counted so far.
    pub fn get_hits(&self) -> (hits: u64)
        ensures
            hits == self@.hits,
    {
        self.hits
    }

    /// The number of misses counted so far.
    pub fn get_misses(&self) -> (misses: u64)
        ensures
            misses == self@.misses,
    {
        self.misses
    }

    /// The number of errors counted so far.
    pub fn get_errors(&self) -> (errors: u64)
        ensures
            errors == self@.errors,
    {
        self.errors
    }

    /// The number of invalidations counted so far.
    pub fn get_invalidations(&self) -> (invalidations: u64)
        ensures
            invalidations == self@.invalidations,
    {
        self.invalidations
    }

    /// The share of lookups that were hits; zero while there was no lookup.
    pub fn hit_rate(&self) -> (rate: HitRate)
        ensures
            rate@ == self@.hit_fraction(),
    {
        let total: u128 = self.hits as u128 + self.misses as u128;
        if total == 0 {
            HitRate { hits: 0, out_of: 1 }
        } else {
            HitRate { hits: self.hits, out_of: total }
        }
    }

    /// The four counters as they stand, and the hit rate.
    pub fn summary(&self) -> (summary: CacheMetricsSummary)
        ensures
            summary.shows(self@),
    {
        CacheMetricsSummary {
            hits: self.get_hits(),
            misses: self.get_misses(),
            errors: self.get_errors(),
            invalidations: self.get_invalidations(),
            hit_rate: self.hit_rate(),
        }
    }

    /// Puts every counter back to zero.
    pub fn reset(&mut self)
        ensures
            final(self)@ == Counters::zero(),
    {
        self.hits = 0;
        self.misses = 0;
        self.errors = 0;
        self.invalidations = 0;
    }
}

impl Default for CacheMetrics {
    fn default() -> (metrics: Self)
        ensures
            metrics@ == Counters::zero(),
    {
        Self::new()
    }
}

/// No recording is lost, in whatever order the recordings come: each
/// counter ends as many steps higher as there were recordings of its kind,
/// as long as it stays within `u64`.
pub proof fn lemma_every_recording_counts(before: Counters, recordings: Seq<Recording>)
    requires
        before.hits + count_of(recordings, Recording::Hit) <= u64::MAX,
        before.misses + count_of(recordings, Recording::Miss) <= u64::MAX,
        before.errors + count_of(recordings, Recording::Error) <= u64::MAX,
        before.invalidations + count_of(recordings, Recording::Invalidation) <= u64::MAX,
    ensures
        before.record_all(recordings) == (Counters {
            hits: before.hits + count_of(recordings, Recording::Hit),
            misses: before.misses + count_of(recordings, Recording::Miss),
            errors: before.errors + count_of(recordings, Recording::Error),
            invalidations: before.invalidations + count_of(recordings, Recording::Invalidation),
        }),
    decreases recordings.len(),
{
    if recordings.len() > 0 {
        lemma_every_recording_counts(before, recordings.drop_last());
    }
}

/// A fresh recorder that has seen `hits` hits and `misses` misses, in any
/// order and with anything else between them, reports `hits` out of
/// `hits + misses`, that is `100 * hits / (hits + misses)` percent. With no
/// lookup at all the rate is zero.
pub proof fn lemma_hit_rate(recordings: Seq<Recording>)
    requires
        count_of(recordings, Recording::Hit) <= u64::MAX,
        count_of(recordings, Recording::Miss) <= u64::MAX,
        count_of(recordings, Recording::Error) <= u64::MAX,
        count_of(recordings, Recording::Invalidation) <= u64::MAX,
    ensures
        ({
            let hits = count_of(recordings, Recording::Hit);
            let misses = count_of(recordings, Recording::Miss);
            let counters = Counters::zero().record_all(recordings);
            &&& counters.hits == hits
            &&& counters.misses == misses
            &&& hits + misses > 0 ==> counters.hit_fraction() == (hits, hits + misses)
            &&& hits + misses > 0 ==> counters.hit_percent() == 100 * hits / (hits + misses)
            &&& hits + misses == 0 ==> counters.hit_fraction() == (0nat, 1nat)
            &&& hits + misses == 0 ==> counters.hit_percent() == 0
        }),
{
    lemma_every_recording_counts(Counters::zero(), recordings);
}

} // verus!
