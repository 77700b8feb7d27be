//! The part of a pattern deletion that runs on the network tier.
//!
//! The network tier lists the keys that a pattern stands for, and each is
//! then deleted on its own. A sweep hands the listed keys out one by one
//! and takes the answer to each. A delete that failed is counted and
//! passed over: every listed key is tried once, none twice.

use super::redis_cache::NetworkAck;
use vstd::prelude::*;

verus! {

/// A sweep as a value of the model: the listed keys, how many of them were
/// tried, and how many of those the network tier deleted.
pub struct SweepProgress {
    pub listed: Seq<Seq<char>>,
    pub tried: nat,
    pub deleted: nat,
}

impl SweepProgress {
    /// Whether every listed key was tried.
    pub open spec fn done(self) -> bool {
        self.tried >= self.listed.len()
    }

    /// The progress after the answer to the key that is up.
    pub open spec fn recorded(self, succeeded: bool) -> SweepProgress {
        if self.done() {
            self
        } else {
            SweepProgress {
                tried: self.tried + 1,
                deleted: if succeeded {
                    self.deleted + 1
                } else {
                    self.deleted
                },
                ..self
            }
        }
    }
}

/// A sweep in progress.
pub struct NetworkSweep {
    listed: Vec<String>,
    tried: usize,
    deleted: usize,
}

impl View for NetworkSweep {
    type V = SweepProgress;

    closed spec fn view(&self) -> SweepProgress {
        SweepProgress {
            listed: self.listed@.map_values(|key: String| key@),
            tried: self.tried as nat,
            deleted: self.deleted as nat,
        }
    }
}

impl NetworkSweep {
    #[verifier::type_invariant]
    spec fn well_formed(self) -> bool {
        self.deleted <= self.tried <= self.listed@.len()
    }

    /// A sweep over the keys that the network tier listed.
    pub fn new(listed: Vec<String>) -> (sweep: Self)
        ensures
            sweep@ == (SweepProgress {
                listed: listed@.map_values(|key: String| key@),
                tried: 0,
                deleted: 0,
            }),
    {
        NetworkSweep { listed, tried: 0, deleted: 0 }
    }

    /// The key to delete next, or `None` once every key was tried.
    pub fn next_key(&self) -> (key: Option<&String>)
        ensures
            match key {
                Some(key) => !self@.done() && key@ == self@.listed[self@.tried as int],
                None => self@.done(),
            },
    {
        proof {
            use_type_invariant(self);
        }
        if self.tried < self.listed.len() {
            Some(&self.listed[self.tried])
        } else {
            None
        }
    }

    /// Takes the answer to the delete of the key that `next_key` handed
    /// out. Once every key was tried there is nothing to answer, and the
    /// sweep stays as it is.
    pub fn record(&mut self, succeeded: bool)
        ensures
            final(self)@ == old(self)@.recorded(succeeded),
    {
        proof {
            use_type_invariant(&*self);
        }
        if self.tried < self.listed.len() {
            self.tried = self.tried + 1;
            if succeeded {
                self.deleted = self.deleted + 1;
            }
        }
    }

    /// How many keys the network tier deleted so far.
    pub fn deleted(&self) -> (deleted: usize)
        ensures
            deleted == self@.deleted,
    {
        self.deleted
    }

    /// What the sweep amounts to for the store. That the listing came is
    /// what counts: deletes that failed are passed over, not held against
    /// the sweep.
    pub fn outcome(&self) -> (network: NetworkAck)
        ensures
            network == NetworkAck::Succeeded,
    {
        NetworkAck::Succeeded
    }

    /// How many deletes failed so far.
    pub fn failed(&self) -> (failed: usize)
        ensures
            failed == self@.tried - self@.deleted,
    {
        proof {
            use_type_invariant(self);
        }
        self.tried - self.deleted
    }
}

/// The progress after a row of answers, each to the key that was up.
pub open spec fn swept(progress: SweepProgress, answers: Seq<bool>) -> SweepProgress
    decreases answers.len(),
{
    if answers.len() == 0 {
        progress
    } else {
        swept(progress, answers.drop_last()).recorded(answers.last())
    }
}

/// A sweep tries every listed key once, in the order of the listing,
/// however many of the deletes fail: after as many answers as keys were
/// listed it is done, and it has counted the deletes that succeeded.
pub proof fn lemma_sweep_tries_every_key(listed: Seq<Seq<char>>, answers: Seq<bool>)
    requires
        answers.len() <= listed.len(),
    ensures
        swept(SweepProgress { listed, tried: 0, deleted: 0 }, answers).listed == listed,
        swept(SweepProgress { listed, tried: 0, deleted: 0 }, answers).tried == answers.len(),
        swept(SweepProgress { listed, tried: 0, deleted: 0 }, answers).deleted == answers.filter(
            |answer: bool| answer,
        ).len(),
        answers.len() == listed.len() ==> swept(
            SweepProgress { listed, tried: 0, deleted: 0 },
            answers,
        ).done(),
    decreases answers.len(),
{
    let succeeded = |answer: bool| answer;
    if answers.len() > 0 {
        lemma_sweep_tries_every_key(listed, answers.drop_last());
        assert(answers == answers.drop_last().push(answers.last()));
        answers.drop_last().lemma_filter_len_push(succeeded, answers.last());
    } else {
        assert(answers.filter(succeeded).len() == 0) by {
            answers.lemma_filter_len(succeeded);
        }
    }
}

} // verus!
