//! The local tier: payloads kept in this process, each with the instant at
//! which it stops counting.
//!
//! Instants are nanoseconds on a clock that only moves forward and that the
//! caller reads. Nothing here sweeps: an entry stays until it is replaced,
//! removed, or found expired by a lookup. Nor is there a bound on the
//! number of entries: time is all that limits what the local tier holds.
//!
//! Lookup, insertion and removal of one key take constant time on average.
//! The entries lie in a row of slots, and an index leads from each key to
//! its slot; a slot that is taken out is filled with the last one.

use super::pattern::{matches_pattern, pattern_matches};
use vstd::hash_map::StringHashMap;
use vstd::prelude::*;
use vstd::string::*;

verus! {

/// Nanoseconds in a second.
pub const NANOS_PER_SEC: u128 = 1_000_000_000;

/// What the local tier holds for a key, as a value of the model.
pub struct Entry {
    pub payload: Seq<char>,
    pub expires_at: nat,
}

impl Entry {
    /// An entry counts as long as its expiry lies after `now`.
    pub open spec fn live_at(self, now: nat) -> bool {
        self.expires_at > now
    }
}

/// The instant at which a payload stored at `now` for `ttl_secs` seconds
/// stops counting.
pub open spec fn expiry(now: nat, ttl_secs: nat) -> nat {
    now + ttl_secs * NANOS_PER_SEC as nat
}

/// A serialized payload and the instant at which it expires.
#[derive(Debug)]
pub struct CachedValue {
    pub data: String,
    pub expires_at: u128,
}

impl View for CachedValue {
    type V = Entry;

    open spec fn view(&self) -> Entry {
        Entry { payload: self.data@, expires_at: self.expires_at as nat }
    }
}

impl CachedValue {
    /// A payload that is stored at `now` and lives for `ttl_secs` seconds.
    pub fn new(data: String, now: u64, ttl_secs: usize) -> (value: Self)
        ensures
            value@ == (Entry { payload: data@, expires_at: expiry(now as nat, ttl_secs as nat) }),
    {
        let lifetime: u128 = (ttl_secs as u128) * NANOS_PER_SEC;
        CachedValue { data, expires_at: now as u128 + lifetime }
    }

    /// Whether the payload still counts at `now`.
    pub fn is_live(&self, now: u64) -> (live: bool)
        ensures
            live == self@.live_at(now as nat),
    {
        self.expires_at > now as u128
    }
}

/// The entries of `entries` that `pattern` does not stand for.
pub open spec fn without_matching(
    entries: Map<Seq<char>, Entry>,
    pattern: Seq<char>,
) -> Map<Seq<char>, Entry> {
    Map::new(
        |key: Seq<char>| entries.contains_key(key) && !pattern_matches(pattern, key),
        |key: Seq<char>| entries[key],
    )
}

struct Slot {
    key: String,
    value: CachedValue,
}

/// Every slot is found under its key, and every indexed key has its slot.
spec fn consistent(slots: Seq<Slot>, index: Map<Seq<char>, usize>) -> bool {
    &&& forall|i: int|
        #![trigger slots[i]]
        0 <= i < slots.len() ==> index.contains_key(slots[i].key@) && index[slots[i].key@] == i
    &&& forall|key: Seq<char>| #[trigger]
        index.contains_key(key) ==> index[key] < slots.len() && slots[index[key] as int].key@
            == key
}

/// The map that slots and index stand for.
spec fn contents(slots: Seq<Slot>, index: Map<Seq<char>, usize>) -> Map<Seq<char>, Entry> {
    Map::new(
        |key: Seq<char>| index.contains_key(key),
        |key: Seq<char>| slots[index[key] as int].value@,
    )
}

/// The keys of the slots, in slot order.
spec fn slot_keys(slots: Seq<Slot>) -> Seq<Seq<char>> {
    Seq::new(slots.len(), |i: int| slots[i].key@)
}

/// There are as many keys as slots.
proof fn lemma_count(slots: Seq<Slot>, index: Map<Seq<char>, usize>)
    requires
        consistent(slots, index),
    ensures
        contents(slots, index).dom().finite(),
        contents(slots, index).len() == slots.len(),
{
    let keys = slot_keys(slots);
    assert(keys.no_duplicates());
    assert(keys.to_set() =~= contents(slots, index).dom()) by {
        assert forall|key: Seq<char>| contents(slots, index).dom().contains(key) implies keys.to_set().contains(
            key,
        ) by {
            assert(keys[index[key] as int] == key);
        }
    }
    keys.unique_seq_to_set();
    vstd::seq_lib::seq_to_set_is_finite(keys);
}

/// Stores `value` under `key`, in place of what was there.
fn put(slots: &mut Vec<Slot>, index: &mut StringHashMap<usize>, key: &str, value: CachedValue)
    requires
        consistent(old(slots)@, old(index)@),
    ensures
        consistent(final(slots)@, final(index)@),
        contents(final(slots)@, final(index)@) == contents(old(slots)@, old(index)@).insert(
            key@,
            value@,
        ),
{
    let found = match index.get(key) {
        Some(at) => Some(*at),
        None => None,
    };
    match found {
        Some(at) => {
            slots[at].value = value;
        },
        None => {
            let at = slots.len();
            index.insert(String::from_str(key), at);
            slots.push(Slot { key: String::from_str(key), value });
        },
    }
}

/// Takes the slot at `at` out. The last slot moves into its place.
fn take_at(slots: &mut Vec<Slot>, index: &mut StringHashMap<usize>, at: usize)
    requires
        consistent(old(slots)@, old(index)@),
        at < old(slots)@.len(),
    ensures
        consistent(final(slots)@, final(index)@),
        contents(final(slots)@, final(index)@) == contents(old(slots)@, old(index)@).remove(
            old(slots)@[at as int].key@,
        ),
        final(slots)@ == old(slots)@.update(at as int, old(slots)@.last()).drop_last(),
{
    let last = slots.len() - 1;
    let taken = slots.swap_remove(at);
    index.remove(taken.key.as_str());
    if at < last {
        let moved = slots[at].key.clone();
        index.insert(moved, at);
    }
    assert(contents(slots@, index@) =~= contents(old(slots)@, old(index)@).remove(
        old(slots)@[at as int].key@,
    ));
}

/// The local tier: a map from keys to payloads with their expiry.
pub struct MemoryCache {
    slots: Vec<Slot>,
    index: StringHashMap<usize>,
}

impl View for MemoryCache {
    type V = Map<Seq<char>, Entry>;

    closed spec fn view(&self) -> Map<Seq<char>, Entry> {
        contents(self.slots@, self.index@)
    }
}

impl MemoryCache {
    #[verifier::type_invariant]
    spec fn well_formed(self) -> bool {
        consistent(self.slots@, self.index@)
    }

    /// A local tier that holds nothing.
    pub fn new() -> (cache: Self)
        ensures
            cache@ == Map::<Seq<char>, Entry>::empty(),
    {
        let cache = MemoryCache { slots: Vec::new(), index: StringHashMap::new() };
        cache
    }

    /// The number of entries, expired ones included.
    pub fn len(&self) -> (count: usize)
        ensures
            self@.dom().finite(),
            count == self@.len(),
    {
        proof {
            use_type_invariant(self);
            lemma_count(self.slots@, self.index@);
        }
        self.slots.len()
    }

    /// Whether there is no entry at all.
    pub fn is_empty(&self) -> (empty: bool)
        ensures
            empty == self@.is_empty(),
    {
        proof {
            use_type_invariant(self);
            if self.slots@.len() > 0 {
                assert(self@.contains_key(self.slots@[0].key@));
            }
        }
        self.slots.len() == 0
    }

    /// Whether an entry is stored under `key`, expired or not.
    pub fn contains_key(&self, key: &str) -> (present: bool)
        ensures
            present == self@.contains_key(key@),
    {
        self.index.contains_key(key)
    }

    /// The entry stored under `key`, expired or not.
    pub fn get(&self, key: &str) -> (found: Option<&CachedValue>)
        ensures
            match found {
                Some(value) => self@.contains_key(key@) && value@ == self@[key@],
                None => !self@.contains_key(key@),
            },
    {
        proof {
            use_type_invariant(self);
        }
        match self.index.get(key) {
            Some(at) => Some(&self.slots[*at].value),
            None => None,
        }
    }

    /// Stores `value` under `key`, in place of what was there.
    pub fn insert(&mut self, key: &str, value: CachedValue)
        ensures
            final(self)@ == old(self)@.insert(key@, value@),
    {
        proof {
            use_type_invariant(&*self);
        }
        let mut taken = MemoryCache::new();
        std::mem::swap(self, &mut taken);
        let MemoryCache { mut slots, mut index } = taken;
        put(&mut slots, &mut index, key, value);
        *self = MemoryCache { slots, index };
    }

    /// Removes the entry under `key`, and says whether there was one.
    pub fn remove(&mut self, key: &str) -> (removed: bool)
        ensures
            final(self)@ == old(self)@.remove(key@),
            removed == old(self)@.contains_key(key@),
    {
        proof {
            use_type_invariant(&*self);
        }
        let found = match self.index.get(key) {
            Some(at) => Some(*at),
            None => None,
        };
        match found {
            Some(at) => {
                let mut taken = MemoryCache::new();
                std::mem::swap(self, &mut taken);
                let MemoryCache { mut slots, mut index } = taken;
                take_at(&mut slots, &mut index, at);
                *self = MemoryCache { slots, index };
                true
            },
            None => false,
        }
    }

    /// Removes every entry whose key `pattern` stands for, and returns how
    /// many there were.
    pub fn remove_matching(&mut self, pattern: &str) -> (removed: usize)
        ensures
            final(self)@ == without_matching(old(self)@, pattern@),
            old(self)@.dom().finite(),
            removed == old(self)@.len() - final(self)@.len(),
    {
        proof {
            use_type_invariant(&*self);
        }
        let mut taken = MemoryCache::new();
        std::mem::swap(self, &mut taken);
        let MemoryCache { mut slots, mut index } = taken;
        let ghost before = contents(slots@, index@);
        proof {
            lemma_count(slots@, index@);
            assert(before.len() == slots.len());
        }
        let mut removed: usize = 0;
        let mut at: usize = 0;
        while at < slots.len()
            invariant
                consistent(slots@, index@),
                at <= slots@.len(),
                removed + slots@.len() == before.len(),
                before.len() <= usize::MAX,
                forall|key: Seq<char>| #[trigger]
                    contents(slots@, index@).contains_key(key) ==> before.contains_key(key)
                        && before[key] == contents(slots@, index@)[key],
                forall|key: Seq<char>| #[trigger]
                    before.contains_key(key) && !pattern_matches(pattern@, key) ==> contents(
                        slots@,
                        index@,
                    ).contains_key(key),
                forall|i: int| 0 <= i < at ==> !pattern_matches(pattern@, #[trigger] slots@[i].key@),
            decreases slots@.len() - at,
        {
            if matches_pattern(pattern, slots[at].key.as_str()) {
                take_at(&mut slots, &mut index, at);
                removed = removed + 1;
            } else {
                at = at + 1;
            }
        }
        proof {
            lemma_count(slots@, index@);
            assert(contents(slots@, index@) =~= without_matching(before, pattern@));
        }
        *self = MemoryCache { slots, index };
        removed
    }

    /// Removes every entry.
    pub fn clear(&mut self)
        ensures
            final(self)@ == Map::<Seq<char>, Entry>::empty(),
    {
        *self = MemoryCache::new();
    }
}

} // verus!
