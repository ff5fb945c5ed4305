//! Key to value cache in which every entry shares one time to live.
//!
//! The map never removes an entry and never looks at the clock when it hands
//! out a payload. Staleness is a separate question with two answers: the
//! age-only check [`CacheMap::should_retain`], and [`Entry::is_fresh`], which
//! also refuses a slot that was never populated.
//!
//! The clock is the one thing here that the verifier cannot see. Every
//! function that reads it has a twin that takes the age as an argument and is
//! specified exactly; the clock-reading function promises that its answer is
//! the twin's answer at some age.
//!
//! What is promised of lookups and inserts is promised for key types whose
//! hashing and equality behave, which is what `obeys_key_model` says of a
//! type. The primitive types do.

use std::collections::HashMap;
use std::hash::Hash;
use std::time::Duration;
use std::time::Instant;
use vstd::prelude::*;
use vstd::std_specs::hash::obeys_key_model;

verus! {

broadcast use vstd::std_specs::hash::group_hash_axioms;

/// `std::time::Instant`: a reading of the monotonic clock, carried through
/// unread.
#[verifier::external_type_specification]
#[verifier::external_body]
pub struct ExInstant(std::time::Instant);

/// `Instant::now`: the reading of the monotonic clock at the moment of the call.
/// Nothing is claimed of the value.
pub assume_specification[ std::time::Instant::now ]() -> (now: Instant);

/// `Instant::elapsed`: the time that has passed since `start` was read.
/// Nothing is claimed of the value.
pub assume_specification[ std::time::Instant::elapsed ](start: &Instant) -> (passed: Duration);

/// `Clone` of `Instant`, a `Copy` type: the clone is the same reading.
pub assume_specification[ <std::time::Instant as Clone>::clone ](start: &Instant) -> (same:
    Instant)
    ensures
        same == *start,
;

/// `Duration::as_secs`: the whole seconds in `span`. Nothing is claimed of the value.
pub assume_specification[ std::time::Duration::as_secs ](span: &Duration) -> (secs: u64);

/// Whether an age in seconds lies inside a time to live: strictly below it.
pub open spec fn within_ttl(age: u64, ttl: u64) -> bool {
    age < ttl
}

/// Decides whether a slot of the given age is still inside its time to live.
pub fn age_within_ttl(age: u64, ttl: u64) -> (r: bool)
    ensures
        r == within_ttl(age, ttl),
{
    age < ttl
}

/// One cached slot: the payload, the moment it was stored, and whether the
/// slot is a placeholder that no insert has filled yet.
#[derive(Clone)]
pub struct CacheValue<T> {
    pub value: Option<T>,
    timestamp: Instant,
    first_run: bool,
}

/// The map itself: slots by key, and the time to live in seconds that all of
/// them share. The time to live is fixed when the map is made.
pub struct CacheMap<K, V> {
    values: HashMap<K, CacheValue<V>>,
    ttl: u64,
}

/// Read-only look at one slot together with the map that owns it.
pub struct Entry<'a, K, V> {
    pub value: &'a CacheValue<V>,
    container: &'a CacheMap<K, V>,
}

impl<T> CacheValue<T> {
    /// The payload held in the field `value`.
    pub closed spec fn payload(&self) -> Option<T> {
        self.value
    }

    /// True of a placeholder: a slot that was default-constructed and never
    /// populated.
    pub closed spec fn first_run(&self) -> bool {
        self.first_run
    }

    /// Freshness of this slot at a given age: it was populated, and the age is
    /// strictly below the time to live.
    pub open spec fn fresh_at(&self, age: u64, ttl: u64) -> bool {
        !self.first_run() && within_ttl(age, ttl)
    }

    /// The payload, where the slot holds one.
    pub fn as_ref(&self) -> (value: Option<&T>)
        ensures
            match value {
                Some(v) => self.payload() == Some(*v),
                None => self.payload() is None,
            },
    {
        self.value.as_ref()
    }

    /// Gives up the payload.
    pub fn into_value(self) -> (value: Option<T>)
        ensures
            value == self.payload(),
    {
        self.value
    }

    /// Whole seconds since the slot was created, read from the clock now.
    pub fn age(&self) -> (secs: u64) {
        let passed = self.timestamp.elapsed();
        passed.as_secs()
    }

    /// Freshness at an age the caller supplies.
    pub fn is_fresh_at(&self, age: u64, ttl: u64) -> (r: bool)
        ensures
            r == self.fresh_at(age, ttl),
    {
        !self.first_run && age_within_ttl(age, ttl)
    }

    /// Freshness at the slot's current age. The answer is that of
    /// [`CacheValue::is_fresh_at`] for whatever age the clock gives, so a
    /// placeholder is never fresh and nothing is fresh under a zero time to live.
    pub fn is_fresh(&self, ttl: u64) -> (r: bool)
        ensures
            exists|age: u64| r == #[trigger] self.fresh_at(age, ttl),
            r ==> !self.first_run() && ttl > 0,
    {
        let age = self.age();
        let r = self.is_fresh_at(age, ttl);
        assert(r == self.fresh_at(age, ttl));
        r
    }
}

impl<T> Default for CacheValue<T> {
    /// The placeholder slot: no payload, created now, never populated.
    fn default() -> (slot: Self)
        ensures
            slot.payload() is None,
            slot.first_run(),
    {
        Self { value: None, timestamp: Instant::now(), first_run: true }
    }
}

impl<T> From<Option<T>> for CacheValue<T> {
    /// A populated slot created now. The payload itself may be absent: what
    /// counts is that the slot was filled on purpose.
    fn from(value: Option<T>) -> (slot: Self)
        ensures
            slot.payload() == value,
            !slot.first_run(),
    {
        Self { value, timestamp: Instant::now(), first_run: false }
    }
}

/// The conversion reads the clock, so no spec function gives its result.
impl<T> vstd::std_specs::convert::FromSpecImpl<Option<T>> for CacheValue<T> {
    open spec fn obeys_from_spec() -> bool {
        false
    }

    open spec fn from_spec(value: Option<T>) -> Self {
        arbitrary()
    }
}

impl<K, V> View for CacheMap<K, V> {
    type V = Map<K, CacheValue<V>>;

    closed spec fn view(&self) -> Map<K, CacheValue<V>> {
        self.values@
    }
}

impl<K, V> CacheMap<K, V> {
    /// The time to live, in seconds, that every slot of this map is held to.
    pub closed spec fn ttl(&self) -> u64 {
        self.ttl
    }

    /// The slot stored under `key`, if there is one.
    pub open spec fn spec_slot(&self, key: K) -> Option<CacheValue<V>> {
        if self@.contains_key(key) {
            Some(self@[key])
        } else {
            None
        }
    }

    /// The payload stored under `key`: absent when the key is, and when the
    /// slot holds no payload. Age plays no part.
    pub open spec fn spec_get(&self, key: K) -> Option<V> {
        match self.spec_slot(key) {
            Some(slot) => slot.payload(),
            None => None,
        }
    }

    /// The age-only check for `key` at a given age: absent when the key is,
    /// else whether the age is inside the map's time to live.
    pub open spec fn spec_should_retain(&self, key: K, age: u64) -> Option<bool> {
        match self.spec_slot(key) {
            Some(_) => Some(within_ttl(age, self.ttl())),
            None => None,
        }
    }

    /// `self` is what `pre` becomes when `value` is inserted under `key`: the
    /// time to live stays, every other key keeps its slot, and `key` gets a
    /// populated slot that holds `value`.
    pub open spec fn follows_insert(&self, pre: &Self, key: K, value: V) -> bool {
        &&& self.ttl() == pre.ttl()
        &&& self@.contains_key(key)
        &&& self@ == pre@.insert(key, self@[key])
        &&& self@[key].payload() == Some(value)
        &&& !self@[key].first_run()
    }
}

impl<K: Hash + Eq, V> CacheMap<K, V> {
    /// An empty map whose slots will live for `ttl` seconds.
    pub fn new(ttl: u64) -> (map: Self)
        ensures
            map@ == Map::<K, CacheValue<V>>::empty(),
            map.ttl() == ttl,
    {
        Self { values: HashMap::new(), ttl }
    }

    /// The age-only check at an age the caller supplies.
    pub fn should_retain_at(&self, key: &K, age: u64) -> (r: Option<bool>)
        ensures
            obeys_key_model::<K>() ==> r == self.spec_should_retain(*key, age),
    {
        match self.values.get(key) {
            Some(_) => Some(age_within_ttl(age, self.ttl)),
            None => None,
        }
    }

    /// The age-only check at the slot's current age: `None` for a key that is
    /// not in the map, else the answer of [`CacheMap::should_retain_at`] for
    /// whatever age the clock gives. Whether the slot was ever populated plays
    /// no part.
    pub fn should_retain(&self, key: &K) -> (r: Option<bool>)
        ensures
            obeys_key_model::<K>() ==> exists|age: u64|
                r == #[trigger] self.spec_should_retain(*key, age),
            obeys_key_model::<K>() ==> (r is Some <==> self@.contains_key(*key)),
            obeys_key_model::<K>() ==> (r == Some(true) ==> self.ttl() > 0),
    {
        match self.values.get(key) {
            Some(val) => {
                let age = val.age();
                let r = Some(age_within_ttl(age, self.ttl));
                assert(obeys_key_model::<K>() ==> r == self.spec_should_retain(*key, age));
                r
            },
            None => {
                assert(obeys_key_model::<K>() ==> None::<bool> == self.spec_should_retain(
                    *key,
                    0,
                ));
                None
            },
        }
    }

    /// The payload under `key`, whatever its age.
    pub fn get(&self, key: &K) -> (r: Option<&V>)
        ensures
            obeys_key_model::<K>() ==> match r {
                Some(v) => self.spec_get(*key) == Some(*v),
                None => self.spec_get(*key) is None,
            },
    {
        match self.values.get(key) {
            Some(val) => val.value.as_ref(),
            None => None,
        }
    }

    /// A look at the slot under `key`, if the key is in the map.
    pub fn entry<'a>(&'a self, key: &'a K) -> (r: Option<Entry<'a, K, V>>)
        ensures
            obeys_key_model::<K>() ==> match r {
                Some(entry) => entry.looks_at(self, *key),
                None => !self@.contains_key(*key),
            },
    {
        match self.values.get(key) {
            Some(value) => Some(Entry { value, container: self }),
            None => None,
        }
    }

    /// Stores `value` under `key` in a populated slot created now, and hands
    /// back the slot that was there before, if any. The old slot's freshness
    /// plays no part.
    pub fn insert(&mut self, key: K, value: V) -> (displaced: Option<CacheValue<V>>)
        ensures
            final(self).ttl() == old(self).ttl(),
            obeys_key_model::<K>() ==> final(self).follows_insert(old(self), key, value),
            obeys_key_model::<K>() ==> displaced == old(self).spec_slot(key),
    {
        let slot = CacheValue::from(Some(value));
        self.values.insert(key, slot)
    }
}

impl<'a, K, V> Entry<'a, K, V> {
    /// The slot that the entry looks at, the one behind the field `value`.
    pub closed spec fn slot(&self) -> CacheValue<V> {
        *self.value
    }

    /// The map that the entry was taken from.
    pub closed spec fn container(&self) -> CacheMap<K, V> {
        *self.container
    }

    /// The entry is the look at `key` in `map`: the key is there, the slot is
    /// the one stored under it, and the map is the one the entry came from.
    pub open spec fn looks_at(&self, map: &CacheMap<K, V>, key: K) -> bool {
        &&& map@.contains_key(key)
        &&& self.slot() == map@[key]
        &&& self.container() == *map
    }

    /// Freshness of the slot at a given age, under the owning map's time to live.
    pub open spec fn fresh_at(&self, age: u64) -> bool {
        self.slot().fresh_at(age, self.container().ttl())
    }

    /// The age-only check at a given age, under the owning map's time to live.
    pub open spec fn retain_at(&self, age: u64) -> bool {
        within_ttl(age, self.container().ttl())
    }

    /// The slot that the entry looks at.
    pub fn cached(&self) -> (slot: &'a CacheValue<V>)
        ensures
            *slot == self.slot(),
    {
        self.value
    }

    /// Freshness at an age the caller supplies.
    pub fn is_fresh_at(&self, age: u64) -> (r: bool)
        ensures
            r == self.fresh_at(age),
    {
        self.value.is_fresh_at(age, self.container.ttl)
    }

    /// The age-only check at an age the caller supplies.
    pub fn should_retain_at(&self, age: u64) -> (r: bool)
        ensures
            r == self.retain_at(age),
    {
        age_within_ttl(age, self.container.ttl)
    }

    /// Freshness at the slot's current age: the answer of
    /// [`Entry::is_fresh_at`] for whatever age the clock gives.
    pub fn is_fresh(&self) -> (r: bool)
        ensures
            exists|age: u64| r == #[trigger] self.fresh_at(age),
            r ==> !self.slot().first_run() && self.container().ttl() > 0,
    {
        let age = self.value.age();
        let r = self.is_fresh_at(age);
        assert(r == self.fresh_at(age));
        r
    }

    /// The age-only check at the slot's current age: the answer of
    /// [`Entry::should_retain_at`] for whatever age the clock gives.
    pub fn should_retain(&self) -> (r: bool)
        ensures
            exists|age: u64| r == #[trigger] self.retain_at(age),
            r ==> self.container().ttl() > 0,
    {
        let age = self.value.age();
        let r = self.should_retain_at(age);
        assert(r == self.retain_at(age));
        r
    }
}

/// A map without keys, which is what [`CacheMap::new`] makes, answers every
/// lookup with nothing: no payload, no age check at any age, no slot, and no
/// entry looks at any of its keys.
pub proof fn lemma_new_map_reads_none<'a, K, V>(map: CacheMap<K, V>, key: K)
    requires
        map@ == Map::<K, CacheValue<V>>::empty(),
    ensures
        map.spec_get(key) is None,
        map.spec_slot(key) is None,
        forall|age: u64| map.spec_should_retain(key, age) is None,
        forall|entry: Entry<'a, K, V>| !entry.looks_at(&map, key),
{
}

/// After `value` is inserted under `key`, the key reads back as `value`, and
/// its entry is fresh and retained at exactly the ages below the time to live.
/// At age zero, the moment of the insert, that is whenever the time to live is
/// positive.
pub proof fn lemma_insert_then_read<'a, K, V>(
    pre: CacheMap<K, V>,
    post: CacheMap<K, V>,
    key: K,
    value: V,
    entry: Entry<'a, K, V>,
)
    requires
        post.follows_insert(&pre, key, value),
        entry.looks_at(&post, key),
    ensures
        post.spec_get(key) == Some(value),
        forall|age: u64| entry.fresh_at(age) == (age < post.ttl()),
        forall|age: u64| entry.retain_at(age) == (age < post.ttl()),
        forall|age: u64| post.spec_should_retain(key, age) == Some(age < post.ttl()),
        post.ttl() > 0 ==> entry.fresh_at(0) && entry.retain_at(0),
{
}

/// An insert touches one key only: every other key reads as before.
pub proof fn lemma_insert_keeps_other_keys<K, V>(
    pre: CacheMap<K, V>,
    post: CacheMap<K, V>,
    key: K,
    value: V,
    other: K,
)
    requires
        post.follows_insert(&pre, key, value),
        other != key,
    ensures
        post.spec_slot(other) == pre.spec_slot(other),
        post.spec_get(other) == pre.spec_get(other),
        forall|age: u64| post.spec_should_retain(other, age) == pre.spec_should_retain(other, age),
{
}

/// Two inserts under one key: the slot that the second insert displaces is
/// the populated slot that wrapped the first value, and afterwards the key
/// reads back as the second value.
pub proof fn lemma_second_insert_displaces_first<K, V>(
    start: CacheMap<K, V>,
    middle: CacheMap<K, V>,
    end: CacheMap<K, V>,
    key: K,
    first: V,
    second: V,
)
    requires
        middle.follows_insert(&start, key, first),
        end.follows_insert(&middle, key, second),
    ensures
        middle.spec_slot(key) is Some,
        middle.spec_slot(key)->0.payload() == Some(first),
        !middle.spec_slot(key)->0.first_run(),
        end.spec_get(key) == Some(second),
        end@.dom() == middle@.dom(),
{
    assert(end@.dom() =~= middle@.dom());
}

/// Staleness removes nothing: once the age of an inserted slot has reached
/// the time to live, the age check fails and the entry is not fresh, while
/// the payload still reads back.
pub proof fn lemma_aged_entry_is_stale_but_readable<'a, K, V>(
    pre: CacheMap<K, V>,
    post: CacheMap<K, V>,
    key: K,
    value: V,
    entry: Entry<'a, K, V>,
    age: u64,
)
    requires
        post.follows_insert(&pre, key, value),
        entry.looks_at(&post, key),
        age >= post.ttl(),
    ensures
        post.spec_should_retain(key, age) == Some(false),
        !entry.retain_at(age),
        !entry.fresh_at(age),
        post.spec_get(key) == Some(value),
{
}

/// The comparison with the time to live is strict: at an age equal to the
/// time to live a slot is neither fresh nor retained.
pub proof fn lemma_age_equal_to_ttl_is_stale<'a, K, V>(
    slot: CacheValue<V>,
    entry: Entry<'a, K, V>,
    ttl: u64,
)
    ensures
        !within_ttl(ttl, ttl),
        !slot.fresh_at(ttl, ttl),
        !entry.fresh_at(entry.container().ttl()),
        !entry.retain_at(entry.container().ttl()),
{
}

/// A placeholder is never fresh, at any age and under any time to live, not
/// even at age zero.
pub proof fn lemma_placeholder_is_never_fresh<T>(slot: CacheValue<T>, age: u64, ttl: u64)
    requires
        slot.first_run(),
    ensures
        !slot.fresh_at(age, ttl),
        !slot.fresh_at(0, ttl),
{
}

} // verus!
