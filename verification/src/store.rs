//! Where the limiter keeps each key's state: one signed 64-bit value per
//! key, held until its time to live has run out.

use vstd::prelude::*;
use vstd::hash_map::StringHashMap;
use crate::clock::is_reading;
use crate::clock::now;
use crate::duration::Duration;

verus! {

/// What `get` hands back where no value is held for the key. It can
/// therefore not be told from a value of -1 that is held.
pub const ABSENT: i64 = -1;

/// A store of one value per key. `get` hands back the value that is held
/// for a key, or `ABSENT` where none is held or the one held has lapsed; `set`
/// holds a value for a key from now until `ttl` has passed. What an
/// implementation reads and writes it states itself, as `reads` and
/// `writes`: the limiter promises its callers no more of a store than these.
pub trait StoreI {
    /// Whether `get(key)` may hand back `val` in this state. A store that
    /// does not say hands back any value.
    open spec fn reads(&self, key: Seq<char>, val: i64) -> bool {
        true
    }

    /// Whether `set(key, val, ttl)` may lead from this state to `next`. A
    /// store that does not say may end in any state.
    open spec fn writes(&self, next: &Self, key: Seq<char>, val: i64, ttl: Duration) -> bool {
        true
    }

    /// The value that is held for `key`, or `ABSENT`.
    fn get(&self, key: &str) -> (val: i64)
        ensures
            self.reads(key@, val),
    ;

    /// Holds `val` for `key`, in place of what was held for it, until `ttl`
    /// has passed.
    fn set(&mut self, key: String, val: i64, ttl: Duration)
        ensures
            old(self).writes(final(self), key@, val, ttl),
    ;
}

/// What a store in memory hands back for `key` at the instant `now`: the
/// value held for the key if its expiry is still to come, else `ABSENT`.
pub open spec fn lookup(entries: Map<Seq<char>, (i64, i128)>, key: Seq<char>, now: int) -> i64 {
    if entries.contains_key(key) && entries[key].1 > now {
        entries[key].0
    } else {
        ABSENT
    }
}

/// A store in memory. Its view maps each key that was ever set to the value
/// last set for it and the instant at which that value lapses, in
/// nanoseconds since the epoch.
pub struct Store {
    data: StringHashMap<(i64, i128)>,
}

impl View for Store {
    type V = Map<Seq<char>, (i64, i128)>;

    closed spec fn view(&self) -> Map<Seq<char>, (i64, i128)> {
        self.data@
    }
}

impl Store {
    /// A store that holds nothing.
    pub fn new() -> (s: Self)
        ensures
            s@ == Map::<Seq<char>, (i64, i128)>::empty(),
    {
        Store { data: StringHashMap::new() }
    }

    /// What `get` hands back when the clock shows `now`.
    pub fn get_at(&self, key: &str, now: i128) -> (val: i64)
        ensures
            val == lookup(self@, key@, now as int),
    {
        match self.data.get(key) {
            None => ABSENT,
            Some(v) => {
                if v.1 <= now {
                    ABSENT
                } else {
                    v.0
                }
            },
        }
    }

    /// What `set` does when the clock shows `now`: the key holds `val`
    /// until the instant `now + ttl`, which must fit in 128 bits.
    pub fn set_at(&mut self, key: String, val: i64, ttl: Duration, now: i128)
        requires
            i128::MIN <= now + ttl@ <= i128::MAX,
        ensures
            final(self)@ == old(self)@.insert(key@, (val, (now + ttl@) as i128)),
    {
        let expired: i128 = now + ttl.nanos as i128;
        self.data.insert(key, (val, expired));
    }
}

/// What was written is read back until it lapses: once `val` is held for
/// `key` with the expiry `expiry`, the key reads as `val` at every instant
/// before `expiry` and as `ABSENT` from then on, and every other key reads as
/// it did before.
pub proof fn written_value_is_read_back(
    entries: Map<Seq<char>, (i64, i128)>,
    key: Seq<char>,
    val: i64,
    expiry: i128,
    other: Seq<char>,
    now: int,
)
    ensures
        lookup(entries.insert(key, (val, expiry)), key, now) == if now < expiry {
            val
        } else {
            ABSENT
        },
        other != key ==> lookup(entries.insert(key, (val, expiry)), other, now) == lookup(
            entries,
            other,
            now,
        ),
{
}

/// A key for which a store in memory holds nothing reads as `ABSENT`, and
/// any key reads as `ABSENT` or as the value that is held for it.
pub proof fn key_reads_as_held(store: Store, key: Seq<char>, val: i64)
    requires
        store.reads(key, val),
    ensures
        val == ABSENT || (store@.contains_key(key) && val == store@[key].0),
        !store@.contains_key(key) ==> val == ABSENT,
{
}

impl StoreI for Store {
    /// `val` is what `lookup` gives at some reading of the clock.
    open spec fn reads(&self, key: Seq<char>, val: i64) -> bool {
        exists|now: int| #[trigger] is_reading(now) && val == lookup(self@, key, now)
    }

    /// `next` holds `val` for `key` until `ttl` after some reading of the
    /// clock, and is otherwise as this state.
    open spec fn writes(&self, next: &Self, key: Seq<char>, val: i64, ttl: Duration) -> bool {
        exists|now: int| #[trigger]
            is_reading(now) && next@ == self@.insert(key, (val, (now + ttl@) as i128))
    }

    fn get(&self, key: &str) -> (val: i64) {
        let now = now();
        self.get_at(key, now)
    }

    fn set(&mut self, key: String, val: i64, ttl: Duration) {
        let now = now();
        self.set_at(key, val, ttl, now);
    }
}

/// A store behind a mutable reference is a store: it reads and writes as
/// the store that it refers to.
impl<S: StoreI> StoreI for &mut S {
    open spec fn reads(&self, key: Seq<char>, val: i64) -> bool {
        (**self).reads(key, val)
    }

    open spec fn writes(&self, next: &Self, key: Seq<char>, val: i64, ttl: Duration) -> bool {
        (**self).writes(&**next, key, val, ttl)
    }

    fn get(&self, key: &str) -> (val: i64) {
        (**self).get(key)
    }

    fn set(&mut self, key: String, val: i64, ttl: Duration) {
        (**self).set(key, val, ttl)
    }
}

} // verus!
