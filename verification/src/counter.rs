//! The in-process counter cache: a mapping from token to count, grown lazily
//! on first increment or on the first read that had to consult the backing
//! store. Entries are never removed; increments never write through to the
//! store, so the cached count is the authority for this process once present.

use vstd::hash_map::StringHashMap;
use vstd::prelude::*;

verus! {

/// The outcome of one backing-store lookup, as the caller that performed it
/// reports it: a record with its value, no record at all (which the cache
/// collapses to zero), or a transport failure, which is kept distinct from a
/// missing record and never mistaken for a zero count.
#[derive(Clone, Copy, Debug, PartialEq, Eq, Structural)]
pub enum StoreReply {
    Found(u64),
    Missing,
    Unavailable,
}

/// The one failure a read can signal: the backing store could not be reached
/// (or the query itself failed in transit) while the token was not yet cached.
/// Increments never fail.
#[derive(Clone, Copy, Debug, PartialEq, Eq, Structural)]
pub enum ReadError {
    StoreUnavailable,
}

/// The count recorded for token `t`, a token never recorded counting as zero.
pub open spec fn count_of(m: Map<Seq<char>, u64>, t: Seq<char>) -> u64 {
    if m.contains_key(t) {
        m[t]
    } else {
        0
    }
}

/// One step of a counter: counts grow by one and saturate at `u64::MAX`
/// rather than wrap or fail.
pub open spec fn bump_value(c: u64) -> u64 {
    if c < u64::MAX {
        (c + 1) as u64
    } else {
        c
    }
}

/// The cache state after incrementing token `t` once.
pub open spec fn bumped(m: Map<Seq<char>, u64>, t: Seq<char>) -> Map<Seq<char>, u64> {
    m.insert(t, bump_value(count_of(m, t)))
}

/// What a cache lookup for token `t` yields: the recorded count, or nothing
/// when the token was never recorded.
pub open spec fn cached_lookup(m: Map<Seq<char>, u64>, t: Seq<char>) -> Option<u64> {
    if m.contains_key(t) {
        Some(m[t])
    } else {
        None
    }
}

/// The value a read returns when the store answered `reply`: the cached count
/// when one exists (the reply is then irrelevant), else the store's value,
/// with a missing record collapsing to zero and a transport failure
/// propagating as an error.
pub open spec fn read_result(m: Map<Seq<char>, u64>, t: Seq<char>, reply: StoreReply) -> Result<
    u64,
    ReadError,
> {
    if m.contains_key(t) {
        Ok(m[t])
    } else {
        match reply {
            StoreReply::Found(v) => Ok(v),
            StoreReply::Missing => Ok(0),
            StoreReply::Unavailable => Err(ReadError::StoreUnavailable),
        }
    }
}

/// The cache state after that same read: the value obtained from the store
/// (zero included) is recorded on a miss; a transport failure records
/// nothing, so a later read asks the store again.
pub open spec fn read_state(m: Map<Seq<char>, u64>, t: Seq<char>, reply: StoreReply) -> Map<
    Seq<char>,
    u64,
> {
    if m.contains_key(t) {
        m
    } else {
        match reply {
            StoreReply::Found(v) => m.insert(t, v),
            StoreReply::Missing => m.insert(t, 0),
            StoreReply::Unavailable => m,
        }
    }
}

/// The counter cache. One value of it serves a whole process; callers that
/// run requests concurrently serialize access to it (a single lock over the
/// whole value suffices), since each operation is a read-modify-write.
pub struct CounterCache {
    counts: StringHashMap<u64>,
}

impl View for CounterCache {
    type V = Map<Seq<char>, u64>;

    closed spec fn view(&self) -> Map<Seq<char>, u64> {
        self.counts@
    }
}

impl CounterCache {
    /// An empty cache: no token has been seen by this process yet.
    pub fn new() -> (c: Self)
        ensures
            c@ == Map::<Seq<char>, u64>::empty(),
    {
        CounterCache { counts: StringHashMap::new() }
    }

    /// Increment the count held for `token`, treating an absent entry as
    /// zero, and return the post-increment count. Saturates at `u64::MAX`.
    /// Never consults the backing store.
    pub fn increment(&mut self, token: &str) -> (n: u64)
        ensures
            final(self)@ == bumped(old(self)@, token@),
            n == bump_value(count_of(old(self)@, token@)),
    {
        let current: u64 = match self.counts.get(token) {
            Some(c) => *c,
            None => 0,
        };
        let next: u64 = if current < u64::MAX {
            current + 1
        } else {
            current
        };
        self.counts.insert(token.to_owned(), next);
        next
    }

    /// The count cached for `token`, or `None` when this process has not yet
    /// seen it — the caller must then ask the backing store and hand the
    /// reply to `read_fallback`. Never consults the backing store itself.
    pub fn read_cached(&self, token: &str) -> (r: Option<u64>)
        ensures
            r == cached_lookup(self@, token@),
    {
        match self.counts.get(token) {
            Some(c) => Some(*c),
            None => None,
        }
    }

    /// Finish a read for which the backing store was consulted and answered
    /// `reply`. A count cached meanwhile wins over the reply; otherwise the
    /// store's value — zero for a missing record — is cached and returned,
    /// and a transport failure propagates without touching the cache.
    pub fn read_fallback(&mut self, token: &str, reply: StoreReply) -> (r: Result<u64, ReadError>)
        ensures
            r == read_result(old(self)@, token@, reply),
            final(self)@ == read_state(old(self)@, token@, reply),
    {
        match self.read_cached(token) {
            Some(c) => Ok(c),
            None => match reply {
                StoreReply::Found(v) => {
                    self.counts.insert(token.to_owned(), v);
                    Ok(v)
                },
                StoreReply::Missing => {
                    self.counts.insert(token.to_owned(), 0);
                    Ok(0)
                },
                StoreReply::Unavailable => Err(ReadError::StoreUnavailable),
            },
        }
    }
}

} // verus!
