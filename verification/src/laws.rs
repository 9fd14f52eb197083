//! The guarantees the counter gives across whole histories of operations,
//! proved over the same model the operations' contracts are stated in. The
//! transport layer may run requests concurrently, but it serializes them on
//! the cache (one lock around the whole mapping), so a burst of concurrent
//! increments reaches the cache as some sequence of single increments; the
//! lemmas here speak of every such sequence.

use crate::counter::{
    bump_value, bumped, cached_lookup, count_of, read_result, read_state, ReadError, StoreReply,
};
use vstd::prelude::*;

verus! {

/// The cache state after a sequence of increments, each for the token that
/// names it, applied in order.
pub open spec fn apply_increments(m: Map<Seq<char>, u64>, ops: Seq<Seq<char>>) -> Map<
    Seq<char>,
    u64,
>
    decreases ops.len(),
{
    if ops.len() == 0 {
        m
    } else {
        bumped(apply_increments(m, ops.drop_last()), ops.last())
    }
}

/// How many of the increments in `ops` name the token `t`.
pub open spec fn occurrences(ops: Seq<Seq<char>>, t: Seq<char>) -> nat
    decreases ops.len(),
{
    if ops.len() == 0 {
        0
    } else {
        occurrences(ops.drop_last(), t) + (if ops.last() == t {
            1nat
        } else {
            0nat
        })
    }
}

/// No update is ever lost: a run of increments — however many tokens it
/// mixes, and whatever order the serialization gave it — raises `t`'s count
/// by exactly the number of increments that named `t`, and `t` is recorded
/// afterwards exactly when it was before or was incremented at least once.
/// The bound keeps the count below the point where it would saturate.
pub proof fn lemma_increments_accumulate(m: Map<Seq<char>, u64>, ops: Seq<Seq<char>>, t: Seq<char>)
    requires
        count_of(m, t) + occurrences(ops, t) <= u64::MAX,
    ensures
        count_of(apply_increments(m, ops), t) == count_of(m, t) + occurrences(ops, t),
        apply_increments(m, ops).contains_key(t) <==> (m.contains_key(t) || occurrences(ops, t)
            > 0),
    decreases ops.len(),
{
    if ops.len() > 0 {
        lemma_increments_accumulate(m, ops.drop_last(), t);
    }
}

/// Tokens are independent: increments that never name `t` leave `t`'s entry —
/// its presence and its count — exactly as it was.
pub proof fn lemma_distinct_tokens_independent(
    m: Map<Seq<char>, u64>,
    ops: Seq<Seq<char>>,
    t: Seq<char>,
)
    requires
        occurrences(ops, t) == 0,
    ensures
        cached_lookup(apply_increments(m, ops), t) == cached_lookup(m, t),
{
    lemma_increments_accumulate(m, ops, t);
}

/// Incrementing a fresh token `n` times in a row and then reading it yields
/// exactly `n`, straight from the cache.
pub proof fn lemma_sequential_increments_read(m: Map<Seq<char>, u64>, t: Seq<char>, n: nat)
    requires
        !m.contains_key(t),
        n <= u64::MAX,
    ensures
        count_of(apply_increments(m, Seq::new(n, |i: int| t)), t) == n,
        n > 0 ==> cached_lookup(apply_increments(m, Seq::new(n, |i: int| t)), t) == Some(n as u64),
{
    lemma_occurrences_repeat(t, n);
    lemma_increments_accumulate(m, Seq::new(n, |i: int| t), t);
}

proof fn lemma_occurrences_repeat(t: Seq<char>, n: nat)
    ensures
        occurrences(Seq::new(n, |i: int| t), t) == n,
    decreases n,
{
    if n > 0 {
        lemma_occurrences_repeat(t, (n - 1) as nat);
        assert(Seq::new(n, |i: int| t).drop_last() =~= Seq::new((n - 1) as nat, |i: int| t));
    }
}

/// A token never seen reads as zero: the cache misses, and when the store has
/// no record either, the read succeeds with zero rather than failing or
/// reporting absence.
pub proof fn lemma_unseen_read_is_zero(m: Map<Seq<char>, u64>, t: Seq<char>)
    requires
        !m.contains_key(t),
    ensures
        cached_lookup(m, t) is None,
        read_result(m, t, StoreReply::Missing) == Ok::<u64, ReadError>(0),
{
}

/// A store record primes the cache: reading a fresh token when the store
/// holds `v` returns `v`, and afterwards the cache answers `v` by itself, so
/// no further read of `t` needs the store.
pub proof fn lemma_miss_primes_cache(m: Map<Seq<char>, u64>, t: Seq<char>, v: u64)
    requires
        !m.contains_key(t),
    ensures
        read_result(m, t, StoreReply::Found(v)) == Ok::<u64, ReadError>(v),
        cached_lookup(read_state(m, t, StoreReply::Found(v)), t) == Some(v),
{
}

/// A store failure is an error, never a zero: when a fresh token's lookup
/// fails in transit, the read reports it as such, and the cache is left
/// untouched, so nothing wrong is remembered.
pub proof fn lemma_store_error_propagates(m: Map<Seq<char>, u64>, t: Seq<char>)
    requires
        !m.contains_key(t),
    ensures
        read_result(m, t, StoreReply::Unavailable) == Err::<u64, ReadError>(
            ReadError::StoreUnavailable,
        ),
        read_state(m, t, StoreReply::Unavailable) == m,
{
}

} // verus!
