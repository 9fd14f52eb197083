use download_counter::counter::{CounterCache, ReadError, StoreReply};
use download_counter::format::format_count;

#[test]
fn unseen_token_reads_zero() {
    let mut cache = CounterCache::new();
    assert_eq!(cache.read_cached("never-seen"), None);
    assert_eq!(cache.read_fallback("never-seen", StoreReply::Missing), Ok(0));
    // the zero is now cached, so a later read needs no store lookup
    assert_eq!(cache.read_cached("never-seen"), Some(0));
}

#[test]
fn sequential_increments_then_read() {
    let mut cache = CounterCache::new();
    for i in 1..=5u64 {
        assert_eq!(cache.increment("token"), i);
    }
    assert_eq!(cache.read_cached("token"), Some(5));
}

#[test]
fn many_increments_lose_nothing() {
    let mut cache = CounterCache::new();
    let mut last = 0;
    for _ in 0..1000 {
        last = cache.increment("busy");
    }
    assert_eq!(last, 1000);
    assert_eq!(cache.read_cached("busy"), Some(1000));
}

#[test]
fn distinct_tokens_are_independent() {
    let mut cache = CounterCache::new();
    cache.increment("a");
    cache.increment("b");
    cache.increment("a");
    cache.increment("b");
    cache.increment("a");
    assert_eq!(cache.read_cached("a"), Some(3));
    assert_eq!(cache.read_cached("b"), Some(2));
}

#[test]
fn store_record_primes_cache() {
    let mut cache = CounterCache::new();
    assert_eq!(cache.read_cached("primed"), None);
    assert_eq!(cache.read_fallback("primed", StoreReply::Found(7)), Ok(7));
    // cached now: answered without the store, and a stale reply cannot win
    assert_eq!(cache.read_cached("primed"), Some(7));
    assert_eq!(
        cache.read_fallback("primed", StoreReply::Unavailable),
        Ok(7)
    );
}

#[test]
fn store_error_is_not_a_zero() {
    let mut cache = CounterCache::new();
    assert_eq!(
        cache.read_fallback("flaky", StoreReply::Unavailable),
        Err(ReadError::StoreUnavailable)
    );
    // nothing was recorded, so the store is asked again and can answer
    assert_eq!(cache.read_cached("flaky"), None);
    assert_eq!(cache.read_fallback("flaky", StoreReply::Found(3)), Ok(3));
    assert_eq!(cache.read_cached("flaky"), Some(3));
}

#[test]
fn increment_wins_over_store() {
    let mut cache = CounterCache::new();
    // once a token was incremented, a read never consults the store
    assert_eq!(cache.increment("seen"), 1);
    assert_eq!(cache.read_cached("seen"), Some(1));
    assert_eq!(cache.read_fallback("seen", StoreReply::Found(99)), Ok(1));
    assert_eq!(cache.read_cached("seen"), Some(1));
}

#[test]
fn count_saturates_at_max() {
    let mut cache = CounterCache::new();
    assert_eq!(
        cache.read_fallback("huge", StoreReply::Found(u64::MAX)),
        Ok(u64::MAX)
    );
    assert_eq!(cache.increment("huge"), u64::MAX);
    assert_eq!(cache.read_cached("huge"), Some(u64::MAX));
}

#[test]
fn empty_token_is_a_valid_key() {
    let mut cache = CounterCache::new();
    assert_eq!(cache.increment(""), 1);
    assert_eq!(cache.read_cached(""), Some(1));
    assert_eq!(cache.read_cached("nonempty"), None);
}

#[test]
fn scenario_two_downloads_then_reads() {
    let mut cache = CounterCache::new();
    let first = cache.increment("abc");
    assert_eq!(format_count(first), "1");
    let second = cache.increment("abc");
    assert_eq!(format_count(second), "2");
    let read_abc = cache.read_cached("abc").unwrap();
    assert_eq!(format_count(read_abc), "2");
    assert_eq!(cache.read_cached("xyz"), None);
    let read_xyz = cache.read_fallback("xyz", StoreReply::Missing).unwrap();
    assert_eq!(format_count(read_xyz), "0");
}

#[test]
fn decimal_text_is_exact() {
    assert_eq!(format_count(0), "0");
    assert_eq!(format_count(9), "9");
    assert_eq!(format_count(10), "10");
    assert_eq!(format_count(100), "100");
    assert_eq!(format_count(12345), "12345");
    assert_eq!(format_count(u64::MAX), "18446744073709551615");
}
