use crate::clock::now_nanos;
use crate::error::Error;
use crate::token_bucket::{BucketState, TokenBucket};
use dashmap::mapref::one::RefMut;
use dashmap::DashMap;
use vstd::prelude::*;

verus! {

/// dashmap's concurrent map: shards of entries, each shard under its own
/// read-write lock.
#[verifier::external_type_specification]
#[verifier::external_body]
#[verifier::reject_recursive_types(K)]
#[verifier::reject_recursive_types(V)]
#[verifier::reject_recursive_types(S)]
pub struct ExDashMap<K, V, S>(DashMap<K, V, S>);

/// A write guard on one entry of a `DashMap`; its shard stays locked until
/// the guard is dropped.
#[verifier::external_type_specification]
#[verifier::external_body]
#[verifier::reject_recursive_types(K)]
#[verifier::reject_recursive_types(V)]
pub struct ExRefMut<'a, K, V>(RefMut<'a, K, V>);

/// The client key that requests without a usable address header share: the
/// IPv4 loopback address 127.0.0.1, in its IPv4-mapped IPv6 form.
pub const DEFAULT_CLIENT_KEY: u128 = 0xffff_7f00_0001;

/// The tokens and the refill time that a guard holds.
pub uninterp spec fn held(g: RefMut<u128, (u8, u64)>) -> (u8, u64);

/// Relies on `DashMap::new`: an empty map.
#[verifier::external_body]
fn empty_buckets() -> (r: DashMap<u128, (u8, u64)>) {
    DashMap::new()
}

/// Relies on `DashMap::entry` with `Entry::or_insert`: write-locks the
/// shard of `key` and returns the guard of its entry, which holds the state
/// already stored under `key`, or `fresh`, stored there now when there was
/// none. The lock makes the lookup, the insertion and what is done through
/// the guard one step for every other caller with the same key.
#[verifier::external_body]
fn lock_bucket<'a>(map: &'a DashMap<u128, (u8, u64)>, key: u128, fresh: (u8, u64)) -> (r:
    RefMut<'a, u128, (u8, u64)>) {
    map.entry(key).or_insert(fresh)
}

/// Relies on `RefMut::value`: a copy of the state the guard holds.
#[verifier::external_body]
fn guarded_bucket(g: &RefMut<'_, u128, (u8, u64)>) -> (r: (u8, u64))
    ensures
        r == held(*g),
{
    *g.value()
}

/// Relies on `RefMut::value_mut`: stores `b` as the state the guard holds.
#[verifier::external_body]
fn store_guarded_bucket(g: &mut RefMut<'_, u128, (u8, u64)>, b: (u8, u64))
    ensures
        held(*final(g)) == b,
{
    *g.value_mut() = b;
}

/// Relies on `DashMap::len`: the number of entries.
#[verifier::external_body]
fn bucket_count(map: &DashMap<u128, (u8, u64)>) -> (r: usize) {
    map.len()
}

/// The client key of a request: its address when it named a usable one,
/// else the shared default.
pub fn client_key_or_default(address: Option<u128>) -> (r: u128)
    ensures
        r == match address {
            Some(a) => a,
            None => DEFAULT_CLIENT_KEY,
        },
{
    match address {
        Some(a) => a,
        None => DEFAULT_CLIENT_KEY,
    }
}

/// Per-client admission control: one token bucket per client key, created on
/// the client's first request with the configured capacity and rates. The
/// map keeps each client's tokens and refill time; capacity and rates are
/// the limiter's own.
pub struct RateLimiter {
    buckets: DashMap<u128, (u8, u64)>,
    capacity: u8,
    fill_rate: u8,
    take_rate: u8,
}

impl RateLimiter {
    /// The capacity of each new bucket.
    pub closed spec fn spec_capacity(&self) -> u8 {
        self.capacity
    }

    /// The fill rate of each new bucket.
    pub closed spec fn spec_fill_rate(&self) -> u8 {
        self.fill_rate
    }

    /// The take rate of each new bucket.
    pub closed spec fn spec_take_rate(&self) -> u8 {
        self.take_rate
    }

    /// A limiter that has seen no client yet.
    pub fn new(capacity: u8, fill_rate: u8, take_rate: u8) -> (r: Self)
        ensures
            r.spec_capacity() == capacity,
            r.spec_fill_rate() == fill_rate,
            r.spec_take_rate() == take_rate,
    {
        RateLimiter { buckets: empty_buckets(), capacity, fill_rate, take_rate }
    }

    /// A bucket of this limiter holding `available` tokens, last refilled
    /// at `last_update`.
    pub closed spec fn bucket(&self, available: u8, last_update: u64) -> BucketState {
        BucketState {
            capacity: self.capacity,
            available,
            last_update,
            fill_rate: self.fill_rate,
            take_rate: self.take_rate,
        }
    }

    /// Whether some bucket of this limiter, holding no more than its
    /// capacity, decides `admitted` for a take at `now`.
    pub open spec fn decided_by_a_bucket(&self, now: u64, admitted: bool) -> bool {
        exists|a: u8, t: u64|
            a <= self.spec_capacity() && #[trigger] self.bucket(a, t).admits(now) == admitted
    }

    /// Admits or denies a request of client `key` at clock reading `now`: the
    /// client's bucket, created full on its first request, takes at `now`.
    /// The lookup, the creation and the take happen under the entry's lock,
    /// so concurrent first requests of one client share one bucket.
    pub fn allow_at(&self, key: u128, now: u64) -> (admitted: bool)
        ensures
            self.decided_by_a_bucket(now, admitted),
    {
        let mut guard = lock_bucket(&self.buckets, key, (self.capacity, now));
        let stored = guarded_bucket(&guard);
        let mut bucket = TokenBucket::restore(
            self.capacity,
            stored.0,
            stored.1,
            self.fill_rate,
            self.take_rate,
        );
        let ghost before = bucket@;
        let admitted = bucket.take_at(now);
        store_guarded_bucket(&mut guard, (bucket.available_tokens(), bucket.last_update()));
        assert(before == self.bucket(before.available, before.last_update));
        admitted
    }

    /// Admits or denies a request of client `key` at the current clock reading.
    pub fn allow(&self, key: u128) -> (admitted: bool)
        ensures
            exists|now: u64| #[trigger] self.decided_by_a_bucket(now, admitted),
    {
        self.allow_at(key, now_nanos())
    }

    /// `Ok` when the request of client `key` is admitted at `now`, else
    /// `TooManyRequests`.
    pub fn limit_at(&self, key: u128, now: u64) -> (r: Result<(), Error>)
        ensures
            self.decided_by_a_bucket(now, r is Ok),
            r matches Err(e) ==> e is TooManyRequests,
    {
        if self.allow_at(key, now) {
            Ok(())
        } else {
            Err(Error::TooManyRequests)
        }
    }

    /// `Ok` when the request of client `key` is admitted now, else
    /// `TooManyRequests`.
    pub fn limit(&self, key: u128) -> (r: Result<(), Error>)
        ensures
            exists|now: u64| #[trigger] self.decided_by_a_bucket(now, r is Ok),
            r matches Err(e) ==> e is TooManyRequests,
    {
        self.limit_at(key, now_nanos())
    }

    /// How many clients have a bucket.
    pub fn tracked_clients(&self) -> usize {
        bucket_count(&self.buckets)
    }
}

} // verus!
