use crate::clock::{now_nanos, NANOS_PER_SEC};
use vstd::arithmetic::div_mod::lemma_fundamental_div_mod_converse;
use vstd::prelude::*;

verus! {

/// The state of a bucket as plain values: how many tokens it holds at most,
/// how many it holds now, when it was last refilled (nanoseconds since the
/// Unix epoch), how many tokens each elapsed second adds and how many each
/// admission costs.
pub struct BucketState {
    pub capacity: u8,
    pub available: u8,
    pub last_update: u64,
    pub fill_rate: u8,
    pub take_rate: u8,
}

/// The smaller of two integers.
pub open spec fn min_int(a: int, b: int) -> int {
    if a <= b {
        a
    } else {
        b
    }
}

/// Whole seconds from `last` to `now`, fractions dropped; zero when `now` is
/// not after `last`.
pub open spec fn elapsed_secs(last: u64, now: u64) -> nat {
    if now <= last {
        0
    } else {
        (now - last) as nat / NANOS_PER_SEC as nat
    }
}

impl BucketState {
    /// The bucket never holds more tokens than its capacity.
    pub open spec fn inv(self) -> bool {
        self.available <= self.capacity
    }

    /// Tokens earned by the whole seconds elapsed up to `now`, before clamping.
    pub open spec fn earned(self, now: u64) -> nat {
        elapsed_secs(self.last_update, now) * self.fill_rate as nat
    }

    /// The state after the refill step at `now`: when at least one token was
    /// earned, the earned tokens are added up to capacity and the refill time
    /// moves to `now`; otherwise nothing changes.
    pub open spec fn refilled(self, now: u64) -> BucketState {
        if self.earned(now) >= 1 {
            BucketState {
                capacity: self.capacity,
                available: min_int(self.capacity as int, self.available + self.earned(now)) as u8,
                last_update: now,
                fill_rate: self.fill_rate,
                take_rate: self.take_rate,
            }
        } else {
            self
        }
    }

    /// Whether a take at `now` admits the request.
    pub open spec fn admits(self, now: u64) -> bool {
        self.refilled(now).available >= self.take_rate
    }

    /// The state after a take at `now`: refill, then pay the take rate when
    /// enough tokens are there.
    pub open spec fn after_take(self, now: u64) -> BucketState {
        let r = self.refilled(now);
        if r.available >= r.take_rate {
            BucketState {
                capacity: r.capacity,
                available: (r.available - r.take_rate) as u8,
                last_update: r.last_update,
                fill_rate: r.fill_rate,
                take_rate: r.take_rate,
            }
        } else {
            r
        }
    }
}

/// A token bucket: a bounded count of tokens that refills with elapsed whole
/// seconds and pays for each admitted request.
#[derive(Debug, Clone, Copy)]
pub struct TokenBucket {
    capacity: u8,
    available_tokens: u8,
    last_update: u64,
    fill_rate: u8,
    take_rate: u8,
}

impl View for TokenBucket {
    type V = BucketState;

    closed spec fn view(&self) -> BucketState {
        BucketState {
            capacity: self.capacity,
            available: self.available_tokens,
            last_update: self.last_update,
            fill_rate: self.fill_rate,
            take_rate: self.take_rate,
        }
    }
}

/// Clamping the elapsed seconds to the range of the token count and
/// saturating the product loses nothing once the result is clamped to a
/// capacity that fits in a `u8`.
proof fn lemma_clamped_earnings(elapsed: int, fill: int, avail: int, cap: int)
    requires
        elapsed >= 0,
        0 <= fill,
        0 <= avail,
        fill <= 255,
        avail <= cap <= 255,
    ensures
        ({
            let e = if elapsed > 255 { 255 } else { elapsed };
            let t = if e * fill > 255 { 255 } else { e * fill };
            let topped = if avail + t > 255 { 255 } else { avail + t };
            &&& (t >= 1) == (elapsed * fill >= 1)
            &&& min_int(cap, topped) == min_int(cap, avail + elapsed * fill)
        }),
{
    let e: int = if elapsed > 255 { 255 } else { elapsed };
    if elapsed > 255 && fill >= 1 {
        assert(e * fill >= 255) by (nonlinear_arith)
            requires
                e == 255,
                fill >= 1,
        ;
        assert(elapsed * fill >= e * fill) by (nonlinear_arith)
            requires
                elapsed >= e,
                fill >= 0,
        ;
    }
    if fill == 0 {
        assert(e * fill == 0 && elapsed * fill == 0) by (nonlinear_arith)
            requires
                fill == 0,
        ;
    }
    if elapsed == 0 {
        assert(elapsed * fill == 0) by (nonlinear_arith)
            requires
                elapsed == 0,
        ;
    }
    if elapsed >= 1 && fill >= 1 {
        assert(e * fill >= 1) by (nonlinear_arith)
            requires
                e >= 1,
                fill >= 1,
        ;
        assert(elapsed * fill >= 1) by (nonlinear_arith)
            requires
                elapsed >= 1,
                fill >= 1,
        ;
    }
}

impl TokenBucket {
    #[verifier::type_invariant]
    spec fn well_formed(self) -> bool {
        self.available_tokens <= self.capacity
    }

    /// A full bucket whose refill time is `now`.
    pub fn new_at(capacity: u8, fill_rate: u8, take_rate: u8, now: u64) -> (r: Self)
        ensures
            r@ == (BucketState {
                capacity,
                available: capacity,
                last_update: now,
                fill_rate,
                take_rate,
            }),
    {
        TokenBucket { capacity, available_tokens: capacity, last_update: now, fill_rate, take_rate }
    }

    /// A bucket with the given state; more tokens than the capacity are cut
    /// down to the capacity.
    pub fn restore(capacity: u8, available: u8, last_update: u64, fill_rate: u8, take_rate: u8) -> (r:
        Self)
        ensures
            r@ == (BucketState {
                capacity,
                available: if available <= capacity {
                    available
                } else {
                    capacity
                },
                last_update,
                fill_rate,
                take_rate,
            }),
    {
        let available_tokens = if available <= capacity {
            available
        } else {
            capacity
        };
        TokenBucket { capacity, available_tokens, last_update, fill_rate, take_rate }
    }

    /// A full bucket whose refill time is the current clock reading.
    pub fn new(capacity: u8, fill_rate: u8, take_rate: u8) -> (r: Self)
        ensures
            r@.capacity == capacity,
            r@.available == capacity,
            r@.fill_rate == fill_rate,
            r@.take_rate == take_rate,
    {
        Self::new_at(capacity, fill_rate, take_rate, now_nanos())
    }

    /// Refills for the whole seconds elapsed up to `now`, then admits the
    /// request and pays the take rate if enough tokens are there.
    pub fn take_at(&mut self, now: u64) -> (admitted: bool)
        ensures
            admitted == old(self)@.admits(now),
            final(self)@ == old(self)@.after_take(now),
            old(self)@.inv(),
            final(self)@.inv(),
    {
        proof {
            use_type_invariant(&*self);
        }
        let ghost start = self@;
        let elapsed: u64 = if now > self.last_update {
            (now - self.last_update) / NANOS_PER_SEC
        } else {
            0
        };
        // The token count is a u8, so more elapsed seconds cannot add more.
        let elapsed: u8 = if elapsed > u8::MAX as u64 {
            u8::MAX
        } else {
            elapsed as u8
        };
        let tokens_to_add: u8 = match elapsed.checked_mul(self.fill_rate) {
            Some(t) => t,
            None => u8::MAX,
        };
        proof {
            lemma_clamped_earnings(
                elapsed_secs(start.last_update, now) as int,
                start.fill_rate as int,
                start.available as int,
                start.capacity as int,
            );
        }
        // Refill only when a whole token was earned, so that no fraction of
        // a second is lost to rounding.
        if tokens_to_add >= 1 {
            let topped = self.available_tokens.saturating_add(tokens_to_add);
            self.available_tokens = if topped < self.capacity {
                topped
            } else {
                self.capacity
            };
            self.last_update = now;
        }
        assert(self@ == start.refilled(now));
        if self.available_tokens >= self.take_rate {
            self.available_tokens = self.available_tokens - self.take_rate;
            true
        } else {
            false
        }
    }

    /// Takes at the current clock reading.
    pub fn take(&mut self) -> (admitted: bool)
        ensures
            exists|now: u64|
                admitted == old(self)@.admits(now) && final(self)@ == old(self)@.after_take(now),
            final(self)@.inv(),
    {
        let now = now_nanos();
        self.take_at(now)
    }

    /// The most tokens the bucket holds.
    pub fn capacity(&self) -> (r: u8)
        ensures
            r == self@.capacity,
    {
        self.capacity
    }

    /// The tokens held now; never more than the capacity.
    pub fn available_tokens(&self) -> (r: u8)
        ensures
            r == self@.available,
            r <= self@.capacity,
    {
        proof {
            use_type_invariant(self);
        }
        self.available_tokens
    }

    /// When the bucket was last refilled, in nanoseconds since the Unix epoch.
    pub fn last_update(&self) -> (r: u64)
        ensures
            r == self@.last_update,
    {
        self.last_update
    }

    /// Tokens added per elapsed whole second.
    pub fn fill_rate(&self) -> (r: u8)
        ensures
            r == self@.fill_rate,
    {
        self.fill_rate
    }

    /// Tokens paid per admitted request.
    pub fn take_rate(&self) -> (r: u8)
        ensures
            r == self@.take_rate,
    {
        self.take_rate
    }

    /// Moves the refill time to `at`, keeping everything else.
    pub fn set_last_update(&mut self, at: u64)
        ensures
            final(self)@ == (BucketState { last_update: at, ..old(self)@ }),
    {
        proof {
            use_type_invariant(&*self);
        }
        self.last_update = at;
    }
}

impl Default for TokenBucket {
    /// A bucket of one token that refills one token per second and costs one
    /// token per request.
    fn default() -> (r: Self)
        ensures
            r@.capacity == 1,
            r@.available == 1,
            r@.fill_rate == 1,
            r@.take_rate == 1,
    {
        Self::new(1, 1, 1)
    }
}

/// Refilling and taking keep every bucket between empty and full: the
/// available tokens never exceed the capacity (and, being a count, never go
/// below zero).
pub proof fn lemma_take_keeps_tokens_within_capacity(b: BucketState, now: u64)
    requires
        b.inv(),
    ensures
        b.refilled(now).inv(),
        b.after_take(now).inv(),
        0 <= b.after_take(now).available <= b.after_take(now).capacity,
{
}

/// Once a bucket holds fewer tokens than a take costs, a take within the same
/// whole second as the last refill is denied and leaves the bucket as it was,
/// so any number of such takes are all denied.
pub proof fn lemma_denial_is_idempotent(b: BucketState, now: u64)
    requires
        b.inv(),
        b.available < b.take_rate,
        elapsed_secs(b.last_update, now) == 0,
    ensures
        !b.admits(now),
        b.after_take(now) == b,
{
}

/// Advancing the clock by `n` whole seconds (and any fraction of one more)
/// past the last refill lets the refill bring the bucket to
/// `min(capacity, available + n * fill_rate)`.
pub proof fn lemma_refill_after_whole_seconds(b: BucketState, n: nat, fraction: nat, now: u64)
    requires
        b.inv(),
        fraction < NANOS_PER_SEC,
        now == b.last_update + n * NANOS_PER_SEC + fraction,
    ensures
        b.refilled(now).available == min_int(
            b.capacity as int,
            b.available + n * b.fill_rate,
        ),
{
    if now > b.last_update {
        lemma_fundamental_div_mod_converse(
            (now - b.last_update) as int,
            NANOS_PER_SEC as int,
            n as int,
            fraction as int,
        );
    } else {
        assert(n * NANOS_PER_SEC == 0);
        assert(n == 0) by (nonlinear_arith)
            requires
                n * NANOS_PER_SEC == 0,
        ;
    }
    assert(elapsed_secs(b.last_update, now) == n);
    if n * b.fill_rate == 0 {
        assert(b.refilled(now) == b);
    }
}

/// Two takes within one second of a refill do not both refill: after a take
/// that refilled at `t1`, a take at `t2` less than a second later finds
/// nothing to add; and a take that earned nothing keeps the refill time, so
/// the part of a second already elapsed still counts towards the next token.
pub proof fn lemma_one_refill_per_second(b: BucketState, t1: u64, t2: u64)
    requires
        b.inv(),
        t1 <= t2 < t1 + NANOS_PER_SEC,
    ensures
        b.earned(t1) >= 1 ==> b.after_take(t1).refilled(t2) == b.after_take(t1),
        b.earned(t1) == 0 ==> b.after_take(t1).last_update == b.last_update,
{
    if b.earned(t1) >= 1 {
        let a = b.after_take(t1);
        assert(a.last_update == t1);
        assert(elapsed_secs(t1, t2) == 0);
        assert(a.earned(t2) == 0);
    }
}

/// After an idle period of at least `capacity` whole seconds, a bucket that
/// refills at all is full again, however long the period was.
pub proof fn lemma_long_idle_fills_to_capacity(b: BucketState, now: u64)
    requires
        b.inv(),
        b.fill_rate >= 1,
        elapsed_secs(b.last_update, now) >= b.capacity,
    ensures
        b.refilled(now).available == b.capacity,
{
    let e = elapsed_secs(b.last_update, now);
    let f = b.fill_rate as int;
    assert(e * f >= e) by (nonlinear_arith)
        requires
            f >= 1,
    ;
    if b.capacity > 0 {
        assert(b.earned(now) >= 1);
    } else {
        assert(b.available == 0);
    }
}

/// A clock reading before the last refill (clock skew) counts as no elapsed
/// time: nothing is refilled, and the take is decided on the tokens held.
pub proof fn lemma_clock_skew_adds_nothing(b: BucketState, now: u64)
    requires
        b.inv(),
        now < b.last_update,
    ensures
        b.refilled(now) == b,
        b.admits(now) == (b.available >= b.take_rate),
{
}

} // verus!
