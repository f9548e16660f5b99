use vstd::prelude::*;

verus! {

/// Nanoseconds in one second.
pub const NANOS_PER_SEC: u64 = 1_000_000_000;

/// Whole seconds plus nanoseconds as a nanosecond count, saturating at `u64::MAX`.
pub open spec fn nanos_of(secs: u64, subsec: u32) -> nat {
    let total = secs as nat * NANOS_PER_SEC as nat + subsec as nat;
    if total > u64::MAX as nat {
        u64::MAX as nat
    } else {
        total
    }
}

/// Relies on `SystemTime::elapsed` on `UNIX_EPOCH`: the wall-clock time since
/// the epoch as whole seconds and the nanoseconds below one second, or `None`
/// when the clock reads before the epoch.
#[verifier::external_body]
fn since_epoch() -> (r: Option<(u64, u32)>)
    ensures
        r matches Some(p) ==> p.1 < NANOS_PER_SEC,
{
    std::time::UNIX_EPOCH.elapsed().ok().map(|d| (d.as_secs(), d.subsec_nanos()))
}

/// Combines whole seconds and sub-second nanoseconds into nanoseconds,
/// saturating instead of overflowing.
pub fn nanos_from_parts(secs: u64, subsec: u32) -> (r: u64)
    ensures
        r == nanos_of(secs, subsec),
{
    match secs.checked_mul(NANOS_PER_SEC) {
        Some(whole) => whole.saturating_add(subsec as u64),
        None => u64::MAX,
    }
}

/// The current wall-clock reading in nanoseconds since the Unix epoch
/// (zero when the clock reads before the epoch).
pub fn now_nanos() -> (r: u64) {
    match since_epoch() {
        Some(p) => nanos_from_parts(p.0, p.1),
        None => 0,
    }
}

} // verus!
