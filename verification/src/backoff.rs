//! The retry-backoff window for cached failures.
//!
//! After `n` consecutive failures the proxy refuses a fresh upstream
//! attempt for `min(MAX_REFRESH_TIMEOUT, 2^(n-1))` seconds from the most
//! recent attempt; once that window has elapsed the next request may try
//! again. The doubling base with a cap bounds how stale a failed entry can
//! get while still protecting a known-broken upstream.

use vstd::arithmetic::power2::{lemma2_to64, lemma_pow2_strictly_increases, pow2};
use vstd::bits::lemma_u64_shl_is_mul;
use vstd::prelude::*;

verus! {

/// The cap, in seconds, on the backoff window.
pub const MAX_REFRESH_TIMEOUT: u64 = 60 * 60;

/// Attempt timestamps are recorded in strictly increasing order.
pub open spec fn strictly_increasing(s: Seq<i64>) -> bool {
    forall|i: int, j: int| 0 <= i < j < s.len() ==> s[i] < s[j]
}

/// The backoff window, in seconds, after `n` consecutive failures.
pub open spec fn spec_backoff_seconds(n: nat) -> nat
    recommends
        n >= 1,
{
    if pow2((n - 1) as nat) < MAX_REFRESH_TIMEOUT {
        pow2((n - 1) as nat)
    } else {
        MAX_REFRESH_TIMEOUT as nat
    }
}

/// A failed entry is still inside its backoff window at `now` when fewer
/// than `spec_backoff_seconds(n)` seconds have passed since the most
/// recent attempt (both clocks in nanoseconds since the epoch).
pub open spec fn spec_within_backoff(n: nat, last_nanos: i64, now_nanos: i64) -> bool
    recommends
        n >= 1,
{
    now_nanos - last_nanos < spec_backoff_seconds(n) * 1_000_000_000
}

/// Compute the backoff window in seconds from the number of consecutive
/// failures recorded so far.
pub fn backoff_seconds(n: u64) -> (r: u64)
    requires
        n >= 1,
    ensures
        r == spec_backoff_seconds(n as nat),
        1 <= r <= MAX_REFRESH_TIMEOUT,
{
    proof {
        lemma2_to64();
    }
    if n >= 13 {
        proof {
            if n > 13 {
                lemma_pow2_strictly_increases(12, (n - 1) as nat);
            }
        }
        MAX_REFRESH_TIMEOUT
    } else {
        proof {
            lemma_u64_shl_is_mul(1, (n - 1) as u64);
        }
        let p: u64 = 1u64 << (n - 1);
        if p < MAX_REFRESH_TIMEOUT {
            p
        } else {
            MAX_REFRESH_TIMEOUT
        }
    }
}

/// Once a success (or a purge, or a fresh key) has wiped the failure
/// history, the next failure is recorded with a single attempt, and its
/// backoff window is 2^0 = 1 second: the doubling starts over.
pub proof fn lemma_first_failure_window()
    ensures
        spec_backoff_seconds(1) == 1,
{
    lemma2_to64();
}

/// Decide whether `now_nanos` still falls inside the backoff window that
/// started at `last_nanos` after `n` consecutive failures.
pub fn within_backoff(n: u64, last_nanos: i64, now_nanos: i64) -> (r: bool)
    requires
        n >= 1,
    ensures
        r == spec_within_backoff(n as nat, last_nanos, now_nanos),
{
    let secs = backoff_seconds(n);
    let timeout_nanos: i128 = secs as i128 * 1_000_000_000;
    (now_nanos as i128 - last_nanos as i128) < timeout_nanos
}

} // verus!
