//! The magic-URL resolver: an in-memory cache of indirection URL →
//! resolved target, with TTL-based stale-while-revalidate, failure
//! backoff, and unconditional purge.

use crate::backoff::{spec_within_backoff, strictly_increasing, within_backoff};
use crate::errors::FetchError;
use crate::strmap::StrMap;
use vstd::prelude::*;

verus! {

/// How long, in seconds, a fresh status-200 magic resolution may be cached
/// by clients, and how long a cached resolution stays fresh server-side
/// before a hit schedules a background refresh.
pub const MAGIC_CACHE_DURATION_SECONDS: i64 = 60 * 60;

/// The last known outcome for one magic URL: the resolved target URL and
/// upstream status observed at `time`, or the most recent error with the
/// history of consecutive failed attempts (nanosecond timestamps, oldest
/// first).
pub enum CachedMagicUrl {
    Failed { err: FetchError, attempts: Vec<i64> },
    Success { url: String, status: u16, time: i64 },
}

/// A failed entry always records at least one attempt, in strictly
/// increasing time order.
pub open spec fn magic_entry_wf(e: CachedMagicUrl) -> bool {
    e is Failed ==> e->Failed_attempts@.len() >= 1 && strictly_increasing(e->Failed_attempts@)
}

/// What a magic request must do next, decided from the cache alone.
pub enum MagicLookup {
    /// A resolution within its TTL is cached: use it as it is.
    Fresh(String, u16),
    /// A resolution older than its TTL is cached: use it now, and
    /// schedule one background refresh for future callers.
    Stale(String, u16),
    /// A failure is cached and its backoff window still runs: return the
    /// memoized error, contact nothing.
    Suppressed(FetchError),
    /// Nothing usable is cached: resolve now, carrying this attempt
    /// history forward (empty on a plain miss).
    Refetch(Vec<i64>),
}

/// The client-side cache duration advertised for a magic resolution:
/// the short magic TTL exactly when the resolved upstream status is 200,
/// and zero otherwise — a non-200 resolution is still recorded
/// server-side for backoff, but clients may not cache it.
pub fn cache_duration_for_status(status: u16) -> (r: i64)
    ensures
        status == 200 ==> r == MAGIC_CACHE_DURATION_SECONDS,
        status != 200 ==> r == 0,
{
    if status == 200 {
        MAGIC_CACHE_DURATION_SECONDS
    } else {
        0
    }
}

/// The resolver's cache, keyed by the raw magic URL, created empty at
/// process start. Entries are only ever replaced whole or removed.
pub struct MagicResolver {
    entries: StrMap<CachedMagicUrl>,
}

impl MagicResolver {
    /// The recorded resolutions, keyed by magic URL.
    pub closed spec fn view(&self) -> Map<Seq<char>, CachedMagicUrl> {
        self.entries@
    }

    /// Internal invariant: the underlying map is well formed and every
    /// failed entry carries a non-empty, strictly increasing history.
    pub closed spec fn wf(&self) -> bool {
        &&& self.entries.wf()
        &&& forall|k: Seq<char>| self@.contains_key(k) ==> magic_entry_wf(#[trigger] self@[k])
    }

    /// The empty resolver.
    pub fn new() -> (r: Self)
        ensures
            r.wf(),
            r@ == Map::<Seq<char>, CachedMagicUrl>::empty(),
    {
        MagicResolver { entries: StrMap::new() }
    }

    /// Decide, from the cache alone, how a request for `url` at time
    /// `now_nanos` proceeds: a cached resolution is served as it is, and
    /// one older than the TTL additionally schedules a background
    /// refresh; a cached failure inside its backoff window is served as
    /// the memoized error with no outbound contact; anything else falls
    /// through to a fresh resolution.
    pub fn lookup(&self, url: &String, now_nanos: i64) -> (r: MagicLookup)
        requires
            self.wf(),
        ensures
            !self@.contains_key(url@) ==> (r matches MagicLookup::Refetch(a) && a@
                == Seq::<i64>::empty()),
            self@.contains_key(url@) && self@[url@] is Success ==> {
                let e = self@[url@];
                if now_nanos - e->Success_time > MAGIC_CACHE_DURATION_SECONDS * 1_000_000_000 {
                    &&& r matches MagicLookup::Stale(u, s) && u@ == e->Success_url@ && s
                        == e->Success_status
                } else {
                    &&& r matches MagicLookup::Fresh(u, s) && u@ == e->Success_url@ && s
                        == e->Success_status
                }
            },
            self@.contains_key(url@) && self@[url@] is Failed ==> {
                let att = self@[url@]->Failed_attempts@;
                if spec_within_backoff(att.len(), att.last(), now_nanos) {
                    r == MagicLookup::Suppressed(self@[url@]->Failed_err)
                } else {
                    &&& r matches MagicLookup::Refetch(a) && a@ == att
                }
            },
    {
        match self.entries.get(url) {
            None => MagicLookup::Refetch(Vec::new()),
            Some(entry) => match entry {
                CachedMagicUrl::Success { url: resolved, status, time } => {
                    let age: i128 = now_nanos as i128 - *time as i128;
                    if age > MAGIC_CACHE_DURATION_SECONDS as i128 * 1_000_000_000 {
                        MagicLookup::Stale(resolved.clone(), *status)
                    } else {
                        MagicLookup::Fresh(resolved.clone(), *status)
                    }
                },
                CachedMagicUrl::Failed { err, attempts } => {
                    let n = attempts.len();
                    let last = attempts[n - 1];
                    if within_backoff(n as u64, last, now_nanos) {
                        MagicLookup::Suppressed(*err)
                    } else {
                        let carried = attempts.clone();
                        proof {
                            assert(carried@ =~= attempts@);
                        }
                        MagicLookup::Refetch(carried)
                    }
                },
            },
        }
    }

    /// Record a successful resolution observed at `now_nanos`: the entry
    /// for `url` is replaced whole by the resolved target and status, and
    /// any failure history is discarded.
    pub fn record_success(&mut self, url: String, resolved: String, status: u16, now_nanos: i64)
        requires
            old(self).wf(),
        ensures
            final(self).wf(),
            final(self)@ == old(self)@.insert(
                url@,
                CachedMagicUrl::Success { url: resolved, status, time: now_nanos },
            ),
    {
        self.entries.set(
            url,
            CachedMagicUrl::Success { url: resolved, status, time: now_nanos },
        );
        proof {
            assert forall|k: Seq<char>| self@.contains_key(k) implies magic_entry_wf(
                #[trigger] self@[k],
            ) by {
                if k != url@ {
                    assert(old(self)@.contains_key(k));
                }
            }
        }
    }

    /// Record one more failed resolution attempt at `now_nanos`: the
    /// entry for `url` is replaced whole by a failure holding `err` and
    /// the carried history with the new timestamp appended.
    pub fn record_failure(
        &mut self,
        url: String,
        err: FetchError,
        attempts: Vec<i64>,
        now_nanos: i64,
    )
        requires
            old(self).wf(),
            strictly_increasing(attempts@),
            attempts@.len() == 0 || attempts@.last() < now_nanos,
        ensures
            final(self).wf(),
            final(self)@ == old(self)@.insert(
                url@,
                CachedMagicUrl::Failed { err, attempts: final(self)@[url@]->Failed_attempts },
            ),
            final(self)@[url@]->Failed_attempts@ == attempts@.push(now_nanos),
    {
        let mut attempts = attempts;
        attempts.push(now_nanos);
        self.entries.set(url, CachedMagicUrl::Failed { err, attempts });
        proof {
            assert forall|k: Seq<char>| self@.contains_key(k) implies magic_entry_wf(
                #[trigger] self@[k],
            ) by {
                if k != url@ {
                    assert(old(self)@.contains_key(k));
                }
            }
        }
    }

    /// Remove the entry for `url` unconditionally — present or absent,
    /// success or failure — acknowledging a purge request.
    pub fn purge(&mut self, url: &String)
        requires
            old(self).wf(),
        ensures
            final(self).wf(),
            final(self)@ == old(self)@.remove(url@),
            !final(self)@.contains_key(url@),
    {
        self.entries.remove(url);
        proof {
            assert forall|k: Seq<char>| self@.contains_key(k) implies magic_entry_wf(
                #[trigger] self@[k],
            ) by {
                assert(old(self)@.contains_key(k));
            }
        }
    }

}

} // verus!
