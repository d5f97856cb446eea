//! The in-memory image cache: the authoritative record, per (rescale type,
//! URL) key, of the last known outcome, and the decision whether a request
//! is served from memory, needs the disk store, or needs a fresh upstream
//! fetch.

use crate::backoff::{spec_within_backoff, strictly_increasing, within_backoff};
use crate::errors::FetchError;
use crate::image::{Image, ImgType, SavedImage};
use crate::strmap::StrMap;
use vstd::prelude::*;

verus! {

/// The last known outcome for one key: either the image fetched last, or
/// the error of the most recent attempt together with the full history of
/// consecutive failed attempts (nanosecond timestamps, oldest first).
pub enum CachedImage {
    Failed { err: FetchError, attempts: Vec<i64> },
    Success { image: Image, time: i64 },
}

/// A failed entry always records at least one attempt, in strictly
/// increasing time order.
pub open spec fn entry_wf(e: CachedImage) -> bool {
    e is Failed ==> e->Failed_attempts@.len() >= 1 && strictly_increasing(e->Failed_attempts@)
}

/// What a request for a key must do next, decided from memory alone.
pub enum ImgLookup {
    /// A success is cached: serve this image, contact nothing.
    Hit(Image),
    /// A failure is cached and its backoff window still runs: serve the
    /// memoized error, contact nothing.
    Suppressed(FetchError),
    /// A failure is cached but its window has elapsed: fetch upstream
    /// again, carrying this attempt history forward.
    Expired(Vec<i64>),
    /// Nothing is cached in memory: consult the disk store next.
    Miss,
}

/// The in-memory cache, one map per rescale type, created empty at process
/// start. Entries are only ever replaced whole.
pub struct ImageCache {
    thumbnail: StrMap<CachedImage>,
    large: StrMap<CachedImage>,
}

impl ImageCache {
    /// The entries recorded for one rescale type, keyed by source URL.
    pub closed spec fn map_for(&self, ty: ImgType) -> Map<Seq<char>, CachedImage> {
        match ty {
            ImgType::Thumbnail => self.thumbnail@,
            ImgType::Large => self.large@,
        }
    }

    /// Internal invariant: the underlying maps are well formed and every
    /// failed entry carries a non-empty, strictly increasing history.
    pub closed spec fn wf(&self) -> bool {
        &&& self.thumbnail.wf()
        &&& self.large.wf()
        &&& forall|t: ImgType, k: Seq<char>|
            self.map_for(t).contains_key(k) ==> entry_wf(#[trigger] self.map_for(t)[k])
    }

    /// The empty cache.
    pub fn new() -> (r: Self)
        ensures
            r.wf(),
            forall|t: ImgType| (#[trigger] r.map_for(t)) == Map::<Seq<char>, CachedImage>::empty(),
    {
        ImageCache { thumbnail: StrMap::new(), large: StrMap::new() }
    }

    fn set_entry(&mut self, ty: ImgType, url: String, entry: CachedImage)
        requires
            old(self).wf(),
            entry_wf(entry),
        ensures
            final(self).wf(),
            final(self).map_for(ty) == old(self).map_for(ty).insert(url@, entry),
            forall|t: ImgType|
                t != ty ==> (#[trigger] final(self).map_for(t)) == old(self).map_for(t),
    {
        match ty {
            ImgType::Thumbnail => self.thumbnail.set(url, entry),
            ImgType::Large => self.large.set(url, entry),
        }
        proof {
            assert forall|t: ImgType, k: Seq<char>| self.map_for(t).contains_key(k) implies entry_wf(
                #[trigger] self.map_for(t)[k],
            ) by {
                if t == ty && k == url@ {
                } else {
                    assert(old(self).map_for(t).contains_key(k));
                }
            }
        }
    }

    /// Decide, from memory alone, how a request for `(ty, url)` at time
    /// `now_nanos` proceeds: a cached success is served as it is; a cached
    /// failure inside its backoff window is served as the memoized error
    /// with no upstream contact; an elapsed failure falls through to a
    /// fresh attempt that carries the history forward; an absent key falls
    /// through to the disk store.
    pub fn lookup(&self, ty: ImgType, url: &String, now_nanos: i64) -> (r: ImgLookup)
        requires
            self.wf(),
        ensures
            ({
                let m = self.map_for(ty);
                &&& !m.contains_key(url@) ==> r is Miss
                &&& m.contains_key(url@) && m[url@] is Success ==> r is Hit && r->Hit_0.matches(
                    &m[url@]->Success_image,
                )
                &&& m.contains_key(url@) && m[url@] is Failed ==> {
                    let att = m[url@]->Failed_attempts@;
                    if spec_within_backoff(att.len(), att.last(), now_nanos) {
                        r == ImgLookup::Suppressed(m[url@]->Failed_err)
                    } else {
                        r is Expired && r->Expired_0@ == att
                    }
                }
            }),
    {
        let m = match ty {
            ImgType::Thumbnail => &self.thumbnail,
            ImgType::Large => &self.large,
        };
        match m.get(url) {
            None => ImgLookup::Miss,
            Some(entry) => match entry {
                CachedImage::Success { image, .. } => ImgLookup::Hit(image.clone()),
                CachedImage::Failed { err, attempts } => {
                    let n = attempts.len();
                    let last = attempts[n - 1];
                    if within_backoff(n as u64, last, now_nanos) {
                        ImgLookup::Suppressed(*err)
                    } else {
                        let carried = attempts.clone();
                        proof {
                            assert(carried@ =~= attempts@);
                        }
                        ImgLookup::Expired(carried)
                    }
                },
            },
        }
    }

    /// Install the envelope's image as the success entry for its key —
    /// the one mutation a successful fetch or a disk hit performs — and
    /// hand the image back. Any earlier failure history for the key is
    /// discarded.
    pub fn install_saved(&mut self, saved: SavedImage) -> (r: Image)
        requires
            old(self).wf(),
        ensures
            final(self).wf(),
            r.matches(&saved.image),
            final(self).map_for(saved.pair.0) == old(self).map_for(saved.pair.0).insert(
                saved.pair.1@,
                CachedImage::Success { image: saved.image, time: saved.time_nanos },
            ),
            forall|t: ImgType|
                t != saved.pair.0 ==> (#[trigger] final(self).map_for(t)) == old(self).map_for(t),
    {
        let SavedImage { pair: (ty, url), image, time_nanos } = saved;
        let r = image.clone();
        self.set_entry(ty, url, CachedImage::Success { image, time: time_nanos });
        r
    }

    /// Record one more failed attempt at `now_nanos`: the key's entry is
    /// replaced by a failure holding `err` and the carried history with
    /// the new timestamp appended.
    pub fn record_failure(
        &mut self,
        ty: ImgType,
        url: String,
        err: FetchError,
        attempts: Vec<i64>,
        now_nanos: i64,
    )
        requires
            old(self).wf(),
            strictly_increasing(attempts@),
            attempts@.len() == 0 || attempts@.last() < now_nanos,
        ensures
            final(self).wf(),
            final(self).map_for(ty) == old(self).map_for(ty).insert(
                url@,
                CachedImage::Failed { err, attempts: final(self).map_for(ty)[url@]->Failed_attempts },
            ),
            final(self).map_for(ty)[url@]->Failed_attempts@ == attempts@.push(now_nanos),
            forall|t: ImgType|
                t != ty ==> (#[trigger] final(self).map_for(t)) == old(self).map_for(t),
    {
        let mut attempts = attempts;
        attempts.push(now_nanos);
        self.set_entry(ty, url, CachedImage::Failed { err, attempts });
    }
}

} // verus!
