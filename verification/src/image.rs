//! The value types a request resolves to.

use vstd::prelude::*;

verus! {

/// The closed set of rescale variants. Each maps to its own upstream base
/// URL (configuration, outside this library) and to its own shard of the
/// disk store.
#[derive(Clone, Copy, PartialEq, Eq, Structural, Debug)]
pub enum ImgType {
    Thumbnail,
    Large,
}

/// The cache key: a rescale type together with the source URL.
pub type ImgPair = (ImgType, String);

/// An immutable image value: a content type and the raw bytes.
pub struct Image {
    pub content_type: String,
    pub body: Vec<u8>,
}

impl Image {
    /// Both fields agree, by view.
    pub open spec fn matches(&self, other: &Image) -> bool {
        self.content_type@ == other.content_type@ && self.body@ == other.body@
    }
}

impl Clone for Image {
    fn clone(&self) -> (r: Self)
        ensures
            r.matches(self),
    {
        Image { content_type: self.content_type.clone(), body: self.body.clone() }
    }
}

/// An image together with the client-side cache lifetime it is served with.
pub struct ImageWithCacheDuration {
    pub image: Image,
    pub cache_duration_seconds: i64,
}

/// The on-disk envelope: the key, the image, and the capture time in
/// nanoseconds since the epoch.
pub struct SavedImage {
    pub pair: ImgPair,
    pub image: Image,
    pub time_nanos: i64,
}

} // verus!
