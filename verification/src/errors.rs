//! The closed taxonomy of fetch outcomes that are not a plain success.

use vstd::prelude::*;

verus! {

/// Why a request could not be answered with a fresh image.
///
/// `InvalidRescaleType` and `InvalidDataUrl` fault the request itself and are
/// never cached. `RequestFailed`, `UnsupportedContentType`, `BodyReadFailed`,
/// `TextReadFailed` and `Status` describe one failed upstream attempt and are
/// cached with backoff. `Purge` is a control sentinel, not a failure: it
/// acknowledges a magic-cache invalidation.
#[derive(Clone, Copy, PartialEq, Eq, Structural, Debug)]
pub enum FetchError {
    InvalidRescaleType,
    RequestFailed,
    UnsupportedContentType,
    BodyReadFailed,
    TextReadFailed,
    InvalidDataUrl,
    Purge,
    Status(u16),
}

} // verus!
