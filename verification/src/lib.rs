//! Core logic of a caching proxy for rescaled images.
//!
//! A client asks for an image by rescale type and source URL. The proxy
//! serves it from an in-memory cache, from a content-addressed disk store,
//! or by fetching the rescaled variant from an upstream service; failures
//! are remembered and retried under an exponential backoff. A "magic"
//! indirection URL resolves, through a small cached text document, to the
//! real image URL, with TTL-based stale-while-revalidate refresh and an
//! unconditional purge operation. Inline `data:` image URLs bypass every
//! cache.
//!
//! Everything that decides — cache state machines, backoff arithmetic,
//! request parsing, the data-URI shortcut, content-addressed paths and the
//! on-disk envelope codec — lives here, verified. The surrounding binary
//! performs the actual network and file I/O and feeds plain values in.

pub mod backoff;
pub mod classify;
pub mod codec;
pub mod data_uri;
pub mod errors;
pub mod image;
pub mod img_cache;
pub mod magic;
pub mod route;
pub mod store;
pub mod strmap;
pub mod text;
