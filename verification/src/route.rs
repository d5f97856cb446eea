//! Parsing of the two leading request segments into what the proxy must
//! do: serve an image of some rescale type, purge a magic entry, or
//! reject the request.

use crate::errors::FetchError;
use crate::image::ImgType;
use crate::text::{
    find_char_from, first_occurrence_from, lemma_first_occurrence_unique, str_eq, substring,
};
use vstd::prelude::*;

verus! {

/// How long, in seconds, an ordinary (non-magic) image response may be
/// cached by clients.
pub const REGULAR_CACHE_DURATION_SECONDS: i64 = 30 * 24 * 60 * 60;

/// What a request's leading segments ask for.
pub enum Route {
    /// Resolve and serve an image. `magic` records whether the URL is a
    /// magic indirection to resolve first.
    Image { ty: ImgType, url: String, magic: bool },
    /// Remove the magic cache entry for this URL and acknowledge.
    PurgeMagic(String),
}

/// How the second parsing step reads a type token `t` and a remainder
/// `u`: the purge keyword wins, then the two rescale-type tokens; any
/// other token is rejected.
pub open spec fn spec_route_of_token(t: Seq<char>, u: Seq<char>, magic: bool, r: Result<
    Route,
    FetchError,
>) -> bool {
    if t == "purge"@ {
        r matches Ok(Route::PurgeMagic(p)) && p@ == u
    } else if t == "thumbnail"@ {
        r matches Ok(Route::Image { ty, url, magic: m }) && ty == ImgType::Thumbnail && url@ == u
            && m == magic
    } else if t == "large"@ {
        r matches Ok(Route::Image { ty, url, magic: m }) && ty == ImgType::Large && url@ == u && m
            == magic
    } else {
        r == Result::<Route, FetchError>::Err(FetchError::InvalidRescaleType)
    }
}

/// Parse the first path segment `img_type` and the remaining path `url`.
///
/// When the first segment is the magic marker, the remainder is split at
/// its first `/`: the left half is re-read as the real type-or-purge
/// token and the right half is the magic URL; a remainder with no `/` is
/// rejected. `InvalidRescaleType` is the only error, returned exactly for
/// the rejected shapes.
pub fn parse_route(img_type: String, url: String) -> (r: Result<Route, FetchError>)
    ensures
        img_type@ != "magic"@ ==> spec_route_of_token(img_type@, url@, false, r),
        img_type@ == "magic"@ ==> {
            if exists|i: int| first_occurrence_from(url@, '/', 0, i) {
                let i = choose|i: int| first_occurrence_from(url@, '/', 0, i);
                spec_route_of_token(
                    url@.subrange(0, i),
                    url@.subrange(i + 1, url@.len() as int),
                    true,
                    r,
                )
            } else {
                r == Result::<Route, FetchError>::Err(FetchError::InvalidRescaleType)
            }
        },
{
    let is_magic = str_eq(img_type.as_str(), "magic");
    let (token, rest): (String, String) = if is_magic {
        match find_char_from(url.as_str(), '/', 0) {
            None => {
                return Err(FetchError::InvalidRescaleType);
            },
            Some(i) => {
                let n = url.as_str().unicode_len();
                let t = substring(url.as_str(), 0, i);
                let u = substring(url.as_str(), i + 1, n);
                proof {
                    let iw = choose|iw: int| first_occurrence_from(url@, '/', 0, iw);
                    lemma_first_occurrence_unique(url@, '/', 0, i as int, iw);
                }
                (t, u)
            },
        }
    } else {
        (img_type, url)
    };
    if str_eq(token.as_str(), "purge") {
        Ok(Route::PurgeMagic(rest))
    } else if str_eq(token.as_str(), "thumbnail") {
        Ok(Route::Image { ty: ImgType::Thumbnail, url: rest, magic: is_magic })
    } else if str_eq(token.as_str(), "large") {
        Ok(Route::Image { ty: ImgType::Large, url: rest, magic: is_magic })
    } else {
        Err(FetchError::InvalidRescaleType)
    }
}

/// The upstream fetch URL for a source URL: the rescale type's base
/// URL, a path separator, and the source URL.
pub fn upstream_url(base: &str, url: &str) -> (r: String)
    ensures
        r@ == base@ + "/"@ + url@,
{
    let mut s = base.to_owned();
    s.append("/");
    s.append(url);
    s
}

} // verus!
