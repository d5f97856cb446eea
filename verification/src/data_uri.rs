//! The inline-image shortcut: a URL that carries its image as a base64
//! payload is decoded directly and never touches a cache or the store.

use crate::errors::FetchError;
use crate::image::Image;
use crate::text::{find_char_from, first_occurrence_from, lemma_first_occurrence_unique, substring};
use base64::Engine;
use vstd::prelude::*;

verus! {

/// What base64's standard-alphabet decoder returns: a function of the
/// input characters alone, `None` where the input is not a valid padded
/// standard-alphabet encoding.
pub uninterp spec fn b64_decode_of(s: Seq<char>) -> Option<Seq<u8>>;

/// Relies on base64's `STANDARD` engine `decode`: the result depends on
/// the input characters alone, and decoding fails exactly on inputs the
/// engine rejects.
#[verifier::external_body]
fn b64_decode(s: &str) -> (r: Option<Vec<u8>>)
    ensures
        r is Some <==> b64_decode_of(s@) is Some,
        r is Some ==> r.unwrap()@ == b64_decode_of(s@).unwrap(),
{
    base64::engine::general_purpose::STANDARD.decode(s).ok()
}

/// The URL begins with the inline-image-data scheme prefix.
pub open spec fn spec_is_data_image_url(u: Seq<char>) -> bool {
    u.len() >= 11 && u.subrange(0, 11) == "data:image/"@
}

/// Check for the inline-image-data scheme prefix.
pub fn is_data_image_url(url: &String) -> (r: bool)
    ensures
        r == spec_is_data_image_url(url@),
{
    let s = url.as_str();
    if s.unicode_len() < 11 {
        proof {
            reveal_strlit("data:image/");
        }
        return false;
    }
    let prefix = s.substring_char(0, 11);
    crate::text::str_eq(prefix, "data:image/")
}

/// How an inline URL splits, after the scheme tag: the type segment runs
/// from behind `data:` up to the first `;` (parameters are discarded) or
/// the first `,`, whichever comes first, and the payload is everything
/// after that first `,`. A URL with no `,` does not split.
pub open spec fn spec_data_parts(u: Seq<char>) -> Option<(Seq<char>, Seq<char>)>
    recommends
        u.len() >= 5,
{
    if exists|c: int| first_occurrence_from(u, ',', 5, c) {
        let c = choose|c: int| first_occurrence_from(u, ',', 5, c);
        let e = if exists|j: int| first_occurrence_from(u, ';', 5, j) && j < c {
            choose|j: int| first_occurrence_from(u, ';', 5, j) && j < c
        } else {
            c
        };
        Some((u.subrange(5, e), u.subrange(c + 1, u.len() as int)))
    } else {
        None
    }
}

/// Decode an inline image URL: split it into type segment and payload,
/// base64-decode the payload, and return the image. A URL that does not
/// split, or whose payload does not decode, is `InvalidDataUrl` — the
/// only error this path returns.
pub fn decode_data_uri(url: &String) -> (r: Result<Image, FetchError>)
    requires
        spec_is_data_image_url(url@),
    ensures
        match spec_data_parts(url@) {
            None => r == Result::<Image, FetchError>::Err(FetchError::InvalidDataUrl),
            Some((ct, payload)) => match b64_decode_of(payload) {
                None => r == Result::<Image, FetchError>::Err(FetchError::InvalidDataUrl),
                Some(bytes) => (r matches Ok(img) && img.content_type@ == ct && img.body@
                    == bytes),
            },
        },
{
    let s = url.as_str();
    let n = s.unicode_len();
    match find_char_from(s, ',', 5) {
        None => Err(FetchError::InvalidDataUrl),
        Some(c) => {
            proof {
                let cw = choose|cw: int| first_occurrence_from(url@, ',', 5, cw);
                lemma_first_occurrence_unique(url@, ',', 5, c as int, cw);
            }
            let semi = find_char_from(s, ';', 5);
            let e: usize = match semi {
                Some(j) => {
                    proof {
                        if exists|jw: int|
                            first_occurrence_from(url@, ';', 5, jw) && jw < c as int {
                            let jw = choose|jw: int|
                                first_occurrence_from(url@, ';', 5, jw) && jw < c as int;
                            lemma_first_occurrence_unique(url@, ';', 5, j as int, jw);
                        }
                    }
                    if j < c {
                        j
                    } else {
                        c
                    }
                },
                None => c,
            };
            let ct = substring(s, 5, e);
            let payload = substring(s, c + 1, n);
            match b64_decode(payload.as_str()) {
                None => Err(FetchError::InvalidDataUrl),
                Some(bytes) => Ok(Image { content_type: ct, body: bytes }),
            }
        },
    }
}

} // verus!
