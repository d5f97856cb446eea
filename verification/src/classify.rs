//! Classification of one outbound retrieval into the closed error
//! taxonomy. The retrieval itself happens outside; what it observed
//! arrives here as plain values and is judged in a fixed order. There is
//! no cache and no retry at this level — exactly one observation per
//! call.

use crate::errors::FetchError;
use crate::image::Image;
use crate::text::{spec_starts_with, starts_with};
use vstd::prelude::*;

verus! {

/// A successful HTTP status: the 2xx range.
pub open spec fn spec_is_success_status(s: u16) -> bool {
    200 <= s < 300
}

/// What one image retrieval observed, reduced to plain values. `None`
/// fields record that the piece could not be obtained: no usable
/// content-type header, or a body that could not be drained.
pub struct HttpReply {
    pub status: u16,
    pub content_type: Option<String>,
    pub body: Option<Vec<u8>>,
}

/// What one magic-text retrieval observed. `text` is `None` when the
/// body could not be decoded as text.
pub struct TextReply {
    pub status: u16,
    pub content_type: Option<String>,
    pub text: Option<String>,
}

/// Judge an image retrieval: a reply that never arrived is
/// `RequestFailed`; a non-2xx status is `Status`; a missing or empty
/// content type is `UnsupportedContentType`; an undrained body is
/// `BodyReadFailed`; everything else is the image, exactly as observed.
pub fn classify_image_reply(reply: Option<HttpReply>) -> (r: Result<Image, FetchError>)
    ensures
        match reply {
            None => r == Result::<Image, FetchError>::Err(FetchError::RequestFailed),
            Some(rep) => {
                if !spec_is_success_status(rep.status) {
                    r == Result::<Image, FetchError>::Err(FetchError::Status(rep.status))
                } else if rep.content_type is None || rep.content_type.unwrap()@.len() == 0 {
                    r == Result::<Image, FetchError>::Err(FetchError::UnsupportedContentType)
                } else if rep.body is None {
                    r == Result::<Image, FetchError>::Err(FetchError::BodyReadFailed)
                } else {
                    r matches Ok(img) && img.content_type@ == rep.content_type.unwrap()@
                        && img.body@ == rep.body.unwrap()@
                }
            },
        },
{
    match reply {
        None => Err(FetchError::RequestFailed),
        Some(rep) => {
            if !(200 <= rep.status && rep.status < 300) {
                return Err(FetchError::Status(rep.status));
            }
            let ct = match rep.content_type {
                None => {
                    return Err(FetchError::UnsupportedContentType);
                },
                Some(ct) => ct,
            };
            if ct.as_str().unicode_len() == 0 {
                return Err(FetchError::UnsupportedContentType);
            }
            match rep.body {
                None => Err(FetchError::BodyReadFailed),
                Some(body) => Ok(Image { content_type: ct, body }),
            }
        },
    }
}

/// Judge a magic-text retrieval: as for images, except that the content
/// type must additionally start with `text/plain`, and a body that could
/// not be decoded is `TextReadFailed`. The result is the document's text
/// with the observed status.
pub fn classify_magic_reply(reply: Option<TextReply>) -> (r: Result<(String, u16), FetchError>)
    ensures
        match reply {
            None => r == Result::<(String, u16), FetchError>::Err(FetchError::RequestFailed),
            Some(rep) => {
                if !spec_is_success_status(rep.status) {
                    r == Result::<(String, u16), FetchError>::Err(FetchError::Status(rep.status))
                } else if rep.content_type is None || rep.content_type.unwrap()@.len() == 0
                    || !spec_starts_with(rep.content_type.unwrap()@, "text/plain"@) {
                    r == Result::<(String, u16), FetchError>::Err(
                        FetchError::UnsupportedContentType,
                    )
                } else if rep.text is None {
                    r == Result::<(String, u16), FetchError>::Err(FetchError::TextReadFailed)
                } else {
                    r matches Ok((t, s)) && t@ == rep.text.unwrap()@ && s == rep.status
                }
            },
        },
{
    match reply {
        None => Err(FetchError::RequestFailed),
        Some(rep) => {
            if !(200 <= rep.status && rep.status < 300) {
                return Err(FetchError::Status(rep.status));
            }
            let ct = match rep.content_type {
                None => {
                    return Err(FetchError::UnsupportedContentType);
                },
                Some(ct) => ct,
            };
            if ct.as_str().unicode_len() == 0 || !starts_with(ct.as_str(), "text/plain") {
                return Err(FetchError::UnsupportedContentType);
            }
            match rep.text {
                None => Err(FetchError::TextReadFailed),
                Some(t) => Ok((t, rep.status)),
            }
        },
    }
}

} // verus!
