//! The on-disk envelope format: one saved image serialized to bytes and
//! read back, round-tripping key, image and capture time exactly.

use crate::image::{Image, ImgType, SavedImage};
use vstd::bytes::{
    lemma_auto_spec_u64_to_from_le_bytes, spec_u64_from_le_bytes, spec_u64_to_le_bytes,
    u64_from_le_bytes, u64_to_le_bytes,
};
use vstd::prelude::*;
use vstd::slice::{slice_index_get, slice_subrange, slice_to_vec};
use vstd::utf8::{decode_utf8, encode_utf8, encode_utf8_decode_utf8, encode_utf8_valid_utf8, valid_utf8};

verus! {

/// The envelope's one-byte rescale-type tag.
pub open spec fn spec_tag(ty: ImgType) -> u8 {
    match ty {
        ImgType::Thumbnail => 0u8,
        ImgType::Large => 1u8,
    }
}

/// The serialized envelope: the type tag, then URL, content type and
/// body — each as a little-endian 8-byte length followed by the bytes,
/// strings in UTF-8 — then the capture time's 8 bytes.
pub open spec fn spec_encode(
    ty: ImgType,
    url: Seq<char>,
    ct: Seq<char>,
    body: Seq<u8>,
    time_nanos: i64,
) -> Seq<u8> {
    let ub = encode_utf8(url);
    let cb = encode_utf8(ct);
    seq![spec_tag(ty)] + spec_u64_to_le_bytes(ub.len() as u64) + ub + spec_u64_to_le_bytes(
        cb.len() as u64,
    ) + cb + spec_u64_to_le_bytes(body.len() as u64) + body + spec_u64_to_le_bytes(
        time_nanos as u64,
    )
}

/// How a byte sequence reads back as an envelope: `None` unless the tag
/// is known, every length field fits exactly, nothing trails the end,
/// and both strings are valid UTF-8.
pub open spec fn spec_decode(b: Seq<u8>) -> Option<(ImgType, Seq<char>, Seq<char>, Seq<u8>, i64)> {
    if b.len() < 9 {
        None
    } else if b[0] != 0 && b[0] != 1 {
        None
    } else {
        let ty = if b[0] == 0 {
            ImgType::Thumbnail
        } else {
            ImgType::Large
        };
        let ulen = spec_u64_from_le_bytes(b.subrange(1, 9)) as int;
        if b.len() < 9 + ulen + 8 {
            None
        } else {
            let ub = b.subrange(9, 9 + ulen);
            let o1 = 9 + ulen;
            let clen = spec_u64_from_le_bytes(b.subrange(o1, o1 + 8)) as int;
            if b.len() < o1 + 8 + clen + 8 {
                None
            } else {
                let cb = b.subrange(o1 + 8, o1 + 8 + clen);
                let o2 = o1 + 8 + clen;
                let blen = spec_u64_from_le_bytes(b.subrange(o2, o2 + 8)) as int;
                if b.len() != o2 + 8 + blen + 8 {
                    None
                } else {
                    let body = b.subrange(o2 + 8, o2 + 8 + blen);
                    let time = spec_u64_from_le_bytes(
                        b.subrange(o2 + 8 + blen, b.len() as int),
                    ) as i64;
                    if valid_utf8(ub) && valid_utf8(cb) {
                        Some((ty, decode_utf8(ub), decode_utf8(cb), body, time))
                    } else {
                        None
                    }
                }
            }
        }
    }
}

/// Relies on String::from_utf8: the string whose UTF-8 encoding is the
/// input, failing exactly on bytes that are not valid UTF-8.
#[verifier::external_body]
fn string_from_utf8(v: Vec<u8>) -> (r: Option<String>)
    ensures
        r is Some <==> valid_utf8(v@),
        r is Some ==> r.unwrap()@ == decode_utf8(v@),
{
    String::from_utf8(v).ok()
}

/// Serialize one envelope.
pub fn encode_saved_image(s: &SavedImage) -> (r: Vec<u8>)
    ensures
        r@ == spec_encode(
            s.pair.0,
            s.pair.1@,
            s.image.content_type@,
            s.image.body@,
            s.time_nanos,
        ),
{
    let mut out: Vec<u8> = Vec::new();
    let tag: u8 = match s.pair.0 {
        ImgType::Thumbnail => 0,
        ImgType::Large => 1,
    };
    out.push(tag);
    let ub = s.pair.1.as_str().as_bytes();
    let mut piece = u64_to_le_bytes(ub.len() as u64);
    out.append(&mut piece);
    let mut piece = slice_to_vec(ub);
    out.append(&mut piece);
    let cb = s.image.content_type.as_str().as_bytes();
    let mut piece = u64_to_le_bytes(cb.len() as u64);
    out.append(&mut piece);
    let mut piece = slice_to_vec(cb);
    out.append(&mut piece);
    let mut piece = u64_to_le_bytes(s.image.body.len() as u64);
    out.append(&mut piece);
    let mut piece = slice_to_vec(s.image.body.as_slice());
    out.append(&mut piece);
    let mut piece = u64_to_le_bytes(#[verifier::truncate] (s.time_nanos as u64));
    out.append(&mut piece);
    proof {
        assert(out@ =~= spec_encode(
            s.pair.0,
            s.pair.1@,
            s.image.content_type@,
            s.image.body@,
            s.time_nanos,
        ));
    }
    out
}

/// Deserialize one envelope, returning `None` on any malformed input —
/// exactly the inputs `spec_decode` refuses.
pub fn decode_saved_image(b: &[u8]) -> (r: Option<SavedImage>)
    ensures
        match spec_decode(b@) {
            None => r is None,
            Some((ty, url, ct, body, time)) => r matches Some(s) && s.pair.0 == ty && s.pair.1@
                == url && s.image.content_type@ == ct && s.image.body@ == body && s.time_nanos
                == time,
        },
{
    let n = b.len();
    if n < 9 {
        return None;
    }
    let tag = *slice_index_get(b, 0);
    let ty = if tag == 0 {
        ImgType::Thumbnail
    } else if tag == 1 {
        ImgType::Large
    } else {
        return None;
    };
    let ulen64 = u64_from_le_bytes(slice_subrange(b, 1, 9));
    if 9 + ulen64 as u128 + 8 > n as u128 {
        return None;
    }
    let ulen = ulen64 as usize;
    let ub = slice_subrange(b, 9, 9 + ulen);
    let o1 = 9 + ulen;
    let clen64 = u64_from_le_bytes(slice_subrange(b, o1, o1 + 8));
    if o1 as u128 + 8 + clen64 as u128 + 8 > n as u128 {
        return None;
    }
    let clen = clen64 as usize;
    let cb = slice_subrange(b, o1 + 8, o1 + 8 + clen);
    let o2 = o1 + 8 + clen;
    let blen64 = u64_from_le_bytes(slice_subrange(b, o2, o2 + 8));
    if o2 as u128 + 8 + blen64 as u128 + 8 != n as u128 {
        return None;
    }
    let blen = blen64 as usize;
    let body = slice_to_vec(slice_subrange(b, o2 + 8, o2 + 8 + blen));
    let time64 = u64_from_le_bytes(slice_subrange(b, o2 + 8 + blen, n));
    let time = #[verifier::truncate] (time64 as i64);
    let url = match string_from_utf8(slice_to_vec(ub)) {
        None => {
            return None;
        },
        Some(u) => u,
    };
    let ct = match string_from_utf8(slice_to_vec(cb)) {
        None => {
            return None;
        },
        Some(c) => c,
    };
    Some(SavedImage { pair: (ty, url), image: Image { content_type: ct, body }, time_nanos: time })
}

/// Decoding inverts encoding: every envelope reads back exactly as it
/// was written — key, image and capture time.
pub proof fn lemma_codec_round_trip(
    ty: ImgType,
    url: Seq<char>,
    ct: Seq<char>,
    body: Seq<u8>,
    time_nanos: i64,
)
    requires
        encode_utf8(url).len() < 0x1_0000_0000_0000_0000,
        encode_utf8(ct).len() < 0x1_0000_0000_0000_0000,
        body.len() < 0x1_0000_0000_0000_0000,
    ensures
        spec_decode(spec_encode(ty, url, ct, body, time_nanos)) == Some(
            (ty, url, ct, body, time_nanos),
        ),
{
    lemma_auto_spec_u64_to_from_le_bytes();
    broadcast use encode_utf8_valid_utf8;
    broadcast use encode_utf8_decode_utf8;

    let ub = encode_utf8(url);
    let cb = encode_utf8(ct);
    let e = spec_encode(ty, url, ct, body, time_nanos);
    assert(spec_u64_to_le_bytes(ub.len() as u64).len() == 8);
    assert(spec_u64_to_le_bytes(cb.len() as u64).len() == 8);
    assert(spec_u64_to_le_bytes(body.len() as u64).len() == 8);
    assert(spec_u64_to_le_bytes(time_nanos as u64).len() == 8);
    assert(e.len() == 1 + 8 + ub.len() + 8 + cb.len() + 8 + body.len() + 8);
    assert(e[0] == spec_tag(ty));
    assert(e.subrange(1, 9) =~= spec_u64_to_le_bytes(ub.len() as u64));
    let ulen = spec_u64_from_le_bytes(e.subrange(1, 9)) as int;
    assert(ulen == ub.len());
    assert(e.subrange(9, 9 + ulen) =~= ub);
    let o1 = 9 + ulen;
    assert(e.subrange(o1, o1 + 8) =~= spec_u64_to_le_bytes(cb.len() as u64));
    let clen = spec_u64_from_le_bytes(e.subrange(o1, o1 + 8)) as int;
    assert(clen == cb.len());
    assert(e.subrange(o1 + 8, o1 + 8 + clen) =~= cb);
    let o2 = o1 + 8 + clen;
    assert(e.subrange(o2, o2 + 8) =~= spec_u64_to_le_bytes(body.len() as u64));
    let blen = spec_u64_from_le_bytes(e.subrange(o2, o2 + 8)) as int;
    assert(blen == body.len());
    assert(e.subrange(o2 + 8, o2 + 8 + blen) =~= body);
    assert(e.subrange(o2 + 8 + blen, e.len() as int) =~= spec_u64_to_le_bytes(
        time_nanos as u64,
    ));
    assert(((time_nanos as u64) as i64) == time_nanos) by (bit_vector);
    assert(spec_tag(ty) == 0 ==> ty == ImgType::Thumbnail);
    assert(spec_tag(ty) == 1 ==> ty == ImgType::Large);
}

} // verus!
