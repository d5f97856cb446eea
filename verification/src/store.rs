//! Content-addressed placement in the disk store: a key maps to a shard
//! directory and file name derived from the SHA-256 of its URL, with the
//! rescale type as a parallel path segment so identical URLs under
//! different types never collide.

use crate::image::{ImgPair, ImgType};
use sha2::Digest;
use vstd::prelude::*;
use vstd::utf8::encode_utf8;

verus! {

/// The SHA-256 digest of a byte sequence: a function of the input alone.
pub uninterp spec fn sha256_of(data: Seq<u8>) -> Seq<u8>;

/// Relies on sha2::Sha256::digest: the SHA-256 digest of the input, 32
/// bytes, depending on the input bytes alone.
#[verifier::external_body]
pub fn sha256(data: &[u8]) -> (r: [u8; 32])
    ensures
        r@ == sha256_of(data@),
{
    sha2::Sha256::digest(data).into()
}

/// The lowercase hex digit for one value below 16.
pub open spec fn hex_digit(n: u8) -> char
    recommends
        n < 16,
{
    if n < 10 {
        ((n + 0x30) as u8) as char
    } else {
        ((n + 0x57) as u8) as char
    }
}

/// Lowercase hex encoding: two digits per byte, in byte order.
pub open spec fn spec_hex(data: Seq<u8>) -> Seq<char>
    decreases data.len(),
{
    if data.len() == 0 {
        Seq::empty()
    } else {
        spec_hex(data.drop_last()) + seq![
            hex_digit(data.last() / 16),
            hex_digit(data.last() % 16),
        ]
    }
}

/// Hex encoding writes exactly two characters per byte.
pub proof fn lemma_spec_hex_len(data: Seq<u8>)
    ensures
        spec_hex(data).len() == 2 * data.len(),
    decreases data.len(),
{
    if data.len() > 0 {
        lemma_spec_hex_len(data.drop_last());
    }
}

/// Hex encoding is injective on byte sequences of equal length.
pub proof fn lemma_spec_hex_injective(a: Seq<u8>, b: Seq<u8>)
    requires
        a.len() == b.len(),
        spec_hex(a) == spec_hex(b),
    ensures
        a == b,
    decreases a.len(),
{
    lemma_spec_hex_len(a);
    lemma_spec_hex_len(b);
    if a.len() > 0 {
        let ha = spec_hex(a);
        let hb = spec_hex(b);
        lemma_spec_hex_len(a.drop_last());
        lemma_spec_hex_len(b.drop_last());
        assert(ha[ha.len() - 2] == hex_digit(a.last() / 16));
        assert(ha[ha.len() - 1] == hex_digit(a.last() % 16));
        assert(hb[hb.len() - 2] == hex_digit(b.last() / 16));
        assert(hb[hb.len() - 1] == hex_digit(b.last() % 16));
        assert(a.last() == b.last());
        assert(spec_hex(a.drop_last()) =~= ha.subrange(0, ha.len() - 2));
        assert(spec_hex(b.drop_last()) =~= hb.subrange(0, hb.len() - 2));
        lemma_spec_hex_injective(a.drop_last(), b.drop_last());
        assert forall|i: int| 0 <= i < a.len() implies a[i] == b[i] by {
            if i < a.len() - 1 {
                assert(a[i] == a.drop_last()[i]);
                assert(b[i] == b.drop_last()[i]);
            }
        }
        assert(a =~= b);
    } else {
        assert(a =~= b);
    }
}

/// The path segment naming a rescale type.
pub open spec fn spec_type_name(ty: ImgType) -> Seq<char> {
    match ty {
        ImgType::Thumbnail => "Thumbnail"@,
        ImgType::Large => "Large"@,
    }
}

/// The shard directory a key's envelope lives in: the cache root, the
/// rescale type, then the first three and next three hex characters of
/// the URL's digest.
pub open spec fn spec_store_dir(ty: ImgType, url: Seq<char>) -> Seq<char> {
    let h = spec_hex(sha256_of(encode_utf8(url)));
    "cache/"@ + spec_type_name(ty) + "/"@ + h.subrange(0, 3) + "/"@ + h.subrange(3, 6)
}

/// The envelope's file path: the shard directory and the remaining hex
/// characters of the digest as file name.
pub open spec fn spec_store_path(ty: ImgType, url: Seq<char>) -> Seq<char> {
    let h = spec_hex(sha256_of(encode_utf8(url)));
    spec_store_dir(ty, url) + "/"@ + h.subrange(6, h.len() as int)
}

/// Relies on hex::encode: two lowercase hex digits per input byte, in
/// byte order.
#[verifier::external_body]
fn hex_encode(data: &[u8]) -> (r: String)
    ensures
        r@ == spec_hex(data@),
{
    hex::encode(data)
}

fn type_segment(ty: ImgType) -> (r: &'static str)
    ensures
        r@ == spec_type_name(ty),
{
    match ty {
        ImgType::Thumbnail => "Thumbnail",
        ImgType::Large => "Large",
    }
}

/// The deterministic placement of a key in the disk store: its shard
/// directory and its file path.
pub fn pair_to_path(pair: &ImgPair) -> (r: (String, String))
    ensures
        r.0@ == spec_store_dir(pair.0, pair.1@),
        r.1@ == spec_store_path(pair.0, pair.1@),
{
    let digest = sha256(pair.1.as_str().as_bytes());
    let h = hex_encode(digest.as_slice());
    proof {
        lemma_spec_hex_len(sha256_of(encode_utf8(pair.1@)));
    }
    let hs = h.as_str();
    let hn = hs.unicode_len();
    let d1 = hs.substring_char(0, 3);
    let d2 = hs.substring_char(3, 6);
    let rest = hs.substring_char(6, hn);
    let mut dir = "cache/".to_owned();
    dir.append(type_segment(pair.0));
    dir.append("/");
    dir.append(d1);
    dir.append("/");
    dir.append(d2);
    let mut path = dir.clone();
    path.append("/");
    path.append(rest);
    proof {
        assert(dir@ =~= spec_store_dir(pair.0, pair.1@));
        assert(path@ =~= spec_store_path(pair.0, pair.1@));
    }
    (dir, path)
}

/// Content addressing is collision-resistant up to the hash: two keys
/// whose rescale types differ, or whose URL digests differ, are placed
/// at distinct file paths. With equal types and equal digests the path
/// is the same — the same key always maps to the same place.
pub proof fn lemma_store_paths_distinct(
    t1: ImgType,
    u1: Seq<char>,
    t2: ImgType,
    u2: Seq<char>,
)
    requires
        sha256_of(encode_utf8(u1)).len() == 32,
        sha256_of(encode_utf8(u2)).len() == 32,
        t1 != t2 || sha256_of(encode_utf8(u1)) != sha256_of(encode_utf8(u2)),
    ensures
        spec_store_path(t1, u1) != spec_store_path(t2, u2),
{
    let h1 = spec_hex(sha256_of(encode_utf8(u1)));
    let h2 = spec_hex(sha256_of(encode_utf8(u2)));
    lemma_spec_hex_len(sha256_of(encode_utf8(u1)));
    lemma_spec_hex_len(sha256_of(encode_utf8(u2)));
    let p1 = spec_store_path(t1, u1);
    let p2 = spec_store_path(t2, u2);
    reveal_strlit("cache/");
    reveal_strlit("/");
    reveal_strlit("Thumbnail");
    reveal_strlit("Large");
    if t1 != t2 {
        assert(spec_type_name(t1).len() != spec_type_name(t2).len());
        assert(p1.len() != p2.len());
    } else {
        if p1 == p2 {
            let base = 6 + spec_type_name(t1).len() as int + 1;
            assert forall|i: int| 0 <= i < 64 implies h1[i] == h2[i] by {
                if i < 3 {
                    assert(p1[base + i] == h1[i]);
                    assert(p2[base + i] == h2[i]);
                } else if i < 6 {
                    assert(p1[base + 1 + i] == h1[i]);
                    assert(p2[base + 1 + i] == h2[i]);
                } else {
                    assert(p1[base + 2 + i] == h1[i]);
                    assert(p2[base + 2 + i] == h2[i]);
                }
            }
            assert(h1 =~= h2);
            lemma_spec_hex_injective(sha256_of(encode_utf8(u1)), sha256_of(encode_utf8(u2)));
            assert(false);
        }
    }
}

} // verus!
