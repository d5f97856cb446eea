use imgproxy::codec::{decode_saved_image, encode_saved_image};
use imgproxy::image::{Image, ImgType, SavedImage};
use imgproxy::img_cache::{ImageCache, ImgLookup};
use imgproxy::store::{pair_to_path, sha256};

#[test]
fn sha256_matches_the_published_test_vector() {
    let digest = sha256(b"abc");
    assert_eq!(
        digest.to_vec(),
        vec![
            0xba, 0x78, 0x16, 0xbf, 0x8f, 0x01, 0xcf, 0xea, 0x41, 0x41, 0x40, 0xde, 0x5d, 0xae,
            0x22, 0x23, 0xb0, 0x03, 0x61, 0xa3, 0x96, 0x17, 0x7a, 0x9c, 0xb4, 0x10, 0xff, 0x61,
            0xf2, 0x00, 0x15, 0xad,
        ]
    );
}

#[test]
fn path_has_the_exact_sharded_shape() {
    let pair = (ImgType::Thumbnail, String::from("abc"));
    let (dir, path) = pair_to_path(&pair);
    assert_eq!(dir, "cache/Thumbnail/ba7/816");
    assert_eq!(
        path,
        "cache/Thumbnail/ba7/816/bf8f01cfea414140de5dae2223b00361a396177a9cb410ff61f20015ad"
    );
}

#[test]
fn path_is_deterministic_and_type_sharded() {
    let a1 = pair_to_path(&(ImgType::Large, String::from("http://a/b.png")));
    let a2 = pair_to_path(&(ImgType::Large, String::from("http://a/b.png")));
    assert_eq!(a1, a2);
    // The same URL under the other rescale type lands elsewhere.
    let b = pair_to_path(&(ImgType::Thumbnail, String::from("http://a/b.png")));
    assert_ne!(a1.1, b.1);
    // URLs sharing no prefix land at distinct paths.
    let c = pair_to_path(&(ImgType::Large, String::from("zzz://other")));
    assert_ne!(a1.1, c.1);
}

#[test]
fn envelope_round_trips_exactly() {
    let saved = SavedImage {
        pair: (ImgType::Large, String::from("http://a/übild.png")),
        image: Image {
            content_type: String::from("image/png"),
            body: vec![0, 1, 2, 255, 254],
        },
        time_nanos: 1_700_000_000_123_456_789,
    };
    let bytes = encode_saved_image(&saved);
    let back = decode_saved_image(bytes.as_slice()).expect("the envelope must read back");
    assert_eq!(back.pair.0, ImgType::Large);
    assert_eq!(back.pair.1, "http://a/übild.png");
    assert_eq!(back.image.content_type, "image/png");
    assert_eq!(back.image.body, vec![0, 1, 2, 255, 254]);
    assert_eq!(back.time_nanos, 1_700_000_000_123_456_789);
}

#[test]
fn envelope_bytes_are_the_documented_layout() {
    let saved = SavedImage {
        pair: (ImgType::Thumbnail, String::from("a")),
        image: Image { content_type: String::from("t"), body: vec![9] },
        time_nanos: 2,
    };
    let bytes = encode_saved_image(&saved);
    let expected: Vec<u8> = vec![
        0, // tag
        1, 0, 0, 0, 0, 0, 0, 0, b'a', // URL
        1, 0, 0, 0, 0, 0, 0, 0, b't', // content type
        1, 0, 0, 0, 0, 0, 0, 0, 9, // body
        2, 0, 0, 0, 0, 0, 0, 0, // time
    ];
    assert_eq!(bytes, expected);
}

#[test]
fn truncated_or_trailing_envelopes_are_refused() {
    let saved = SavedImage {
        pair: (ImgType::Thumbnail, String::from("a")),
        image: Image { content_type: String::from("t"), body: vec![9] },
        time_nanos: 2,
    };
    let bytes = encode_saved_image(&saved);
    assert!(decode_saved_image(&bytes[..bytes.len() - 1]).is_none());
    let mut longer = bytes.clone();
    longer.push(0);
    assert!(decode_saved_image(longer.as_slice()).is_none());
    let mut bad_tag = bytes.clone();
    bad_tag[0] = 7;
    assert!(decode_saved_image(bad_tag.as_slice()).is_none());
    assert!(decode_saved_image(&[]).is_none());
}

#[test]
fn disk_envelope_repopulates_the_memory_cache() {
    // A disk hit: the decoded envelope installs a success entry and
    // serves the identical image, with no upstream contact.
    let saved = SavedImage {
        pair: (ImgType::Thumbnail, String::from("http://pics/warm.png")),
        image: Image { content_type: String::from("image/webp"), body: b"warm".to_vec() },
        time_nanos: 77,
    };
    let bytes = encode_saved_image(&saved);
    let mut cache = ImageCache::new();
    let url = String::from("http://pics/warm.png");
    assert!(matches!(cache.lookup(ImgType::Thumbnail, &url, 100), ImgLookup::Miss));
    let from_disk = decode_saved_image(bytes.as_slice()).expect("the envelope must read back");
    let served = cache.install_saved(from_disk);
    assert_eq!(served.content_type, "image/webp");
    assert_eq!(served.body, b"warm".to_vec());
    match cache.lookup(ImgType::Thumbnail, &url, 200) {
        ImgLookup::Hit(image) => {
            assert_eq!(image.content_type, "image/webp");
            assert_eq!(image.body, b"warm".to_vec());
        },
        _ => panic!("expected the repopulated entry to serve from memory"),
    }
}
