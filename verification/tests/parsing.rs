use imgproxy::backoff::{backoff_seconds, within_backoff, MAX_REFRESH_TIMEOUT};
use imgproxy::classify::{classify_image_reply, classify_magic_reply, HttpReply, TextReply};
use imgproxy::data_uri::{decode_data_uri, is_data_image_url};
use imgproxy::errors::FetchError;
use imgproxy::image::ImgType;
use imgproxy::magic::cache_duration_for_status;
use imgproxy::route::{parse_route, Route};

#[test]
fn plain_route_parses_each_type_token() {
    match parse_route("thumbnail".to_string(), "http://a/b.png".to_string()) {
        Ok(Route::Image { ty, url, magic }) => {
            assert_eq!(ty, ImgType::Thumbnail);
            assert_eq!(url, "http://a/b.png");
            assert!(!magic);
        },
        _ => panic!("expected a thumbnail image route"),
    }
    match parse_route("large".to_string(), "x".to_string()) {
        Ok(Route::Image { ty, magic, .. }) => {
            assert_eq!(ty, ImgType::Large);
            assert!(!magic);
        },
        _ => panic!("expected a large image route"),
    }
    assert!(matches!(
        parse_route("medium".to_string(), "x".to_string()),
        Err(FetchError::InvalidRescaleType)
    ));
}

#[test]
fn magic_route_splits_at_first_slash() {
    match parse_route("magic".to_string(), "large/http://a/b?q=1".to_string()) {
        Ok(Route::Image { ty, url, magic }) => {
            assert_eq!(ty, ImgType::Large);
            assert_eq!(url, "http://a/b?q=1");
            assert!(magic);
        },
        _ => panic!("expected a magic image route"),
    }
    // No slash after the magic marker: rejected.
    assert!(matches!(
        parse_route("magic".to_string(), "large".to_string()),
        Err(FetchError::InvalidRescaleType)
    ));
}

#[test]
fn purge_route_wins_with_and_without_magic() {
    match parse_route("purge".to_string(), "http://magic/doc".to_string()) {
        Ok(Route::PurgeMagic(url)) => assert_eq!(url, "http://magic/doc"),
        _ => panic!("expected a purge route"),
    }
    match parse_route("magic".to_string(), "purge/http://magic/doc".to_string()) {
        Ok(Route::PurgeMagic(url)) => assert_eq!(url, "http://magic/doc"),
        _ => panic!("expected a purge route under the magic marker"),
    }
}

#[test]
fn data_uri_decodes_type_and_payload() {
    let url = String::from("data:image/png;base64,aGVsbG8=");
    assert!(is_data_image_url(&url));
    match decode_data_uri(&url) {
        Ok(image) => {
            assert_eq!(image.content_type, "image/png");
            assert_eq!(image.body, b"hello".to_vec());
        },
        Err(_) => panic!("expected the inline image to decode"),
    }
}

#[test]
fn data_uri_without_parameters_keeps_whole_type_segment() {
    let url = String::from("data:image/gif,R0lGOA==");
    assert!(is_data_image_url(&url));
    match decode_data_uri(&url) {
        Ok(image) => {
            assert_eq!(image.content_type, "image/gif");
            assert_eq!(image.body, b"GIF8".to_vec());
        },
        Err(_) => panic!("expected the inline image to decode"),
    }
}

#[test]
fn data_uri_missing_comma_is_invalid() {
    let url = String::from("data:image/png;base64");
    assert!(is_data_image_url(&url));
    assert!(matches!(decode_data_uri(&url), Err(FetchError::InvalidDataUrl)));
}

#[test]
fn data_uri_bad_payload_is_invalid() {
    let url = String::from("data:image/png;base64,@@@@");
    assert!(matches!(decode_data_uri(&url), Err(FetchError::InvalidDataUrl)));
}

#[test]
fn data_uri_prefix_check_rejects_other_schemes() {
    assert!(!is_data_image_url(&String::from("http://a/b.png")));
    assert!(!is_data_image_url(&String::from("data:text/plain,hi")));
    assert!(!is_data_image_url(&String::from("data:image")));
}

#[test]
fn image_reply_classification_covers_each_error() {
    assert!(matches!(classify_image_reply(None), Err(FetchError::RequestFailed)));
    let reply = HttpReply { status: 404, content_type: None, body: None };
    assert!(matches!(classify_image_reply(Some(reply)), Err(FetchError::Status(404))));
    let reply = HttpReply { status: 200, content_type: None, body: Some(vec![1]) };
    assert!(matches!(classify_image_reply(Some(reply)), Err(FetchError::UnsupportedContentType)));
    let reply = HttpReply { status: 200, content_type: Some(String::new()), body: Some(vec![1]) };
    assert!(matches!(classify_image_reply(Some(reply)), Err(FetchError::UnsupportedContentType)));
    let reply = HttpReply { status: 204, content_type: Some("image/png".to_string()), body: None };
    assert!(matches!(classify_image_reply(Some(reply)), Err(FetchError::BodyReadFailed)));
    let reply = HttpReply {
        status: 200,
        content_type: Some("image/png".to_string()),
        body: Some(b"pix".to_vec()),
    };
    match classify_image_reply(Some(reply)) {
        Ok(image) => {
            assert_eq!(image.content_type, "image/png");
            assert_eq!(image.body, b"pix".to_vec());
        },
        Err(_) => panic!("expected the reply to classify as an image"),
    }
}

#[test]
fn magic_reply_requires_plain_text() {
    assert!(matches!(classify_magic_reply(None), Err(FetchError::RequestFailed)));
    let reply = TextReply { status: 500, content_type: None, text: None };
    assert!(matches!(classify_magic_reply(Some(reply)), Err(FetchError::Status(500))));
    let reply = TextReply {
        status: 200,
        content_type: Some("application/json".to_string()),
        text: Some("{}".to_string()),
    };
    assert!(matches!(classify_magic_reply(Some(reply)), Err(FetchError::UnsupportedContentType)));
    let reply = TextReply {
        status: 200,
        content_type: Some("text/plain; charset=utf-8".to_string()),
        text: None,
    };
    assert!(matches!(classify_magic_reply(Some(reply)), Err(FetchError::TextReadFailed)));
    let reply = TextReply {
        status: 201,
        content_type: Some("text/plain".to_string()),
        text: Some("http://real/img.png".to_string()),
    };
    match classify_magic_reply(Some(reply)) {
        Ok((text, status)) => {
            assert_eq!(text, "http://real/img.png");
            assert_eq!(status, 201);
        },
        Err(_) => panic!("expected the reply to classify as magic text"),
    }
}

#[test]
fn backoff_window_doubles_to_the_cap() {
    assert_eq!(backoff_seconds(1), 1);
    assert_eq!(backoff_seconds(2), 2);
    assert_eq!(backoff_seconds(3), 4);
    assert_eq!(backoff_seconds(11), 1024);
    assert_eq!(backoff_seconds(12), 2048);
    assert_eq!(backoff_seconds(13), MAX_REFRESH_TIMEOUT);
    assert_eq!(backoff_seconds(64), MAX_REFRESH_TIMEOUT);
    assert_eq!(backoff_seconds(100), MAX_REFRESH_TIMEOUT);
}

#[test]
fn backoff_boundary_is_exact() {
    assert!(within_backoff(1, 0, 999_999_999));
    assert!(!within_backoff(1, 0, 1_000_000_000));
    assert!(within_backoff(2, 0, 1_999_999_999));
    assert!(!within_backoff(2, 0, 2_000_000_000));
    // A clock that moved backwards is still inside the window.
    assert!(within_backoff(1, 5_000_000_000, 4_000_000_000));
}

#[test]
fn magic_cache_duration_depends_on_status() {
    assert_eq!(cache_duration_for_status(200), 60 * 60);
    assert_eq!(cache_duration_for_status(201), 0);
    assert_eq!(cache_duration_for_status(404), 0);
    assert_eq!(cache_duration_for_status(500), 0);
}
