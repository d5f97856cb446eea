use imgproxy::route::upstream_url;

#[test]
fn upstream_url_joins_base_and_source() {
    assert_eq!(
        upstream_url("http://rescale.example/thumb", "http://pics/one.png"),
        "http://rescale.example/thumb/http://pics/one.png"
    );
    assert_eq!(upstream_url("", ""), "/");
}
