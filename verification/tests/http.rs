use proxy_balancer::http::{
    empty_file_response, error_response, error_response_endpoint, is_gzip, no_content_response,
    response_with_body_and_code, status_response, tile_response, timeout_response,
    unreachable_response, worker_not_found_response, Body, HttpResponse,
};
use proxy_balancer::json::{single_member_body, status_message_body};

fn headers(r: &HttpResponse) -> Vec<(&str, &str)> {
    r.headers.iter().map(|h| (h.name.as_str(), h.value.as_str())).collect()
}

fn text(r: &HttpResponse) -> &str {
    match &r.body {
        Body::Text(s) => s.as_str(),
        other => panic!("{:?}", other),
    }
}

#[test]
fn gzip_tiles_are_served_with_content_encoding() {
    let tile = vec![0x1f, 0x8b, 0x08, 0x00, 0x01];
    assert!(is_gzip(&tile));
    let r = tile_response(tile.clone(), "application/vnd.mapbox-vector-tile");
    assert_eq!(r.status, 200);
    assert_eq!(
        headers(&r),
        vec![
            ("Content-type", "application/vnd.mapbox-vector-tile"),
            ("Access-Control-Allow-Origin", "*"),
            ("Cache-Control", "max-age=0"),
            ("Content-Encoding", "gzip"),
        ]
    );
    assert!(matches!(&r.body, Body::Bytes(b) if *b == tile));
}

#[test]
fn other_tiles_are_served_without_content_encoding() {
    for tile in [
        vec![],
        vec![0x1f],
        vec![0x1f, 0x8b],
        vec![0x1f, 0x8b, 0x07],
        vec![0x8b, 0x1f, 0x08],
        vec![0x89, 0x50, 0x4e, 0x47],
    ] {
        assert!(!is_gzip(&tile));
        let r = tile_response(tile.clone(), "image/png");
        assert_eq!(r.status, 200);
        assert_eq!(
            headers(&r),
            vec![
                ("Content-type", "image/png"),
                ("Access-Control-Allow-Origin", "*"),
                ("Cache-Control", "max-age=0"),
            ]
        );
        assert!(matches!(&r.body, Body::Bytes(b) if *b == tile));
    }
}

#[test]
fn tile_of_42_bytes_from_disk() {
    let mut tile = vec![0x89, 0x50, 0x4e, 0x47, 0x0d, 0x0a, 0x1a, 0x0a];
    tile.resize(42, 0);
    let r = tile_response(tile, "image/png");
    assert_eq!(r.status, 200);
    assert!(headers(&r).contains(&("Content-type", "image/png")));
    match &r.body {
        Body::Bytes(b) => assert_eq!(b.len(), 42),
        other => panic!("{:?}", other),
    }
}

#[test]
fn responses_without_content() {
    let r = no_content_response();
    assert_eq!(r.status, 204);
    assert_eq!(
        headers(&r),
        vec![("Content-Length", "0"), ("Access-Control-Allow-Origin", "*"), ("Cache-Control", "max-age=0")]
    );
    assert!(matches!(r.body, Body::Empty));
    let r = empty_file_response();
    assert_eq!(r.status, 400);
    assert_eq!(
        headers(&r),
        vec![("Content-Length", "0"), ("Access-Control-Allow-Origin", "*"), ("Cache-Control", "max-age=0")]
    );
    assert!(matches!(r.body, Body::Empty));
    let r = error_response(500);
    assert_eq!(r.status, 500);
    assert_eq!(headers(&r), vec![("Access-Control-Allow-Origin", "*")]);
    assert!(matches!(r.body, Body::Empty));
}

#[test]
fn every_response_allows_any_origin() {
    let all = vec![
        no_content_response(),
        empty_file_response(),
        error_response(503),
        status_response(400, "x"),
        error_response_endpoint("tile_endpoint", "x"),
        worker_not_found_response("ds1", "application/json"),
        timeout_response("application/json", 5),
        unreachable_response("application/json", "refused"),
        tile_response(vec![1, 2, 3], "image/png"),
        response_with_body_and_code("x".to_string(), 200),
    ];
    for r in &all {
        assert!(headers(r).contains(&("Access-Control-Allow-Origin", "*")));
    }
}

#[test]
fn status_reports_are_json() {
    let r = status_response(400, "Error parse Z: invalid digit found in string");
    assert_eq!(r.status, 400);
    assert_eq!(headers(&r), vec![("content-type", "application/json"), ("Access-Control-Allow-Origin", "*")]);
    assert_eq!(text(&r), "{\"message\":\"Error parse Z: invalid digit found in string\",\"status\":400}");
    let v: serde_json::Value = serde_json::from_str(text(&r)).unwrap();
    assert_eq!(v.get("status").and_then(|s| s.as_u64()), Some(400));
    assert_eq!(v.get("message").and_then(|s| s.as_str()), Some("Error parse Z: invalid digit found in string"));
}

#[test]
fn report_bodies_are_what_serde_json_prints() {
    for message in ["", "plain", "with \"quotes\"", "back\\slash", "line\nbreak\ttab", "é ü \u{1f600}", "\u{0}\u{1f}"] {
        for status in [200u16, 202, 400, 404, 500, 503] {
            let mut map = serde_json::Map::new();
            map.insert("status".to_string(), serde_json::Value::from(status));
            map.insert("message".to_string(), serde_json::Value::from(message));
            let expected = serde_json::Value::Object(map).to_string();
            assert_eq!(status_message_body(status, message), expected);
        }
        let mut map = serde_json::Map::new();
        map.insert("error".to_string(), serde_json::Value::from(message));
        assert_eq!(single_member_body("error", message), serde_json::Value::Object(map).to_string());
    }
}

#[test]
fn failed_endpoint_is_reported_with_500() {
    let r = error_response_endpoint("pyramid_endpoint", "expected value at line 1 column 1");
    assert_eq!(r.status, 500);
    assert_eq!(text(&r), "{\"message\":\"expected value at line 1 column 1\",\"status\":500}");
}

#[test]
fn unknown_datasource_on_a_master() {
    let r = worker_not_found_response("ds9", "application/json");
    assert_eq!(r.status, 404);
    assert_eq!(headers(&r), vec![("content-type", "application/json"), ("Access-Control-Allow-Origin", "*")]);
    assert_eq!(text(&r), "{\"message\":\"DataSource id 'ds9' not found\",\"status\":404}");
}

#[test]
fn peer_that_does_not_answer() {
    let r = timeout_response("application/json", 5);
    assert_eq!(r.status, 503);
    assert_eq!(text(&r), "Timeout: no response in 5 seconds.");
    let r = unreachable_response("application/json", "hyper::Error(Connect)");
    assert_eq!(r.status, 503);
    assert_eq!(text(&r), "{\"error\":\"hyper::Error(Connect)\"}");
}
