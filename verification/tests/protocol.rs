use vortex_ais::protocol::{asset_path, content_type, content_type_for, protocol_response, requested_file};

#[test]
fn requested_file_strips_scheme_and_slashes() {
    assert_eq!(requested_file("v22://javascript/inject.js/"), "javascript/inject.js");
    assert_eq!(requested_file("v22://v22://a.png//"), "a.png");
    assert_eq!(requested_file("v22://"), "");
    assert_eq!(requested_file("http://x/"), "http://x");
}

#[test]
fn requested_file_never_ends_with_slash() {
    for uri in ["v22:///", "v22://a//", "////", "v22://v22://"] {
        let f = requested_file(uri);
        assert!(!f.ends_with('/'));
        assert!(!f.starts_with("v22://"));
    }
}

#[test]
fn asset_path_is_under_page_folder() {
    assert_eq!(asset_path("style.css"), "src/Vortex2+2/style.css");
}

#[test]
fn content_types_by_extension() {
    assert_eq!(content_type("javascript/search.js"), "application/javascript");
    assert_eq!(content_type("style.css"), "text/css");
    assert_eq!(content_type("img/logo.png"), "image/png");
    assert_eq!(content_type("a.jpg"), "image/jpeg");
    assert_eq!(content_type("a.jpeg"), "image/jpeg");
    assert_eq!(content_type("a.txt"), "text/plain");
    assert_eq!(content_type("noext"), "text/plain");
    assert_eq!(content_type(".js"), "text/plain");
    assert_eq!(content_type("dir.js/file"), "text/plain");
}

#[test]
fn content_type_for_known_and_unknown() {
    assert_eq!(content_type_for(Some("js")), "application/javascript");
    assert_eq!(content_type_for(Some("JS")), "text/plain");
    assert_eq!(content_type_for(None), "text/plain");
}

#[test]
fn missing_file_gives_not_found() {
    let r = protocol_response("a.js", None);
    assert_eq!(r.status, 404);
    assert_eq!(r.body, b"not found".to_vec());
    assert!(r.headers.is_empty());
}

#[test]
fn served_file_has_headers() {
    let r = protocol_response("a.css", Some(vec![1, 2, 3]));
    assert_eq!(r.status, 200);
    assert_eq!(r.body, vec![1, 2, 3]);
    let headers: Vec<(&str, &str)> = r.headers.iter().map(|(a, b)| (a.as_str(), b.as_str())).collect();
    assert_eq!(
        headers,
        vec![
            ("Content-Type", "text/css"),
            ("Access-Control-Allow-Origin", "*"),
            ("Access-Control-Allow-Headers", "*"),
            ("Cache-Control", "no-cache"),
        ]
    );
}
