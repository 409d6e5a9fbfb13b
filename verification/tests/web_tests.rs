use cosmic_wallpaper::web::{
    append_capped, art_source, canvas_proxy_target, check_stream_url, request_target, ArtSource, ArtSourceError,
    StreamUrlError, MAX_BODY_BYTES,
};

#[test]
fn request_targets_use_the_known_default_port() {
    let t = request_target("https://example.com/a.jpg", 80).unwrap();
    assert_eq!((t.host.as_str(), t.port), ("example.com", 443));
    let t = request_target("http://127.0.0.1:8080/x", 80).unwrap();
    assert_eq!((t.host.as_str(), t.port), ("127.0.0.1", 8080));
    // A scheme without a known default port falls back to the given one.
    let t = request_target("foo://example.com/x", 80).unwrap();
    assert_eq!((t.host.as_str(), t.port), ("example.com", 80));
    assert!(request_target("not a url", 80).is_none());
    assert!(request_target("mailto:someone@example.com", 80).is_none());
}

#[test]
fn test_canvas_fetch_skipped_without_configured_proxy() {
    assert!(canvas_proxy_target(None).is_none());
    let t = canvas_proxy_target(Some("https://canvas.example/api")).unwrap();
    assert_eq!((t.host.as_str(), t.port), ("canvas.example", 443));
}

#[test]
fn stream_urls_must_be_web_urls_with_a_host() {
    let t = check_stream_url("https://video.example/clip.mp4").ok().unwrap();
    assert_eq!((t.host.as_str(), t.port), ("video.example", 443));
    assert_eq!(t.url, "https://video.example/clip.mp4");
    let t = check_stream_url("HTTP://Video.Example:8080/c").ok().unwrap();
    assert_eq!((t.host.as_str(), t.port), ("video.example", 8080));
    assert_eq!(t.url, "http://video.example:8080/c");
    assert!(matches!(check_stream_url("file:///etc/passwd"), Err(StreamUrlError::UnsupportedScheme)));
    assert!(matches!(check_stream_url("rtsp://cam.local/feed"), Err(StreamUrlError::UnsupportedScheme)));
    assert!(matches!(check_stream_url("not a url"), Err(StreamUrlError::Invalid)));
}

#[test]
fn web_art_is_fetched_from_its_host() {
    match art_source("https://art.example/a.jpg") {
        Ok(ArtSource::Remote(t)) => assert_eq!((t.host.as_str(), t.port), ("art.example", 443)),
        _ => panic!("expected a remote source"),
    }
    match art_source("HTTP://art.example:8000/a.jpg") {
        Ok(ArtSource::Remote(t)) => assert_eq!((t.host.as_str(), t.port), ("art.example", 8000)),
        _ => panic!("expected a remote source"),
    }
    assert!(matches!(art_source("http//broken"), Err(ArtSourceError::InvalidUrl)));
    assert!(matches!(art_source("httpx:opaque"), Err(ArtSourceError::NoHost)));
}

#[test]
fn local_art_is_read_from_disk() {
    match art_source("file:///tmp/a%20b.png") {
        Ok(ArtSource::LocalFile(p)) => assert_eq!(p, b"/tmp/a b.png".to_vec()),
        _ => panic!("expected a file path"),
    }
    // A path that is not UTF-8 is still a local file.
    match art_source("file:///tmp/%FF.png") {
        Ok(ArtSource::LocalFile(p)) => assert_eq!(p, b"/tmp/\xff.png".to_vec()),
        _ => panic!("expected a file path"),
    }
    match art_source("/home/u/Music/cover.jpg") {
        Ok(ArtSource::RawPath(p)) => assert_eq!(p, "/home/u/Music/cover.jpg"),
        _ => panic!("expected a raw path"),
    }
    // A file URL on another host has no local path: taken as it stands.
    match art_source("file://remote.example/a.png") {
        Ok(ArtSource::RawPath(p)) => assert_eq!(p, "file://remote.example/a.png"),
        _ => panic!("expected a raw path"),
    }
}

#[test]
fn bodies_over_the_limit_are_refused() {
    let mut body = Vec::new();
    assert!(append_capped(&mut body, &[1, 2, 3], 5));
    assert!(append_capped(&mut body, &[4, 5], 5));
    assert!(!append_capped(&mut body, &[6], 5));
    assert_eq!(body, vec![1, 2, 3, 4, 5]);
    assert!(!append_capped(&mut Vec::new(), &[0; 6], 5));
    assert_eq!(MAX_BODY_BYTES, 10 * 1024 * 1024);
}
