//! URLs and kinds of resources.

use monk3i::location::{
    accept_request, is_known_media_page, read_media_type, read_request, resource_kind, Location,
};
use monk3i::start::{choose_route, Route};

fn at(url: &str) -> Location {
    read_request(url).unwrap().location
}

#[test]
fn requests_are_read() {
    let request = read_request("  https://Example.com/a b?q#f \n").unwrap();
    assert_eq!(request.url, "https://Example.com/a b?q#f");
    assert_eq!(request.location.text, "https://example.com/a%20b?q#f");
    assert_eq!(request.location.scheme, "https");
    assert_eq!(request.location.host.as_deref(), Some("example.com"));
    assert_eq!(request.location.path, "/a%20b");
}

#[test]
fn white_space_around_a_request_is_ignored() {
    let plain = read_request("http://example.com/x").unwrap();
    let spaced = read_request("\u{a0} http://example.com/x\t").unwrap();
    assert_eq!(plain.url, spaced.url);
    assert_eq!(plain.location.text, spaced.location.text);
}

#[test]
fn what_is_no_url_is_refused() {
    for text in ["", "   ", "example.com", "http://", "//example.com/a"] {
        assert_eq!(read_request(text).unwrap_err(), "Please enter a valid URL.");
    }
}

#[test]
fn other_schemes_are_refused() {
    for text in ["ftp://example.com/a", "file:///etc/passwd", "data:text/plain,x", "magnet:?xt=1"] {
        assert_eq!(read_request(text).unwrap_err(), "Only HTTP and HTTPS URLs are supported.");
    }
    assert!(read_request("HTTP://example.com").is_ok());
}

#[test]
fn parsed_requests_are_accepted_or_refused() {
    let location = |scheme: &str| Location {
        text: "t".into(),
        scheme: scheme.into(),
        host: None,
        path: "/".into(),
    };
    assert_eq!(accept_request(" u ", Some(location("http"))).unwrap().url, "u");
    assert!(accept_request("u", Some(location("https"))).is_ok());
    assert_eq!(
        accept_request("u", Some(location("ws"))).unwrap_err(),
        "Only HTTP and HTTPS URLs are supported.",
    );
    assert_eq!(accept_request("u", None).unwrap_err(), "Please enter a valid URL.");
}

#[test]
fn media_sites_are_known() {
    for host in [
        "youtube.com",
        "youtu.be",
        "youtube-nocookie.com",
        "vimeo.com",
        "dailymotion.com",
        "tiktok.com",
        "instagram.com",
        "facebook.com",
        "soundcloud.com",
        "www.youtube.com",
        "m.youtube.com",
        "www.m.youtube.com",
        "WWW.YouTube.COM",
        "music.youtube.com",
    ] {
        let location = at(&format!("https://{}/watch?v=1", host));
        assert!(is_known_media_page(&location), "{}", host);
        assert_eq!(choose_route(&location), Route::Media);
        assert_eq!(resource_kind(Some("image/png"), &location), "media_page");
        assert_eq!(resource_kind(None, &location), "media_page");
    }
}

#[test]
fn other_sites_are_not_media_sites() {
    for host in [
        "example.com",
        "notyoutube.com",
        "youtube.com.example.org",
        "youtube.co",
        "be",
        "www.example.com",
        "127.0.0.1",
    ] {
        let location = at(&format!("https://{}/", host));
        assert!(!is_known_media_page(&location), "{}", host);
        assert_eq!(choose_route(&location), Route::File);
    }
    let hostless = Location {
        text: "x:".into(),
        scheme: "http".into(),
        host: None,
        path: "".into(),
    };
    assert!(!is_known_media_page(&hostless));
}

#[test]
fn types_decide_kinds() {
    let location = at("https://example.com/thing.mp3");
    for (value, kind) in [
        ("text/html", "webpage"),
        ("Text/HTML; charset=utf-8", "webpage"),
        ("application/xhtml+xml", "webpage"),
        ("image/x-anything", "image"),
        ("video/mp4", "video"),
        ("audio/flac", "audio"),
        ("text/plain", "webpage"),
        ("application/json", "webpage"),
        ("application/javascript", "webpage"),
    ] {
        assert_eq!(resource_kind(Some(value), &location), kind);
    }
}

#[test]
fn paths_decide_kinds_of_untold_types() {
    for (path, kind) in [
        ("a.jpg", "image"),
        ("a.JPEG", "image"),
        ("a.png", "image"),
        ("a.gif", "image"),
        ("a.webp", "image"),
        ("a.svg", "image"),
        ("a.mp4", "video"),
        ("a.webm", "video"),
        ("a.mov", "video"),
        ("a.mkv", "video"),
        ("a.avi", "video"),
        ("a.mp3", "audio"),
        ("a.m4a", "audio"),
        ("a.wav", "audio"),
        ("a.flac", "audio"),
        ("a.ogg", "audio"),
        ("a.zip", "file"),
        ("mp3", "file"),
        ("", "file"),
    ] {
        let location = at(&format!("https://example.com/{}", path));
        assert_eq!(resource_kind(None, &location), kind);
        assert_eq!(resource_kind(Some("application/octet-stream"), &location), kind);
        assert_eq!(resource_kind(Some(""), &location), kind);
    }
}

#[test]
fn media_types_are_bare() {
    assert_eq!(read_media_type(" Text/HTML ; charset=UTF-8"), "text/html");
    assert_eq!(read_media_type(""), "");
    assert_eq!(read_media_type(";x"), "");
}
