//! File names.

use std::cell::RefCell;

use monk3i::filename::{safe_media_filename, sanitize_filename, truncate_utf8};
use monk3i::naming::{
    available_name, available_path, ensure_extension, extend_name, extension_for_content_type,
    filename_from_content_disposition, filename_from_path, filename_from_response,
    filename_from_url,
};

#[test]
fn forbidden_characters_become_underscores() {
    assert_eq!(sanitize_filename("a<b>c:d\"e/f\\g|h?i*j"), "a_b_c_d_e_f_g_h_i_j");
    assert_eq!(sanitize_filename("a\u{0}b\u{1f}c\u{7f}d\u{9f}e"), "a_b_c_d_e");
    assert_eq!(sanitize_filename("größe 日本.txt"), "größe 日本.txt");
}

#[test]
fn ends_are_cleaned() {
    assert_eq!(sanitize_filename("  name.txt  "), "name.txt");
    assert_eq!(sanitize_filename("..name.."), "name");
    assert_eq!(sanitize_filename(" ..name.. "), "name");
    assert_eq!(sanitize_filename("\tname"), "_name");
}

#[test]
fn nothing_left_is_download() {
    assert_eq!(sanitize_filename(""), "download");
    assert_eq!(sanitize_filename("   "), "download");
    assert_eq!(sanitize_filename("..."), "download");
}

#[test]
fn device_names_are_marked() {
    for name in [
        "CON", "PRN", "AUX", "NUL", "COM1", "COM2", "COM3", "COM4", "COM5", "COM6", "COM7", "COM8",
        "COM9", "LPT1", "LPT2", "LPT3", "LPT4", "LPT5", "LPT6", "LPT7", "LPT8", "LPT9", "con",
        "Aux.txt", "com1.tar.gz",
    ] {
        assert_eq!(sanitize_filename(name), format!("_{}", name));
    }
    for name in ["COM0", "LPT0", "COM10", "CONS", "CO", "xCON", "a.CON", "COMa", "CON1"] {
        assert_eq!(sanitize_filename(name), name);
    }
}

#[test]
fn a_sanitized_name_is_safe() {
    for s in ["/", "..\\..\\etc", ".CON.", " NUL ", "\u{0}", "a:", "...a...", "LPT9.x.y", "*?"] {
        let name = sanitize_filename(s);
        assert!(!name.is_empty());
        assert!(!name.starts_with('.') && !name.ends_with('.'));
        assert!(!name.chars().any(|c| c.is_control() || "<>:\"/\\|?*".contains(c)));
        assert_eq!(sanitize_filename(&name), name);
    }
}

#[test]
fn white_space_behind_dots_stays() {
    assert_eq!(sanitize_filename(". a"), " a");
    assert_eq!(sanitize_filename(" a"), "a");
}

#[test]
fn truncation_cuts_between_characters() {
    assert_eq!(truncate_utf8("hello", 10), "hello");
    assert_eq!(truncate_utf8("hello", 5), "hello");
    assert_eq!(truncate_utf8("hello", 4), "hell");
    assert_eq!(truncate_utf8("hello", 0), "");
    assert_eq!(truncate_utf8("aßb", 2), "a");
    assert_eq!(truncate_utf8("aßb", 3), "aß");
    assert_eq!(truncate_utf8("日本", 5), "日");
    assert_eq!(truncate_utf8("日本", 2), "");
    assert_eq!(truncate_utf8("😀😀", 7), "😀");
}

#[test]
fn truncation_keeps_the_longest_prefix() {
    let text = "aß日😀z";
    for max in 0..=text.len() + 1 {
        let kept = truncate_utf8(text, max);
        assert!(text.starts_with(&kept));
        assert!(kept.len() <= max);
        if let Some(next) = text[kept.len()..].chars().next() {
            assert!(kept.len() + next.len_utf8() > max);
        }
    }
}

#[test]
fn media_names_have_an_extension() {
    assert_eq!(safe_media_filename("My: Video?", "MP4"), "My_ Video_.mp4");
    assert_eq!(safe_media_filename("Song", "..mp3"), "Song.mp3");
    assert_eq!(safe_media_filename("Song", ""), "Song.bin");
    assert_eq!(safe_media_filename("Song", "..."), "Song.bin");
    assert_eq!(safe_media_filename("", "webm"), "download.webm");
    assert_eq!(safe_media_filename("Song", "a/b"), "Song.a_b");
    assert_eq!(safe_media_filename("Song", "con"), "Song._con");
}

#[test]
fn media_names_are_bounded() {
    let long = "x".repeat(300);
    let name = safe_media_filename(&long, "mp4");
    assert_eq!(name.len(), 100);
    assert_eq!(name, format!("{}.mp4", "x".repeat(96)));
    let wide = "日".repeat(100);
    let name = safe_media_filename(&wide, "mp4");
    assert_eq!(name, format!("{}.mp4", "日".repeat(32)));
    assert_eq!(name.len(), 100);
    let fits = "y".repeat(96);
    assert_eq!(safe_media_filename(&fits, "mp4"), format!("{}.mp4", fits));
}

#[test]
fn a_long_extension_leaves_one_byte() {
    let extension = "e".repeat(120);
    assert_eq!(safe_media_filename("Title", &extension), format!("T.{}", extension));
    assert_eq!(safe_media_filename("日", &extension), format!(".{}", extension));
}

#[test]
fn little_room_can_leave_a_device_name() {
    let extension = "e".repeat(96);
    assert_eq!(safe_media_filename("CONSOLE", &extension), format!("CON.{}", extension));
    let extension = "e".repeat(91);
    assert_eq!(safe_media_filename("COM1😀😀", &extension), format!("COM1😀.{}", extension));
}

#[test]
fn names_from_urls() {
    let name = |url: &str| filename_from_url(url);
    assert_eq!(name("https://example.com/files/report.pdf"), Some("report.pdf".into()));
    assert_eq!(name("https://example.com/a%20b.txt?x=1#f"), Some("a b.txt".into()));
    assert_eq!(name("https://example.com/dir/"), Some("dir".into()));
    assert_eq!(name("https://example.com/dir///"), Some("dir".into()));
    assert_eq!(name("https://example.com/%E6%97%A5.png"), Some("日.png".into()));
    assert_eq!(name("https://example.com/a%2Fb"), Some("a_b".into()));
    assert_eq!(name("https://example.com/%ff"), None);
    assert_eq!(name("https://example.com/download"), None);
    assert_eq!(name("https://example.com/..."), None);
    assert_eq!(name("https://example.com/"), None);
    assert_eq!(name("https://example.com"), None);
    assert_eq!(name("mailto:someone@example.com"), None);
    assert_eq!(name("no url"), None);
    assert_eq!(name(""), None);
}

#[test]
fn names_from_paths() {
    assert_eq!(filename_from_path("/a/b%41c"), Some("bAc".into()));
    assert_eq!(filename_from_path("/a/100%"), Some("100%".into()));
    assert_eq!(filename_from_path("/a/%4"), Some("%4".into()));
    assert_eq!(filename_from_path("/a/%zz"), Some("%zz".into()));
    assert_eq!(filename_from_path("/a/%c3%9f"), Some("ß".into()));
    assert_eq!(filename_from_path("/a/%c3"), None);
    assert_eq!(filename_from_path("/%2e%2e"), None);
    assert_eq!(filename_from_path("relative"), None);
    assert_eq!(filename_from_path(""), None);
}

#[test]
fn names_from_dispositions() {
    let name = |value: &str| filename_from_content_disposition(value);
    assert_eq!(name("attachment; filename=\"a b.zip\""), Some("a b.zip".into()));
    assert_eq!(name("attachment; filename=plain.zip"), Some("plain.zip".into()));
    assert_eq!(name("attachment;filename= spaced.zip "), Some("spaced.zip".into()));
    assert_eq!(name("attachment; filename*=UTF-8''na%C3%AFve.txt"), Some("naïve.txt".into()));
    assert_eq!(
        name("attachment; filename=first.txt; filename*=UTF-8''second.txt"),
        Some("first.txt".into()),
    );
    assert_eq!(
        name("attachment; filename*=UTF-8''; filename=\"later.txt\""),
        Some("later.txt".into()),
    );
    assert_eq!(name("attachment; filename=\"\"; filename=x"), Some("x".into()));
    assert_eq!(name("attachment; filename*=UTF-8''%ff; filename=good.txt"), None);
    assert_eq!(name("attachment; FILENAME=x"), None);
    assert_eq!(name("filename=first-part"), None);
    assert_eq!(name("attachment; filename=\"../../etc/passwd\""), Some("_.._etc_passwd".into()));
    assert_eq!(name("attachment; filename=..."), Some("download".into()));
    assert_eq!(name("inline"), None);
    assert_eq!(name(""), None);
}

#[test]
fn the_disposition_comes_before_the_url() {
    let url = "https://example.com/from-url.txt";
    assert_eq!(
        filename_from_response(Some("attachment; filename=told.txt"), url),
        Some("told.txt".into()),
    );
    assert_eq!(filename_from_response(Some("inline"), url), Some("from-url.txt".into()));
    assert_eq!(
        filename_from_response(Some("attachment; filename*=UTF-8''%ff"), url),
        Some("from-url.txt".into()),
    );
    assert_eq!(filename_from_response(None, url), Some("from-url.txt".into()));
    assert_eq!(filename_from_response(None, "https://example.com/"), None);
}

#[test]
fn known_types_have_extensions() {
    for (value, extension) in [
        ("image/jpeg", "jpg"),
        ("image/png", "png"),
        ("image/gif", "gif"),
        ("image/webp", "webp"),
        ("image/svg+xml", "svg"),
        ("video/mp4", "mp4"),
        ("video/webm", "webm"),
        ("video/quicktime", "mov"),
        ("video/x-matroska", "mkv"),
        ("audio/mpeg", "mp3"),
        ("audio/mp4", "m4a"),
        ("audio/wav", "wav"),
        ("audio/ogg", "ogg"),
        ("application/pdf", "pdf"),
        ("application/zip", "zip"),
        ("application/gzip", "gz"),
        ("application/x-rar-compressed", "rar"),
        ("application/json", "json"),
        ("text/plain", "txt"),
        (" Text/Plain ; charset=utf-8", "txt"),
    ] {
        assert_eq!(extension_for_content_type(value), Some(extension));
    }
    for value in ["", "text/html", "application/octet-stream", ";text/plain"] {
        assert_eq!(extension_for_content_type(value), None);
    }
}

#[test]
fn extensions_are_added_once() {
    let ensure = |name: &str, value: &str| ensure_extension(name.to_string(), value);
    assert_eq!(ensure("photo", "image/png"), "photo.png");
    assert_eq!(ensure("photo.jpeg", "image/png"), "photo.jpeg");
    assert_eq!(ensure("photo", "text/html"), "photo");
    assert_eq!(ensure(".hidden", "text/plain"), ".hidden.txt");
    assert_eq!(ensure("dot.", "text/plain"), "dot.");
    assert_eq!(ensure("..a", "text/plain"), "..a");
    assert_eq!(ensure("..", "text/plain"), "...txt");
    for name in ["photo", "a.b", ".x", "y."] {
        let once = ensure(name, "image/png");
        assert_eq!(ensure(&once, "image/png"), once);
    }
    assert_eq!(extend_name("a.b".into(), false, "image/png"), "a.b.png");
    assert_eq!(extend_name("a".into(), true, "image/png"), "a");
}

#[test]
fn slashes_part_names() {
    let ensure = |name: &str| ensure_extension(name.to_string(), "text/plain");
    for (name, extended) in [
        ("a.d/b", "a.d/b.txt"),
        ("a/b.c", "a/b.c"),
        ("a/b.c/", "a/b.c/"),
        ("a/b.c/.", "a/b.c/."),
        ("a/b.c//./", "a/b.c//./"),
        ("a.b/..", "a.b/...txt"),
        ("a/.b", "a/.b.txt"),
        ("/", "/.txt"),
        ("/x.y", "/x.y"),
        ("./x", "./x.txt"),
        (".", "..txt"),
        ("", ".txt"),
    ] {
        assert_eq!(ensure(name), extended);
    }
    let first = |name: &'static str| available_path(name, move |tried: &str| tried == name);
    assert_eq!(first("d.e/f.g"), "f (1).g");
    assert_eq!(first("d.e/f"), "f (1)");
    assert_eq!(first("d/f.g/"), "f (1).g");
    assert_eq!(first("d.e/.."), "download (1)");
    assert_eq!(first("/"), "download (1)");
}

#[test]
fn names_of_any_platform_are_asked_of_it() {
    for name in ["C:\\a.b\\c", "a.b\\c", "c:d.e", "//a.b/c", "\\x.y"] {
        let path = std::path::Path::new(name);
        let extension = path.extension().and_then(|part| part.to_str());
        let stem = path.file_stem().and_then(|part| part.to_str()).unwrap_or("download");
        let ensured = ensure_extension(name.to_string(), "text/plain");
        let numbered = available_path(name, |tried: &str| tried == name);
        match extension {
            Some(extension) => {
                assert_eq!(ensured, name);
                assert_eq!(numbered, format!("{} (1).{}", stem, extension));
            }
            None => {
                assert_eq!(ensured, format!("{}.txt", name));
                assert_eq!(numbered, format!("{} (1)", stem));
            }
        }
    }
}

#[test]
fn a_slash_at_the_end_is_extended_again() {
    let once = ensure_extension("a/".into(), "text/plain");
    assert_eq!(once, "a/.txt");
    assert_eq!(ensure_extension(once, "text/plain"), "a/.txt.txt");
}

#[test]
fn a_free_name_is_used_as_it_is() {
    assert_eq!(available_path("a.txt", |_| false), "a.txt");
}

#[test]
fn taken_names_are_numbered() {
    let taken = |names: &'static [&'static str]| move |name: &str| names.contains(&name);
    assert_eq!(available_path("a.txt", taken(&["a.txt"])), "a (1).txt");
    assert_eq!(available_path("a.txt", taken(&["a.txt", "a (1).txt"])), "a (2).txt");
    assert_eq!(available_path("a", taken(&["a"])), "a (1)");
    assert_eq!(available_path(".env", taken(&[".env"])), ".env (1)");
    assert_eq!(available_path("a.tar.gz", taken(&["a.tar.gz"])), "a.tar (1).gz");
    assert_eq!(available_path("a.", taken(&["a."])), "a (1).");
    assert_eq!(available_path("..", taken(&[".."])), "download (1)");
    assert_eq!(available_path("", taken(&[""])), "download (1)");
}

#[test]
fn candidates_differ_and_end() {
    let asked = RefCell::new(Vec::new());
    let name = available_path("a.txt", |name: &str| {
        asked.borrow_mut().push(name.to_string());
        true
    });
    assert_eq!(name, "download.bin");
    let asked = asked.into_inner();
    assert_eq!(asked.len(), 10000);
    assert_eq!(asked[0], "a.txt");
    assert_eq!(asked[1], "a (1).txt");
    assert_eq!(asked[9999], "a (9999).txt");
    let different: std::collections::HashSet<&String> = asked.iter().collect();
    assert_eq!(different.len(), asked.len());
}

#[test]
fn stems_and_extensions_can_be_given() {
    let taken = |name: &str| name == "x" || name == "s (1).e";
    assert_eq!(available_name("x", "s", Some("e"), taken), "s (2).e");
    assert_eq!(available_name("x", "s", None, taken), "s (1)");
    assert_eq!(available_name("y", "s", None, taken), "y");
}
