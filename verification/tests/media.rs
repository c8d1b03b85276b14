//! The media downloader: its arguments, its output and its files.

use monk3i::media::{
    accept_printed_path, describe_media, explain_inspection_failure, find_media_output, inspect_arguments,
    inspect_media_with_yt_dlp, media_arguments, missing_tool, path_from_yt_dlp_output,
    temp_folder_name, FolderEntry, Inspection, YtDlpInfo, FILE_TEMPLATE,
};
use monk3i::media_run::printed_source;
use monk3i::progress::{parse_progress, parse_speed, settled_total};

fn info() -> YtDlpInfo {
    YtDlpInfo { id: None, title: None, ext: None, filesize: None, filesize_approx: None }
}

fn scale(figure: &str, unit: u64) -> Option<u64> {
    figure.parse::<f64>().ok().map(|figure| (figure * unit as f64).max(0.0) as u64)
}

fn speed(value: &str) -> u64 {
    parse_speed(value, scale)
}

fn entry(name: &str, is_file: bool) -> FolderEntry {
    let stem = std::path::Path::new(name).file_stem().and_then(|stem| stem.to_str()).unwrap_or("");
    FolderEntry { name: name.into(), stem: stem.into(), is_file }
}

#[test]
fn progress_lines_are_read() {
    let line = parse_progress("download:1024|4096|5000|2048.5| 25.0%").unwrap();
    assert_eq!(line.downloaded, 1024);
    assert_eq!(line.total, Some(4096));
    assert_eq!(line.speed, "2048.5");
    assert_eq!(line.percent, "25.0");
}

#[test]
fn the_estimate_stands_in_for_the_size() {
    assert_eq!(parse_progress("download:1|NA|5000|1|1%").unwrap().total, Some(5000));
    assert_eq!(parse_progress("download:1|0|5000|1|1%").unwrap().total, Some(5000));
    assert_eq!(parse_progress("download:1|NA|0|1|1%").unwrap().total, None);
    assert_eq!(parse_progress("download:1|NA|1.5|1|1%").unwrap().total, None);
    assert_eq!(parse_progress("download:1| 7 |5000|1|1%").unwrap().total, Some(7));
}

#[test]
fn progress_stands_after_the_first_marker() {
    let line = parse_progress("日本 download: 5 |6|7|8|9%|more").unwrap();
    assert_eq!(line.downloaded, 5);
    assert_eq!(line.percent, "9");
    assert!(parse_progress("download:x download:5|6|7|8|9%").is_none());
}

#[test]
fn other_lines_report_no_progress() {
    for line in [
        "",
        "download:",
        "download:1|2|3|4",
        "download:NA|2|3|4|5%",
        "download:-1|2|3|4|5%",
        "1|2|3|4|5%",
        "Download:1|2|3|4|5%",
        "[download] 5% of 3MiB",
    ] {
        assert!(parse_progress(line).is_none(), "{:?}", line);
    }
}

#[test]
fn percent_signs_are_taken_off() {
    for (written, percent) in
        [(" 5.5% ", "5.5"), ("100%%", "100"), ("7 %", "7"), ("NA", "NA"), ("", "")]
    {
        let line = parse_progress(&format!("download:1|2|3|4|{}", written)).unwrap();
        assert_eq!(line.percent, percent);
    }
}

#[test]
fn bare_speeds_are_bytes() {
    assert_eq!(speed("2048"), 2048);
    assert_eq!(speed(" 12.9 "), 12);
    assert_eq!(speed("-5"), 0);
    assert_eq!(speed("100/s"), 100);
    assert_eq!(speed("100 /s/s"), 100);
    assert_eq!(speed("1e3"), 1000);
    assert_eq!(speed("inf"), u64::MAX);
    assert_eq!(speed("NaN"), 0);
}

#[test]
fn speeds_have_units() {
    assert_eq!(speed("1.5KiB/s"), 1536);
    assert_eq!(speed("2MiB/s"), 2 * 1024 * 1024);
    assert_eq!(speed(" 3 gib/s "), 3 * 1024 * 1024 * 1024);
    assert_eq!(speed("1.5KB/s"), 1500);
    assert_eq!(speed("2mb"), 2_000_000);
    assert_eq!(speed("4GB"), 4_000_000_000);
}

#[test]
fn speeds_read_the_same_in_any_case_and_per_second() {
    for value in ["1.5KiB", " 2 mB ", "3Gib", "1E3", "inf", "NaN", "x", "", "7 "] {
        let bytes = speed(value);
        assert_eq!(speed(&format!("{}/s", value)), bytes, "{:?}", value);
        assert_eq!(speed(&value.to_ascii_lowercase()), bytes, "{:?}", value);
        assert_eq!(speed(&value.to_ascii_uppercase()), bytes, "{:?}", value);
    }
    assert_eq!(speed("100/S"), 0);
    assert_eq!(speed("100/s"), 100);
}

#[test]
fn figures_read_the_same_in_any_case() {
    for figure in ["INF", "-inf", "Infinity", "NaN", "1E3", "2.5e-1", "0X1", "é", "1E"] {
        let read = |text: &str| text.parse::<f64>().ok().map(|figure| figure.to_bits());
        assert_eq!(read(figure), read(&figure.to_ascii_lowercase()), "{:?}", figure);
    }
}

#[test]
fn what_is_no_speed_counts_as_zero() {
    for value in ["", "NA", "fast", "KiB/s", "5 B/s", "5TiB/s", "x MiB"] {
        assert_eq!(speed(value), 0, "{:?}", value);
    }
}

#[test]
fn a_stated_total_is_kept() {
    assert_eq!(settled_total(Some(5), Some(6)), Some(5));
    assert_eq!(settled_total(None, Some(6)), Some(6));
    assert_eq!(settled_total(None, None), None);
}

#[test]
fn sizes_prefer_the_exact_one() {
    let exact = YtDlpInfo { filesize: Some(1), filesize_approx: Some(2), ..info() };
    assert_eq!(exact.size(), Some(1));
    let approximate = YtDlpInfo { filesize_approx: Some(2), ..info() };
    assert_eq!(approximate.size(), Some(2));
    assert_eq!(info().size(), None);
}

#[test]
fn listed_media_defaults_to_mp4() {
    let titled = YtDlpInfo { title: Some("Talk".into()), ..info() };
    assert_eq!(describe_media("u", &titled).filename.as_deref(), Some("Talk.mp4"));
    assert_eq!(describe_media("u", &info()).filename, None);
}

#[test]
fn inspections_come_out() {
    let answered = YtDlpInfo { id: Some("i".into()), ..info() };
    let read = inspect_media_with_yt_dlp(Inspection::Answered(answered)).unwrap();
    assert_eq!(read.id.as_deref(), Some("i"));
    assert_eq!(inspect_media_with_yt_dlp(Inspection::Missing).unwrap_err(), missing_tool());
    assert_eq!(
        explain_inspection_failure("\t\n"),
        "yt-dlp could not inspect this media URL.",
    );
    assert_eq!(explain_inspection_failure(" why \n"), "why");
}

#[test]
fn arguments_are_in_order() {
    assert_eq!(
        inspect_arguments("https://youtu.be/1"),
        vec!["--dump-single-json", "--no-warnings", "--no-playlist", "https://youtu.be/1"],
    );
    assert_eq!(
        media_arguments("/tmp/%(id)s.%(ext)s", "https://youtu.be/1"),
        vec![
            "--no-playlist",
            "--newline",
            "--progress",
            "--progress-delta",
            "0.25",
            "--progress-template",
            "download:%(progress.downloaded_bytes)s|%(progress.total_bytes)s|%(progress.total_bytes_estimate)s|%(progress.speed)s|%(progress._percent_str)s",
            "--print",
            "after_move:filepath",
            "--continue",
            "-f",
            "bv*+ba/b",
            "--merge-output-format",
            "mp4",
            "-o",
            "/tmp/%(id)s.%(ext)s",
            "https://youtu.be/1",
        ],
    );
}

#[test]
fn files_and_folders_are_named_by_identifiers() {
    assert_eq!(temp_folder_name("download-3"), ".monk3i-download-3");
    assert_eq!(FILE_TEMPLATE, "%(id)s.%(ext)s");
}

#[test]
fn printed_paths_are_files_inside() {
    let path = |line: &str, file: bool| {
        path_from_yt_dlp_output(line, Some("/t/work"), |_: &str| file)
    };
    assert_eq!(path(" \"/t/work/x.mp4\" \n", true), Some("/t/work/x.mp4".into()));
    assert_eq!(path("/t/work/x.mp4", false), None);
    assert_eq!(path("/t/x.mp4", true), None);
    assert_eq!(path("", true), None);
    assert_eq!(path(" \"\" ", true), None);
    assert_eq!(path_from_yt_dlp_output("/t/work/x.mp4", None, |_: &str| true), None);
    let named = path_from_yt_dlp_output("\"\"a/b c\"", Some("a"), |path: &str| path == "a/b c");
    assert_eq!(named, Some("a/b c".into()));
}

#[test]
fn folders_hold_whole_components() {
    let inside = |path: &str, folder: &str| {
        path_from_yt_dlp_output(path, Some(folder), |_: &str| true).is_some()
    };
    for (path, folder) in [
        ("/t/a/x", "/t/a"),
        ("/t/a/x", "/t/a/"),
        ("/t//a/./x", "/t/a"),
        ("/t/a", "/t/a"),
        ("/t/a/", "/t/a/."),
        ("a/b", ""),
        ("a/b", "a"),
        ("./a/b", "./a"),
        ("/x", "/"),
        ("/t/a/../x", "/t/a"),
    ] {
        assert!(inside(path, folder), "{:?} {:?}", path, folder);
    }
    for (path, folder) in [
        ("/t/ab", "/t/a"),
        ("/t/a.b/x", "/t/a"),
        ("/t/A/x", "/t/a"),
        ("t/a/x", "/t/a"),
        ("./a/b", "a"),
        ("a/b", "./a"),
        ("/t", "/t/a"),
        ("/t/x/../a/y", "/t/a"),
    ] {
        assert!(!inside(path, folder), "{:?} {:?}", path, folder);
    }
}

#[test]
fn an_answer_of_the_platform_decides() {
    let accept = |line: &str, inside: bool, file: bool| {
        accept_printed_path(line, inside, |_: &str| file)
    };
    let line = " \"C:\\work\\x.mp4\" ";
    assert_eq!(accept(line, true, true), Some("C:\\work\\x.mp4".into()));
    assert_eq!(accept(line, false, true), None);
    assert_eq!(accept(line, true, false), None);
    assert_eq!(accept(" \"\" ", true, true), None);
}

#[test]
fn folders_of_any_platform_are_asked_of_it() {
    for path in ["C:\\t\\a\\x", "\\t\\a\\x", "\\\\server\\share\\a\\x", "//server/share/x", "C:x"] {
        for folder in ["C:\\t\\a", "C:\\t", "\\t\\a", "\\\\server\\share", "//server/share", "C:", ""] {
            assert_eq!(
                path_from_yt_dlp_output(path, Some(folder), |_: &str| true).is_some(),
                std::path::Path::new(path).starts_with(folder),
                "{:?} {:?}",
                path,
                folder,
            );
        }
    }
}

#[test]
fn printed_files_have_their_extension() {
    for (path, extension) in [
        ("/t/a.b/x.MP4", Some("MP4")),
        ("/t/a.b/x", None),
        ("/t/a.b/x.", Some("")),
        ("/t/.x", None),
        ("x.tar.gz", Some("gz")),
    ] {
        let source = printed_source(path.to_string());
        assert_eq!(source.path, path);
        assert_eq!(source.extension.as_deref(), extension);
    }
    for path in ["C:\\a.b\\x", "C:\\a\\x.mp4", "//a.b/c"] {
        assert_eq!(
            printed_source(path.to_string()).extension.as_deref(),
            std::path::Path::new(path).extension().and_then(|part| part.to_str()),
        );
    }
}

#[test]
fn media_is_found_by_its_identifier() {
    let entries = vec![
        entry("other.mp4", true),
        entry("id1.part", true),
        entry("id1.mp4.part", true),
        entry("id1.ytdl", true),
        entry("id1", false),
        entry("id1.webm", true),
        entry("id1.mp4", true),
    ];
    assert_eq!(find_media_output(&entries, "id1"), Some(5));
    assert_eq!(find_media_output(&entries, "id2"), Some(0));
}

#[test]
fn other_media_stands_in() {
    let entries = vec![entry(".hidden", true), entry("x.part", true), entry("y.mp4", true)];
    assert_eq!(find_media_output(&entries, "id"), Some(2));
    assert_eq!(find_media_output(&entries, ".hidden"), Some(0));
    let none = vec![entry(".hidden", true), entry("x.part", true), entry("dir", false)];
    assert_eq!(find_media_output(&none, "id"), None);
    assert_eq!(find_media_output(&Vec::new(), "id"), None);
}
