//! The courses of downloads.

use monk3i::control::{Control, Controls};
use monk3i::file_run::{FileAction, FileDownload, FileEvent};
use monk3i::location::read_request;
use monk3i::media::{media_arguments, Inspection, YtDlpInfo};
use monk3i::media_run::{MediaAction, MediaDownload, MediaEvent, Source};
use monk3i::report::{Percent, Report, Speed, Status};
use monk3i::resource::ResponseHead;
use monk3i::start::{
    begin_download, check_folder, check_tool, choose_folder, register_request, MediaStart,
};

const FRESH: Control = Control { paused: false, cancelled: false };
const PAUSED: Control = Control { paused: true, cancelled: false };
const CANCELLED: Control = Control { paused: false, cancelled: true };

const TEMPLATE: &str = "/d/.monk3i-download-1/%(id)s.%(ext)s";
const URL: &str = "https://youtu.be/v1";

fn info() -> YtDlpInfo {
    YtDlpInfo {
        id: Some("v1".into()),
        title: Some("Title: one".into()),
        ext: Some("webm".into()),
        filesize: Some(900),
        filesize_approx: Some(1000),
    }
}

fn step(download: &mut MediaDownload, event: MediaEvent) -> MediaAction {
    assert!(download.accepts(&event), "{:?}", event);
    download.step(event)
}

/// A download whose downloader has just been started.
fn running() -> MediaDownload {
    let (mut download, action) = MediaDownload::new("download-1", TEMPLATE, URL);
    assert!(matches!(action, MediaAction::Inspect));
    let action = step(&mut download, MediaEvent::Inspected(Inspection::Answered(info())));
    assert!(matches!(action, MediaAction::MakeFolder));
    let action = step(&mut download, MediaEvent::FolderMade(None));
    assert!(matches!(action, MediaAction::Check(None)));
    let action = step(&mut download, MediaEvent::Asked(FRESH));
    assert!(matches!(action, MediaAction::Start { .. }));
    let action = step(&mut download, MediaEvent::Started(None));
    assert!(matches!(action, MediaAction::Check(None)));
    download
}

/// Ends both streams of the downloader, then the downloader itself, which was
/// stopped where the control seen meanwhile says so.
fn end(download: &mut MediaDownload, control: Control, success: bool) {
    let stopped = control.paused;
    end_with(download, control, MediaEvent::Exited { success, stopped });
}

/// Ends both streams of the downloader, then the downloader itself.
fn end_with(download: &mut MediaDownload, control: Control, exited: MediaEvent) {
    let kill = control.paused || control.cancelled;
    for event in [MediaEvent::OutputEnded, MediaEvent::ErrorsEnded] {
        let action = step(download, MediaEvent::Asked(control));
        assert!(matches!(action, MediaAction::Read { kill: k } if k == kill));
        step(download, event);
    }
    assert!(!download.expects_output() && !download.expects_errors());
    let action = step(download, MediaEvent::Asked(control));
    assert!(matches!(action, MediaAction::Reap { kill: k } if k == kill));
    let action = step(download, exited);
    assert!(matches!(action, MediaAction::Check(None)));
}

fn finish(action: MediaAction) -> (bool, bool, Report) {
    match action {
        MediaAction::Finish { kill, clear, report } => (kill, clear, report),
        other => panic!("{:?}", other),
    }
}

#[test]
fn media_is_downloaded_and_placed() {
    let mut download = running();
    step(&mut download, MediaEvent::Asked(FRESH));
    let line = "download:10|100|NA|5KiB/s|10.0%".to_string();
    let action = step(&mut download, MediaEvent::Output { line, printed: None });
    let report = match action {
        MediaAction::Check(Some(report)) => report,
        other => panic!("{:?}", other),
    };
    assert_eq!(report.filename, "Downloading media...");
    assert_eq!((report.downloaded, report.total), (10, Some(100)));
    assert!(matches!(report.percent, Percent::Written(p) if p == "10.0"));
    assert!(matches!(report.speed, Speed::Written(s) if s == "5KiB/s"));
    assert_eq!(report.status.word(), "downloading");
    step(&mut download, MediaEvent::Asked(FRESH));
    let printed = Some(Source { path: "/t/v1.mp4".into(), extension: Some("mp4".into()) });
    step(&mut download, MediaEvent::Output { line: "/t/v1.mp4".into(), printed });
    end(&mut download, FRESH, true);
    let action = step(&mut download, MediaEvent::Asked(FRESH));
    assert!(matches!(action, MediaAction::Place { source, filename }
        if source == "/t/v1.mp4" && filename == "Title_ one.mp4"));
    let placed = MediaEvent::Placed {
        name: Some("Title_ one (1).mp4".into()),
        path: "/d/Title_ one (1).mp4".into(),
    };
    let (kill, clear, report) = finish(step(&mut download, placed));
    assert!(!kill && clear);
    assert_eq!(report.filename, "Title_ one (1).mp4");
    assert_eq!((report.downloaded, report.total), (900, Some(900)));
    assert!(matches!(report.percent, Percent::Full));
    assert!(matches!(report.speed, Speed::Zero));
    assert_eq!(report.status.word(), "completed");
    assert_eq!(report.path.as_deref(), Some("/d/Title_ one (1).mp4"));
    assert!(!download.accepts(&MediaEvent::Asked(FRESH)));
}

#[test]
fn unprinted_media_is_searched_for() {
    let mut download = running();
    end(&mut download, FRESH, true);
    let action = step(&mut download, MediaEvent::Asked(FRESH));
    assert!(matches!(action, MediaAction::Locate { media_id } if media_id == "v1"));
    let source = Source { path: "/t/v1".into(), extension: None };
    let action = step(&mut download, MediaEvent::Located(Some(source)));
    assert!(matches!(action, MediaAction::Place { filename, .. } if filename == "Title_ one.webm"));
    let (_, clear, report) = finish(step(&mut download, MediaEvent::NotPlaced("full".into())));
    assert!(clear);
    assert_eq!(report.filename, "Title_ one.webm");
    assert_eq!(report.status, Status::Error);
    assert_eq!(report.error.as_deref(), Some("Could not finalize downloaded media: full"));
}

#[test]
fn missing_media_is_an_error() {
    let mut download = running();
    end(&mut download, FRESH, true);
    step(&mut download, MediaEvent::Asked(FRESH));
    let (_, clear, report) = finish(step(&mut download, MediaEvent::Located(None)));
    assert!(clear);
    assert_eq!(report.filename, "Media download");
    assert_eq!(
        report.error.as_deref(),
        Some("yt-dlp completed, but Monk3i could not locate the downloaded media file."),
    );
}

#[test]
fn untold_media_has_stand_ins() {
    let (mut download, _) = MediaDownload::new("download-7", TEMPLATE, URL);
    let empty = YtDlpInfo {
        id: None,
        title: None,
        ext: None,
        filesize: None,
        filesize_approx: None,
    };
    step(&mut download, MediaEvent::Inspected(Inspection::Answered(empty)));
    step(&mut download, MediaEvent::FolderMade(None));
    step(&mut download, MediaEvent::Asked(FRESH));
    step(&mut download, MediaEvent::Started(None));
    end(&mut download, FRESH, true);
    let action = step(&mut download, MediaEvent::Asked(FRESH));
    assert!(matches!(action, MediaAction::Locate { media_id } if media_id == "download-7"));
    let source = Source { path: "/t/x".into(), extension: None };
    let action = step(&mut download, MediaEvent::Located(Some(source)));
    assert!(
        matches!(action, MediaAction::Place { filename, .. } if filename == "Downloaded media.mp4")
    );
    let placed = MediaEvent::Placed { name: None, path: "/d/?".into() };
    let (_, _, report) = finish(step(&mut download, placed));
    assert_eq!(report.filename, "Downloaded media");
    assert_eq!((report.downloaded, report.total), (0, None));
}

#[test]
fn failed_inspections_end_media() {
    let (mut download, _) = MediaDownload::new("download-1", TEMPLATE, URL);
    let (kill, clear, report) =
        finish(step(&mut download, MediaEvent::Inspected(Inspection::Missing)));
    assert!(!kill && !clear);
    assert_eq!(report.status.word(), "error");
    assert_eq!(
        report.error.as_deref(),
        Some("YouTube/media extraction requires yt-dlp. Install yt-dlp, restart Monk3i, and try again."),
    );
}

#[test]
fn failed_folders_and_starts_end_media() {
    let (mut download, _) = MediaDownload::new("download-1", TEMPLATE, URL);
    step(&mut download, MediaEvent::Inspected(Inspection::Answered(info())));
    let (_, clear, report) =
        finish(step(&mut download, MediaEvent::FolderMade(Some("denied".into()))));
    assert!(!clear);
    assert_eq!(
        report.error.as_deref(),
        Some("Could not create temporary download folder: denied"),
    );
    let (mut download, _) = MediaDownload::new("download-1", TEMPLATE, URL);
    step(&mut download, MediaEvent::Inspected(Inspection::Answered(info())));
    step(&mut download, MediaEvent::FolderMade(None));
    step(&mut download, MediaEvent::Asked(FRESH));
    let (_, clear, report) = finish(step(&mut download, MediaEvent::Started(Some("gone".into()))));
    assert!(clear);
    assert_eq!(report.error.as_deref(), Some("Could not start yt-dlp: gone"));
}

#[test]
fn errors_are_gathered_and_told() {
    let mut download = running();
    for line in ["ERROR: one", "  ", "[download] 5%", "download:1|2|3|4|5%", " two "] {
        step(&mut download, MediaEvent::Asked(FRESH));
        let action = step(&mut download, MediaEvent::Errors(line.into()));
        let is_progress = line.starts_with("download:");
        assert!(matches!(action, MediaAction::Check(report) if report.is_some() == is_progress));
    }
    end(&mut download, FRESH, false);
    let (_, clear, report) = finish(step(&mut download, MediaEvent::Asked(FRESH)));
    assert!(clear);
    assert_eq!(report.error.as_deref(), Some("ERROR: one\n two"));
    let mut silent = running();
    end(&mut silent, FRESH, false);
    let (_, _, report) = finish(step(&mut silent, MediaEvent::Asked(FRESH)));
    assert_eq!(report.error.as_deref(), Some("Media download failed."));
}

#[test]
fn a_paused_run_is_started_again() {
    let mut download = running();
    step(&mut download, MediaEvent::Asked(FRESH));
    step(&mut download, MediaEvent::Errors("first run".into()));
    step(&mut download, MediaEvent::Asked(FRESH));
    let printed = Some(Source { path: "/t/old.mp4".into(), extension: Some("mp4".into()) });
    step(&mut download, MediaEvent::Output { line: "/t/old.mp4".into(), printed });
    end(&mut download, PAUSED, true);
    let action = step(&mut download, MediaEvent::Asked(PAUSED));
    assert!(matches!(action, MediaAction::Wait(report) if report.status.word() == "paused"));
    let action = step(&mut download, MediaEvent::Waited { goes_on: true });
    assert!(matches!(action, MediaAction::Check(None)));
    step(&mut download, MediaEvent::Asked(FRESH));
    step(&mut download, MediaEvent::Started(None));
    assert!(download.expects_output() && download.expects_errors());
    end(&mut download, FRESH, true);
    let action = step(&mut download, MediaEvent::Asked(FRESH));
    assert!(matches!(action, MediaAction::Locate { .. }));
}

#[test]
fn a_run_resumed_before_its_end_is_started_again() {
    let mut download = running();
    end(&mut download, PAUSED, true);
    let action = step(&mut download, MediaEvent::Asked(FRESH));
    assert!(matches!(action, MediaAction::Check(None)));
    let action = step(&mut download, MediaEvent::Asked(FRESH));
    assert!(matches!(action, MediaAction::Start { .. }));
}

fn arguments(action: MediaAction) -> Vec<String> {
    match action {
        MediaAction::Start { arguments } => arguments,
        other => panic!("{:?}", other),
    }
}

#[test]
fn a_pause_that_nobody_saw_leads_to_a_restart() {
    let mut controls = Controls::new();
    let (id, _) = begin_download(&mut controls, URL).unwrap();
    let mut download = running();
    controls.take_stopped(&id);
    step(&mut download, MediaEvent::Asked(controls.get_control(&id).unwrap()));
    step(&mut download, MediaEvent::OutputEnded);

    assert!(controls.pause_download(&id).is_ok());
    assert!(controls.resume_download(&id).is_ok());
    assert_eq!(controls.get_control(&id), Some(FRESH));

    step(&mut download, MediaEvent::Asked(controls.get_control(&id).unwrap()));
    step(&mut download, MediaEvent::Errors("killed".into()));
    step(&mut download, MediaEvent::Asked(controls.get_control(&id).unwrap()));
    step(&mut download, MediaEvent::ErrorsEnded);
    let action = step(&mut download, MediaEvent::Asked(controls.get_control(&id).unwrap()));
    assert!(matches!(action, MediaAction::Reap { kill: false }));
    let stopped = controls.take_stopped(&id);
    assert!(stopped);
    let action = step(&mut download, MediaEvent::Exited { success: false, stopped });
    assert!(matches!(action, MediaAction::Check(None)));
    let action = step(&mut download, MediaEvent::Asked(FRESH));
    assert!(matches!(action, MediaAction::Check(None)));
    let again = arguments(step(&mut download, MediaEvent::Asked(FRESH)));
    assert_eq!(again, media_arguments(TEMPLATE, URL));
    assert!(again.contains(&"--continue".to_string()));
    assert!(again.contains(&TEMPLATE.to_string()));

    assert!(!controls.take_stopped(&id));
    step(&mut download, MediaEvent::Started(None));
    let stopped = controls.take_stopped(&id);
    end_with(&mut download, FRESH, MediaEvent::Exited { success: true, stopped });
    let action = step(&mut download, MediaEvent::Asked(FRESH));
    assert!(matches!(action, MediaAction::Locate { .. }));
}

#[test]
fn an_unseen_stop_that_came_too_late_is_ignored() {
    let mut download = running();
    step(&mut download, MediaEvent::Asked(FRESH));
    let printed = Some(Source { path: "/t/v1.mp4".into(), extension: Some("mp4".into()) });
    step(&mut download, MediaEvent::Output { line: "/t/v1.mp4".into(), printed });
    end_with(&mut download, FRESH, MediaEvent::Exited { success: true, stopped: true });
    let action = step(&mut download, MediaEvent::Asked(FRESH));
    assert!(matches!(action, MediaAction::Place { source, .. } if source == "/t/v1.mp4"));
}

#[test]
fn a_seen_stop_leads_to_a_restart_whatever_the_end() {
    for success in [false, true] {
        let mut download = running();
        end(&mut download, PAUSED, success);
        let action = step(&mut download, MediaEvent::Asked(FRESH));
        assert!(matches!(action, MediaAction::Check(None)));
        assert_eq!(
            arguments(step(&mut download, MediaEvent::Asked(FRESH))),
            media_arguments(TEMPLATE, URL),
        );
    }
}

#[test]
fn a_stopped_run_can_be_cancelled() {
    let mut download = running();
    end_with(&mut download, FRESH, MediaEvent::Exited { success: false, stopped: true });
    let (_, clear, report) = finish(step(&mut download, MediaEvent::Asked(CANCELLED)));
    assert!(clear);
    assert_eq!(report.status, Status::Cancelled);
}

#[test]
fn a_refused_start_uses_up_nothing() {
    let mut controls = Controls::new();
    assert_eq!(
        begin_download(&mut controls, "no url").unwrap_err(),
        "Please enter a valid URL.",
    );
    assert_eq!(
        begin_download(&mut controls, "ftp://example.com/").unwrap_err(),
        "Only HTTP and HTTPS URLs are supported.",
    );
    assert_eq!(controls.get_control("download-1"), None);
    let (id, request) = begin_download(&mut controls, " https://example.com/a ").unwrap();
    assert_eq!(id, "download-1");
    assert_eq!(request.url, "https://example.com/a");
    assert_eq!(controls.get_control("download-1"), Some(FRESH));
    let (id, _) = begin_download(&mut controls, "https://example.com/b").unwrap();
    assert_eq!(id, "download-2");
}

#[test]
fn a_new_identifier_is_not_under_way() {
    let mut controls = Controls::new();
    for n in 1..=12 {
        let id = format!("download-{}", n);
        assert_eq!(controls.get_control(&id), None);
        assert_eq!(begin_download(&mut controls, URL).unwrap().0, id);
        if n % 2 == 0 {
            controls.remove_control(&id);
        } else {
            controls.pause_download(&id).unwrap();
        }
    }
    controls.cancel_download("download-11").unwrap();
    let (id, _) = begin_download(&mut controls, "https://example.com/page").unwrap();
    controls.remove_control(&id);
    assert_eq!(controls.get_control(&id), None);
    assert!(controls.get_control("download-11").is_some());
    assert_eq!(controls.get_control("download-12"), None);
}

#[test]
fn answers_are_registered() {
    let mut controls = Controls::new();
    let refused = register_request(&mut controls, Err("why".into()));
    assert_eq!(refused.unwrap_err(), "why");
    assert_eq!(controls.get_control("download-1"), None);
    let request = read_request("https://example.com/x").unwrap();
    let (id, request) = register_request(&mut controls, Ok(request)).unwrap();
    assert_eq!((id.as_str(), request.url.as_str()), ("download-1", "https://example.com/x"));
    assert_eq!(controls.new_id(), "download-2");
}

#[test]
fn the_errors_of_a_paused_run_are_kept() {
    let mut download = running();
    step(&mut download, MediaEvent::Asked(FRESH));
    step(&mut download, MediaEvent::Errors("first".into()));
    end(&mut download, PAUSED, false);
    step(&mut download, MediaEvent::Asked(FRESH));
    step(&mut download, MediaEvent::Asked(PAUSED));
    let action = step(&mut download, MediaEvent::Waited { goes_on: true });
    assert!(matches!(action, MediaAction::Start { .. }));
    step(&mut download, MediaEvent::Started(None));
    step(&mut download, MediaEvent::Asked(FRESH));
    step(&mut download, MediaEvent::Errors("second".into()));
    end(&mut download, FRESH, false);
    let (_, _, report) = finish(step(&mut download, MediaEvent::Asked(FRESH)));
    assert_eq!(report.error.as_deref(), Some("first\nsecond"));
}

#[test]
fn cancelled_media_ends_as_cancelled() {
    let mut running_one = running();
    end(&mut running_one, CANCELLED, true);
    let (kill, clear, report) = finish(step(&mut running_one, MediaEvent::Asked(CANCELLED)));
    assert!(!kill && clear);
    assert_eq!(report.status.word(), "cancelled");
    assert_eq!(report.filename, "Media download");

    let (mut unstarted, _) = MediaDownload::new("download-1", TEMPLATE, URL);
    step(&mut unstarted, MediaEvent::Inspected(Inspection::Answered(info())));
    step(&mut unstarted, MediaEvent::FolderMade(None));
    let (kill, clear, report) = finish(step(&mut unstarted, MediaEvent::Asked(CANCELLED)));
    assert!(kill && clear);
    assert_eq!(report.status, Status::Cancelled);

    let mut waiting = running();
    end(&mut waiting, PAUSED, false);
    step(&mut waiting, MediaEvent::Asked(PAUSED));
    let (kill, clear, report) =
        finish(step(&mut waiting, MediaEvent::Waited { goes_on: false }));
    assert!(!kill && clear);
    assert_eq!(report.status, Status::Cancelled);
}

#[test]
fn media_waits_for_what_it_asked() {
    let (download, _) = MediaDownload::new("download-1", TEMPLATE, URL);
    assert!(download.accepts(&MediaEvent::Inspected(Inspection::Missing)));
    assert!(!download.accepts(&MediaEvent::FolderMade(None)));
    let download = running();
    assert!(download.accepts(&MediaEvent::Asked(FRESH)));
    assert!(!download.accepts(&MediaEvent::OutputEnded));
    assert!(!download.accepts(&MediaEvent::Exited { success: true, stopped: false }));
}

fn response(url: &str, content_type: Option<&str>, length: Option<u64>) -> FileEvent {
    FileEvent::Answered(ResponseHead {
        status_code: 200,
        content_type: content_type.map(|value| value.as_bytes().to_vec()),
        content_disposition: None,
        content_range: None,
        content_length: length,
        location: read_request(url).unwrap().location,
    })
}

fn file_step(download: &mut FileDownload, event: FileEvent) -> FileAction {
    assert!(download.accepts(&event), "{:?}", event);
    download.step(event)
}

/// A download that waits for its first chunk.
fn receiving(length: Option<u64>) -> FileDownload {
    let (mut download, action) = FileDownload::new();
    assert!(matches!(action, FileAction::Request));
    let answer = response("https://example.com/data.zip", Some("application/zip"), length);
    let action = file_step(&mut download, answer);
    assert!(matches!(action, FileAction::House { filename } if filename == "data.zip"));
    let action =
        file_step(&mut download, FileEvent::Housed { path: "/d/data.zip".into() });
    let report = match action {
        FileAction::Create(report) => report,
        other => panic!("{:?}", other),
    };
    assert_eq!(report.filename, "data.zip");
    assert_eq!((report.downloaded, report.total), (0, length));
    assert!(matches!(report.percent, Percent::Zero) == length.is_some());
    assert!(matches!(report.percent, Percent::Unknown) == length.is_none());
    assert!(matches!(report.speed, Speed::Zero));
    assert_eq!(report.status, Status::Downloading);
    assert_eq!(report.path.as_deref(), Some("/d/data.zip"));
    let action = file_step(&mut download, FileEvent::Created(None));
    assert!(matches!(action, FileAction::Receive(None)));
    download
}

fn chunk(download: &mut FileDownload, bytes: u64) -> Report {
    let action = file_step(download, FileEvent::Arrived(FRESH));
    assert!(matches!(action, FileAction::Write));
    match file_step(download, FileEvent::Written(bytes)) {
        FileAction::Receive(Some(report)) => report,
        other => panic!("{:?}", other),
    }
}

fn fail(action: FileAction) -> (String, bool) {
    match action {
        FileAction::Fail { message, forget } => (message, forget),
        other => panic!("{:?}", other),
    }
}

#[test]
fn a_file_is_downloaded() {
    let mut download = receiving(Some(100));
    let report = chunk(&mut download, 40);
    assert_eq!((report.downloaded, report.total), (40, Some(100)));
    assert!(matches!(report.percent, Percent::Share { done: 40, of: 100 }));
    assert!(matches!(report.speed, Speed::SinceStart(40)));
    assert_eq!(report.status.word(), "downloading");
    assert_eq!(chunk(&mut download, 60).downloaded, 100);
    assert!(matches!(file_step(&mut download, FileEvent::Ended), FileAction::Flush));
    let (discard, report) = match file_step(&mut download, FileEvent::Flushed(None)) {
        FileAction::Finish { discard, report } => (discard, report),
        other => panic!("{:?}", other),
    };
    assert!(!discard);
    assert_eq!((report.downloaded, report.total), (100, Some(100)));
    assert!(matches!(report.percent, Percent::Full));
    assert!(matches!(report.speed, Speed::Zero));
    assert_eq!(report.status.word(), "completed");
    assert_eq!(report.path.as_deref(), Some("/d/data.zip"));
    assert!(!download.accepts(&FileEvent::Ended));
}

#[test]
fn a_file_of_unknown_size_has_no_percentage() {
    let mut download = receiving(None);
    let report = chunk(&mut download, 5);
    assert_eq!(report.total, None);
    assert!(matches!(report.percent, Percent::Unknown));
}

#[test]
fn a_paused_file_waits() {
    let mut download = receiving(Some(10));
    chunk(&mut download, 4);
    let report = match file_step(&mut download, FileEvent::Arrived(PAUSED)) {
        FileAction::Wait(report) => report,
        other => panic!("{:?}", other),
    };
    assert_eq!(report.status.word(), "paused");
    assert_eq!(report.downloaded, 4);
    assert!(matches!(report.percent, Percent::Share { done: 4, of: 10 }));
    assert_eq!(report.path.as_deref(), Some("/d/data.zip"));
    let action = file_step(&mut download, FileEvent::Waited { goes_on: true });
    assert!(matches!(action, FileAction::Write));
    let action = file_step(&mut download, FileEvent::Written(6));
    assert!(matches!(action, FileAction::Receive(Some(report)) if report.downloaded == 10));
}

#[test]
fn a_cancelled_file_is_removed() {
    for after_pause in [false, true] {
        let mut download = receiving(Some(10));
        chunk(&mut download, 4);
        let action = if after_pause {
            file_step(&mut download, FileEvent::Arrived(PAUSED));
            file_step(&mut download, FileEvent::Waited { goes_on: false })
        } else {
            file_step(&mut download, FileEvent::Arrived(CANCELLED))
        };
        match action {
            FileAction::Finish { discard, report } => {
                assert!(discard);
                assert_eq!(report.status.word(), "cancelled");
                assert_eq!(report.downloaded, 4);
                assert_eq!(report.path, None);
            }
            other => panic!("{:?}", other),
        }
    }
}

#[test]
fn pages_are_not_stored() {
    for (url, content_type) in [
        ("https://example.com/", Some("text/html; charset=utf-8")),
        ("https://example.com/a.zip", Some("text/plain")),
        ("https://www.youtube.com/a.zip", Some("application/zip")),
    ] {
        let (mut download, _) = FileDownload::new();
        let action = file_step(&mut download, response(url, content_type, None));
        assert_eq!(
            fail(action),
            ("This URL points to a webpage, not a direct file.".to_string(), true),
        );
    }
}

#[test]
fn unnamed_files_get_a_name() {
    for (content_type, name) in [
        (Some("application/pdf"), "download.pdf"),
        (Some("application/octet-stream"), "download.bin"),
        (None, "download.bin"),
    ] {
        let (mut download, _) = FileDownload::new();
        let action =
            file_step(&mut download, response("https://example.com/", content_type, None));
        assert!(matches!(action, FileAction::House { filename } if filename == name));
    }
}

#[test]
fn failures_end_a_file() {
    let (mut download, _) = FileDownload::new();
    let action = file_step(&mut download, FileEvent::Unanswered("404".into()));
    assert_eq!(fail(action), ("404".to_string(), false));

    let (mut download, _) = FileDownload::new();
    file_step(&mut download, response("https://example.com/a.zip", None, None));
    let action = file_step(&mut download, FileEvent::Unhoused("no folder".into()));
    assert_eq!(fail(action), ("no folder".to_string(), false));

    let (mut download, _) = FileDownload::new();
    file_step(&mut download, response("https://example.com/a.zip", None, None));
    file_step(&mut download, FileEvent::Housed { path: "/d/a.zip".into() });
    let action = file_step(&mut download, FileEvent::Created(Some("denied".into())));
    assert_eq!(fail(action), ("denied".to_string(), false));

    let mut download = receiving(None);
    file_step(&mut download, FileEvent::Arrived(FRESH));
    let action = file_step(&mut download, FileEvent::Unwritten("reset".into()));
    assert_eq!(fail(action), ("reset".to_string(), false));

    let mut download = receiving(None);
    file_step(&mut download, FileEvent::Ended);
    let action = file_step(&mut download, FileEvent::Flushed(Some("full".into())));
    assert_eq!(fail(action), ("full".to_string(), false));
}

#[test]
fn bytes_stay_countable() {
    let mut download = receiving(None);
    chunk(&mut download, u64::MAX - 1);
    file_step(&mut download, FileEvent::Arrived(FRESH));
    assert!(download.accepts(&FileEvent::Written(1)));
    assert!(!download.accepts(&FileEvent::Written(2)));
}

#[test]
fn media_starts_with_its_tool() {
    assert!(matches!(check_tool(true), MediaStart::FindFolder));
    assert!(matches!(check_tool(false), MediaStart::Fail { message, forget: true }
        if message == "YouTube/media extraction requires yt-dlp. Install yt-dlp, restart Monk3i, and try again."));
}

#[test]
fn media_is_launched_in_a_folder() {
    match check_folder(None) {
        MediaStart::Launch(report) => {
            assert_eq!(report.filename, "Preparing media...");
            assert_eq!((report.downloaded, report.total), (0, None));
            assert!(matches!(report.percent, Percent::Zero));
            assert_eq!(report.status, Status::Downloading);
            assert_eq!((report.path, report.error), (None, None));
        }
        other => panic!("{:?}", other),
    }
    assert!(matches!(check_folder(Some("denied".into())), MediaStart::Fail { message, forget: false }
        if message == "denied"));
}

#[test]
fn folders_have_a_fallback() {
    assert_eq!(choose_folder(Some("d"), Some("h")), Ok("d"));
    assert_eq!(choose_folder(Some("d"), None), Ok("d"));
    assert_eq!(choose_folder(None, Some("h")), Ok("h"));
    assert_eq!(
        choose_folder::<&str>(None, None),
        Err("Could not find a Downloads folder.".to_string()),
    );
}

#[test]
fn every_status_has_a_word() {
    for (status, word) in [
        (Status::Downloading, "downloading"),
        (Status::Paused, "paused"),
        (Status::Cancelled, "cancelled"),
        (Status::Error, "error"),
        (Status::Completed, "completed"),
    ] {
        assert_eq!(status.word(), word);
    }
}
