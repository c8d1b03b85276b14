//! The course of a media download: what to do next, given what has happened.
//!
//! Whoever runs a download performs the action that it is given, hands back
//! the event that the action led to, and goes on until the download is done.

use vstd::prelude::*;
use vstd::string::*;

use crate::control::Control;
use crate::filename::{media_name, safe_media_filename};
use crate::media::{
    fetch_arguments, inspect_media_with_yt_dlp, inspection_outcome, media_arguments, text_views,
    InfoView, Inspection, InspectionView, YtDlpInfo,
};
use crate::outside::{
    ask_extension, file_extension, is_portable_path, law_told_extension, told_extension,
};
use crate::progress::{parse_progress, progress, ProgressView};
use crate::report::{
    bare_report, plain_report, report_view, Percent, PercentView, Report, ReportView, Speed,
    SpeedView, Status,
};
use crate::text::{contains, joined, position, string_view, trim, trimmed};

verus! {

/// What a media download waits for.
#[derive(Clone, Copy, Debug, PartialEq, Eq, Structural)]
pub enum Phase {
    /// What the downloader knows of the media.
    Inspecting,
    /// The folder to work in.
    MakingFolder,
    /// What was asked of the download, before the downloader is started.
    Checking,
    /// The end of a pause, before the downloader is started.
    Waiting,
    /// The start of the downloader.
    Starting,
    /// What was asked of the download, while the downloader runs.
    Polling,
    /// A line of the downloader.
    Reading,
    /// The end of the downloader.
    Reaping,
    /// What was asked of the download, after the downloader has ended.
    Settling,
    /// The end of a pause, after the downloader has ended.
    WaitingAgain,
    /// The file that the downloader left.
    Locating,
    /// The file's move to its place.
    Placing,
    /// Nothing.
    Done,
}

/// A file that the downloader left.
#[derive(Clone, Debug)]
pub struct Source {
    /// Where it is.
    pub path: String,
    /// Its extension, where it has one that is text.
    pub extension: Option<String>,
}

/// What happened to a media download.
#[derive(Clone, Debug)]
pub enum MediaEvent {
    /// The downloader was asked about the media.
    Inspected(Inspection),
    /// The folder was made, or not for the reason given.
    FolderMade(Option<String>),
    /// What was asked of the download.
    Asked(Control),
    /// A pause ended: the download goes on, or it was cancelled.
    Waited { goes_on: bool },
    /// The downloader was started, or not for the reason given.
    Started(Option<String>),
    /// A line of the downloader's output, with the file whose path it holds.
    Output { line: String, printed: Option<Source> },
    /// The downloader's output ended.
    OutputEnded,
    /// A line of the downloader's error stream.
    Errors(String),
    /// The downloader's error stream ended.
    ErrorsEnded,
    /// The downloader ended, well or not. Whether it was stopped, which may have
    /// happened unseen while it ran. One that ended well all the same was stopped
    /// too late to matter.
    Exited { success: bool, stopped: bool },
    /// The folder was searched for the file.
    Located(Option<Source>),
    /// The file was moved to its place, under a name that may not be text.
    Placed { name: Option<String>, path: String },
    /// The file could not be moved, for the reason given.
    NotPlaced(String),
}

/// What a media download needs done.
#[derive(Clone, Debug)]
pub enum MediaAction {
    /// Ask the downloader about the media.
    Inspect,
    /// Make the folder to work in.
    MakeFolder,
    /// See what was asked of the download, after a report if there is one.
    Check(Option<Report>),
    /// Report, then wait while the download is paused.
    Wait(Report),
    /// Start the downloader with these arguments.
    Start { arguments: Vec<String> },
    /// Stop the downloader if asked to, then read its next line.
    Read { kill: bool },
    /// Stop the downloader if asked to, then wait for its end.
    Reap { kill: bool },
    /// Search the folder for the file of this media.
    Locate { media_id: String },
    /// Move the file to the first free place for the name.
    Place { source: String, filename: String },
    /// Stop the downloader and remove the folder, each if asked to. Then
    /// report, and take the download off those under way. It is done.
    Finish { kill: bool, clear: bool, report: Report },
}

/// A [`Source`] in its characters.
#[verifier::ext_equal]
pub struct SourceView {
    pub path: Seq<char>,
    pub extension: Option<Seq<char>>,
}

/// A [`MediaEvent`] in its characters.
#[verifier::ext_equal]
pub enum MediaEventView {
    Inspected(InspectionView),
    FolderMade(Option<Seq<char>>),
    Asked(Control),
    Waited { goes_on: bool },
    Started(Option<Seq<char>>),
    Output { line: Seq<char>, printed: Option<SourceView> },
    OutputEnded,
    Errors(Seq<char>),
    ErrorsEnded,
    Exited { success: bool, stopped: bool },
    Located(Option<SourceView>),
    Placed { name: Option<Seq<char>>, path: Seq<char> },
    NotPlaced(Seq<char>),
}

/// A [`MediaAction`] in its characters.
#[verifier::ext_equal]
pub enum MediaActionView {
    Inspect,
    MakeFolder,
    Check(Option<ReportView>),
    Wait(ReportView),
    Start { arguments: Seq<Seq<char>> },
    Read { kill: bool },
    Reap { kill: bool },
    Locate { media_id: Seq<char> },
    Place { source: Seq<char>, filename: Seq<char> },
    Finish { kill: bool, clear: bool, report: ReportView },
}

impl View for Source {
    type V = SourceView;

    open spec fn view(&self) -> SourceView {
        SourceView { path: self.path@, extension: string_view(self.extension) }
    }
}

/// The file at a path that the downloader printed, with its extension, which of
/// a path that is not portable is as the platform says.
pub fn printed_source(path: String) -> (r: Source)
    ensures
        r.path@ == path@,
        told_extension(path@, string_view(r.extension)),
        is_portable_path(path@) ==> string_view(r.extension) == file_extension(path@),
{
    let extension = ask_extension(path.as_str());
    proof {
        if is_portable_path(path@) {
            law_told_extension(path@, string_view(extension));
        }
    }
    Source { path, extension }
}

/// The view of a file that may be missing.
pub open spec fn source_view(source: Option<Source>) -> Option<SourceView> {
    match source {
        Some(source) => Some(source@),
        None => None,
    }
}

impl View for MediaEvent {
    type V = MediaEventView;

    open spec fn view(&self) -> MediaEventView {
        match *self {
            MediaEvent::Inspected(inspection) => MediaEventView::Inspected(inspection@),
            MediaEvent::FolderMade(error) => MediaEventView::FolderMade(string_view(error)),
            MediaEvent::Asked(control) => MediaEventView::Asked(control),
            MediaEvent::Waited { goes_on } => MediaEventView::Waited { goes_on },
            MediaEvent::Started(error) => MediaEventView::Started(string_view(error)),
            MediaEvent::Output { line, printed } => MediaEventView::Output {
                line: line@,
                printed: source_view(printed),
            },
            MediaEvent::OutputEnded => MediaEventView::OutputEnded,
            MediaEvent::Errors(line) => MediaEventView::Errors(line@),
            MediaEvent::ErrorsEnded => MediaEventView::ErrorsEnded,
            MediaEvent::Exited { success, stopped } => MediaEventView::Exited { success, stopped },
            MediaEvent::Located(source) => MediaEventView::Located(source_view(source)),
            MediaEvent::Placed { name, path } => MediaEventView::Placed {
                name: string_view(name),
                path: path@,
            },
            MediaEvent::NotPlaced(error) => MediaEventView::NotPlaced(error@),
        }
    }
}

impl View for MediaAction {
    type V = MediaActionView;

    open spec fn view(&self) -> MediaActionView {
        match *self {
            MediaAction::Inspect => MediaActionView::Inspect,
            MediaAction::MakeFolder => MediaActionView::MakeFolder,
            MediaAction::Check(report) => MediaActionView::Check(report_view(report)),
            MediaAction::Wait(report) => MediaActionView::Wait(report@),
            MediaAction::Start { arguments } => MediaActionView::Start {
                arguments: text_views(arguments@),
            },
            MediaAction::Read { kill } => MediaActionView::Read { kill },
            MediaAction::Reap { kill } => MediaActionView::Reap { kill },
            MediaAction::Locate { media_id } => MediaActionView::Locate { media_id: media_id@ },
            MediaAction::Place { source, filename } => MediaActionView::Place {
                source: source@,
                filename: filename@,
            },
            MediaAction::Finish { kill, clear, report } => MediaActionView::Finish {
                kill,
                clear,
                report: report@,
            },
        }
    }
}

/// A media download in its course.
pub struct MediaDownload {
    id: String,
    template: String,
    url: String,
    info: YtDlpInfo,
    phase: Phase,
    killed: bool,
    output_open: bool,
    errors_open: bool,
    success: bool,
    printed: Option<Source>,
    error_text: String,
    filename: String,
}

/// A [`MediaDownload`] in its characters.
#[verifier::ext_equal]
pub struct MediaView {
    /// The identifier of the download.
    pub id: Seq<char>,
    /// What names the files that the downloader writes.
    pub template: Seq<char>,
    /// Where the media is.
    pub url: Seq<char>,
    /// What the downloader knows of the media.
    pub info: InfoView,
    /// What the download waits for.
    pub phase: Phase,
    /// Whether this run of the downloader was stopped, as far as it is known.
    pub killed: bool,
    /// Whether there may be more output.
    pub output_open: bool,
    /// Whether there may be more on the error stream.
    pub errors_open: bool,
    /// Whether the downloader ended well.
    pub success: bool,
    /// The file whose path this run of the downloader printed last.
    pub printed: Option<SourceView>,
    /// What all runs of the downloader wrote to the error stream.
    pub error_text: Seq<char>,
    /// The name that the file is to get.
    pub filename: Seq<char>,
}

impl View for MediaDownload {
    type V = MediaView;

    closed spec fn view(&self) -> MediaView {
        MediaView {
            id: self.id@,
            template: self.template@,
            url: self.url@,
            info: self.info@,
            phase: self.phase,
            killed: self.killed,
            output_open: self.output_open,
            errors_open: self.errors_open,
            success: self.success,
            printed: source_view(self.printed),
            error_text: self.error_text@,
            filename: self.filename@,
        }
    }
}

/// A download that has not begun.
pub open spec fn media_start(id: Seq<char>, template: Seq<char>, url: Seq<char>) -> MediaView {
    MediaView {
        id,
        template,
        url,
        info: InfoView { id: None, title: None, ext: None, filesize: None, filesize_approx: None },
        phase: Phase::Inspecting,
        killed: false,
        output_open: false,
        errors_open: false,
        success: false,
        printed: None,
        error_text: ""@,
        filename: ""@,
    }
}

/// Whether `event` is what a download in `phase` waits for.
pub open spec fn awaits(phase: Phase, event: MediaEventView) -> bool {
    match event {
        MediaEventView::Inspected(_) => phase == Phase::Inspecting,
        MediaEventView::FolderMade(_) => phase == Phase::MakingFolder,
        MediaEventView::Asked(_) => phase == Phase::Checking || phase == Phase::Polling || phase
            == Phase::Settling,
        MediaEventView::Waited { .. } => phase == Phase::Waiting || phase == Phase::WaitingAgain,
        MediaEventView::Started(_) => phase == Phase::Starting,
        MediaEventView::Output { .. } => phase == Phase::Reading,
        MediaEventView::OutputEnded => phase == Phase::Reading,
        MediaEventView::Errors(_) => phase == Phase::Reading,
        MediaEventView::ErrorsEnded => phase == Phase::Reading,
        MediaEventView::Exited { .. } => phase == Phase::Reaping,
        MediaEventView::Located(_) => phase == Phase::Locating,
        MediaEventView::Placed { .. } => phase == Phase::Placing,
        MediaEventView::NotPlaced(_) => phase == Phase::Placing,
    }
}

/// A report on a media download as a whole.
pub open spec fn media_report(status: Status, error: Option<Seq<char>>) -> ReportView {
    bare_report("Media download"@, status, error)
}

/// The report on a line of progress.
pub open spec fn progress_report(line: ProgressView) -> ReportView {
    ReportView {
        filename: "Downloading media..."@,
        downloaded: line.downloaded,
        total: line.total,
        percent: PercentView::Written(line.percent),
        speed: SpeedView::Written(line.speed),
        status: Status::Downloading,
        path: None,
        error: None,
    }
}

/// The report on a line, where it is one of progress.
pub open spec fn line_report(line: Seq<char>) -> Option<ReportView> {
    match progress(line) {
        Some(line) => Some(progress_report(line)),
        None => None,
    }
}

/// Whether a line of the error stream says what went wrong: it is no progress
/// line, not blank, and not one of the downloader's own notices.
pub open spec fn is_error_line(line: Seq<char>) -> bool {
    progress(line) is None && trimmed(line).len() > 0 && position(line, "[download]"@) is None
}

/// What a user is told where the downloader failed.
pub open spec fn failure_message(error_text: Seq<char>) -> Seq<char> {
    if trimmed(error_text).len() == 0 {
        "Media download failed."@
    } else {
        trimmed(error_text)
    }
}

/// The report on media that is in its place.
pub open spec fn placed_report(
    info: InfoView,
    name: Option<Seq<char>>,
    path: Seq<char>,
) -> ReportView {
    ReportView {
        filename: match name {
            Some(name) => name,
            None => "Downloaded media"@,
        },
        downloaded: match info.size() {
            Some(size) => size,
            None => 0,
        },
        total: info.size(),
        percent: PercentView::Full,
        speed: SpeedView::Zero,
        status: Status::Completed,
        path: Some(path),
        error: None,
    }
}

/// The name that the file `source` is to get: the title, with the extension of
/// the file, else the one that the downloader told, else that of MP4.
pub open spec fn final_name(info: InfoView, source: SourceView) -> Seq<char> {
    media_name(
        match info.title {
            Some(title) => title,
            None => "Downloaded media"@,
        },
        match source.extension {
            Some(extension) => extension,
            None => match info.ext {
                Some(ext) => ext,
                None => "mp4"@,
            },
        },
    )
}

/// The end of a download.
pub open spec fn finished(s: MediaView, kill: bool, clear: bool, report: ReportView) -> (
    MediaView,
    MediaActionView,
) {
    (
        MediaView { phase: Phase::Done, ..s },
        MediaActionView::Finish { kill, clear, report },
    )
}

/// The end of a download that was cancelled.
pub open spec fn cancelled(s: MediaView, kill: bool) -> (MediaView, MediaActionView) {
    finished(s, kill, true, media_report(Status::Cancelled, None))
}

/// The end of a download that failed.
pub open spec fn failed(s: MediaView, clear: bool, message: Seq<char>) -> (
    MediaView,
    MediaActionView,
) {
    finished(s, false, clear, media_report(Status::Error, Some(message)))
}

/// A download that comes to wait for `phase`.
pub open spec fn turned(s: MediaView, phase: Phase, action: MediaActionView) -> (
    MediaView,
    MediaActionView,
) {
    (MediaView { phase, ..s }, action)
}

/// A download whose downloader is to be started, for the first time or again:
/// the arguments are always the same.
pub open spec fn starting(s: MediaView) -> (MediaView, MediaActionView) {
    turned(
        s,
        Phase::Starting,
        MediaActionView::Start { arguments: fetch_arguments(s.template, s.url) },
    )
}

/// A download whose file has been found.
pub open spec fn placing(s: MediaView, source: SourceView) -> (MediaView, MediaActionView) {
    let filename = final_name(s.info, source);
    (
        MediaView { phase: Phase::Placing, filename, ..s },
        MediaActionView::Place { source: source.path, filename },
    )
}

/// What follows what was asked of a download.
pub open spec fn after_asked(s: MediaView, control: Control) -> (MediaView, MediaActionView) {
    let pause = MediaActionView::Wait(media_report(Status::Paused, None));
    if s.phase == Phase::Checking {
        if control.cancelled {
            cancelled(s, true)
        } else if control.paused {
            turned(s, Phase::Waiting, pause)
        } else {
            starting(s)
        }
    } else if s.phase == Phase::Polling {
        let kill = control.cancelled || control.paused;
        let t = MediaView { killed: s.killed || kill, ..s };
        if s.output_open || s.errors_open {
            turned(t, Phase::Reading, MediaActionView::Read { kill })
        } else {
            turned(t, Phase::Reaping, MediaActionView::Reap { kill })
        }
    } else if control.cancelled {
        cancelled(s, false)
    } else if control.paused {
        turned(s, Phase::WaitingAgain, pause)
    } else if s.killed {
        turned(s, Phase::Checking, MediaActionView::Check(None))
    } else if !s.success {
        failed(s, true, failure_message(s.error_text))
    } else {
        match s.printed {
            Some(source) => placing(s, source),
            None => turned(
                s,
                Phase::Locating,
                MediaActionView::Locate {
                    media_id: match s.info.id {
                        Some(id) => id,
                        None => s.id,
                    },
                },
            ),
        }
    }
}

/// What follows an event: how the download stands then, and what it needs done.
pub open spec fn media_next(s: MediaView, event: MediaEventView) -> (MediaView, MediaActionView) {
    match event {
        MediaEventView::Inspected(inspection) => match inspection_outcome(inspection) {
            Ok(info) => turned(
                MediaView { info, ..s },
                Phase::MakingFolder,
                MediaActionView::MakeFolder,
            ),
            Err(message) => failed(s, false, message),
        },
        MediaEventView::FolderMade(error) => match error {
            Some(error) => failed(
                s,
                false,
                "Could not create temporary download folder: "@ + error,
            ),
            None => turned(s, Phase::Checking, MediaActionView::Check(None)),
        },
        MediaEventView::Asked(control) => after_asked(s, control),
        MediaEventView::Waited { goes_on } => if !goes_on {
            cancelled(s, false)
        } else if s.phase == Phase::Waiting {
            starting(s)
        } else {
            turned(s, Phase::Checking, MediaActionView::Check(None))
        },
        MediaEventView::Started(error) => match error {
            Some(error) => failed(s, true, "Could not start yt-dlp: "@ + error),
            None => turned(
                MediaView {
                    killed: false,
                    output_open: true,
                    errors_open: true,
                    printed: None,
                    ..s
                },
                Phase::Polling,
                MediaActionView::Check(None),
            ),
        },
        MediaEventView::Output { line, printed } => turned(
            MediaView {
                printed: if printed is Some {
                    printed
                } else {
                    s.printed
                },
                ..s
            },
            Phase::Polling,
            MediaActionView::Check(line_report(line)),
        ),
        MediaEventView::OutputEnded => turned(
            MediaView { output_open: false, ..s },
            Phase::Polling,
            MediaActionView::Check(None),
        ),
        MediaEventView::Errors(line) => turned(
            MediaView {
                error_text: if is_error_line(line) {
                    s.error_text + line + "\n"@
                } else {
                    s.error_text
                },
                ..s
            },
            Phase::Polling,
            MediaActionView::Check(line_report(line)),
        ),
        MediaEventView::ErrorsEnded => turned(
            MediaView { errors_open: false, ..s },
            Phase::Polling,
            MediaActionView::Check(None),
        ),
        MediaEventView::Exited { success, stopped } => turned(
            MediaView { success, killed: s.killed || stopped && !success, ..s },
            Phase::Settling,
            MediaActionView::Check(None),
        ),
        MediaEventView::Located(source) => match source {
            Some(source) => placing(s, source),
            None => failed(
                s,
                true,
                "yt-dlp completed, but Monk3i could not locate the downloaded media file."@,
            ),
        },
        MediaEventView::Placed { name, path } => finished(
            s,
            false,
            true,
            placed_report(s.info, name, path),
        ),
        MediaEventView::NotPlaced(error) => finished(
            s,
            false,
            true,
            bare_report(
                s.filename,
                Status::Error,
                Some("Could not finalize downloaded media: "@ + error),
            ),
        ),
    }
}

/// A report on a media download as a whole.
fn write_report(status: Status, error: Option<String>) -> (r: Report)
    ensures
        r@ == media_report(status, string_view(error)),
{
    plain_report("Media download", status, error)
}

/// The report on a line, where it is one of progress.
fn report_line(line: &str) -> (r: Option<Report>)
    ensures
        report_view(r) == line_report(line@),
{
    match parse_progress(line) {
        Some(line) => Some(
            Report {
                filename: "Downloading media...".to_owned(),
                downloaded: line.downloaded,
                total: line.total,
                percent: Percent::Written(line.percent),
                speed: Speed::Written(line.speed),
                status: Status::Downloading,
                path: None,
                error: None,
            },
        ),
        None => None,
    }
}

/// What a user is told where the downloader failed.
fn explain_failure(error_text: &str) -> (r: String)
    ensures
        r@ == failure_message(error_text@),
{
    let message = trim(error_text);
    if message.is_empty() {
        "Media download failed.".to_owned()
    } else {
        message.to_owned()
    }
}

/// The name that the file `source` is to get.
fn write_final_name(info: &YtDlpInfo, source: &Source) -> (r: String)
    ensures
        r@ == final_name(info@, source@),
{
    let title = match &info.title {
        Some(title) => title.as_str(),
        None => "Downloaded media",
    };
    let extension = match &source.extension {
        Some(extension) => extension.as_str(),
        None => match &info.ext {
            Some(ext) => ext.as_str(),
            None => "mp4",
        },
    };
    safe_media_filename(title, extension)
}

impl MediaDownload {
    /// The download `id` of the media at `url`, into files that `template`
    /// names, and its first action.
    pub fn new(id: &str, template: &str, url: &str) -> (r: (MediaDownload, MediaAction))
        ensures
            r.0@ == media_start(id@, template@, url@),
            r.1@ == MediaActionView::Inspect,
    {
        let download = MediaDownload {
            id: id.to_owned(),
            template: template.to_owned(),
            url: url.to_owned(),
            info: YtDlpInfo {
                id: None,
                title: None,
                ext: None,
                filesize: None,
                filesize_approx: None,
            },
            phase: Phase::Inspecting,
            killed: false,
            output_open: false,
            errors_open: false,
            success: false,
            printed: None,
            error_text: "".to_owned(),
            filename: "".to_owned(),
        };
        (download, MediaAction::Inspect)
    }

    /// Whether `event` is what the download waits for.
    pub fn accepts(&self, event: &MediaEvent) -> (r: bool)
        ensures
            r == awaits(self@.phase, event@),
    {
        match event {
            MediaEvent::Inspected(_) => self.phase == Phase::Inspecting,
            MediaEvent::FolderMade(_) => self.phase == Phase::MakingFolder,
            MediaEvent::Asked(_) => self.phase == Phase::Checking || self.phase == Phase::Polling
                || self.phase == Phase::Settling,
            MediaEvent::Waited { .. } => self.phase == Phase::Waiting || self.phase
                == Phase::WaitingAgain,
            MediaEvent::Started(_) => self.phase == Phase::Starting,
            MediaEvent::Output { .. } => self.phase == Phase::Reading,
            MediaEvent::OutputEnded => self.phase == Phase::Reading,
            MediaEvent::Errors(_) => self.phase == Phase::Reading,
            MediaEvent::ErrorsEnded => self.phase == Phase::Reading,
            MediaEvent::Exited { .. } => self.phase == Phase::Reaping,
            MediaEvent::Located(_) => self.phase == Phase::Locating,
            MediaEvent::Placed { .. } => self.phase == Phase::Placing,
            MediaEvent::NotPlaced(_) => self.phase == Phase::Placing,
        }
    }

    /// Whether there may be more of the downloader's output.
    pub fn expects_output(&self) -> (r: bool)
        ensures
            r == self@.output_open,
    {
        self.output_open
    }

    /// Whether there may be more on the downloader's error stream.
    pub fn expects_errors(&self) -> (r: bool)
        ensures
            r == self@.errors_open,
    {
        self.errors_open
    }

    /// The end of a download.
    fn finish(&mut self, kill: bool, clear: bool, report: Report) -> (r: MediaAction)
        ensures
            (final(self)@, r@) == finished(old(self)@, kill, clear, report@),
    {
        self.phase = Phase::Done;
        MediaAction::Finish { kill, clear, report }
    }

    /// The end of a download that was cancelled.
    fn cancel(&mut self, kill: bool) -> (r: MediaAction)
        ensures
            (final(self)@, r@) == cancelled(old(self)@, kill),
    {
        let report = write_report(Status::Cancelled, None);
        self.finish(kill, true, report)
    }

    /// The end of a download that failed.
    fn fail(&mut self, clear: bool, message: String) -> (r: MediaAction)
        ensures
            (final(self)@, r@) == failed(old(self)@, clear, message@),
    {
        let report = write_report(Status::Error, Some(message));
        self.finish(false, clear, report)
    }

    /// A download that comes to wait for `phase`.
    fn turn(&mut self, phase: Phase, action: MediaAction) -> (r: MediaAction)
        ensures
            (final(self)@, r@) == turned(old(self)@, phase, action@),
    {
        self.phase = phase;
        action
    }

    /// A download whose downloader is to be started.
    fn start(&mut self) -> (r: MediaAction)
        ensures
            (final(self)@, r@) == starting(old(self)@),
    {
        let arguments = media_arguments(self.template.as_str(), self.url.as_str());
        self.turn(Phase::Starting, MediaAction::Start { arguments })
    }

    /// A download whose file has been found.
    fn place(&mut self, source: Source) -> (r: MediaAction)
        ensures
            (final(self)@, r@) == placing(old(self)@, source@),
    {
        let filename = write_final_name(&self.info, &source);
        self.phase = Phase::Placing;
        self.filename = filename.clone();
        MediaAction::Place { source: source.path, filename }
    }

    /// What follows what was asked of the download.
    fn step_asked(&mut self, control: Control) -> (r: MediaAction)
        ensures
            (final(self)@, r@) == after_asked(old(self)@, control),
    {
        if self.phase == Phase::Checking {
            if control.cancelled {
                self.cancel(true)
            } else if control.paused {
                let report = write_report(Status::Paused, None);
                self.turn(Phase::Waiting, MediaAction::Wait(report))
            } else {
                self.start()
            }
        } else if self.phase == Phase::Polling {
            let kill = control.cancelled || control.paused;
            if kill {
                self.killed = true;
            }
            if self.output_open || self.errors_open {
                self.turn(Phase::Reading, MediaAction::Read { kill })
            } else {
                self.turn(Phase::Reaping, MediaAction::Reap { kill })
            }
        } else if control.cancelled {
            self.cancel(false)
        } else if control.paused {
            let report = write_report(Status::Paused, None);
            self.turn(Phase::WaitingAgain, MediaAction::Wait(report))
        } else if self.killed {
            self.turn(Phase::Checking, MediaAction::Check(None))
        } else if !self.success {
            let message = explain_failure(self.error_text.as_str());
            self.fail(true, message)
        } else {
            let printed = match &self.printed {
                Some(source) => Some(
                    Source {
                        path: source.path.clone(),
                        extension: match &source.extension {
                            Some(extension) => Some(extension.clone()),
                            None => None,
                        },
                    },
                ),
                None => None,
            };
            match printed {
                Some(source) => self.place(source),
                None => {
                    let media_id = match &self.info.id {
                        Some(id) => id.clone(),
                        None => self.id.clone(),
                    };
                    self.turn(Phase::Locating, MediaAction::Locate { media_id })
                },
            }
        }
    }

    /// Takes in an event that the download waits for, and says what it needs
    /// done next.
    pub fn step(&mut self, event: MediaEvent) -> (r: MediaAction)
        requires
            awaits(old(self)@.phase, event@),
        ensures
            final(self)@ == media_next(old(self)@, event@).0,
            r@ == media_next(old(self)@, event@).1,
    {
        match event {
            MediaEvent::Inspected(inspection) => match inspect_media_with_yt_dlp(inspection) {
                Ok(info) => {
                    self.info = info;
                    self.turn(Phase::MakingFolder, MediaAction::MakeFolder)
                },
                Err(message) => self.fail(false, message),
            },
            MediaEvent::FolderMade(error) => match error {
                Some(error) => {
                    let message = joined(
                        "Could not create temporary download folder: ",
                        error.as_str(),
                    );
                    self.fail(false, message)
                },
                None => self.turn(Phase::Checking, MediaAction::Check(None)),
            },
            MediaEvent::Asked(control) => self.step_asked(control),
            MediaEvent::Waited { goes_on } => {
                if !goes_on {
                    self.cancel(false)
                } else if self.phase == Phase::Waiting {
                    self.start()
                } else {
                    self.turn(Phase::Checking, MediaAction::Check(None))
                }
            },
            MediaEvent::Started(error) => match error {
                Some(error) => {
                    let message = joined("Could not start yt-dlp: ", error.as_str());
                    self.fail(true, message)
                },
                None => {
                    self.killed = false;
                    self.output_open = true;
                    self.errors_open = true;
                    self.printed = None;
                    self.turn(Phase::Polling, MediaAction::Check(None))
                },
            },
            MediaEvent::Output { line, printed } => {
                if printed.is_some() {
                    self.printed = printed;
                }
                let report = report_line(line.as_str());
                self.turn(Phase::Polling, MediaAction::Check(report))
            },
            MediaEvent::OutputEnded => {
                self.output_open = false;
                self.turn(Phase::Polling, MediaAction::Check(None))
            },
            MediaEvent::Errors(line) => {
                let report = report_line(line.as_str());
                if report.is_none() && !trim(line.as_str()).is_empty() && !contains(
                    line.as_str(),
                    "[download]",
                ) {
                    let mut error_text = self.error_text.clone();
                    error_text.append(line.as_str());
                    error_text.append("\n");
                    self.error_text = error_text;
                }
                self.turn(Phase::Polling, MediaAction::Check(report))
            },
            MediaEvent::ErrorsEnded => {
                self.errors_open = false;
                self.turn(Phase::Polling, MediaAction::Check(None))
            },
            MediaEvent::Exited { success, stopped } => {
                self.success = success;
                self.killed = self.killed || (stopped && !success);
                self.turn(Phase::Settling, MediaAction::Check(None))
            },
            MediaEvent::Located(source) => match source {
                Some(source) => self.place(source),
                None => {
                    let message =
                        "yt-dlp completed, but Monk3i could not locate the downloaded media file.".to_owned();
                    self.fail(true, message)
                },
            },
            MediaEvent::Placed { name, path } => {
                let total = self.info.size();
                let report = Report {
                    filename: match name {
                        Some(name) => name,
                        None => "Downloaded media".to_owned(),
                    },
                    downloaded: match total {
                        Some(size) => size,
                        None => 0,
                    },
                    total,
                    percent: Percent::Full,
                    speed: Speed::Zero,
                    status: Status::Completed,
                    path: Some(path),
                    error: None,
                };
                self.finish(false, true, report)
            },
            MediaEvent::NotPlaced(error) => {
                let message = joined("Could not finalize downloaded media: ", error.as_str());
                let report = plain_report(self.filename.as_str(), Status::Error, Some(message));
                self.finish(false, true, report)
            },
        }
    }
}

} // verus!
