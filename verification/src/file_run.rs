//! The course of the download of a single file over HTTP: what to do next,
//! given what has happened.
//!
//! Whoever runs a download performs the action that it is given, hands back
//! the event that the action led to, and goes on until the download is done.

use vstd::prelude::*;
use vstd::string::*;

use crate::control::Control;
use crate::location::{kind, media_type, resource_kind};
use crate::naming::{extension_for_content_type, type_extension};
use crate::report::{
    report_view, Percent, PercentView, Report, ReportView, Speed, SpeedView, Status,
};
use crate::resource::{
    as_text, header_text, head_filename, or_empty, read_head_filename, read_header, total_size,
    total_size_from_response, HeadView, ResponseHead,
};
use crate::text::{joined, same, string_view};

verus! {

/// What a file download waits for.
#[derive(Clone, Copy, Debug, PartialEq, Eq, Structural)]
pub enum Stage {
    /// The head of the response.
    Requesting,
    /// A place for the file.
    Housing,
    /// The file.
    Creating,
    /// The next chunk of the response.
    Receiving,
    /// The end of a pause.
    Waiting,
    /// The writing of a chunk.
    Writing,
    /// The last writing.
    Flushing,
    /// Nothing.
    Done,
}

/// What happened to a file download.
#[derive(Clone, Debug)]
pub enum FileEvent {
    /// The head of the response came.
    Answered(ResponseHead),
    /// There was no response, for the reason given.
    Unanswered(String),
    /// The place for the file.
    Housed { path: String },
    /// There was no place, for the reason given.
    Unhoused(String),
    /// The file was created, or not for the reason given.
    Created(Option<String>),
    /// A chunk came, good or bad. What was asked of the download then.
    Arrived(Control),
    /// There are no more chunks.
    Ended,
    /// A pause ended: the download goes on, or it was cancelled.
    Waited { goes_on: bool },
    /// The chunk was written, so many bytes.
    Written(u64),
    /// The chunk was bad or could not be written, for the reason given.
    Unwritten(String),
    /// The file was written out, or not for the reason given.
    Flushed(Option<String>),
}

/// What a file download needs done.
#[derive(Clone, Debug)]
pub enum FileAction {
    /// Ask for the file.
    Request,
    /// Find the first free place for the name.
    House { filename: String },
    /// Report, then create the file.
    Create(Report),
    /// Report if there is something to report, then take the next chunk.
    Receive(Option<Report>),
    /// Report, then wait while the download is paused.
    Wait(Report),
    /// Write the chunk.
    Write,
    /// Write out the file.
    Flush,
    /// Remove the file if asked to. Then report, and take the download off
    /// those under way. It is done.
    Finish { discard: bool, report: Report },
    /// Give up with a message. The download is taken off those under way only
    /// if asked to.
    Fail { message: String, forget: bool },
}

/// A [`FileEvent`] in its characters.
#[verifier::ext_equal]
pub enum FileEventView {
    Answered(HeadView),
    Unanswered(Seq<char>),
    Housed { path: Seq<char> },
    Unhoused(Seq<char>),
    Created(Option<Seq<char>>),
    Arrived(Control),
    Ended,
    Waited { goes_on: bool },
    Written(u64),
    Unwritten(Seq<char>),
    Flushed(Option<Seq<char>>),
}

/// A [`FileAction`] in its characters.
#[verifier::ext_equal]
pub enum FileActionView {
    Request,
    House { filename: Seq<char> },
    Create(ReportView),
    Receive(Option<ReportView>),
    Wait(ReportView),
    Write,
    Flush,
    Finish { discard: bool, report: ReportView },
    Fail { message: Seq<char>, forget: bool },
}

impl View for FileEvent {
    type V = FileEventView;

    open spec fn view(&self) -> FileEventView {
        match *self {
            FileEvent::Answered(head) => FileEventView::Answered(head@),
            FileEvent::Unanswered(error) => FileEventView::Unanswered(error@),
            FileEvent::Housed { path } => FileEventView::Housed { path: path@ },
            FileEvent::Unhoused(error) => FileEventView::Unhoused(error@),
            FileEvent::Created(error) => FileEventView::Created(string_view(error)),
            FileEvent::Arrived(control) => FileEventView::Arrived(control),
            FileEvent::Ended => FileEventView::Ended,
            FileEvent::Waited { goes_on } => FileEventView::Waited { goes_on },
            FileEvent::Written(bytes) => FileEventView::Written(bytes),
            FileEvent::Unwritten(error) => FileEventView::Unwritten(error@),
            FileEvent::Flushed(error) => FileEventView::Flushed(string_view(error)),
        }
    }
}

impl View for FileAction {
    type V = FileActionView;

    open spec fn view(&self) -> FileActionView {
        match *self {
            FileAction::Request => FileActionView::Request,
            FileAction::House { filename } => FileActionView::House { filename: filename@ },
            FileAction::Create(report) => FileActionView::Create(report@),
            FileAction::Receive(report) => FileActionView::Receive(report_view(report)),
            FileAction::Wait(report) => FileActionView::Wait(report@),
            FileAction::Write => FileActionView::Write,
            FileAction::Flush => FileActionView::Flush,
            FileAction::Finish { discard, report } => FileActionView::Finish {
                discard,
                report: report@,
            },
            FileAction::Fail { message, forget } => FileActionView::Fail {
                message: message@,
                forget,
            },
        }
    }
}

/// A file download in its course.
pub struct FileDownload {
    stage: Stage,
    filename: String,
    path: String,
    total: Option<u64>,
    downloaded: u64,
}

/// A [`FileDownload`] in its characters.
#[verifier::ext_equal]
pub struct FileView {
    /// What the download waits for.
    pub stage: Stage,
    /// The name that is shown.
    pub filename: Seq<char>,
    /// Where the file is.
    pub path: Seq<char>,
    /// The size of the file, where it is known.
    pub total: Option<u64>,
    /// The bytes written so far.
    pub downloaded: u64,
}

impl View for FileDownload {
    type V = FileView;

    closed spec fn view(&self) -> FileView {
        FileView {
            stage: self.stage,
            filename: self.filename@,
            path: self.path@,
            total: self.total,
            downloaded: self.downloaded,
        }
    }
}

/// A download that has not begun.
pub open spec fn file_start() -> FileView {
    FileView {
        stage: Stage::Requesting,
        filename: ""@,
        path: ""@,
        total: None,
        downloaded: 0,
    }
}

/// Whether `event` is what a download waits for. The bytes written stay within
/// a `u64`.
pub open spec fn expects(s: FileView, event: FileEventView) -> bool {
    match event {
        FileEventView::Answered(_) => s.stage == Stage::Requesting,
        FileEventView::Unanswered(_) => s.stage == Stage::Requesting,
        FileEventView::Housed { .. } => s.stage == Stage::Housing,
        FileEventView::Unhoused(_) => s.stage == Stage::Housing,
        FileEventView::Created(_) => s.stage == Stage::Creating,
        FileEventView::Arrived(_) => s.stage == Stage::Receiving,
        FileEventView::Ended => s.stage == Stage::Receiving,
        FileEventView::Waited { .. } => s.stage == Stage::Waiting,
        FileEventView::Written(bytes) => s.stage == Stage::Writing && s.downloaded + bytes
            <= u64::MAX,
        FileEventView::Unwritten(_) => s.stage == Stage::Writing,
        FileEventView::Flushed(_) => s.stage == Stage::Flushing,
    }
}

/// Whether a resource of this kind is a page to look at, not a file.
pub open spec fn is_page_kind(kind: Seq<char>) -> bool {
    kind == "webpage"@ || kind == "media_page"@
}

/// What a user is told who asked for a page.
pub open spec fn page_message() -> Seq<char> {
    "This URL points to a webpage, not a direct file."@
}

/// The name for a file whose response gives none.
pub open spec fn unnamed(content_type: Seq<char>) -> Seq<char> {
    match type_extension(media_type(content_type)) {
        Some(extension) => "download."@ + extension,
        None => "download.bin"@,
    }
}

/// The name of the file that a response holds.
pub open spec fn stored_name(head: HeadView) -> Seq<char> {
    match head_filename(head) {
        Some(name) => name,
        None => unnamed(or_empty(header_text(head.content_type))),
    }
}

/// How much of a download is there.
pub open spec fn share(downloaded: u64, total: Option<u64>) -> PercentView {
    match total {
        Some(of) => PercentView::Share { done: downloaded, of },
        None => PercentView::Unknown,
    }
}

/// The report on a download as it stands.
pub open spec fn file_report(
    s: FileView,
    percent: PercentView,
    speed: SpeedView,
    status: Status,
    path: Option<Seq<char>>,
) -> ReportView {
    ReportView {
        filename: s.filename,
        downloaded: s.downloaded,
        total: s.total,
        percent,
        speed,
        status,
        path,
        error: None,
    }
}

/// A download that comes to wait for `stage`.
pub open spec fn moved(s: FileView, stage: Stage, action: FileActionView) -> (
    FileView,
    FileActionView,
) {
    (FileView { stage, ..s }, action)
}

/// The end of a download that was cancelled. Its file is removed.
pub open spec fn dropped(s: FileView) -> (FileView, FileActionView) {
    moved(
        s,
        Stage::Done,
        FileActionView::Finish {
            discard: true,
            report: file_report(
                s,
                share(s.downloaded, s.total),
                SpeedView::Zero,
                Status::Cancelled,
                None,
            ),
        },
    )
}

/// The end of a download that failed.
pub open spec fn given_up(s: FileView, message: Seq<char>, forget: bool) -> (
    FileView,
    FileActionView,
) {
    moved(s, Stage::Done, FileActionView::Fail { message, forget })
}

/// What follows the head of a response: a page is refused, a file is named.
pub open spec fn after_answer(s: FileView, head: HeadView) -> (FileView, FileActionView) {
    if is_page_kind(kind(Some(or_empty(header_text(head.content_type))), head.location)) {
        given_up(s, page_message(), true)
    } else {
        moved(
            FileView {
                filename: stored_name(head),
                total: total_size(header_text(head.content_range), head.content_length),
                ..s
            },
            Stage::Housing,
            FileActionView::House { filename: stored_name(head) },
        )
    }
}

/// What follows a chunk, given what was asked of the download.
pub open spec fn after_arrival(s: FileView, control: Control) -> (FileView, FileActionView) {
    if control.cancelled {
        dropped(s)
    } else if control.paused {
        moved(
            s,
            Stage::Waiting,
            FileActionView::Wait(
                file_report(
                    s,
                    share(s.downloaded, s.total),
                    SpeedView::Zero,
                    Status::Paused,
                    Some(s.path),
                ),
            ),
        )
    } else {
        moved(s, Stage::Writing, FileActionView::Write)
    }
}

/// A download with one more chunk written.
pub open spec fn after_writing(s: FileView, bytes: u64) -> (FileView, FileActionView) {
    let t = FileView { downloaded: (s.downloaded + bytes) as u64, ..s };
    moved(
        t,
        Stage::Receiving,
        FileActionView::Receive(
            Some(
                file_report(
                    t,
                    share(t.downloaded, t.total),
                    SpeedView::SinceStart(t.downloaded),
                    Status::Downloading,
                    Some(t.path),
                ),
            ),
        ),
    )
}

/// What follows an event: how the download stands then, and what it needs done.
pub open spec fn file_next(s: FileView, event: FileEventView) -> (FileView, FileActionView) {
    match event {
        FileEventView::Answered(head) => after_answer(s, head),
        FileEventView::Unanswered(error) => given_up(s, error, false),
        FileEventView::Housed { path } => moved(
            FileView { path, ..s },
            Stage::Creating,
            FileActionView::Create(
                file_report(
                    s,
                    if s.total is Some {
                        PercentView::Zero
                    } else {
                        PercentView::Unknown
                    },
                    SpeedView::Zero,
                    Status::Downloading,
                    Some(path),
                ),
            ),
        ),
        FileEventView::Unhoused(error) => given_up(s, error, false),
        FileEventView::Created(error) => match error {
            Some(error) => given_up(s, error, false),
            None => moved(s, Stage::Receiving, FileActionView::Receive(None)),
        },
        FileEventView::Arrived(control) => after_arrival(s, control),
        FileEventView::Ended => moved(s, Stage::Flushing, FileActionView::Flush),
        FileEventView::Waited { goes_on } => if goes_on {
            moved(s, Stage::Writing, FileActionView::Write)
        } else {
            dropped(s)
        },
        FileEventView::Written(bytes) => after_writing(s, bytes),
        FileEventView::Unwritten(error) => given_up(s, error, false),
        FileEventView::Flushed(error) => match error {
            Some(error) => given_up(s, error, false),
            None => moved(
                s,
                Stage::Done,
                FileActionView::Finish {
                    discard: false,
                    report: file_report(
                        s,
                        PercentView::Full,
                        SpeedView::Zero,
                        Status::Completed,
                        Some(s.path),
                    ),
                },
            ),
        },
    }
}

/// The name for a file whose response gives none.
fn write_unnamed(content_type: &str) -> (r: String)
    ensures
        r@ == unnamed(content_type@),
{
    match extension_for_content_type(content_type) {
        Some(extension) => joined("download.", extension),
        None => "download.bin".to_owned(),
    }
}

/// How much of a download is there.
fn write_share(downloaded: u64, total: Option<u64>) -> (r: Percent)
    ensures
        r@ == share(downloaded, total),
{
    match total {
        Some(of) => Percent::Share { done: downloaded, of },
        None => Percent::Unknown,
    }
}

impl FileDownload {
    /// A download, and its first action.
    pub fn new() -> (r: (FileDownload, FileAction))
        ensures
            r.0@ == file_start(),
            r.1@ == FileActionView::Request,
    {
        let download = FileDownload {
            stage: Stage::Requesting,
            filename: "".to_owned(),
            path: "".to_owned(),
            total: None,
            downloaded: 0,
        };
        (download, FileAction::Request)
    }

    /// Whether `event` is what the download waits for.
    pub fn accepts(&self, event: &FileEvent) -> (r: bool)
        ensures
            r == expects(self@, event@),
    {
        match event {
            FileEvent::Answered(_) => self.stage == Stage::Requesting,
            FileEvent::Unanswered(_) => self.stage == Stage::Requesting,
            FileEvent::Housed { .. } => self.stage == Stage::Housing,
            FileEvent::Unhoused(_) => self.stage == Stage::Housing,
            FileEvent::Created(_) => self.stage == Stage::Creating,
            FileEvent::Arrived(_) => self.stage == Stage::Receiving,
            FileEvent::Ended => self.stage == Stage::Receiving,
            FileEvent::Waited { .. } => self.stage == Stage::Waiting,
            FileEvent::Written(bytes) => self.stage == Stage::Writing && *bytes <= u64::MAX
                - self.downloaded,
            FileEvent::Unwritten(_) => self.stage == Stage::Writing,
            FileEvent::Flushed(_) => self.stage == Stage::Flushing,
        }
    }

    /// The report on the download as it stands.
    fn report(&self, percent: Percent, speed: Speed, status: Status, path: Option<String>) -> (r:
        Report)
        ensures
            r@ == file_report(self@, percent@, speed@, status, string_view(path)),
    {
        Report {
            filename: self.filename.clone(),
            downloaded: self.downloaded,
            total: self.total,
            percent,
            speed,
            status,
            path,
            error: None,
        }
    }

    /// A download that comes to wait for `stage`.
    fn turn(&mut self, stage: Stage, action: FileAction) -> (r: FileAction)
        ensures
            (final(self)@, r@) == moved(old(self)@, stage, action@),
    {
        self.stage = stage;
        action
    }

    /// The end of a download that was cancelled.
    fn cancel(&mut self) -> (r: FileAction)
        ensures
            (final(self)@, r@) == dropped(old(self)@),
    {
        let percent = write_share(self.downloaded, self.total);
        let report = self.report(percent, Speed::Zero, Status::Cancelled, None);
        self.turn(Stage::Done, FileAction::Finish { discard: true, report })
    }

    /// The end of a download that failed.
    fn fail(&mut self, message: String, forget: bool) -> (r: FileAction)
        ensures
            (final(self)@, r@) == given_up(old(self)@, message@, forget),
    {
        self.turn(Stage::Done, FileAction::Fail { message, forget })
    }

    /// What follows the head of a response.
    fn step_answered(&mut self, head: ResponseHead) -> (r: FileAction)
        ensures
            (final(self)@, r@) == after_answer(old(self)@, head@),
    {
        let content_type = match read_header(&head.content_type) {
            Some(content_type) => content_type,
            None => "".to_owned(),
        };
        let kind = resource_kind(Some(content_type.as_str()), &head.location);
        if same(kind, "webpage") || same(kind, "media_page") {
            return self.fail("This URL points to a webpage, not a direct file.".to_owned(), true);
        }
        let filename = match read_head_filename(&head) {
            Some(name) => name,
            None => write_unnamed(content_type.as_str()),
        };
        let range = read_header(&head.content_range);
        self.total = total_size_from_response(as_text(&range), head.content_length);
        self.filename = filename.clone();
        self.turn(Stage::Housing, FileAction::House { filename })
    }

    /// What follows a chunk, given what was asked of the download.
    fn step_arrived(&mut self, control: Control) -> (r: FileAction)
        ensures
            (final(self)@, r@) == after_arrival(old(self)@, control),
    {
        if control.cancelled {
            self.cancel()
        } else if control.paused {
            let percent = write_share(self.downloaded, self.total);
            let path = Some(self.path.clone());
            let report = self.report(percent, Speed::Zero, Status::Paused, path);
            self.turn(Stage::Waiting, FileAction::Wait(report))
        } else {
            self.turn(Stage::Writing, FileAction::Write)
        }
    }

    /// A download with one more chunk written.
    fn step_written(&mut self, bytes: u64) -> (r: FileAction)
        requires
            old(self)@.downloaded + bytes <= u64::MAX,
        ensures
            (final(self)@, r@) == after_writing(old(self)@, bytes),
    {
        self.downloaded = self.downloaded + bytes;
        let percent = write_share(self.downloaded, self.total);
        let speed = Speed::SinceStart(self.downloaded);
        let path = Some(self.path.clone());
        let report = self.report(percent, speed, Status::Downloading, path);
        self.turn(Stage::Receiving, FileAction::Receive(Some(report)))
    }

    /// Takes in an event that the download waits for, and says what it needs
    /// done next.
    pub fn step(&mut self, event: FileEvent) -> (r: FileAction)
        requires
            expects(old(self)@, event@),
        ensures
            final(self)@ == file_next(old(self)@, event@).0,
            r@ == file_next(old(self)@, event@).1,
    {
        match event {
            FileEvent::Answered(head) => self.step_answered(head),
            FileEvent::Unanswered(error) => self.fail(error, false),
            FileEvent::Housed { path } => {
                let percent = if self.total.is_some() {
                    Percent::Zero
                } else {
                    Percent::Unknown
                };
                let shown = Some(path.clone());
                let report = self.report(percent, Speed::Zero, Status::Downloading, shown);
                self.path = path;
                self.turn(Stage::Creating, FileAction::Create(report))
            },
            FileEvent::Unhoused(error) => self.fail(error, false),
            FileEvent::Created(error) => match error {
                Some(error) => self.fail(error, false),
                None => self.turn(Stage::Receiving, FileAction::Receive(None)),
            },
            FileEvent::Arrived(control) => self.step_arrived(control),
            FileEvent::Ended => self.turn(Stage::Flushing, FileAction::Flush),
            FileEvent::Waited { goes_on } => {
                if goes_on {
                    self.turn(Stage::Writing, FileAction::Write)
                } else {
                    self.cancel()
                }
            },
            FileEvent::Written(bytes) => self.step_written(bytes),
            FileEvent::Unwritten(error) => self.fail(error, false),
            FileEvent::Flushed(error) => match error {
                Some(error) => self.fail(error, false),
                None => {
                    let path = Some(self.path.clone());
                    let report = self.report(Percent::Full, Speed::Zero, Status::Completed, path);
                    self.turn(Stage::Done, FileAction::Finish { discard: false, report })
                },
            },
        }
    }
}

} // verus!
