//! What is reported of a download while it runs.

use vstd::prelude::*;
use vstd::string::*;

use crate::text::string_view;

verus! {

/// Where a download stands.
#[derive(Clone, Copy, Debug, PartialEq, Eq, Structural)]
pub enum Status {
    Downloading,
    Paused,
    Cancelled,
    Error,
    Completed,
}

/// The word for a status.
pub open spec fn status_word(status: Status) -> Seq<char> {
    match status {
        Status::Downloading => "downloading"@,
        Status::Paused => "paused"@,
        Status::Cancelled => "cancelled"@,
        Status::Error => "error"@,
        Status::Completed => "completed"@,
    }
}

impl Status {
    /// The word for this status.
    pub fn word(self) -> (r: &'static str)
        ensures
            r@ == status_word(self),
    {
        match self {
            Status::Downloading => "downloading",
            Status::Paused => "paused",
            Status::Cancelled => "cancelled",
            Status::Error => "error",
            Status::Completed => "completed",
        }
    }
}

/// How much of a download is there. The fraction itself is left to whoever
/// shows it.
#[derive(Clone, Debug)]
pub enum Percent {
    /// Not known.
    Unknown,
    /// Nothing.
    Zero,
    /// All.
    Full,
    /// So many bytes of so many.
    Share { done: u64, of: u64 },
    /// As the downloader wrote it.
    Written(String),
}

/// How fast a download runs, in bytes per second.
#[derive(Clone, Debug)]
pub enum Speed {
    /// Not at all.
    Zero,
    /// So many bytes since it started.
    SinceStart(u64),
    /// As the downloader wrote it.
    Written(String),
}

/// One report on a download.
#[derive(Clone, Debug)]
pub struct Report {
    /// The name that is shown.
    pub filename: String,
    /// The bytes downloaded so far.
    pub downloaded: u64,
    /// The size of the download, where it is known.
    pub total: Option<u64>,
    /// How much of the download is there.
    pub percent: Percent,
    /// How fast it runs.
    pub speed: Speed,
    /// Where it stands.
    pub status: Status,
    /// Where it is stored.
    pub path: Option<String>,
    /// What went wrong.
    pub error: Option<String>,
}

/// A [`Percent`] in its characters.
#[verifier::ext_equal]
pub enum PercentView {
    Unknown,
    Zero,
    Full,
    Share { done: u64, of: u64 },
    Written(Seq<char>),
}

/// A [`Speed`] in its characters.
#[verifier::ext_equal]
pub enum SpeedView {
    Zero,
    SinceStart(u64),
    Written(Seq<char>),
}

/// A [`Report`] in its characters.
#[verifier::ext_equal]
pub struct ReportView {
    pub filename: Seq<char>,
    pub downloaded: u64,
    pub total: Option<u64>,
    pub percent: PercentView,
    pub speed: SpeedView,
    pub status: Status,
    pub path: Option<Seq<char>>,
    pub error: Option<Seq<char>>,
}

impl View for Percent {
    type V = PercentView;

    open spec fn view(&self) -> PercentView {
        match *self {
            Percent::Unknown => PercentView::Unknown,
            Percent::Zero => PercentView::Zero,
            Percent::Full => PercentView::Full,
            Percent::Share { done, of } => PercentView::Share { done, of },
            Percent::Written(text) => PercentView::Written(text@),
        }
    }
}

impl View for Speed {
    type V = SpeedView;

    open spec fn view(&self) -> SpeedView {
        match *self {
            Speed::Zero => SpeedView::Zero,
            Speed::SinceStart(bytes) => SpeedView::SinceStart(bytes),
            Speed::Written(text) => SpeedView::Written(text@),
        }
    }
}

impl View for Report {
    type V = ReportView;

    open spec fn view(&self) -> ReportView {
        ReportView {
            filename: self.filename@,
            downloaded: self.downloaded,
            total: self.total,
            percent: self.percent@,
            speed: self.speed@,
            status: self.status,
            path: string_view(self.path),
            error: string_view(self.error),
        }
    }
}

/// A report that shows no figures.
pub open spec fn bare_report(
    filename: Seq<char>,
    status: Status,
    error: Option<Seq<char>>,
) -> ReportView {
    ReportView {
        filename,
        downloaded: 0,
        total: None,
        percent: PercentView::Unknown,
        speed: SpeedView::Zero,
        status,
        path: None,
        error,
    }
}

/// A report that shows no figures.
pub(crate) fn plain_report(filename: &str, status: Status, error: Option<String>) -> (r: Report)
    ensures
        r@ == bare_report(filename@, status, string_view(error)),
{
    Report {
        filename: filename.to_owned(),
        downloaded: 0,
        total: None,
        percent: Percent::Unknown,
        speed: Speed::Zero,
        status,
        path: None,
        error,
    }
}

/// The view of a report that may be missing.
pub open spec fn report_view(report: Option<Report>) -> Option<ReportView> {
    match report {
        Some(report) => Some(report@),
        None => None,
    }
}

/// Every status has its word.
pub proof fn law_words_of_statuses(status: Status, r: &'static str)
    requires
        call_ensures(Status::word, (status,), r),
    ensures
        status == Status::Downloading ==> r@ == "downloading"@,
        status == Status::Paused ==> r@ == "paused"@,
        status == Status::Cancelled ==> r@ == "cancelled"@,
        status == Status::Error ==> r@ == "error"@,
        status == Status::Completed ==> r@ == "completed"@,
{
}

} // verus!
