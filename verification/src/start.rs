//! How a download starts: which way it goes, where it is stored, and when a
//! media download may be launched.

use vstd::prelude::*;
use vstd::string::*;

use crate::control::{id_text, Control, Controls};
use crate::location::{
    answers_request, is_known_media_page, is_media_page, read_request, Location, Request,
};
use crate::media::{missing_tool, missing_tool_message};
use crate::number::decimal;
use crate::outside::parsed_url;
use crate::report::{
    bare_report, plain_report, Percent, PercentView, Report, ReportView, Status,
};
use crate::text::trimmed;

verus! {

/// Puts the download that a user asked for under way, given the answer to the
/// request: with a new identifier and nothing asked of it. A request that was
/// refused puts nothing under way and uses up no identifier.
pub fn register_request(controls: &mut Controls, answer: Result<Request, String>) -> (r: Result<
    (String, Request),
    String,
>)
    ensures
        match r {
            Err(message) => {
                &&& answer == Err::<Request, String>(message)
                &&& final(controls)@ == old(controls)@
                &&& final(controls).stopped() == old(controls).stopped()
                &&& final(controls).next_number() == old(controls).next_number()
            },
            Ok((id, request)) => {
                &&& answer == Ok::<Request, String>(request)
                &&& is_registered(*old(controls), *final(controls), id@)
            },
        },
{
    match answer {
        Err(message) => Err(message),
        Ok(request) => {
            let id = controls.new_id();
            controls.insert(id.clone(), Control { paused: false, cancelled: false });
            Ok((id, request))
        },
    }
}

/// Whether `id` is the next identifier of `before`, and `after` is `before` with
/// a download under it of which nothing was asked.
pub open spec fn is_registered(before: Controls, after: Controls, id: Seq<char>) -> bool {
    &&& id == id_text(before.next_number())
    &&& after@ == before@.insert(id, Control { paused: false, cancelled: false })
    &&& after.stopped() == before.stopped().remove(id)
    &&& after.next_number() == before.next_number().wrapping_add(1)
}

/// Reads the text that a user gave as a URL, and puts its download under way. A
/// text that is refused puts nothing under way and uses up no identifier.
pub fn begin_download(controls: &mut Controls, url: &str) -> (r: Result<(String, Request), String>)
    ensures
        match r {
            Err(message) => {
                &&& answers_request(Err(message), url@, parsed_url(trimmed(url@)))
                &&& final(controls)@ == old(controls)@
                &&& final(controls).stopped() == old(controls).stopped()
                &&& final(controls).next_number() == old(controls).next_number()
            },
            Ok((id, request)) => {
                &&& answers_request(Ok(request), url@, parsed_url(trimmed(url@)))
                &&& is_registered(*old(controls), *final(controls), id@)
            },
        },
{
    register_request(controls, read_request(url))
}

/// How a URL is downloaded.
#[derive(Clone, Copy, Debug, PartialEq, Eq, Structural)]
pub enum Route {
    /// By the media downloader.
    Media,
    /// As a file over HTTP.
    File,
}

/// How a URL is downloaded: a page of a known media site by the media
/// downloader, anything else as a file.
pub fn choose_route(location: &Location) -> (r: Route)
    ensures
        r == if is_media_page(location@) {
            Route::Media
        } else {
            Route::File
        },
{
    if is_known_media_page(location) {
        Route::Media
    } else {
        Route::File
    }
}

/// The folder that downloads go to: the one for downloads, else the home
/// folder.
pub fn choose_folder<T>(downloads: Option<T>, home: Option<T>) -> (r: Result<T, String>)
    ensures
        match r {
            Ok(folder) => downloads == Some(folder) || downloads is None && home == Some(folder),
            Err(message) => downloads is None && home is None && message@
                == "Could not find a Downloads folder."@,
        },
{
    match downloads {
        Some(folder) => Ok(folder),
        None => match home {
            Some(folder) => Ok(folder),
            None => Err("Could not find a Downloads folder.".to_owned()),
        },
    }
}

/// What the start of a media download needs done.
#[derive(Clone, Debug)]
pub enum MediaStart {
    /// Find the folder that downloads go to, and make it.
    FindFolder,
    /// Report, then run the download.
    Launch(Report),
    /// Give up with a message. The download is taken off those under way only
    /// if asked to.
    Fail { message: String, forget: bool },
}

/// A [`MediaStart`] in its characters.
#[verifier::ext_equal]
pub enum StartView {
    FindFolder,
    Launch(ReportView),
    Fail { message: Seq<char>, forget: bool },
}

impl View for MediaStart {
    type V = StartView;

    open spec fn view(&self) -> StartView {
        match *self {
            MediaStart::FindFolder => StartView::FindFolder,
            MediaStart::Launch(report) => StartView::Launch(report@),
            MediaStart::Fail { message, forget } => StartView::Fail { message: message@, forget },
        }
    }
}

/// The first report on a media download.
pub open spec fn preparing_report() -> ReportView {
    ReportView {
        percent: PercentView::Zero,
        ..bare_report("Preparing media..."@, Status::Downloading, None)
    }
}

/// What follows the question whether the media downloader is installed. If it
/// is not, the download is forgotten.
pub fn check_tool(available: bool) -> (r: MediaStart)
    ensures
        r@ == if available {
            StartView::FindFolder
        } else {
            StartView::Fail { message: missing_tool_message(), forget: true }
        },
{
    if available {
        MediaStart::FindFolder
    } else {
        MediaStart::Fail { message: missing_tool(), forget: true }
    }
}

/// What follows the search for the folder, which came out well or failed for
/// the reason given.
pub fn check_folder(error: Option<String>) -> (r: MediaStart)
    ensures
        r@ == match error {
            None => StartView::Launch(preparing_report()),
            Some(message) => StartView::Fail { message: message@, forget: false },
        },
{
    match error {
        None => {
            let mut report = plain_report("Preparing media...", Status::Downloading, None);
            report.percent = Percent::Zero;
            MediaStart::Launch(report)
        },
        Some(message) => MediaStart::Fail { message, forget: false },
    }
}

/// A media download is launched exactly where the media downloader is there and
/// a folder was found. Without the downloader it is forgotten, without a folder
/// it is not.
pub proof fn law_media_is_launched(
    available: bool,
    first: MediaStart,
    error: Option<String>,
    second: MediaStart,
)
    requires
        call_ensures(check_tool, (available,), first),
        call_ensures(check_folder, (error,), second),
    ensures
        available ==> first@ is FindFolder,
        !available ==> first@ == (StartView::Fail {
            message: "YouTube/media extraction requires yt-dlp. Install yt-dlp, restart Monk3i, and try again."@,
            forget: true,
        }),
        second@ is Launch <==> error is None,
        error matches Some(message) ==> second@ == (StartView::Fail {
            message: message@,
            forget: false,
        }),
        second@ matches StartView::Launch(report) ==> {
            &&& report.filename == "Preparing media..."@
            &&& report.downloaded == 0
            &&& report.total is None
            &&& report.percent is Zero
            &&& report.speed is Zero
            &&& report.status == Status::Downloading
            &&& report.path is None
            &&& report.error is None
        },
{
}

/// Downloads go to the folder for downloads where there is one, else to the home
/// folder, and there is a message where there is neither.
pub proof fn law_folder_of_downloads<T>(
    downloads: Option<T>,
    home: Option<T>,
    r: Result<T, String>,
)
    requires
        call_ensures(choose_folder::<T>, (downloads, home), r),
    ensures
        downloads matches Some(folder) ==> r == Ok::<T, String>(folder),
        downloads is None ==> (home matches Some(folder) ==> r == Ok::<T, String>(folder)),
        downloads is None && home is None ==> (r matches Err(message) && message@
            == "Could not find a Downloads folder."@),
{
}

/// A download that was put under way has the next identifier, nothing asked of
/// it, and was not stopped. Every other download is as it was.
pub proof fn law_registered_download_is_fresh(
    before: Controls,
    after: Controls,
    id: Seq<char>,
    other: Seq<char>,
)
    requires
        is_registered(before, after, id),
    ensures
        id == "download-"@ + decimal(before.next_number() as nat),
        after@.contains_key(id),
        !after@[id].paused && !after@[id].cancelled,
        !after.stopped().contains(id),
        before.next_number() < u64::MAX ==> after.next_number() == before.next_number() + 1,
        other != id ==> after@.contains_key(other) == before@.contains_key(other) && (
        before@.contains_key(other) ==> after@[other] == before@[other]) && after.stopped().contains(
            other,
        ) == before.stopped().contains(other),
{
}

} // verus!
