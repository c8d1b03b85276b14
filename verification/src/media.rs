//! The outside program that downloads media: how it is called and what is made
//! of what it leaves.

use vstd::prelude::*;
use vstd::string::*;

use crate::filename::{media_name, safe_media_filename};
use crate::naming::answered;
use crate::outside::{
    ask_within, decode_lossy, is_portable_path, law_told_within, lies_within, lossy_text,
    told_within,
};
use crate::resource::{ResourceInfo, ResourceView};
use crate::text::{
    begins_with, ends_with, is_white, joined, same, str_view, string_view, strip, stripped, trim,
    trimmed, CharClass,
};
use crate::text_laws::{
    is_all, is_blank, law_stripped_of_wrapped, law_trimmed_of_wrapped,
};

verus! {

/// What the media downloader tells of a piece of media.
#[derive(Clone, Debug)]
pub struct YtDlpInfo {
    pub id: Option<String>,
    pub title: Option<String>,
    pub ext: Option<String>,
    pub filesize: Option<u64>,
    pub filesize_approx: Option<u64>,
}

/// A [`YtDlpInfo`] in its characters.
#[verifier::ext_equal]
pub struct InfoView {
    pub id: Option<Seq<char>>,
    pub title: Option<Seq<char>>,
    pub ext: Option<Seq<char>>,
    pub filesize: Option<u64>,
    pub filesize_approx: Option<u64>,
}

impl View for YtDlpInfo {
    type V = InfoView;

    open spec fn view(&self) -> InfoView {
        InfoView {
            id: string_view(self.id),
            title: string_view(self.title),
            ext: string_view(self.ext),
            filesize: self.filesize,
            filesize_approx: self.filesize_approx,
        }
    }
}

impl InfoView {
    /// The size of the media: the exact one, else the approximate one.
    pub open spec fn size(self) -> Option<u64> {
        if self.filesize is Some {
            self.filesize
        } else {
            self.filesize_approx
        }
    }
}

impl YtDlpInfo {
    /// The size of the media, as far as it is known.
    pub fn size(&self) -> (r: Option<u64>)
        ensures
            r == self@.size(),
    {
        match self.filesize {
            Some(size) => Some(size),
            None => self.filesize_approx,
        }
    }
}

/// How asking the media downloader about a URL came out.
#[derive(Clone, Debug)]
pub enum Inspection {
    /// The downloader is not installed.
    Missing,
    /// It could not be started, for the reason given.
    NotStarted(String),
    /// It failed, with these bytes on its error stream.
    Failed(Vec<u8>),
    /// Its answer could not be read, for the reason given.
    Unreadable(String),
    /// Its answer.
    Answered(YtDlpInfo),
}

/// An [`Inspection`] in its characters and bytes.
#[verifier::ext_equal]
pub enum InspectionView {
    Missing,
    NotStarted(Seq<char>),
    Failed(Seq<u8>),
    Unreadable(Seq<char>),
    Answered(InfoView),
}

impl View for Inspection {
    type V = InspectionView;

    open spec fn view(&self) -> InspectionView {
        match *self {
            Inspection::Missing => InspectionView::Missing,
            Inspection::NotStarted(reason) => InspectionView::NotStarted(reason@),
            Inspection::Failed(errors) => InspectionView::Failed(errors@),
            Inspection::Unreadable(reason) => InspectionView::Unreadable(reason@),
            Inspection::Answered(info) => InspectionView::Answered(info@),
        }
    }
}

/// What a user is told where the media downloader is not installed.
pub open spec fn missing_tool_message() -> Seq<char> {
    "YouTube/media extraction requires yt-dlp. Install yt-dlp, restart Monk3i, and try again."@
}

/// What a user is told where the media downloader is not installed.
pub fn missing_tool() -> (r: String)
    ensures
        r@ == missing_tool_message(),
{
    "YouTube/media extraction requires yt-dlp. Install yt-dlp, restart Monk3i, and try again.".to_owned()
}

/// What a user is told of a failed inspection: what the downloader wrote, or a
/// fixed sentence where it wrote nothing.
pub open spec fn inspection_failure(errors: Seq<char>) -> Seq<char> {
    if trimmed(errors).len() == 0 {
        "yt-dlp could not inspect this media URL."@
    } else {
        trimmed(errors)
    }
}

/// What a user is told of a failed inspection.
pub fn explain_inspection_failure(errors: &str) -> (r: String)
    ensures
        r@ == inspection_failure(errors@),
{
    let message = trim(errors);
    if message.is_empty() {
        "yt-dlp could not inspect this media URL.".to_owned()
    } else {
        message.to_owned()
    }
}

/// The outcome of an inspection: what was read, or what a user is told.
pub open spec fn inspection_outcome(inspection: InspectionView) -> Result<InfoView, Seq<char>> {
    match inspection {
        InspectionView::Missing => Err(missing_tool_message()),
        InspectionView::NotStarted(reason) => Err("Could not start yt-dlp: "@ + reason),
        InspectionView::Failed(errors) => Err(inspection_failure(lossy_text(errors))),
        InspectionView::Unreadable(reason) => Err("Could not read media information: "@ + reason),
        InspectionView::Answered(info) => Ok(info),
    }
}

/// The view of an outcome.
pub open spec fn outcome_view(r: Result<YtDlpInfo, String>) -> Result<InfoView, Seq<char>> {
    match r {
        Ok(info) => Ok(info@),
        Err(message) => Err(message@),
    }
}

/// The outcome of asking the media downloader about a URL.
pub fn inspect_media_with_yt_dlp(inspection: Inspection) -> (r: Result<YtDlpInfo, String>)
    ensures
        outcome_view(r) == inspection_outcome(inspection@),
{
    match inspection {
        Inspection::Missing => Err(missing_tool()),
        Inspection::NotStarted(reason) => Err(joined("Could not start yt-dlp: ", reason.as_str())),
        Inspection::Failed(errors) => {
            let text = decode_lossy(errors.as_slice());
            Err(explain_inspection_failure(text.as_str()))
        },
        Inspection::Unreadable(reason) => Err(
            joined("Could not read media information: ", reason.as_str()),
        ),
        Inspection::Answered(info) => Ok(info),
    }
}

/// The name of media that is not downloaded yet.
pub open spec fn listed_filename(info: InfoView) -> Option<Seq<char>> {
    match info.title {
        Some(title) => Some(
            media_name(
                title,
                match info.ext {
                    Some(ext) => ext,
                    None => "mp4"@,
                },
            ),
        ),
        None => None,
    }
}

/// What is known of media at `url`.
pub open spec fn resource_of_media(url: Seq<char>, info: InfoView) -> ResourceView {
    ResourceView {
        url,
        kind: "media_page"@,
        content_type: None,
        filename: listed_filename(info),
        size: info.size(),
        final_url: url,
        status_code: 200,
    }
}

/// What the media downloader tells of the media at `url`.
pub fn describe_media(url: &str, info: &YtDlpInfo) -> (r: ResourceInfo)
    ensures
        r@ == resource_of_media(url@, info@),
{
    let filename = match &info.title {
        Some(title) => {
            let extension = match &info.ext {
                Some(ext) => ext.as_str(),
                None => "mp4",
            };
            Some(safe_media_filename(title.as_str(), extension))
        },
        None => None,
    };
    ResourceInfo {
        url: url.to_owned(),
        kind: "media_page".to_owned(),
        content_type: None,
        filename,
        size: info.size(),
        final_url: url.to_owned(),
        status_code: 200,
    }
}

/// The characters of each of `texts`, in order.
pub open spec fn text_views(texts: Seq<String>) -> Seq<Seq<char>> {
    Seq::new(texts.len(), |i: int| texts[i]@)
}

/// The arguments with which the media downloader describes `url`.
pub open spec fn inspection_arguments(url: Seq<char>) -> Seq<Seq<char>> {
    seq!["--dump-single-json"@, "--no-warnings"@, "--no-playlist"@, url]
}

/// The arguments with which the media downloader describes `url`.
pub fn inspect_arguments(url: &str) -> (r: Vec<String>)
    ensures
        text_views(r@) == inspection_arguments(url@),
{
    let mut r: Vec<String> = Vec::new();
    r.push("--dump-single-json".to_owned());
    r.push("--no-warnings".to_owned());
    r.push("--no-playlist".to_owned());
    r.push(url.to_owned());
    assert(text_views(r@) =~= inspection_arguments(url@));
    r
}

/// The arguments with which the media downloader fetches `url` into files that
/// `template` names. It goes on with what an earlier run left.
pub open spec fn fetch_arguments(template: Seq<char>, url: Seq<char>) -> Seq<Seq<char>> {
    seq![
        "--no-playlist"@,
        "--newline"@,
        "--progress"@,
        "--progress-delta"@,
        "0.25"@,
        "--progress-template"@,
        "download:%(progress.downloaded_bytes)s|%(progress.total_bytes)s|%(progress.total_bytes_estimate)s|%(progress.speed)s|%(progress._percent_str)s"@,
        "--print"@,
        "after_move:filepath"@,
        "--continue"@,
        "-f"@,
        "bv*+ba/b"@,
        "--merge-output-format"@,
        "mp4"@,
        "-o"@,
        template,
        url,
    ]
}

/// The arguments with which the media downloader fetches `url`.
pub fn media_arguments(template: &str, url: &str) -> (r: Vec<String>)
    ensures
        text_views(r@) == fetch_arguments(template@, url@),
{
    let mut r: Vec<String> = Vec::new();
    r.push("--no-playlist".to_owned());
    r.push("--newline".to_owned());
    r.push("--progress".to_owned());
    r.push("--progress-delta".to_owned());
    r.push("0.25".to_owned());
    r.push("--progress-template".to_owned());
    r.push(
        "download:%(progress.downloaded_bytes)s|%(progress.total_bytes)s|%(progress.total_bytes_estimate)s|%(progress.speed)s|%(progress._percent_str)s".to_owned(),
    );
    r.push("--print".to_owned());
    r.push("after_move:filepath".to_owned());
    r.push("--continue".to_owned());
    r.push("-f".to_owned());
    r.push("bv*+ba/b".to_owned());
    r.push("--merge-output-format".to_owned());
    r.push("mp4".to_owned());
    r.push("-o".to_owned());
    r.push(template.to_owned());
    r.push(url.to_owned());
    assert(text_views(r@) =~= fetch_arguments(template@, url@));
    r
}

/// Every run of the media downloader goes on with what an earlier one left, and
/// writes to the same files.
pub proof fn law_run_goes_on(template: Seq<char>, url: Seq<char>)
    ensures
        fetch_arguments(template, url).contains("--continue"@),
        exists|i: int|
            0 <= i && i + 1 < fetch_arguments(template, url).len() && #[trigger] fetch_arguments(
                template,
                url,
            )[i] == "-o"@ && fetch_arguments(template, url)[i + 1] == template,
        fetch_arguments(template, url).last() == url,
{
    assert(fetch_arguments(template, url)[9] == "--continue"@);
    assert(fetch_arguments(template, url)[14] == "-o"@);
}

/// The name of the files that the media downloader writes: its own identifier
/// of the media, never the title.
pub const FILE_TEMPLATE: &'static str = "%(id)s.%(ext)s";

/// The name of the folder that the download `id` works in.
pub fn temp_folder_name(id: &str) -> (r: String)
    ensures
        r@ == ".monk3i-"@ + id@,
{
    joined(".monk3i-", id)
}

/// The path that a line of the media downloader holds, where it holds one: the
/// line without white space and then quotes around it.
pub open spec fn printed_path(line: Seq<char>) -> Seq<char> {
    stripped(trimmed(line), CharClass::Only('"'))
}

/// The path that a line of the media downloader holds, where it holds one, the
/// path lies within the folder that the downloader works in, as `is_inside`
/// tells, and it is a file. `is_file` asks the file system.
pub fn accept_printed_path<F: Fn(&str) -> bool>(line: &str, is_inside: bool, is_file: F) -> (r:
    Option<String>)
    requires
        forall|path: &str| call_requires(is_file, (path,)),
    ensures
        r matches Some(path) ==> {
            &&& path@ == printed_path(line@)
            &&& path@.len() > 0
            &&& answered(is_file, path@, true)
            &&& is_inside
        },
        r is None ==> {
            ||| printed_path(line@).len() == 0
            ||| answered(is_file, printed_path(line@), false)
            ||| !is_inside
        },
{
    let path = strip(trim(line), CharClass::Only('"'));
    if path.is_empty() {
        return None;
    }
    if is_file(path) && is_inside {
        Some(path.to_owned())
    } else {
        None
    }
}

/// Whether `path` lying within `folder` can be answered by `answer`: as the
/// platform says, and of portable paths as it is. No text is a path within a
/// folder whose path is not text.
pub open spec fn is_placement(path: Seq<char>, folder: Option<Seq<char>>, answer: bool) -> bool {
    match folder {
        Some(folder) => {
            &&& told_within(path, folder, answer)
            &&& is_portable_path(path) && is_portable_path(folder) ==> answer == lies_within(
                path,
                folder,
            )
        },
        None => !answer,
    }
}

/// The path of the file that the media downloader printed: one that is a file,
/// within the folder that it works in. `is_file` asks the file system. Where the
/// path of the folder is not text, no text is a path within it. Whether a path
/// that is not portable lies within the folder is as the platform says.
pub fn path_from_yt_dlp_output<F: Fn(&str) -> bool>(
    line: &str,
    folder: Option<&str>,
    is_file: F,
) -> (r: Option<String>)
    requires
        forall|path: &str| call_requires(is_file, (path,)),
    ensures
        r matches Some(path) ==> {
            &&& path@ == printed_path(line@)
            &&& path@.len() > 0
            &&& answered(is_file, path@, true)
            &&& is_placement(path@, str_view(folder), true)
        },
        r is None ==> {
            ||| printed_path(line@).len() == 0
            ||| answered(is_file, printed_path(line@), false)
            ||| is_placement(printed_path(line@), str_view(folder), false)
        },
{
    let path = strip(trim(line), CharClass::Only('"'));
    let is_inside = match folder {
        Some(folder) => {
            let answer = ask_within(path, folder);
            proof {
                if is_portable_path(path@) && is_portable_path(folder@) {
                    law_told_within(path@, folder@, answer);
                }
            }
            answer
        },
        None => false,
    };
    accept_printed_path(line, is_inside, is_file)
}

/// One entry of the folder that a download works in.
#[derive(Clone, Debug)]
pub struct FolderEntry {
    /// The name, or nothing where it is not text.
    pub name: String,
    /// The name without its extension, or nothing where it is not text.
    pub stem: String,
    /// Whether it is a file.
    pub is_file: bool,
}

/// Whether an entry can be the downloaded media: a file that is not a partial
/// download.
pub open spec fn is_whole_file(entry: FolderEntry) -> bool {
    entry.is_file && !".part"@.is_suffix_of(entry.name@) && !".ytdl"@.is_suffix_of(entry.name@)
}

/// Whether an entry is the media with the given identifier.
pub open spec fn is_named_media(entry: FolderEntry, media_id: Seq<char>) -> bool {
    is_whole_file(entry) && entry.stem@ == media_id
}

/// Whether an entry will do where none bears the identifier: a file that is not
/// hidden.
pub open spec fn is_other_media(entry: FolderEntry) -> bool {
    is_whole_file(entry) && !"."@.is_prefix_of(entry.name@)
}

/// Whether the media with the given identifier is the entry that `r` says: the
/// first that bears the identifier, else the first that will do, else none.
pub open spec fn is_media_output(
    entries: Seq<FolderEntry>,
    media_id: Seq<char>,
    r: Option<usize>,
) -> bool {
    let named = exists|i: int|
        0 <= i < entries.len() && is_named_media(#[trigger] entries[i], media_id);
    match r {
        Some(k) => k < entries.len() && if named {
            is_named_media(entries[k as int], media_id) && forall|i: int|
                0 <= i < k ==> !is_named_media(#[trigger] entries[i], media_id)
        } else {
            is_other_media(entries[k as int]) && forall|i: int|
                0 <= i < k ==> !is_other_media(#[trigger] entries[i])
        },
        None => !named && forall|i: int|
            0 <= i < entries.len() ==> !is_other_media(#[trigger] entries[i]),
    }
}

/// The entry that is the downloaded media, by its index.
pub fn find_media_output(entries: &Vec<FolderEntry>, media_id: &str) -> (r: Option<usize>)
    ensures
        is_media_output(entries@, media_id@, r),
{
    let mut fallback: Option<usize> = None;
    for i in 0..entries.len()
        invariant
            forall|j: int| 0 <= j < i ==> !is_named_media(#[trigger] entries@[j], media_id@),
            fallback matches Some(k) ==> k < i && is_other_media(entries@[k as int]) && forall|
                j: int,
            |
                0 <= j < k ==> !is_other_media(#[trigger] entries@[j]),
            fallback is None ==> forall|j: int|
                0 <= j < i ==> !is_other_media(#[trigger] entries@[j]),
    {
        let entry = &entries[i];
        let name = entry.name.as_str();
        if entry.is_file && !ends_with(name, ".part") && !ends_with(name, ".ytdl") {
            if same(entry.stem.as_str(), media_id) {
                return Some(i);
            }
            if fallback.is_none() && !begins_with(name, ".") {
                fallback = Some(i);
            }
        }
    }
    fallback
}

/// The arguments depend on nothing but the files and the URL, and on those only
/// in their places.
pub proof fn law_arguments_are_fixed(
    template: Seq<char>,
    url: Seq<char>,
    other_template: Seq<char>,
    other_url: Seq<char>,
    i: int,
)
    ensures
        fetch_arguments(template, url).len() == 17,
        fetch_arguments(template, url)[15] == template,
        fetch_arguments(template, url)[16] == url,
        0 <= i < 15 ==> fetch_arguments(template, url)[i] == fetch_arguments(
            other_template,
            other_url,
        )[i],
        inspection_arguments(url).len() == 4,
        inspection_arguments(url)[3] == url,
        0 <= i < 3 ==> inspection_arguments(url)[i] == inspection_arguments(other_url)[i],
        fetch_arguments(template, url).contains("--no-playlist"@),
        inspection_arguments(url).contains("--no-playlist"@),
        inspection_arguments(url).contains("--dump-single-json"@),
{
    assert(fetch_arguments(template, url)[0] == "--no-playlist"@);
    assert(inspection_arguments(url)[2] == "--no-playlist"@);
    assert(inspection_arguments(url)[0] == "--dump-single-json"@);
}

/// The size of media is the exact one, and the approximate one only where there
/// is no exact one.
pub proof fn law_exact_size_comes_first(info: InfoView)
    ensures
        info.filesize is Some ==> info.size() == info.filesize,
        info.filesize is None ==> info.size() == info.filesize_approx,
{
}

/// A printed path is the line without white space and quotes around it.
pub proof fn law_printed_path_is_bare(
    a: Seq<char>,
    q: Seq<char>,
    path: Seq<char>,
    r: Seq<char>,
    b: Seq<char>,
)
    requires
        is_blank(a),
        is_blank(b),
        is_all(q, CharClass::Only('"')),
        is_all(r, CharClass::Only('"')),
        path.len() > 0,
        path.first() != '"' && path.last() != '"',
        q.len() > 0 || !is_white(path.first()),
        r.len() > 0 || !is_white(path.last()),
    ensures
        printed_path(a + q + path + r + b) == path,
{
    let quoted = q + path + r;
    assert(a + q + path + r + b =~= a + quoted + b);
    if q.len() > 0 {
        assert(CharClass::Only('"').has(q[0]));
        assert(quoted.first() == q[0]);
    } else {
        assert(quoted.first() == path.first());
    }
    if r.len() > 0 {
        assert(CharClass::Only('"').has(r[r.len() - 1]));
        assert(quoted.last() == r[r.len() - 1]);
    } else {
        assert(quoted.last() == path.last());
    }
    law_trimmed_of_wrapped(a, quoted, b);
    law_stripped_of_wrapped(q, path, r, CharClass::Only('"'));
}

/// Whether an entry is a file, and not what a download has left unfinished.
pub open spec fn is_finished(entry: FolderEntry) -> bool {
    &&& entry.is_file
    &&& !".part"@.is_suffix_of(entry.name@)
    &&& !".ytdl"@.is_suffix_of(entry.name@)
}

/// The file that is found is finished. It bears the identifier of the media
/// where any finished file does, and no earlier one does. Where none does it is
/// the first finished one that is not hidden, and none is found exactly where
/// there is none of either sort.
pub proof fn law_media_file_is_found(
    entries: &Vec<FolderEntry>,
    media_id: &str,
    r: Option<usize>,
    i: int,
)
    requires
        call_ensures(find_media_output, (entries, media_id), r),
    ensures
        r matches Some(k) ==> {
            &&& k < entries@.len()
            &&& is_finished(entries@[k as int])
            &&& entries@[k as int].stem@ == media_id@ || !"."@.is_prefix_of(
                entries@[k as int].name@,
            )
        },
        0 <= i < entries@.len() && is_finished(entries@[i]) && entries@[i].stem@ == media_id@ ==> {
            &&& r matches Some(k)
            &&& k <= i
            &&& entries@[k as int].stem@ == media_id@
        },
        0 <= i < entries@.len() && is_finished(entries@[i]) && !"."@.is_prefix_of(
            entries@[i].name@,
        ) ==> {
            &&& r matches Some(k)
            &&& k <= i || entries@[k as int].stem@ == media_id@
        },
{
    if 0 <= i < entries@.len() {
        assert(is_finished(entries@[i]) == is_whole_file(entries@[i]));
    }
}

/// The folder of a download is hidden and named by the download.
pub proof fn law_folder_is_named_by_the_download(id: &str, r: String)
    requires
        call_ensures(temp_folder_name, (id,), r),
    ensures
        r@ == ".monk3i-"@ + id@,
{
}

/// A printed path is accepted exactly where it is not empty, lies within the
/// folder and is a file.
pub proof fn law_printed_paths_that_are_accepted<F: Fn(&str) -> bool>(
    line: &str,
    is_inside: bool,
    is_file: F,
    is_there: spec_fn(Seq<char>) -> bool,
    r: Option<String>,
)
    requires
        call_ensures(accept_printed_path::<F>, (line, is_inside, is_file), r),
        forall|path: Seq<char>, answer: bool| #[trigger]
            answered(is_file, path, answer) ==> answer == is_there(path),
    ensures
        r is Some <==> printed_path(line@).len() > 0 && is_inside && is_there(
            printed_path(line@),
        ),
        r matches Some(path) ==> path@ == printed_path(line@),
{
}

/// Of portable paths, a printed one is accepted exactly where it is not empty, is
/// a file and has all components of the folder before its own. None is accepted
/// of a folder whose path is not text.
pub proof fn law_printed_paths_lie_within<F: Fn(&str) -> bool>(
    line: &str,
    folder: Option<&str>,
    is_file: F,
    is_there: spec_fn(Seq<char>) -> bool,
    r: Option<String>,
)
    requires
        call_ensures(path_from_yt_dlp_output::<F>, (line, folder, is_file), r),
        forall|path: Seq<char>, answer: bool| #[trigger]
            answered(is_file, path, answer) ==> answer == is_there(path),
    ensures
        folder is None ==> r is None,
        folder matches Some(folder) ==> (is_portable_path(printed_path(line@)) && is_portable_path(
            folder@,
        ) ==> (r is Some <==> printed_path(line@).len() > 0 && is_there(printed_path(line@))
            && lies_within(printed_path(line@), folder@))),
        r matches Some(path) ==> path@ == printed_path(line@),
{
}

} // verus!
