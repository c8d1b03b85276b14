//! What an inspection asks and tells, said of the answers themselves.

use vstd::prelude::*;

use crate::filename::media_name;
use crate::inspect::{
    after_downloader, after_head, after_range, begin_inspection, InspectAction, InspectView,
};
use crate::location::{kind, Request};
use crate::location_laws::{
    declares, is_host_of, is_media_site, law_media_pages_are_those_of_nine_sites,
};
use crate::media::{describe_media, Inspection, YtDlpInfo};
use crate::naming::response_name;
use crate::naming_laws::{is_type_of, law_name_is_extended};
use crate::number::{is_digit, number, numeral_digits};
use crate::outside::{lossy_text, name_extension};
use crate::resource::{
    describe_response, head_filename, header_text, keeps_head_answer, or_empty, total_size,
    total_size_from_response, HeadView, ResourceInfo, ResponseHead,
};
use crate::text::{after_last, is_without, law_after_last_of_joined, lower, string_view, trimmed};
use crate::text_laws::{is_blank, law_trimmed_of_blank};

verus! {

/// The media downloader is asked exactly about what lies on a media site.
pub proof fn law_inspection_begins_by_site(request: &Request, r: InspectAction)
    requires
        call_ensures(begin_inspection, (request,), r),
    ensures
        r@ is AskDownloader || r@ is SendHead,
        r@ is AskDownloader <==> (request.location@.host matches Some(host) && exists|
            site: Seq<char>,
        |
            is_media_site(site) && #[trigger] is_host_of(host, site)),
{
    law_media_pages_are_those_of_nine_sites(request.location@);
}

/// The answer to the question for the head is told exactly where its status is
/// 200 or above and below 400. Whatever else comes, or nothing, the resource is
/// asked for its first byte.
pub proof fn law_head_is_told_by_its_status(
    url: &str,
    head: Option<ResponseHead>,
    r: InspectAction,
)
    requires
        call_ensures(after_head, (url, head), r),
    ensures
        r@ is Tell <==> (head matches Some(answer) && answer.status_code >= 200
            && answer.status_code < 400),
        r@ is Tell || r@ is SendRange,
        r@ matches InspectView::Tell(info) ==> (head matches Some(answer) && info.status_code
            == answer.status_code && info.final_url == answer.location.text@ && info.url == url@),
{
}

/// An answer to a `HEAD` request is kept by its status alone.
pub proof fn law_kept_answers(status_code: Option<u16>, r: bool)
    requires
        call_ensures(keeps_head_answer, (status_code,), r),
    ensures
        r <==> (status_code matches Some(code) && code >= 200 && code < 400),
{
}

/// What is told of a head is the same whether it answered a question for the
/// head or one for the first byte, and that is told whatever its status.
pub proof fn law_first_byte_is_always_told(
    url: &str,
    answer: Result<ResponseHead, String>,
    r: InspectAction,
    told: InspectAction,
)
    requires
        call_ensures(after_range, (url, answer), r),
        answer matches Ok(head) ==> call_ensures(after_head, (url, Some(head)), told),
    ensures
        answer matches Ok(head) ==> {
            &&& r@ matches InspectView::Tell(info)
            &&& info.status_code == head.status_code
            &&& info.final_url == head.location.text@
            &&& info.url == url@
            &&& 200 <= head.status_code < 400 ==> told@ == r@
        },
        answer matches Err(message) ==> r@ == InspectView::Fail(message@),
{
}

/// What is told of a response is what it says: the URL that was asked for and
/// the one that answered, the status, the type as it was sent, the size, and the
/// kind that belongs to the type and the place.
pub proof fn law_response_is_told(url: &str, head: &ResponseHead, r: ResourceInfo)
    requires
        call_ensures(describe_response, (url, head), r),
    ensures
        r.url@ == url@,
        r.final_url@ == head.location.text@,
        r.status_code == head.status_code,
        string_view(r.content_type) == header_text(head@.content_type),
        r.size == total_size(header_text(head@.content_range), head.content_length),
        r.kind@ == kind(header_text(head@.content_type), head.location@),
        string_view(r.filename) == head_filename(head@),
{
}

/// A header is text exactly where all its bytes are printable ASCII, spaces or
/// tabs, and each byte is its character then.
pub proof fn law_header_is_printable(bytes: Seq<u8>, i: int)
    ensures
        header_text(Some(bytes)) is Some <==> forall|k: int|
            0 <= k < bytes.len() ==> #[trigger] bytes[k] == 9 || 32 <= bytes[k] <= 126,
        header_text(Some(bytes)) matches Some(text) ==> text.len() == bytes.len() && (0 <= i
            < bytes.len() ==> text[i] as int == bytes[i] as int),
        header_text(None) is None,
{
    if forall|k: int| 0 <= k < bytes.len() ==> #[trigger] bytes[k] == 9 || 32 <= bytes[k] <= 126 {
        assert forall|k: int| 0 <= k < bytes.len() implies crate::resource::is_header_byte(
            #[trigger] bytes[k],
        ) by {}
    }
    if header_text(Some(bytes)) is Some {
        assert forall|k: int| 0 <= k < bytes.len() implies #[trigger] bytes[k] == 9 || 32
            <= bytes[k] <= 126 by {
            assert(crate::resource::is_header_byte(bytes[k]));
        }
    }
}

/// What follows the last slash of a range and is no number leaves the length of
/// the body, as a missing range does.
pub proof fn law_unreadable_size_leaves_the_length(
    range: Seq<char>,
    size: Seq<char>,
    length: Option<u64>,
    i: int,
)
    requires
        is_without(size, '/'),
        0 <= i < size.len(),
        !('0' <= size[i] <= '9'),
        i > 0 || size[i] != '+',
    ensures
        total_size(Some(range + seq!['/'] + size), length) == length,
{
    law_after_last_of_joined(range, '/', size);
    let digits = numeral_digits(size);
    if size[0] == '+' {
        assert(digits[i - 1] == size[i]);
        assert(!is_digit(digits[i - 1]));
    } else {
        assert(digits[i] == size[i]);
        assert(!is_digit(digits[i]));
    }
}

/// The size that is told is that of the range where the range states a number,
/// and does not depend on the body then.
pub proof fn law_told_size(
    range: Option<&str>,
    length: Option<u64>,
    other: Option<u64>,
    r: Option<u64>,
    s: Option<u64>,
)
    requires
        call_ensures(total_size_from_response, (range, length), r),
        call_ensures(total_size_from_response, (range, other), s),
    ensures
        range is None ==> r == length,
        range matches Some(value) ==> (number(after_last(value@, '/')) matches Some(size) ==> r
            == Some(size) && s == Some(size)),
        range matches Some(value) ==> (number(after_last(value@, '/')) is None ==> r == length),
{
    if let Some(value) = range {
        reveal_strlit("*");
        if after_last(value@, '/') == "*"@ {
            let digits = numeral_digits("*"@);
            assert(digits =~= "*"@);
            assert(!is_digit(digits[0]));
        }
    }
}

/// The file name of a response is the name that it gives where that has an
/// extension, and otherwise that name with the extension of the declared type.
pub proof fn law_response_name_is_extended(
    head: HeadView,
    t: Seq<char>,
    name: Seq<char>,
    e: Seq<char>,
)
    requires
        declares(or_empty(header_text(head.content_type)), t),
        response_name(header_text(head.content_disposition), head.location.text) == Some(name),
    ensures
        name_extension(name) is Some ==> head_filename(head) == Some(name),
        name_extension(name) is None && is_type_of(lower(t), e) ==> head_filename(head) == Some(
            name + "."@ + e,
        ),
        name_extension(name) is None && (forall|x: Seq<char>|
            !#[trigger] is_type_of(lower(t), x)) ==> head_filename(head) == Some(name),
{
    law_name_is_extended(name, or_empty(header_text(head.content_type)), t, e);
}

/// A response that gives no name has no file name.
pub proof fn law_nameless_response(head: HeadView)
    ensures
        head_filename(head) is None <==> response_name(
            header_text(head.content_disposition),
            head.location.text,
        ) is None,
        or_empty(None) == ""@,
{
}

/// What is told of media is what the media downloader said of it: the name made
/// of the title, the exact size or else the approximate one, and the URL as that
/// of the answer too.
pub proof fn law_media_is_told(url: &str, info: &YtDlpInfo, r: ResourceInfo)
    requires
        call_ensures(describe_media, (url, info), r),
    ensures
        r.url@ == url@,
        r.final_url@ == url@,
        r.kind@ == "media_page"@,
        r.content_type is None,
        r.status_code == 200,
        info.filesize is Some ==> r.size == info.filesize,
        info.filesize is None ==> r.size == info.filesize_approx,
        info.title is None ==> r.filename is None,
        info.title matches Some(title) ==> (info.ext matches Some(ext) ==> (
        r.filename matches Some(name) && name@ == media_name(title@, ext@))),
        info.title matches Some(title) ==> (info.ext is None ==> (r.filename matches Some(name)
            && name@ == media_name(title@, "mp4"@))),
{
}

/// What comes of asking the media downloader: an answer is told, and every way
/// to fail has its own message.
pub proof fn law_downloader_is_explained(url: &str, inspection: Inspection, r: InspectAction)
    requires
        call_ensures(after_downloader, (url, inspection), r),
    ensures
        r@ is Tell <==> inspection is Answered,
        r@ is Tell || r@ is Fail,
        inspection is Missing ==> r@ == InspectView::Fail(
            "YouTube/media extraction requires yt-dlp. Install yt-dlp, restart Monk3i, and try again."@,
        ),
        inspection matches Inspection::NotStarted(reason) ==> r@ == InspectView::Fail(
            "Could not start yt-dlp: "@ + reason@,
        ),
        inspection matches Inspection::Unreadable(reason) ==> r@ == InspectView::Fail(
            "Could not read media information: "@ + reason@,
        ),
        inspection matches Inspection::Failed(errors) ==> (is_blank(lossy_text(errors@)) ==> r@
            == InspectView::Fail("yt-dlp could not inspect this media URL."@)),
        inspection matches Inspection::Failed(errors) ==> (!is_blank(lossy_text(errors@)) ==> r@
            == InspectView::Fail(trimmed(lossy_text(errors@)))),
        inspection matches Inspection::Answered(info) ==> (r@ matches InspectView::Tell(told)
            && told.url == url@ && told.kind == "media_page"@ && told.size == (
        if info.filesize is Some {
            info.filesize
        } else {
            info.filesize_approx
        })),
{
    if let Inspection::Failed(errors) = inspection {
        law_trimmed_of_blank(lossy_text(errors@));
    }
}

} // verus!
