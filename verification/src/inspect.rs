//! The course of an inspection: what to ask, and what is told in the end.

use vstd::prelude::*;

use crate::location::{is_known_media_page, is_media_page, Request};
use crate::media::{
    describe_media, inspect_media_with_yt_dlp, inspection_outcome, resource_of_media, Inspection,
    InspectionView,
};
use crate::resource::{
    describe_response, keeps_head_answer, resource_of_head, HeadView, ResourceInfo, ResourceView,
    ResponseHead,
};

verus! {

/// What an inspection needs done.
#[derive(Clone, Debug)]
pub enum InspectAction {
    /// Ask the media downloader about the URL.
    AskDownloader,
    /// Ask for the head of the resource.
    SendHead,
    /// Ask for the first byte of the resource.
    SendRange,
    /// Tell what is known of the resource. It is done.
    Tell(ResourceInfo),
    /// Give up with a message. It is done.
    Fail(String),
}

/// An [`InspectAction`] in its characters.
#[verifier::ext_equal]
pub enum InspectView {
    AskDownloader,
    SendHead,
    SendRange,
    Tell(ResourceView),
    Fail(Seq<char>),
}

impl View for InspectAction {
    type V = InspectView;

    open spec fn view(&self) -> InspectView {
        match *self {
            InspectAction::AskDownloader => InspectView::AskDownloader,
            InspectAction::SendHead => InspectView::SendHead,
            InspectAction::SendRange => InspectView::SendRange,
            InspectAction::Tell(info) => InspectView::Tell(info@),
            InspectAction::Fail(message) => InspectView::Fail(message@),
        }
    }
}

/// How an inspection begins: the media downloader is asked about a page of a
/// known media site, any other resource about its head.
pub fn begin_inspection(request: &Request) -> (r: InspectAction)
    ensures
        r@ == if is_media_page(request.location@) {
            InspectView::AskDownloader
        } else {
            InspectView::SendHead
        },
{
    if is_known_media_page(&request.location) {
        InspectAction::AskDownloader
    } else {
        InspectAction::SendHead
    }
}

/// What is told after the media downloader was asked.
pub open spec fn media_verdict(url: Seq<char>, inspection: InspectionView) -> InspectView {
    match inspection_outcome(inspection) {
        Ok(info) => InspectView::Tell(resource_of_media(url, info)),
        Err(message) => InspectView::Fail(message),
    }
}

/// What follows after the media downloader was asked about `url`.
pub fn after_downloader(url: &str, inspection: Inspection) -> (r: InspectAction)
    ensures
        r@ == media_verdict(url@, inspection@),
{
    match inspect_media_with_yt_dlp(inspection) {
        Ok(info) => InspectAction::Tell(describe_media(url, &info)),
        Err(message) => InspectAction::Fail(message),
    }
}

/// What follows the answer to the question for the head: it is told where its
/// status is a success or a redirection. If it is not, or there was no answer,
/// the resource is asked for its first byte.
pub open spec fn head_verdict(url: Seq<char>, head: Option<HeadView>) -> InspectView {
    match head {
        Some(head) if 200 <= head.status_code < 400 => InspectView::Tell(
            resource_of_head(url, head),
        ),
        _ => InspectView::SendRange,
    }
}

/// The view of a head that may be missing.
pub open spec fn head_view(head: Option<ResponseHead>) -> Option<HeadView> {
    match head {
        Some(head) => Some(head@),
        None => None,
    }
}

/// What follows the answer to the question for the head of `url`.
pub fn after_head(url: &str, head: Option<ResponseHead>) -> (r: InspectAction)
    ensures
        r@ == head_verdict(url@, head_view(head)),
{
    match head {
        Some(head) => {
            if keeps_head_answer(Some(head.status_code)) {
                InspectAction::Tell(describe_response(url, &head))
            } else {
                InspectAction::SendRange
            }
        },
        None => InspectAction::SendRange,
    }
}

/// What follows the answer to the question for the first byte of `url`: it is
/// told whatever its status is.
pub fn after_range(url: &str, answer: Result<ResponseHead, String>) -> (r: InspectAction)
    ensures
        r@ == match answer {
            Ok(head) => InspectView::Tell(resource_of_head(url@, head@)),
            Err(message) => InspectView::Fail(message@),
        },
{
    match answer {
        Ok(head) => InspectAction::Tell(describe_response(url, &head)),
        Err(message) => InspectAction::Fail(message),
    }
}

} // verus!
