//! URLs as the download manager reads them.

use vstd::prelude::*;
use vstd::string::*;

use crate::outside::{parse_url, parsed_url};
use crate::text::{
    after_prefix, before_first, begins_with, ends_with, law_trimmed_idempotent, lower, same,
    str_view, string_view, to_lower, trim, trimmed, until_first,
};

verus! {

/// The parts of a parsed URL that the download manager looks at.
#[derive(Clone, Debug)]
pub struct Location {
    /// The whole URL.
    pub text: String,
    /// The scheme, in lower case.
    pub scheme: String,
    /// The host, where the URL has one.
    pub host: Option<String>,
    /// The path, percent-encoded.
    pub path: String,
}

/// The characters of a [`Location`].
#[verifier::ext_equal]
pub struct LocationView {
    pub text: Seq<char>,
    pub scheme: Seq<char>,
    pub host: Option<Seq<char>>,
    pub path: Seq<char>,
}

impl View for Location {
    type V = LocationView;

    open spec fn view(&self) -> LocationView {
        LocationView {
            text: self.text@,
            scheme: self.scheme@,
            host: string_view(self.host),
            path: self.path@,
        }
    }
}

/// What a user is told of a text that is no URL.
pub open spec fn invalid_url_message() -> Seq<char> {
    "Please enter a valid URL."@
}

/// What a user is told of a URL of another scheme.
pub open spec fn unsupported_scheme_message() -> Seq<char> {
    "Only HTTP and HTTPS URLs are supported."@
}

/// Whether the scheme is one that can be downloaded from.
pub open spec fn is_web_scheme(scheme: Seq<char>) -> bool {
    scheme == "http"@ || scheme == "https"@
}

/// A host in lower case, without a leading `www.`.
pub open spec fn bare_host(host: Seq<char>) -> Seq<char> {
    let host = lower(host);
    if "www."@.is_prefix_of(host) {
        host.skip(4)
    } else {
        host
    }
}

/// Whether `host` is `domain` or one of its subdomains.
pub open spec fn is_within(host: Seq<char>, domain: Seq<char>) -> bool {
    host == domain || (seq!['.'] + domain).is_suffix_of(host)
}

/// Whether a bare host belongs to a site whose pages play media.
pub open spec fn is_media_host(host: Seq<char>) -> bool {
    ||| is_within(host, "youtube.com"@)
    ||| is_within(host, "youtu.be"@)
    ||| is_within(host, "youtube-nocookie.com"@)
    ||| is_within(host, "vimeo.com"@)
    ||| is_within(host, "dailymotion.com"@)
    ||| is_within(host, "tiktok.com"@)
    ||| is_within(host, "instagram.com"@)
    ||| is_within(host, "facebook.com"@)
    ||| is_within(host, "soundcloud.com"@)
}

/// Whether a location is a page of a known media site.
pub open spec fn is_media_page(location: LocationView) -> bool {
    is_media_host(
        bare_host(
            match location.host {
                Some(host) => host,
                None => ""@,
            },
        ),
    )
}

/// Whether `host` is `domain` or one of its subdomains.
fn within(host: &str, domain: &str) -> (r: bool)
    ensures
        r == is_within(host@, domain@),
{
    let mut dotted = String::new();
    dotted.push('.');
    dotted.append(domain);
    assert(dotted@ =~= seq!['.'] + domain@);
    same(host, domain) || ends_with(host, dotted.as_str())
}

/// Whether `url` is a page of a known media site: its host, in lower case and
/// without a leading `www.`, is one of the known domains or a subdomain.
pub fn is_known_media_page(url: &Location) -> (r: bool)
    ensures
        r == is_media_page(url@),
{
    let host = match &url.host {
        Some(host) => to_lower(host.as_str()),
        None => to_lower(""),
    };
    let bare = match after_prefix(host.as_str(), "www.") {
        Some(rest) => rest,
        None => host.as_str(),
    };
    proof {
        reveal_strlit("www.");
    }
    within(bare, "youtube.com") || within(bare, "youtu.be") || within(bare, "youtube-nocookie.com")
        || within(bare, "vimeo.com") || within(bare, "dailymotion.com") || within(
        bare,
        "tiktok.com",
    ) || within(bare, "instagram.com") || within(bare, "facebook.com") || within(
        bare,
        "soundcloud.com",
    )
}

/// A URL that a user asked for.
#[derive(Clone, Debug)]
pub struct Request {
    /// The text that the user gave, without white space around it.
    pub url: String,
    /// What the text was parsed to.
    pub location: Location,
}

/// Whether `r` is the answer to the text `url`, given what it was parsed to:
/// a text that is no URL and a scheme other than HTTP and HTTPS are refused,
/// each with its message.
pub open spec fn answers_request(
    r: Result<Request, String>,
    url: Seq<char>,
    parsed: Option<LocationView>,
) -> bool {
    match parsed {
        None => r matches Err(message) && message@ == invalid_url_message(),
        Some(location) => if is_web_scheme(location.scheme) {
            r matches Ok(request) && request.url@ == trimmed(url) && request.location@ == location
        } else {
            r matches Err(message) && message@ == unsupported_scheme_message()
        },
    }
}

/// The location that `parsed` holds as `Some`, in its view.
pub open spec fn location_view(parsed: Option<Location>) -> Option<LocationView> {
    match parsed {
        Some(location) => Some(location@),
        None => None,
    }
}

/// Accepts or refuses the text `url`, given what it was parsed to.
pub fn accept_request(url: &str, parsed: Option<Location>) -> (r: Result<Request, String>)
    ensures
        answers_request(r, url@, location_view(parsed)),
{
    match parsed {
        None => Err("Please enter a valid URL.".to_owned()),
        Some(location) => {
            if same(location.scheme.as_str(), "http") || same(location.scheme.as_str(), "https") {
                Ok(Request { url: trim(url).to_owned(), location })
            } else {
                Err("Only HTTP and HTTPS URLs are supported.".to_owned())
            }
        },
    }
}

/// Reads the text that a user gave as a URL to download from.
pub fn read_request(url: &str) -> (r: Result<Request, String>)
    ensures
        answers_request(r, url@, parsed_url(trimmed(url@))),
{
    let parsed = parse_url(trim(url));
    accept_request(url, parsed)
}

/// The media type of a `Content-Type` value: what stands before the first
/// semicolon, trimmed, in lower case.
pub open spec fn media_type(content_type: Seq<char>) -> Seq<char> {
    lower(trimmed(before_first(content_type, ';')))
}

/// The media type of a `Content-Type` value.
pub fn read_media_type(content_type: &str) -> (r: String)
    ensures
        r@ == media_type(content_type@),
{
    to_lower(trim(until_first(content_type, ';')))
}

/// Whether `path` ends with a dot and `extension`.
pub open spec fn has_suffix(path: Seq<char>, extension: Seq<char>) -> bool {
    (seq!['.'] + extension).is_suffix_of(path)
}

/// The kind that a media type alone gives a resource.
pub open spec fn kind_of_type(media_type: Seq<char>) -> Option<Seq<char>> {
    if media_type == "text/html"@ || media_type == "application/xhtml+xml"@ {
        Some("webpage"@)
    } else if "image/"@.is_prefix_of(media_type) {
        Some("image"@)
    } else if "video/"@.is_prefix_of(media_type) {
        Some("video"@)
    } else if "audio/"@.is_prefix_of(media_type) {
        Some("audio"@)
    } else if "text/"@.is_prefix_of(media_type) || media_type == "application/json"@ || media_type
        == "application/javascript"@ {
        Some("webpage"@)
    } else {
        None
    }
}

/// The kind that the path of a URL, in lower case, gives a resource.
pub open spec fn kind_of_path(path: Seq<char>) -> Seq<char> {
    if has_suffix(path, "jpg"@) || has_suffix(path, "jpeg"@) || has_suffix(path, "png"@)
        || has_suffix(path, "gif"@) || has_suffix(path, "webp"@) || has_suffix(path, "svg"@) {
        "image"@
    } else if has_suffix(path, "mp4"@) || has_suffix(path, "webm"@) || has_suffix(path, "mov"@)
        || has_suffix(path, "mkv"@) || has_suffix(path, "avi"@) {
        "video"@
    } else if has_suffix(path, "mp3"@) || has_suffix(path, "m4a"@) || has_suffix(path, "wav"@)
        || has_suffix(path, "flac"@) || has_suffix(path, "ogg"@) {
        "audio"@
    } else {
        "file"@
    }
}

/// The kind of a resource: a known media site first, then its media type, then
/// its path.
pub open spec fn kind(content_type: Option<Seq<char>>, location: LocationView) -> Seq<char> {
    let content_type = match content_type {
        Some(content_type) => content_type,
        None => ""@,
    };
    if is_media_page(location) {
        "media_page"@
    } else {
        match kind_of_type(media_type(content_type)) {
            Some(kind) => kind,
            None => kind_of_path(lower(location.path)),
        }
    }
}

/// Whether `path` ends with a dot and `extension`.
fn ends_in(path: &str, extension: &str) -> (r: bool)
    ensures
        r == has_suffix(path@, extension@),
{
    let mut dotted = String::new();
    dotted.push('.');
    dotted.append(extension);
    assert(dotted@ =~= seq!['.'] + extension@);
    ends_with(path, dotted.as_str())
}

/// The kind that a media type alone gives a resource.
fn read_kind_of_type(media_type: &str) -> (r: Option<&'static str>)
    ensures
        str_view(r) == kind_of_type(media_type@),
{
    if same(media_type, "text/html") || same(media_type, "application/xhtml+xml") {
        Some("webpage")
    } else if begins_with(media_type, "image/") {
        Some("image")
    } else if begins_with(media_type, "video/") {
        Some("video")
    } else if begins_with(media_type, "audio/") {
        Some("audio")
    } else if begins_with(media_type, "text/") || same(media_type, "application/json") || same(
        media_type,
        "application/javascript",
    ) {
        Some("webpage")
    } else {
        None
    }
}

/// The kind that the path of a URL, in lower case, gives a resource.
fn read_kind_of_path(path: &str) -> (r: &'static str)
    ensures
        r@ == kind_of_path(path@),
{
    if ends_in(path, "jpg") || ends_in(path, "jpeg") || ends_in(path, "png") || ends_in(path, "gif")
        || ends_in(path, "webp") || ends_in(path, "svg") {
        "image"
    } else if ends_in(path, "mp4") || ends_in(path, "webm") || ends_in(path, "mov") || ends_in(
        path,
        "mkv",
    ) || ends_in(path, "avi") {
        "video"
    } else if ends_in(path, "mp3") || ends_in(path, "m4a") || ends_in(path, "wav") || ends_in(
        path,
        "flac",
    ) || ends_in(path, "ogg") {
        "audio"
    } else {
        "file"
    }
}

/// The kind of the resource at `url` with the given `Content-Type`:
/// `media_page`, `webpage`, `image`, `video`, `audio` or `file`.
pub fn resource_kind(content_type: Option<&str>, url: &Location) -> (r: &'static str)
    ensures
        r@ == kind(str_view(content_type), url@),
{
    if is_known_media_page(url) {
        return "media_page";
    }
    let declared = match content_type {
        Some(content_type) => read_media_type(content_type),
        None => read_media_type(""),
    };
    match read_kind_of_type(declared.as_str()) {
        Some(kind) => kind,
        None => read_kind_of_path(to_lower(url.path.as_str()).as_str()),
    }
}

/// A subdomain of a media host is a media host.
pub proof fn law_subdomain_of_media_host(label: Seq<char>, host: Seq<char>)
    requires
        is_media_host(host),
    ensures
        is_media_host(label + seq!['.'] + host),
{
    lemma_subdomain_is_within(label, host, "youtube.com"@);
    lemma_subdomain_is_within(label, host, "youtu.be"@);
    lemma_subdomain_is_within(label, host, "youtube-nocookie.com"@);
    lemma_subdomain_is_within(label, host, "vimeo.com"@);
    lemma_subdomain_is_within(label, host, "dailymotion.com"@);
    lemma_subdomain_is_within(label, host, "tiktok.com"@);
    lemma_subdomain_is_within(label, host, "instagram.com"@);
    lemma_subdomain_is_within(label, host, "facebook.com"@);
    lemma_subdomain_is_within(label, host, "soundcloud.com"@);
}

/// A subdomain of what is within a domain is within it.
proof fn lemma_subdomain_is_within(label: Seq<char>, host: Seq<char>, domain: Seq<char>)
    ensures
        is_within(host, domain) ==> is_within(label + seq!['.'] + host, domain),
{
    let whole = label + seq!['.'] + host;
    let dotted = seq!['.'] + domain;
    if host == domain {
        assert(whole.subrange(whole.len() - dotted.len(), whole.len() as int) =~= dotted);
    } else if dotted.is_suffix_of(host) {
        assert(whole.subrange(whole.len() - dotted.len(), whole.len() as int) =~= host.subrange(
            host.len() - dotted.len(),
            host.len() as int,
        ));
    }
}

/// Whether a location is a media page depends on its host alone, and not on the
/// case of its letters.
pub proof fn law_media_page_by_host(a: LocationView, b: LocationView)
    requires
        a.host == b.host || (a.host matches Some(x) && b.host matches Some(y) && lower(x) == lower(
            y,
        )),
    ensures
        is_media_page(a) == is_media_page(b),
{
}

/// The page of a known site is a media page with `www.` before its host too.
pub proof fn law_www_is_ignored(host: Seq<char>, a: LocationView, b: LocationView)
    requires
        a.host == Some(host),
        b.host == Some("www."@ + host),
        !"www."@.is_prefix_of(lower(host)),
    ensures
        is_media_page(a) == is_media_page(b),
{
    reveal_strlit("www.");
    let long = lower("www."@ + host);
    assert(long.subrange(0, 4) =~= "www."@);
    assert(long.skip(4) =~= lower(host));
}

/// A resource is of one of six kinds. On a known media site it is a media page
/// whatever its type. Elsewhere a type that says what it is decides before the
/// path does.
pub proof fn law_kinds(content_type: Option<Seq<char>>, location: LocationView)
    ensures
        ({
            let k = kind(content_type, location);
            &&& {
                ||| k == "media_page"@
                ||| k == "webpage"@
                ||| k == "image"@
                ||| k == "video"@
                ||| k == "audio"@
                ||| k == "file"@
            }
            &&& k == "media_page"@ <==> is_media_page(location)
            &&& content_type matches Some(value) ==> (!is_media_page(location) ==> (kind_of_type(
                media_type(value),
            ) matches Some(told) ==> k == told))
        }),
{
    reveal_strlit("media_page");
    reveal_strlit("webpage");
    reveal_strlit("image");
    reveal_strlit("video");
    reveal_strlit("audio");
    reveal_strlit("file");
    assert("media_page"@.len() == 10);
}

/// White space around the text that a user gives makes no difference.
pub proof fn law_request_ignores_white_space(url: Seq<char>)
    ensures
        forall|r: Result<Request, String>|
            answers_request(r, url, parsed_url(trimmed(url))) == answers_request(
                r,
                trimmed(url),
                parsed_url(trimmed(trimmed(url))),
            ),
{
    law_trimmed_idempotent(url);
}

} // verus!
