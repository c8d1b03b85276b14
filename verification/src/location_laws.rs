//! What requests, media sites and kinds come to, said of the texts themselves.

use vstd::prelude::*;

use crate::location::{
    answers_request, is_media_page, kind, media_type, read_request, resource_kind, Location,
    LocationView, Request,
};
use crate::outside::parsed_url;
use crate::start::{choose_route, Route};
use crate::text::{is_white, is_without, lower, str_view, trimmed};
use crate::text_laws::{
    is_blank, law_before_first_of_joined, law_lower_of_joined, law_trimmed_of_wrapped,
};

verus! {

/// A text that is no URL is refused, and so is every scheme but two. Nothing
/// else is, and what is accepted is the text without white space around it, with
/// the location that it was parsed to.
pub proof fn law_what_is_accepted(
    r: Result<Request, String>,
    url: Seq<char>,
    parsed: Option<LocationView>,
)
    requires
        answers_request(r, url, parsed),
    ensures
        r is Ok <==> (parsed matches Some(location) && (location.scheme == "http"@
            || location.scheme == "https"@)),
        r matches Ok(request) ==> request.url@ == trimmed(url) && Some(request.location@) == parsed,
        parsed is None ==> (r matches Err(message) && message@ == "Please enter a valid URL."@),
        parsed is Some && r is Err ==> (r matches Err(message) && message@
            == "Only HTTP and HTTPS URLs are supported."@),
{
}

/// Whether `site` is the domain of a site whose pages play media.
pub open spec fn is_media_site(site: Seq<char>) -> bool {
    ||| site == "youtube.com"@
    ||| site == "youtu.be"@
    ||| site == "youtube-nocookie.com"@
    ||| site == "vimeo.com"@
    ||| site == "dailymotion.com"@
    ||| site == "tiktok.com"@
    ||| site == "instagram.com"@
    ||| site == "facebook.com"@
    ||| site == "soundcloud.com"@
}

/// Whether `host`, in any case, is `site` or a host below it.
pub open spec fn is_host_of(host: Seq<char>, site: Seq<char>) -> bool {
    lower(host) == site || (seq!['.'] + site).is_suffix_of(lower(host))
}

/// A location is a media page exactly where its host is one of the nine sites or
/// below one of them, in any case. Nothing but the host counts.
pub proof fn law_media_pages_are_those_of_nine_sites(location: LocationView)
    ensures
        is_media_page(location) <==> (location.host matches Some(host) && exists|site: Seq<char>|
            is_media_site(site) && #[trigger] is_host_of(host, site)),
{
    if let Some(host) = location.host {
        if exists|site: Seq<char>| is_media_site(site) && #[trigger] is_host_of(host, site) {
            let site = choose|site: Seq<char>|
                is_media_site(site) && #[trigger] is_host_of(host, site);
            lemma_site_is_bare(site);
            lemma_host_of_site(host, site);
        }
        if is_media_page(location) {
            let bare = crate::location::bare_host(host);
            lemma_bare_host_of_site(host, "youtube.com"@);
            lemma_bare_host_of_site(host, "youtu.be"@);
            lemma_bare_host_of_site(host, "youtube-nocookie.com"@);
            lemma_bare_host_of_site(host, "vimeo.com"@);
            lemma_bare_host_of_site(host, "dailymotion.com"@);
            lemma_bare_host_of_site(host, "tiktok.com"@);
            lemma_bare_host_of_site(host, "instagram.com"@);
            lemma_bare_host_of_site(host, "facebook.com"@);
            lemma_bare_host_of_site(host, "soundcloud.com"@);
        }
    } else {
        lemma_no_host_is_no_site();
    }
}

/// No site begins with `www.`.
proof fn lemma_site_is_bare(site: Seq<char>)
    requires
        is_media_site(site),
    ensures
        site.len() > 4,
        site[0] != 'w',
{
    reveal_strlit("youtube.com");
    reveal_strlit("youtu.be");
    reveal_strlit("youtube-nocookie.com");
    reveal_strlit("vimeo.com");
    reveal_strlit("dailymotion.com");
    reveal_strlit("tiktok.com");
    reveal_strlit("instagram.com");
    reveal_strlit("facebook.com");
    reveal_strlit("soundcloud.com");
}

/// Below a site, a leading `www.` can be taken off or not.
proof fn lemma_host_of_site(host: Seq<char>, site: Seq<char>)
    requires
        is_host_of(host, site),
        site.len() > 4,
        site[0] != 'w',
    ensures
        crate::location::is_within(crate::location::bare_host(host), site),
{
    reveal_strlit("www.");
    let low = lower(host);
    let dotted = seq!['.'] + site;
    if "www."@.is_prefix_of(low) {
        assert(low.subrange(0, 4)[0] == 'w');
        assert(low[0] == 'w');
        let rest = low.skip(4);
        let n = low.len() - dotted.len();
        assert(dotted.is_suffix_of(low));
        assert(low.subrange(n, low.len() as int) == dotted);
        assert(low[n] == dotted[0]);
        assert(low.subrange(0, 4) == "www."@);
        if n < 4 {
            assert(low[n] == low.subrange(0, 4)[n]);
            assert(n == 3);
            assert(rest =~= site) by {
                assert forall|i: int| 0 <= i < site.len() implies rest[i] == site[i] by {
                    assert(low[n + 1 + i] == dotted[1 + i]);
                }
            }
        } else {
            assert(rest.subrange(rest.len() - dotted.len(), rest.len() as int) =~= dotted);
        }
    }
}

/// What lies below a site without its leading `www.` does so with it.
proof fn lemma_bare_host_of_site(host: Seq<char>, site: Seq<char>)
    ensures
        crate::location::is_within(crate::location::bare_host(host), site) ==> is_host_of(
            host,
            site,
        ),
{
    reveal_strlit("www.");
    let low = lower(host);
    let dotted = seq!['.'] + site;
    if "www."@.is_prefix_of(low) {
        let rest = low.skip(4);
        assert(low.subrange(0, 4) == "www."@);
        assert(low[3] == low.subrange(0, 4)[3]);
        if rest == site {
            assert(low.subrange(3, low.len() as int) =~= dotted);
        } else if dotted.is_suffix_of(rest) {
            assert(low.subrange(low.len() - dotted.len(), low.len() as int) =~= rest.subrange(
                rest.len() - dotted.len(),
                rest.len() as int,
            ));
        }
    }
}

/// A location without a host is on no site.
proof fn lemma_no_host_is_no_site()
    ensures
        !crate::location::is_media_host(crate::location::bare_host(""@)),
{
    reveal_strlit("");
    reveal_strlit("www.");
    assert(lower(""@) =~= ""@);
    reveal_strlit("youtube.com");
    reveal_strlit("youtu.be");
    reveal_strlit("youtube-nocookie.com");
    reveal_strlit("vimeo.com");
    reveal_strlit("dailymotion.com");
    reveal_strlit("tiktok.com");
    reveal_strlit("instagram.com");
    reveal_strlit("facebook.com");
    reveal_strlit("soundcloud.com");
}

/// The route of a download goes by the site, as the pages do.
pub proof fn law_route_goes_by_site(location: &Location, r: Route)
    requires
        call_ensures(choose_route, (location,), r),
    ensures
        r == Route::Media <==> (location@.host matches Some(host) && exists|site: Seq<char>|
            is_media_site(site) && #[trigger] is_host_of(host, site)),
{
    law_media_pages_are_those_of_nine_sites(location@);
}

/// Whether a `Content-Type` value declares the type `t`, written as `t` is: it
/// may have white space around it and parameters behind a semicolon.
pub open spec fn declares(content_type: Seq<char>, t: Seq<char>) -> bool {
    &&& is_without(t, ';')
    &&& t.len() == 0 || !is_white(t.first()) && !is_white(t.last())
    &&& exists|before: Seq<char>, after: Seq<char>, tail: Seq<char>|
        is_blank(before) && is_blank(after) && (tail.len() == 0 || tail[0] == ';') && content_type
            == #[trigger] (before + t + after + tail)
}

/// A declared type is read in lower case, without what stands around it.
pub proof fn law_declared_type_is_read(content_type: Seq<char>, t: Seq<char>)
    requires
        declares(content_type, t),
    ensures
        media_type(content_type) == lower(t),
{
    let (before, after, tail) = choose|before: Seq<char>, after: Seq<char>, tail: Seq<char>|
        is_blank(before) && is_blank(after) && (tail.len() == 0 || tail[0] == ';') && content_type
            == #[trigger] (before + t + after + tail);
    let head = before + t + after;
    assert forall|i: int| 0 <= i < head.len() implies #[trigger] head[i] != ';' by {
        if i < before.len() {
            assert(head[i] == before[i]);
        } else if i < before.len() + t.len() {
            assert(head[i] == t[i - before.len()]);
        } else {
            assert(head[i] == after[i - before.len() - t.len()]);
        }
    }
    if tail.len() == 0 {
        assert(content_type =~= head);
        law_before_first_of_joined(head, ';', tail);
    } else {
        assert(content_type =~= head + seq![';'] + tail.drop_first());
        law_before_first_of_joined(head, ';', tail.drop_first());
    }
    law_trimmed_of_wrapped(before, t, after);
}

/// A plain type declares itself.
pub proof fn law_type_declares_itself(t: Seq<char>)
    requires
        is_without(t, ';'),
        t.len() == 0 || !is_white(t.first()) && !is_white(t.last()),
    ensures
        declares(t, t),
{
    let none = Seq::<char>::empty();
    assert(t =~= none + t + none + none);
}

/// Off the media sites a type of image, video or audio decides the kind whatever
/// the path, and so do the types of pages and of plain text.
pub proof fn law_declared_kinds(content_type: Seq<char>, t: Seq<char>, location: LocationView)
    requires
        declares(content_type, t),
        !is_media_page(location),
    ensures
        "image/"@.is_prefix_of(lower(t)) ==> kind(Some(content_type), location) == "image"@,
        "video/"@.is_prefix_of(lower(t)) ==> kind(Some(content_type), location) == "video"@,
        "audio/"@.is_prefix_of(lower(t)) ==> kind(Some(content_type), location) == "audio"@,
        "text/"@.is_prefix_of(lower(t)) ==> kind(Some(content_type), location) == "webpage"@,
        lower(t) == "application/xhtml+xml"@ ==> kind(Some(content_type), location) == "webpage"@,
        lower(t) == "application/json"@ ==> kind(Some(content_type), location) == "webpage"@,
        lower(t) == "application/javascript"@ ==> kind(Some(content_type), location)
            == "webpage"@,
{
    law_declared_type_is_read(content_type, t);
    reveal_strlit("image/");
    reveal_strlit("video/");
    reveal_strlit("audio/");
    reveal_strlit("text/");
    reveal_strlit("text/html");
    reveal_strlit("application/xhtml+xml");
    reveal_strlit("application/json");
    reveal_strlit("application/javascript");
    let m = lower(t);
    if "image/"@.is_prefix_of(m) {
        assert(m[0] == m.subrange(0, 6)[0]);
    }
    if "video/"@.is_prefix_of(m) {
        assert(m[0] == m.subrange(0, 6)[0]);
    }
    if "audio/"@.is_prefix_of(m) {
        assert(m[0] == m.subrange(0, 6)[0]);
        assert(m[1] == m.subrange(0, 6)[1]);
    }
    if "text/"@.is_prefix_of(m) {
        assert(m[0] == m.subrange(0, 5)[0]);
    }
}

/// Off the media sites, `image/`, `video/` and `audio/` before any subtype say
/// what the resource is, in any case and whatever the path.
pub proof fn law_kind_of_subtype(subtype: Seq<char>, location: LocationView)
    requires
        is_without(subtype, ';'),
        subtype.len() == 0 || !is_white(subtype.last()),
        !is_media_page(location),
    ensures
        kind(Some("image/"@ + subtype), location) == "image"@,
        kind(Some("video/"@ + subtype), location) == "video"@,
        kind(Some("audio/"@ + subtype), location) == "audio"@,
        kind(Some("text/"@ + subtype), location) == "webpage"@,
{
    reveal_strlit("image/");
    reveal_strlit("video/");
    reveal_strlit("audio/");
    reveal_strlit("text/");
    assert(lower("image/"@) =~= "image/"@);
    lemma_kind_of_prefixed("image/"@, subtype, location);
    assert(lower("video/"@) =~= "video/"@);
    lemma_kind_of_prefixed("video/"@, subtype, location);
    assert(lower("audio/"@) =~= "audio/"@);
    lemma_kind_of_prefixed("audio/"@, subtype, location);
    assert(lower("text/"@) =~= "text/"@);
    lemma_kind_of_prefixed("text/"@, subtype, location);
}

proof fn lemma_kind_of_prefixed(prefix: Seq<char>, subtype: Seq<char>, location: LocationView)
    requires
        prefix.len() > 0,
        is_without(prefix, ';'),
        !is_white(prefix.first()) && !is_white(prefix.last()),
        lower(prefix) == prefix,
        is_without(subtype, ';'),
        subtype.len() == 0 || !is_white(subtype.last()),
        !is_media_page(location),
    ensures
        prefix == "image/"@ ==> kind(Some(prefix + subtype), location) == "image"@,
        prefix == "video/"@ ==> kind(Some(prefix + subtype), location) == "video"@,
        prefix == "audio/"@ ==> kind(Some(prefix + subtype), location) == "audio"@,
        prefix == "text/"@ ==> kind(Some(prefix + subtype), location) == "webpage"@,
{
    let t = prefix + subtype;
    assert forall|i: int| 0 <= i < t.len() implies #[trigger] t[i] != ';' by {
        if i < prefix.len() {
            assert(t[i] == prefix[i]);
        } else {
            assert(t[i] == subtype[i - prefix.len()]);
        }
    }
    assert(t.first() == prefix.first());
    assert(t.last() == if subtype.len() == 0 {
        prefix.last()
    } else {
        subtype.last()
    });
    law_type_declares_itself(t);
    law_lower_of_joined(prefix, subtype);
    let m = lower(t);
    assert(m.subrange(0, prefix.len() as int) =~= prefix);
    law_declared_kinds(t, t, location);
}

/// Whether a type says by itself what kind of resource it is of.
pub open spec fn is_telling(t: Seq<char>) -> bool {
    ||| "image/"@.is_prefix_of(t)
    ||| "video/"@.is_prefix_of(t)
    ||| "audio/"@.is_prefix_of(t)
    ||| "text/"@.is_prefix_of(t)
    ||| t == "application/xhtml+xml"@
    ||| t == "application/json"@
    ||| t == "application/javascript"@
}

/// Whether `path` ends with `end`, in any case.
pub open spec fn ends_alike(path: Seq<char>, end: Seq<char>) -> bool {
    end.is_suffix_of(lower(path))
}

/// Off the media sites, a type that says nothing, or none, leaves the kind to
/// the end of the path, in any case.
pub proof fn law_kind_of_untold_type(
    content_type: Option<Seq<char>>,
    t: Seq<char>,
    location: LocationView,
)
    requires
        content_type matches Some(value) ==> declares(value, t),
        content_type is None ==> t == ""@,
        !is_telling(lower(t)),
        !is_media_page(location),
    ensures
        ({
            let p = location.path;
            let k = kind(content_type, location);
            let is_image = ends_alike(p, ".jpg"@) || ends_alike(p, ".jpeg"@) || ends_alike(
                p,
                ".png"@,
            ) || ends_alike(p, ".gif"@) || ends_alike(p, ".webp"@) || ends_alike(p, ".svg"@);
            let is_video = ends_alike(p, ".mp4"@) || ends_alike(p, ".webm"@) || ends_alike(
                p,
                ".mov"@,
            ) || ends_alike(p, ".mkv"@) || ends_alike(p, ".avi"@);
            let is_audio = ends_alike(p, ".mp3"@) || ends_alike(p, ".m4a"@) || ends_alike(
                p,
                ".wav"@,
            ) || ends_alike(p, ".flac"@) || ends_alike(p, ".ogg"@);
            &&& is_image ==> k == "image"@
            &&& is_video && !is_image ==> k == "video"@
            &&& is_audio && !is_image && !is_video ==> k == "audio"@
            &&& !is_image && !is_video && !is_audio ==> k == "file"@
        }),
{
    if let Some(value) = content_type {
        law_declared_type_is_read(value, t);
    } else {
        reveal_strlit("");
        law_type_declares_itself(""@);
        law_declared_type_is_read(""@, ""@);
    }
    lemma_text_html_is_text(lower(t));
    lemma_dotted_literals();
}

/// A page of HTML is a text.
proof fn lemma_text_html_is_text(t: Seq<char>)
    ensures
        t == "text/html"@ ==> "text/"@.is_prefix_of(t),
{
    reveal_strlit("text/");
    reveal_strlit("text/html");
    if t == "text/html"@ {
        assert(t.subrange(0, 5) =~= "text/"@);
    }
}

/// The ends of paths, with their dots.
proof fn lemma_dotted_literals()
    ensures
        seq!['.'] + "jpg"@ == ".jpg"@,
        seq!['.'] + "jpeg"@ == ".jpeg"@,
        seq!['.'] + "png"@ == ".png"@,
        seq!['.'] + "gif"@ == ".gif"@,
        seq!['.'] + "webp"@ == ".webp"@,
        seq!['.'] + "svg"@ == ".svg"@,
        seq!['.'] + "mp4"@ == ".mp4"@,
        seq!['.'] + "webm"@ == ".webm"@,
        seq!['.'] + "mov"@ == ".mov"@,
        seq!['.'] + "mkv"@ == ".mkv"@,
        seq!['.'] + "avi"@ == ".avi"@,
        seq!['.'] + "mp3"@ == ".mp3"@,
        seq!['.'] + "m4a"@ == ".m4a"@,
        seq!['.'] + "wav"@ == ".wav"@,
        seq!['.'] + "flac"@ == ".flac"@,
        seq!['.'] + "ogg"@ == ".ogg"@,
{
    reveal_strlit("jpg");
    reveal_strlit(".jpg");
    reveal_strlit("jpeg");
    reveal_strlit(".jpeg");
    reveal_strlit("png");
    reveal_strlit(".png");
    reveal_strlit("gif");
    reveal_strlit(".gif");
    reveal_strlit("webp");
    reveal_strlit(".webp");
    reveal_strlit("svg");
    reveal_strlit(".svg");
    reveal_strlit("mp4");
    reveal_strlit(".mp4");
    reveal_strlit("webm");
    reveal_strlit(".webm");
    reveal_strlit("mov");
    reveal_strlit(".mov");
    reveal_strlit("mkv");
    reveal_strlit(".mkv");
    reveal_strlit("avi");
    reveal_strlit(".avi");
    reveal_strlit("mp3");
    reveal_strlit(".mp3");
    reveal_strlit("m4a");
    reveal_strlit(".m4a");
    reveal_strlit("wav");
    reveal_strlit(".wav");
    reveal_strlit("flac");
    reveal_strlit(".flac");
    reveal_strlit("ogg");
    reveal_strlit(".ogg");
}

/// The kind that is told is the kind of the resource, and on a media site it is
/// that of a media page whatever the type and the path.
pub proof fn law_told_kind(content_type: Option<&str>, url: &Location, r: &'static str)
    requires
        call_ensures(resource_kind, (content_type, url), r),
    ensures
        r@ == kind(str_view(content_type), url@),
        is_media_page(url@) ==> r@ == "media_page"@,
{
}

/// Two texts that differ only in white space around them are answered alike.
pub proof fn law_padded_requests_are_answered_alike(
    a: &str,
    b: &str,
    r: Result<Request, String>,
    s: Result<Request, String>,
)
    requires
        call_ensures(read_request, (a,), r),
        call_ensures(read_request, (b,), s),
        trimmed(a@) == trimmed(b@),
    ensures
        r is Ok <==> s is Ok,
        r matches Ok(x) ==> (s matches Ok(y) && x.url@ == trimmed(a@) && y.url@ == x.url@
            && y.location@ == x.location@ && parsed_url(trimmed(a@)) == Some(x.location@)),
        r matches Err(x) ==> (s matches Err(y) && x@ == y@),
{
}

} // verus!
