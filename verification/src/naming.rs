//! The name under which a download is stored: read from the response, given
//! an extension, and made different from what is there already.

use vstd::prelude::*;
use vstd::string::*;

use crate::filename::{
    is_clear, is_forbidden, is_safe_name, law_sanitized_is_safe, sanitize_filename, sanitized,
};
use crate::location::{media_type, read_media_type};
use crate::number::{decimal, law_decimal_injective, write_number};
use crate::outside::{
    ask_extension, ask_stem, decode_percent, file_extension, file_name, file_stem,
    is_portable_path, law_told_extension, law_told_stem, name_extension, parse_url, parsed_url,
    percent_text, told_extension, told_stem,
};
use crate::text::{
    after_prefix, before_first, first_index, last_index, law_last_part_grows,
    lemma_first_index, lemma_last_index, parts, same, split, str_view, string_view, strip, stripped,
    trim, trimmed, CharClass,
};

verus! {

/// The extension of files of a media type.
pub open spec fn type_extension(media_type: Seq<char>) -> Option<Seq<char>> {
    if media_type == "image/jpeg"@ {
        Some("jpg"@)
    } else if media_type == "image/png"@ {
        Some("png"@)
    } else if media_type == "image/gif"@ {
        Some("gif"@)
    } else if media_type == "image/webp"@ {
        Some("webp"@)
    } else if media_type == "image/svg+xml"@ {
        Some("svg"@)
    } else if media_type == "video/mp4"@ {
        Some("mp4"@)
    } else if media_type == "video/webm"@ {
        Some("webm"@)
    } else if media_type == "video/quicktime"@ {
        Some("mov"@)
    } else if media_type == "video/x-matroska"@ {
        Some("mkv"@)
    } else if media_type == "audio/mpeg"@ {
        Some("mp3"@)
    } else if media_type == "audio/mp4"@ {
        Some("m4a"@)
    } else if media_type == "audio/wav"@ {
        Some("wav"@)
    } else if media_type == "audio/ogg"@ {
        Some("ogg"@)
    } else if media_type == "application/pdf"@ {
        Some("pdf"@)
    } else if media_type == "application/zip"@ {
        Some("zip"@)
    } else if media_type == "application/gzip"@ {
        Some("gz"@)
    } else if media_type == "application/x-rar-compressed"@ {
        Some("rar"@)
    } else if media_type == "application/json"@ {
        Some("json"@)
    } else if media_type == "text/plain"@ {
        Some("txt"@)
    } else {
        None
    }
}

/// The extension of files of the media type that a `Content-Type` value
/// declares, where that type is known.
pub fn extension_for_content_type(value: &str) -> (r: Option<&'static str>)
    ensures
        str_view(r) == type_extension(media_type(value@)),
{
    let declared = read_media_type(value);
    let kind = declared.as_str();
    if same(kind, "image/jpeg") {
        Some("jpg")
    } else if same(kind, "image/png") {
        Some("png")
    } else if same(kind, "image/gif") {
        Some("gif")
    } else if same(kind, "image/webp") {
        Some("webp")
    } else if same(kind, "image/svg+xml") {
        Some("svg")
    } else if same(kind, "video/mp4") {
        Some("mp4")
    } else if same(kind, "video/webm") {
        Some("webm")
    } else if same(kind, "video/quicktime") {
        Some("mov")
    } else if same(kind, "video/x-matroska") {
        Some("mkv")
    } else if same(kind, "audio/mpeg") {
        Some("mp3")
    } else if same(kind, "audio/mp4") {
        Some("m4a")
    } else if same(kind, "audio/wav") {
        Some("wav")
    } else if same(kind, "audio/ogg") {
        Some("ogg")
    } else if same(kind, "application/pdf") {
        Some("pdf")
    } else if same(kind, "application/zip") {
        Some("zip")
    } else if same(kind, "application/gzip") {
        Some("gz")
    } else if same(kind, "application/x-rar-compressed") {
        Some("rar")
    } else if same(kind, "application/json") {
        Some("json")
    } else if same(kind, "text/plain") {
        Some("txt")
    } else {
        None
    }
}

/// `name`, with the extension for `content_type` added where it has none and
/// the type is known.
pub open spec fn extended(name: Seq<char>, has_extension: bool, content_type: Seq<char>) -> Seq<
    char,
> {
    match type_extension(media_type(content_type)) {
        Some(extension) if !has_extension => name + "."@ + extension,
        _ => name,
    }
}

/// Adds the extension for `content_type` to a name without one.
pub fn extend_name(filename: String, has_extension: bool, content_type: &str) -> (r: String)
    ensures
        r@ == extended(filename@, has_extension, content_type@),
{
    if has_extension {
        return filename;
    }
    match extension_for_content_type(content_type) {
        Some(extension) => {
            let mut r = filename;
            r.append(".");
            r.append(extension);
            r
        },
        None => filename,
    }
}

/// Gives `filename` the extension for `content_type`, unless it has one or the
/// type is not known. Whether a name that is no portable path has an extension
/// is as the platform says.
pub fn ensure_extension(filename: String, content_type: &str) -> (r: String)
    ensures
        is_portable_path(filename@) ==> r@ == extended(
            filename@,
            file_extension(filename@) is Some,
            content_type@,
        ),
        exists|extension: Option<Seq<char>>| #[trigger]
            told_extension(filename@, extension) && r@ == extended(
                filename@,
                extension is Some,
                content_type@,
            ),
{
    let extension = ask_extension(filename.as_str());
    proof {
        if is_portable_path(filename@) {
            law_told_extension(filename@, string_view(extension));
        }
    }
    extend_name(filename, extension.is_some(), content_type)
}

/// The last of `segments` that is not empty.
pub open spec fn last_filled(segments: Seq<Seq<char>>) -> Option<Seq<char>>
    decreases segments.len(),
{
    if segments.len() == 0 {
        None
    } else if segments.last().len() > 0 {
        Some(segments.last())
    } else {
        last_filled(segments.drop_last())
    }
}

/// The segments of the path of a URL. A path that does not begin with a slash
/// has none.
pub open spec fn path_segments(path: Seq<char>) -> Seq<Seq<char>> {
    if path.len() > 0 && path[0] == '/' {
        parts(path.skip(1), '/')
    } else {
        seq![]
    }
}

/// The file name in the path of a URL: its last segment that is not empty,
/// percent-decoded and made safe, unless that leaves only the stand-in name.
pub open spec fn path_name(path: Seq<char>) -> Option<Seq<char>> {
    match last_filled(path_segments(path)) {
        None => None,
        Some(segment) => match percent_text(segment) {
            None => None,
            Some(name) => if sanitized(name) == "download"@ {
                None
            } else {
                Some(sanitized(name))
            },
        },
    }
}

/// The last of the segments of `path` that is not empty.
fn last_segment(path: &str) -> (r: Option<String>)
    ensures
        string_view(r) == last_filled(path_segments(path@)),
{
    proof {
        reveal_strlit("/");
    }
    match after_prefix(path, "/") {
        None => {
            assert(path@.len() == 0 || path@[0] != '/') by {
                if path@.len() > 0 && path@[0] == '/' {
                    assert(path@.subrange(0, 1) =~= "/"@);
                }
            }
            None
        },
        Some(rest) => {
            let segments = split(rest, '/');
            let ghost all = parts(rest@, '/');
            assert(path@.subrange(0, 1)[0] == path@[0]);
            assert(all == path_segments(path@));
            let mut n: usize = segments.len();
            assert(all.take(n as int) =~= all);
            while n > 0
                invariant
                    n <= segments@.len(),
                    all == path_segments(path@),
                    segments@.len() == all.len(),
                    forall|i: int| 0 <= i < segments@.len() ==> (#[trigger] segments@[i])@ == all[i],
                    last_filled(all.take(n as int)) == last_filled(all),
                decreases n,
            {
                assert(all.take(n as int).drop_last() =~= all.take(n - 1));
                let segment = segments[n - 1];
                if !segment.is_empty() {
                    return Some(segment.to_owned());
                }
                n = n - 1;
            }
            None
        },
    }
}

/// The file name in the path of a URL, if there is a usable one.
pub fn filename_from_path(path: &str) -> (r: Option<String>)
    ensures
        string_view(r) == path_name(path@),
{
    let segment = match last_segment(path) {
        Some(segment) => segment,
        None => {
            return None;
        },
    };
    let decoded = match decode_percent(segment.as_str()) {
        Some(decoded) => decoded,
        None => {
            return None;
        },
    };
    let name = sanitize_filename(decoded.as_str());
    if same(name.as_str(), "download") {
        None
    } else {
        Some(name)
    }
}

/// The file name in a URL, given the path that the URL was parsed to.
pub open spec fn url_name(url: Seq<char>) -> Option<Seq<char>> {
    match parsed_url(url) {
        None => None,
        Some(location) => path_name(location.path),
    }
}

/// The file name in a URL, if it is one and holds a usable name.
pub fn filename_from_url(url: &str) -> (r: Option<String>)
    ensures
        string_view(r) == url_name(url@),
{
    match parse_url(url) {
        Some(location) => filename_from_path(location.path.as_str()),
        None => None,
    }
}

/// The file name that the parameters of a `Content-Disposition` value give:
/// the first parameter with a name that is not empty decides. An extended
/// parameter that does not decode to UTF-8 ends the search.
pub open spec fn parameter_name(parameters: Seq<Seq<char>>) -> Option<Seq<char>>
    decreases parameters.len(),
{
    if parameters.len() == 0 {
        None
    } else {
        let parameter = trimmed(parameters[0]);
        if "filename*=UTF-8''"@.is_prefix_of(parameter) {
            match percent_text(parameter.skip("filename*=UTF-8''"@.len() as int)) {
                None => None,
                Some(name) => if name.len() > 0 {
                    Some(sanitized(name))
                } else {
                    parameter_name(parameters.drop_first())
                },
            }
        } else if "filename="@.is_prefix_of(parameter) {
            let name = stripped(
                trimmed(parameter.skip("filename="@.len() as int)),
                CharClass::Only('"'),
            );
            if name.len() > 0 {
                Some(sanitized(name))
            } else {
                parameter_name(parameters.drop_first())
            }
        } else {
            parameter_name(parameters.drop_first())
        }
    }
}

/// The file name that a `Content-Disposition` value gives. Its first part is
/// the disposition itself, the others are parameters.
pub open spec fn disposition_name(value: Seq<char>) -> Option<Seq<char>> {
    parameter_name(parts(value, ';').drop_first())
}

/// The file name that a `Content-Disposition` value gives, if it gives one.
pub fn filename_from_content_disposition(value: &str) -> (r: Option<String>)
    ensures
        string_view(r) == disposition_name(value@),
{
    let pieces = split(value, ';');
    let ghost all = parts(value@, ';');
    assert(all.skip(1) =~= all.drop_first());
    for i in 1..pieces.len()
        invariant
            pieces@.len() == all.len(),
            all.len() > 0,
            forall|j: int| 0 <= j < pieces@.len() ==> (#[trigger] pieces@[j])@ == all[j],
            parameter_name(all.skip(i as int)) == disposition_name(value@),
    {
        let parameter = trim(pieces[i]);
        assert(all.skip(i as int).drop_first() =~= all.skip(i + 1));
        assert(parameter@ == trimmed(all.skip(i as int)[0]));
        if let Some(encoded) = after_prefix(parameter, "filename*=UTF-8''") {
            match decode_percent(encoded) {
                None => {
                    return None;
                },
                Some(name) => {
                    if !name.as_str().is_empty() {
                        return Some(sanitize_filename(name.as_str()));
                    }
                },
            }
        } else if let Some(quoted) = after_prefix(parameter, "filename=") {
            let name = strip(trim(quoted), CharClass::Only('"'));
            if !name.is_empty() {
                return Some(sanitize_filename(name));
            }
        }
    }
    None
}

/// The file name of a response: that of its `Content-Disposition`, else that
/// of its URL.
pub open spec fn response_name(disposition: Option<Seq<char>>, url: Seq<char>) -> Option<
    Seq<char>,
> {
    match disposition {
        Some(value) if disposition_name(value) is Some => disposition_name(value),
        _ => url_name(url),
    }
}

/// The file name of a response, from its `Content-Disposition` and its URL.
pub fn filename_from_response(content_disposition: Option<&str>, url: &str) -> (r: Option<String>)
    ensures
        string_view(r) == response_name(str_view(content_disposition), url@),
{
    if let Some(value) = content_disposition {
        if let Some(name) = filename_from_content_disposition(value) {
            return Some(name);
        }
    }
    filename_from_url(url)
}

/// The file name of a response is safe, whatever the server sent.
pub proof fn law_response_name_is_safe(disposition: Option<Seq<char>>, url: Seq<char>)
    ensures
        response_name(disposition, url) matches Some(name) ==> is_safe_name(name),
{
    if let Some(value) = disposition {
        lemma_parameter_name_is_safe(parts(value, ';').drop_first());
    }
    if let Some(location) = parsed_url(url) {
        if let Some(segment) = last_filled(path_segments(location.path)) {
            if let Some(name) = percent_text(segment) {
                law_sanitized_is_safe(name);
            }
        }
    }
}

proof fn lemma_parameter_name_is_safe(parameters: Seq<Seq<char>>)
    ensures
        parameter_name(parameters) matches Some(name) ==> is_safe_name(name),
    decreases parameters.len(),
{
    if parameters.len() > 0 {
        lemma_parameter_name_is_safe(parameters.drop_first());
        let parameter = trimmed(parameters[0]);
        if let Some(name) = percent_text(parameter.skip("filename*=UTF-8''"@.len() as int)) {
            law_sanitized_is_safe(name);
        }
        law_sanitized_is_safe(
            stripped(trimmed(parameter.skip("filename="@.len() as int)), CharClass::Only('"')),
        );
    }
}

/// How many names are tried before the fixed one.
pub const LAST_CANDIDATE: u64 = 10000;

/// The `k`th name to try: the file's own, then the stem with a number in
/// brackets, and in the end a fixed one.
pub open spec fn candidate(
    filename: Seq<char>,
    stem: Seq<char>,
    extension: Option<Seq<char>>,
    k: int,
) -> Seq<char> {
    if k == 0 {
        filename
    } else if k < LAST_CANDIDATE {
        let numbered = stem + " ("@ + decimal(k as nat) + ")"@;
        match extension {
            Some(extension) => numbered + "."@ + extension,
            None => numbered,
        }
    } else {
        "download.bin"@
    }
}

/// Whether `probe` was able to give `answer` of the name `name`.
pub open spec fn answered<F: Fn(&str) -> bool>(probe: F, name: Seq<char>, answer: bool) -> bool {
    exists|n: &str| n@ == name && #[trigger] call_ensures(probe, (n,), answer)
}

/// Whether `name` is the first candidate that `taken` called free: every one
/// before it was called taken. The fixed last one is not asked for.
pub open spec fn is_first_free<F: Fn(&str) -> bool>(
    taken: F,
    filename: Seq<char>,
    stem: Seq<char>,
    extension: Option<Seq<char>>,
    name: Seq<char>,
) -> bool {
    exists|k: int|
        {
            &&& 0 <= k <= LAST_CANDIDATE
            &&& name == #[trigger] candidate(filename, stem, extension, k)
            &&& k < LAST_CANDIDATE ==> answered(taken, name, false)
            &&& forall|j: int|
                0 <= j < k ==> answered(
                    taken,
                    #[trigger] candidate(filename, stem, extension, j),
                    true,
                )
        }
}

/// The `k`th name to try.
fn write_candidate(filename: &str, stem: &str, extension: Option<&str>, k: u64) -> (r: String)
    ensures
        r@ == candidate(filename@, stem@, str_view(extension), k as int),
{
    if k == 0 {
        filename.to_owned()
    } else if k < LAST_CANDIDATE {
        let mut r = stem.to_owned();
        r.append(" (");
        r.append(write_number(k).as_str());
        r.append(")");
        if let Some(extension) = extension {
            r.append(".");
            r.append(extension);
        }
        r
    } else {
        "download.bin".to_owned()
    }
}

/// The first candidate for a file with the given stem and extension that is
/// not taken.
pub fn available_name<F: Fn(&str) -> bool>(
    filename: &str,
    stem: &str,
    extension: Option<&str>,
    taken: F,
) -> (r: String)
    requires
        forall|name: &str| call_requires(taken, (name,)),
    ensures
        is_first_free(taken, filename@, stem@, str_view(extension), r@),
{
    let mut k: u64 = 0;
    while k < LAST_CANDIDATE
        invariant
            k <= LAST_CANDIDATE,
            forall|name: &str| call_requires(taken, (name,)),
            forall|j: int|
                0 <= j < k ==> answered(
                    taken,
                    #[trigger] candidate(filename@, stem@, str_view(extension), j),
                    true,
                ),
        decreases LAST_CANDIDATE - k,
    {
        let name = write_candidate(filename, stem, extension, k);
        if !taken(name.as_str()) {
            return name;
        }
        k = k + 1;
    }
    write_candidate(filename, stem, extension, k)
}

/// The stem that numbered names are made of.
pub open spec fn numbered_stem(stem: Option<Seq<char>>) -> Seq<char> {
    match stem {
        Some(stem) => stem,
        None => "download"@,
    }
}

/// The first name for `filename` that is not taken: the name itself, then the
/// name with a number before its extension, and in the end `download.bin`. How
/// a name that is no portable path parts into stem and extension is as the
/// platform says.
pub fn available_path<F: Fn(&str) -> bool>(filename: &str, taken: F) -> (r: String)
    requires
        forall|name: &str| call_requires(taken, (name,)),
    ensures
        is_portable_path(filename@) ==> is_first_free(
            taken,
            filename@,
            numbered_stem(file_stem(filename@)),
            file_extension(filename@),
            r@,
        ),
        exists|stem: Option<Seq<char>>, extension: Option<Seq<char>>| #[trigger]
            told_stem(filename@, stem) && #[trigger] told_extension(filename@, extension)
                && is_first_free(taken, filename@, numbered_stem(stem), extension, r@),
{
    let told = ask_stem(filename);
    let extension = ask_extension(filename);
    proof {
        if is_portable_path(filename@) {
            law_told_stem(filename@, string_view(told));
            law_told_extension(filename@, string_view(extension));
        }
    }
    let ghost told_view = string_view(told);
    let stem = match told {
        Some(stem) => stem,
        None => "download".to_owned(),
    };
    assert(stem@ == numbered_stem(told_view));
    match &extension {
        Some(extension) => available_name(filename, stem.as_str(), Some(extension.as_str()), taken),
        None => available_name(filename, stem.as_str(), None, taken),
    }
}

/// Whether `s` holds no dot.
pub open spec fn is_dotless(s: Seq<char>) -> bool {
    forall|i: int| 0 <= i < s.len() ==> #[trigger] s[i] != '.'
}

/// The extensions of known media types are safe names without a dot.
proof fn lemma_type_extension(media_type: Seq<char>)
    ensures
        type_extension(media_type) matches Some(extension) ==> extension.len() > 0 && is_dotless(
            extension,
        ) && is_clear(extension),
{
    reveal_strlit("jpg");
    reveal_strlit("png");
    reveal_strlit("gif");
    reveal_strlit("webp");
    reveal_strlit("svg");
    reveal_strlit("mp4");
    reveal_strlit("webm");
    reveal_strlit("mov");
    reveal_strlit("mkv");
    reveal_strlit("mp3");
    reveal_strlit("m4a");
    reveal_strlit("wav");
    reveal_strlit("ogg");
    reveal_strlit("pdf");
    reveal_strlit("zip");
    reveal_strlit("gz");
    reveal_strlit("rar");
    reveal_strlit("json");
    reveal_strlit("txt");
}

/// A name with a dot and a dotless extension behind it has that extension.
proof fn lemma_suffixed_extension(name: Seq<char>, extension: Seq<char>)
    requires
        name.len() > 0,
        extension.len() > 0,
        is_dotless(extension),
    ensures
        name_extension(name + "."@ + extension) == Some(extension),
{
    reveal_strlit(".");
    reveal_strlit("..");
    let whole = name + "."@ + extension;
    lemma_last_index(whole, '.');
    assert(whole[name.len() as int] == '.');
    let last = last_index(whole, '.');
    if last > name.len() {
        assert(whole[last] == extension[last - name.len() - 1]);
    }
    assert(whole.skip(last + 1) =~= extension);
    assert(whole.last() == extension.last());
}

/// A name that has an extension is left alone, and a name that was given one
/// has it: giving an extension twice is giving it once. A name that is empty or
/// ends in a slash has no file name to extend.
pub proof fn law_extension_is_given_once(name: Seq<char>, content_type: Seq<char>)
    requires
        name.len() > 0,
        name.last() != '/',
    ensures
        ({
            let once = extended(name, file_extension(name) is Some, content_type);
            &&& file_extension(name) is Some ==> once == name
            &&& type_extension(media_type(content_type)) is Some ==> file_extension(once) is Some
            &&& extended(once, file_extension(once) is Some, content_type) == once
        }),
{
    lemma_type_extension(media_type(content_type));
    if let Some(extension) = type_extension(media_type(content_type)) {
        reveal_strlit(".");
        reveal_strlit("..");
        let tail = "."@ + extension;
        assert forall|i: int| 0 <= i < tail.len() implies #[trigger] tail[i] != '/' by {
            if i > 0 {
                assert(tail[i] == extension[i - 1]);
                assert(!is_forbidden(extension[i - 1]));
            }
        }
        law_last_part_grows(name, '/', tail);
        let last = parts(name, '/').last();
        assert(name + "."@ + extension =~= name + tail);
        assert(last + "."@ + extension =~= last + tail);
        lemma_suffixed_extension(last, extension);
        assert((last + tail).last() == extension.last());
        assert(parts(name + tail, '/').last() == last + tail);
        assert(file_name(name + tail) == Some(last + tail));
    }
}

/// A safe name stays safe when it is given an extension.
pub proof fn law_extended_name_is_safe(
    name: Seq<char>,
    has_extension: bool,
    content_type: Seq<char>,
)
    requires
        is_safe_name(name),
    ensures
        is_safe_name(extended(name, has_extension, content_type)),
{
    lemma_type_extension(media_type(content_type));
    if let Some(extension) = type_extension(media_type(content_type)) {
        if !has_extension {
            lemma_suffixed_is_safe(name, extension);
        }
    }
}

/// A safe name with a dot and a clear, dotless extension behind it is safe.
proof fn lemma_suffixed_is_safe(name: Seq<char>, extension: Seq<char>)
    requires
        is_safe_name(name),
        extension.len() > 0,
        is_dotless(extension),
        is_clear(extension),
    ensures
        is_safe_name(name + "."@ + extension),
{
    reveal_strlit(".");
    let whole = name + "."@ + extension;
    assert forall|i: int| 0 <= i < whole.len() implies !is_forbidden(#[trigger] whole[i]) by {
        if i < name.len() {
            assert(whole[i] == name[i]);
        } else if i > name.len() {
            assert(whole[i] == extension[i - name.len() - 1]);
        }
    }
    assert(whole.last() == extension.last());
    lemma_first_index(name, '.');
    lemma_first_index(whole, '.');
    assert(whole[name.len() as int] == '.');
    assert(first_index(whole, '.') == first_index(name, '.')) by {
        let i = first_index(whole, '.');
        let j = first_index(name, '.');
        if i < j {
            assert(whole[i] == name[i]);
        }
        if j < i {
            assert(j < name.len() ==> whole[j] == name[j]);
        }
    }
    assert(before_first(whole, '.') =~= before_first(name, '.'));
}

/// The numbered candidates all differ.
pub proof fn law_numbered_candidates_differ(
    filename: Seq<char>,
    stem: Seq<char>,
    extension: Option<Seq<char>>,
    j: int,
    k: int,
)
    requires
        1 <= j < k < LAST_CANDIDATE,
    ensures
        candidate(filename, stem, extension, j) != candidate(filename, stem, extension, k),
{
    let a = candidate(filename, stem, extension, j);
    let b = candidate(filename, stem, extension, k);
    let head = stem + " ("@;
    let tail = match extension {
        Some(extension) => ")"@ + "."@ + extension,
        None => ")"@,
    };
    assert(a =~= head + decimal(j as nat) + tail);
    assert(b =~= head + decimal(k as nat) + tail);
    if a == b {
        let n = head.len() as int;
        assert(decimal(j as nat) =~= a.subrange(n, a.len() - tail.len()));
        assert(decimal(k as nat) =~= b.subrange(n, b.len() - tail.len()));
        law_decimal_injective(j as nat, k as nat);
    }
}

/// Where it is settled which names are taken, the name that is found is not,
/// unless every candidate but the fixed last one is.
pub proof fn law_available_name_is_free<F: Fn(&str) -> bool>(
    taken: F,
    is_taken: spec_fn(Seq<char>) -> bool,
    filename: Seq<char>,
    stem: Seq<char>,
    extension: Option<Seq<char>>,
    name: Seq<char>,
)
    requires
        is_first_free(taken, filename, stem, extension, name),
        forall|n: Seq<char>, answer: bool| #[trigger]
            answered(taken, n, answer) ==> answer == is_taken(n),
    ensures
        !is_taken(name) || name == "download.bin"@ && forall|k: int|
            0 <= k < LAST_CANDIDATE ==> is_taken(
                #[trigger] candidate(filename, stem, extension, k),
            ),
        !is_taken(filename) ==> name == filename,
{
    let k = choose|k: int|
        {
            &&& 0 <= k <= LAST_CANDIDATE
            &&& name == #[trigger] candidate(filename, stem, extension, k)
            &&& k < LAST_CANDIDATE ==> answered(taken, name, false)
            &&& forall|j: int|
                0 <= j < k ==> answered(
                    taken,
                    #[trigger] candidate(filename, stem, extension, j),
                    true,
                )
        };
    assert(candidate(filename, stem, extension, 0) == filename);
    if k > 0 {
        assert(answered(taken, candidate(filename, stem, extension, 0), true));
    }
}

} // verus!
