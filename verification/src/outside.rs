//! What the library takes from outside: URL parsing, percent-decoding, lossy
//! UTF-8 decoding, and what the platform says of paths.

use vstd::prelude::*;
use vstd::utf8::*;

use crate::location::{location_view, Location, LocationView};
use crate::text::{
    after_last, is_without, last_index, law_last_part_grows, law_parts_of_one, law_parts_of_two,
    lemma_first_index, lemma_last_index, parts, string_view,
};

verus! {

/// The parts of the URL that `reqwest::Url::parse` reads from a text, or
/// `None` where the text is no URL.
pub uninterp spec fn parsed_url(text: Seq<char>) -> Option<LocationView>;

/// `reqwest::Url::parse`, its result taken apart by `Url::as_str`,
/// `Url::scheme`, `Url::host_str` and `Url::path`. The contract claims only
/// that the parts are a function of the text.
#[verifier::external_body]
pub(crate) fn parse_url(text: &str) -> (r: Option<Location>)
    ensures
        location_view(r) == parsed_url(text@),
{
    reqwest::Url::parse(text).ok().map(
        |url| Location {
            text: url.as_str().to_string(),
            scheme: url.scheme().to_string(),
            host: url.host_str().map(|host| host.to_string()),
            path: url.path().to_string(),
        },
    )
}

/// The value of one hexadecimal digit in ASCII.
pub open spec fn hex_value(b: u8) -> Option<u8> {
    if 48 <= b <= 57 {
        Some((b - 48) as u8)
    } else if 65 <= b <= 70 {
        Some((b - 55) as u8)
    } else if 97 <= b <= 102 {
        Some((b - 87) as u8)
    } else {
        None
    }
}

/// `bytes` with each percent sign (37) that two hexadecimal digits follow
/// replaced, along with them, by the byte that they write.
pub open spec fn percent_decoded(bytes: Seq<u8>) -> Seq<u8>
    decreases bytes.len(),
{
    if bytes.len() == 0 {
        seq![]
    } else if bytes[0] == 37 && bytes.len() >= 3 && hex_value(bytes[1]) is Some && hex_value(
        bytes[2],
    ) is Some {
        seq![(hex_value(bytes[1])->0 * 16 + hex_value(bytes[2])->0) as u8] + percent_decoded(
            bytes.skip(3),
        )
    } else {
        seq![bytes[0]] + percent_decoded(bytes.skip(1))
    }
}

/// The text that `s` percent-encodes, or `None` where the decoded bytes are
/// not UTF-8.
pub open spec fn percent_text(s: Seq<char>) -> Option<Seq<char>> {
    let bytes = percent_decoded(encode_utf8(s));
    if valid_utf8(bytes) {
        Some(decode_utf8(bytes))
    } else {
        None
    }
}

/// `percent_encoding::percent_decode_str` and `PercentDecode::decode_utf8`:
/// percent triples are decoded, everything else is kept, and the bytes that
/// come out are read as UTF-8.
#[verifier::external_body]
pub(crate) fn decode_percent(text: &str) -> (r: Option<String>)
    ensures
        string_view(r) == percent_text(text@),
{
    percent_encoding::percent_decode_str(text).decode_utf8().ok().map(|text| text.to_string())
}

/// The text that `String::from_utf8_lossy` reads from bytes.
pub uninterp spec fn lossy_text(bytes: Seq<u8>) -> Seq<char>;

/// `String::from_utf8_lossy`: bytes that are UTF-8 are decoded. What stands in
/// for bytes that are not is left to the name.
#[verifier::external_body]
pub(crate) fn decode_lossy(bytes: &[u8]) -> (r: String)
    ensures
        r@ == lossy_text(bytes@),
        valid_utf8(bytes@) ==> r@ == decode_utf8(bytes@),
{
    String::from_utf8_lossy(bytes).to_string()
}

/// Whether `name` holds no separator of any platform and no drive mark, so
/// that every platform reads it as at most one path component.
pub open spec fn is_plain_name(name: Seq<char>) -> bool {
    forall|i: int|
        0 <= i < name.len() ==> #[trigger] name[i] != '/' && name[i] != '\\' && name[i] != ':'
}

/// The extension of a plain name: what follows its last dot, unless that dot
/// comes first or the name is `..`.
pub open spec fn name_extension(name: Seq<char>) -> Option<Seq<char>> {
    if name != ".."@ && last_index(name, '.') > 0 {
        Some(after_last(name, '.'))
    } else {
        None
    }
}

/// The stem of a plain name: the name without its extension and the dot before
/// it. The names that denote a directory have none.
pub open spec fn name_stem(name: Seq<char>) -> Option<Seq<char>> {
    if name.len() == 0 || name == "."@ || name == ".."@ {
        None
    } else if last_index(name, '.') > 0 {
        Some(name.take(last_index(name, '.')))
    } else {
        Some(name)
    }
}

/// Whether every platform reads `path` alike: its only separator is the slash,
/// it holds no drive mark, and it does not begin with two slashes, which on some
/// platforms stand before the name of a server.
pub open spec fn is_portable_path(path: Seq<char>) -> bool {
    &&& forall|i: int| 0 <= i < path.len() ==> #[trigger] path[i] != '\\' && path[i] != ':'
    &&& !(path.len() >= 2 && path[0] == '/' && path[1] == '/')
}

/// The file name that the components of a path end in: the last one that is
/// neither empty nor a single dot. Two dots are no file name.
pub open spec fn last_component(components: Seq<Seq<char>>) -> Option<Seq<char>>
    decreases components.len(),
{
    if components.len() == 0 || components.last() == ".."@ {
        None
    } else if components.last().len() == 0 || components.last() == "."@ {
        last_component(components.drop_last())
    } else {
        Some(components.last())
    }
}

/// The file name of a portable path.
pub open spec fn file_name(path: Seq<char>) -> Option<Seq<char>> {
    last_component(parts(path, '/'))
}

/// The extension of the file name of a portable path.
pub open spec fn file_extension(path: Seq<char>) -> Option<Seq<char>> {
    match file_name(path) {
        Some(name) => name_extension(name),
        None => None,
    }
}

/// The stem of the file name of a portable path.
pub open spec fn file_stem(path: Seq<char>) -> Option<Seq<char>> {
    match file_name(path) {
        Some(name) => name_stem(name),
        None => None,
    }
}

/// The components of a portable path: the root, or a single dot that it begins
/// with, then the names between its slashes. Empty names and further single dots
/// are none.
pub open spec fn path_components(path: Seq<char>) -> Seq<Seq<char>> {
    let names = parts(path, '/');
    let first = if path.len() > 0 && path[0] == '/' {
        seq!["/"@]
    } else if names[0] == "."@ {
        seq!["."@]
    } else {
        seq![]
    };
    first + names.filter(|name: Seq<char>| is_component(name))
}

/// Whether what stands between two slashes of a path is a component of it.
pub open spec fn is_component(name: Seq<char>) -> bool {
    name.len() > 0 && name != "."@
}

/// Whether a portable path lies in a folder, or is the folder: its components
/// begin with all those of the folder.
pub open spec fn lies_within(path: Seq<char>, folder: Seq<char>) -> bool {
    path_components(folder).is_prefix_of(path_components(path))
}

/// `std::path::Path::starts_with`, which compares whole components. On portable
/// paths the contract says what it is. What any other path parts into is up to
/// the platform, and nothing is claimed.
#[verifier::external_body]
fn path_starts_with(path: &str, folder: &str) -> (r: bool)
    ensures
        is_portable_path(path@) && is_portable_path(folder@) ==> r == lies_within(path@, folder@),
{
    std::path::Path::new(path).starts_with(folder)
}

/// Whether the platform, asked whether `path` begins with `folder`, can answer
/// `answer`: it is what [`std::path::Path::starts_with`] can give of them.
pub closed spec fn told_within(path: Seq<char>, folder: Seq<char>, answer: bool) -> bool {
    exists|p: &str, f: &str|
        p@ == path && f@ == folder && #[trigger] call_ensures(path_starts_with, (p, f), answer)
}

/// Whether `path` begins with `folder`, by what the platform says.
pub(crate) fn ask_within(path: &str, folder: &str) -> (r: bool)
    ensures
        told_within(path@, folder@, r),
{
    path_starts_with(path, folder)
}

/// Of portable paths every platform says what is the case.
pub proof fn law_told_within(path: Seq<char>, folder: Seq<char>, answer: bool)
    requires
        told_within(path, folder, answer),
        is_portable_path(path),
        is_portable_path(folder),
    ensures
        answer == lies_within(path, folder),
{
}

/// What is put into a folder lies within it.
pub proof fn law_content_lies_within(folder: Seq<char>, name: Seq<char>)
    requires
        folder.len() > 0,
    ensures
        lies_within(folder + seq!['/'] + name, folder),
{
    let whole = folder + seq!['/'] + name;
    let keep = |name: Seq<char>| is_component(name);
    law_parts_of_two(folder, '/', name);
    lemma_parts_are_some(folder);
    assert(whole[0] == folder[0]);
    assert(parts(whole, '/')[0] == parts(folder, '/')[0]);
    Seq::filter_distributes_over_add(parts(folder, '/'), parts(name, '/'), keep);
    let inner = path_components(folder);
    let outer = path_components(whole);
    assert(outer =~= inner + parts(name, '/').filter(keep));
    assert(outer.subrange(0, inner.len() as int) =~= inner);
}

/// Every text has at least one part.
proof fn lemma_parts_are_some(s: Seq<char>)
    ensures
        parts(s, '/').len() > 0,
{
}

/// A path whose name only begins like that of a folder does not lie within the
/// folder.
pub proof fn law_longer_name_lies_outside(folder: Seq<char>, tail: Seq<char>)
    requires
        tail.len() > 0,
        is_without(tail, '/'),
        is_component(parts(folder, '/').last()),
    ensures
        !lies_within(folder + tail, folder),
{
    let whole = folder + tail;
    let keep = |name: Seq<char>| is_component(name);
    let names = parts(folder, '/');
    let last = names.last();
    reveal_strlit(".");
    law_last_part_grows(folder, '/', tail);
    lemma_parts_are_some(folder);
    let grown = last + tail;
    assert(grown.len() > 1);
    assert(is_component(grown));
    assert(names =~= names.drop_last() + seq![last]);
    assert(parts(whole, '/') =~= names.drop_last() + seq![grown]);
    Seq::filter_distributes_over_add(names.drop_last(), seq![last], keep);
    Seq::filter_distributes_over_add(names.drop_last(), seq![grown], keep);
    lemma_filter_one(last);
    lemma_filter_one(grown);
    let inner = path_components(folder);
    let outer = path_components(whole);
    lemma_first_component(folder, tail);
    assert(inner.len() == outer.len());
    assert(inner.last() == last);
    assert(outer.last() == grown);
    if inner.is_prefix_of(outer) {
        assert(outer.subrange(0, inner.len() as int) =~= outer);
        assert(last == grown);
    }
}

/// One component is kept.
proof fn lemma_filter_one(name: Seq<char>)
    requires
        is_component(name),
    ensures
        seq![name].filter(|name: Seq<char>| is_component(name)) == seq![name],
{
    let keep = |name: Seq<char>| is_component(name);
    reveal_with_fuel(Seq::filter, 2);
    assert(seq![name].drop_last() =~= seq![]);
    assert(seq![name].filter(keep) =~= seq![name]);
}

/// A longer last component leaves how a path begins.
proof fn lemma_first_component(folder: Seq<char>, tail: Seq<char>)
    requires
        tail.len() > 0,
        is_without(tail, '/'),
        is_component(parts(folder, '/').last()),
    ensures
        folder.len() > 0,
        (folder + tail)[0] == folder[0],
        parts(folder + tail, '/')[0] == "."@ <==> parts(folder, '/')[0] == "."@,
{
    reveal_strlit(".");
    let names = parts(folder, '/');
    law_last_part_grows(folder, '/', tail);
    lemma_first_index(folder, '/');
    if folder.len() == 0 {
        assert(names =~= seq![folder]);
    }
    if names.len() == 1 {
        assert(parts(folder + tail, '/')[0] == names.last() + tail);
        assert((names.last() + tail).len() > 1);
    } else {
        assert(parts(folder + tail, '/')[0] == names[0]);
    }
}

/// A plain name is a portable path, with the extension and the stem that the
/// name has.
pub proof fn law_plain_name_is_portable(name: Seq<char>)
    requires
        is_plain_name(name),
    ensures
        is_portable_path(name),
        file_extension(name) == name_extension(name),
        file_stem(name) == name_stem(name),
{
    reveal_strlit(".");
    reveal_strlit("..");
    assert(is_without(name, '/'));
    law_parts_of_one(name, '/');
    assert(parts(name, '/').drop_last() =~= seq![]);
    reveal_with_fuel(last_component, 2);
    lemma_last_index(name, '.');
    if name == "."@ {
        assert(name.last() == '.');
    }
}

/// `std::path::Path::extension`. On a portable path the contract says what it
/// is. What any other path parts into is up to the platform, and nothing is
/// claimed.
#[verifier::external_body]
fn path_extension(name: &str) -> (r: Option<String>)
    ensures
        is_portable_path(name@) ==> string_view(r) == file_extension(name@),
{
    std::path::Path::new(name).extension().and_then(|part| part.to_str()).map(
        |part| part.to_string(),
    )
}

/// Whether the platform, asked for the extension of `path`, can answer
/// `extension`: it is what [`std::path::Path::extension`] can give of it.
pub closed spec fn told_extension(path: Seq<char>, extension: Option<Seq<char>>) -> bool {
    exists|p: &str, answer: Option<String>|
        p@ == path && string_view(answer) == extension && #[trigger] call_ensures(
            path_extension,
            (p,),
            answer,
        )
}

/// The extension of `path`, by what the platform says.
pub(crate) fn ask_extension(path: &str) -> (r: Option<String>)
    ensures
        told_extension(path@, string_view(r)),
{
    path_extension(path)
}

/// Of a portable path every platform says the extension that it has.
pub proof fn law_told_extension(path: Seq<char>, extension: Option<Seq<char>>)
    requires
        told_extension(path, extension),
        is_portable_path(path),
    ensures
        extension == file_extension(path),
{
}

/// `std::path::Path::file_stem`. On a portable path the contract says what it
/// is. What any other path parts into is up to the platform, and nothing is
/// claimed.
#[verifier::external_body]
fn path_stem(name: &str) -> (r: Option<String>)
    ensures
        is_portable_path(name@) ==> string_view(r) == file_stem(name@),
{
    std::path::Path::new(name).file_stem().and_then(|part| part.to_str()).map(
        |part| part.to_string(),
    )
}

/// Whether the platform, asked for the stem of `path`, can answer `stem`: it is
/// what [`std::path::Path::file_stem`] can give of it.
pub closed spec fn told_stem(path: Seq<char>, stem: Option<Seq<char>>) -> bool {
    exists|p: &str, answer: Option<String>|
        p@ == path && string_view(answer) == stem && #[trigger] call_ensures(
            path_stem,
            (p,),
            answer,
        )
}

/// The stem of `path`, by what the platform says.
pub(crate) fn ask_stem(path: &str) -> (r: Option<String>)
    ensures
        told_stem(path@, string_view(r)),
{
    path_stem(path)
}

/// Of a portable path every platform says the stem that it has.
pub proof fn law_told_stem(path: Seq<char>, stem: Option<Seq<char>>)
    requires
        told_stem(path, stem),
        is_portable_path(path),
    ensures
        stem == file_stem(path),
{
}

} // verus!
