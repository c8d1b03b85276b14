//! What names of downloads come to, said of the texts themselves.

use vstd::prelude::*;
use vstd::utf8::*;

use crate::filename::{
    is_forbidden, is_safe_name, law_safe_name_is_kept, sanitized,
};
use crate::location::media_type;
use crate::location_laws::{declares, law_declared_type_is_read};
use crate::naming::{
    answered, candidate, disposition_name, ensure_extension, extended, extension_for_content_type,
    filename_from_content_disposition, filename_from_response, filename_from_url, is_first_free,
    last_filled, numbered_stem, parameter_name, path_name, response_name, type_extension,
};
use crate::number::decimal;
use crate::outside::{
    file_extension, is_portable_path, name_extension, name_stem, parsed_url, percent_decoded,
    percent_text,
};
use crate::text::{
    is_white, is_without, last_index, law_parts_of_joined, law_parts_of_one, law_parts_of_two,
    lemma_last_index, lower, parts, str_view, string_view, trimmed, CharClass,
};
use crate::text_laws::{
    is_all, is_blank, law_stripped_of_wrapped, law_trimmed_of_wrapped,
};

verus! {

/// Whether files of the media type `m` have the extension `e`.
pub open spec fn is_type_of(m: Seq<char>, e: Seq<char>) -> bool {
    ||| m == "image/jpeg"@ && e == "jpg"@
    ||| m == "image/png"@ && e == "png"@
    ||| m == "image/gif"@ && e == "gif"@
    ||| m == "image/webp"@ && e == "webp"@
    ||| m == "image/svg+xml"@ && e == "svg"@
    ||| m == "video/mp4"@ && e == "mp4"@
    ||| m == "video/webm"@ && e == "webm"@
    ||| m == "video/quicktime"@ && e == "mov"@
    ||| m == "video/x-matroska"@ && e == "mkv"@
    ||| m == "audio/mpeg"@ && e == "mp3"@
    ||| m == "audio/mp4"@ && e == "m4a"@
    ||| m == "audio/wav"@ && e == "wav"@
    ||| m == "audio/ogg"@ && e == "ogg"@
    ||| m == "application/pdf"@ && e == "pdf"@
    ||| m == "application/zip"@ && e == "zip"@
    ||| m == "application/gzip"@ && e == "gz"@
    ||| m == "application/x-rar-compressed"@ && e == "rar"@
    ||| m == "application/json"@ && e == "json"@
    ||| m == "text/plain"@ && e == "txt"@
}

/// The types are told apart.
pub proof fn lemma_types_differ(m: Seq<char>, e: Seq<char>)
    requires
        is_type_of(m, e),
    ensures
        type_extension(m) == Some(e),
{
    reveal_strlit("image/jpeg");
    reveal_strlit("image/png");
    reveal_strlit("image/gif");
    reveal_strlit("image/webp");
    reveal_strlit("image/svg+xml");
    reveal_strlit("video/mp4");
    reveal_strlit("video/webm");
    reveal_strlit("video/quicktime");
    reveal_strlit("video/x-matroska");
    reveal_strlit("audio/mpeg");
    reveal_strlit("audio/mp4");
    reveal_strlit("audio/wav");
    reveal_strlit("audio/ogg");
    reveal_strlit("application/pdf");
    reveal_strlit("application/zip");
    reveal_strlit("application/gzip");
    reveal_strlit("application/x-rar-compressed");
    reveal_strlit("application/json");
    reveal_strlit("text/plain");
    assert("image/jpeg"@.len() == 10 && "image/jpeg"@[0] == 'i' && "image/jpeg"@[6] == 'j');
    assert("image/png"@.len() == 9 && "image/png"@[0] == 'i' && "image/png"@[6] == 'p');
    assert("image/gif"@.len() == 9 && "image/gif"@[0] == 'i' && "image/gif"@[6] == 'g');
    assert("image/webp"@.len() == 10 && "image/webp"@[0] == 'i' && "image/webp"@[6] == 'w');
    assert("image/svg+xml"@.len() == 13);
    assert("image/svg+xml"@[0] == 'i' && "image/svg+xml"@[6] == 's' && "image/svg+xml"@[12] == 'l');
    assert("video/mp4"@.len() == 9 && "video/mp4"@[0] == 'v' && "video/mp4"@[6] == 'm');
    assert("video/webm"@.len() == 10 && "video/webm"@[0] == 'v' && "video/webm"@[6] == 'w');
    assert("video/quicktime"@.len() == 15);
    assert("video/quicktime"@[0] == 'v' && "video/quicktime"@[6] == 'q' && "video/quicktime"@[12] == 'i');
    assert("video/x-matroska"@.len() == 16);
    assert("video/x-matroska"@[0] == 'v' && "video/x-matroska"@[6] == 'x' && "video/x-matroska"@[12] == 'o');
    assert("audio/mpeg"@.len() == 10 && "audio/mpeg"@[0] == 'a' && "audio/mpeg"@[6] == 'm');
    assert("audio/mp4"@.len() == 9 && "audio/mp4"@[0] == 'a' && "audio/mp4"@[6] == 'm');
    assert("audio/wav"@.len() == 9 && "audio/wav"@[0] == 'a' && "audio/wav"@[6] == 'w');
    assert("audio/ogg"@.len() == 9 && "audio/ogg"@[0] == 'a' && "audio/ogg"@[6] == 'o');
    assert("application/pdf"@.len() == 15);
    assert("application/pdf"@[0] == 'a' && "application/pdf"@[6] == 'a' && "application/pdf"@[12] == 'p');
    assert("application/zip"@.len() == 15);
    assert("application/zip"@[0] == 'a' && "application/zip"@[6] == 'a' && "application/zip"@[12] == 'z');
    assert("application/gzip"@.len() == 16);
    assert("application/gzip"@[0] == 'a' && "application/gzip"@[6] == 'a' && "application/gzip"@[12] == 'g');
    assert("application/x-rar-compressed"@.len() == 28);
    assert("application/x-rar-compressed"@[0] == 'a' && "application/x-rar-compressed"@[6] == 'a' && "application/x-rar-compressed"@[12] == 'x');
    assert("application/json"@.len() == 16);
    assert("application/json"@[0] == 'a' && "application/json"@[6] == 'a' && "application/json"@[12] == 'j');
    assert("text/plain"@.len() == 10 && "text/plain"@[0] == 't' && "text/plain"@[6] == 'l');
}

/// A declared type, in any case and with any parameters, gives a file the
/// extension that belongs to it, and no other type gives one.
pub proof fn law_extension_of_declared_type(value: &str, t: Seq<char>, r: Option<&'static str>)
    requires
        call_ensures(extension_for_content_type, (value,), r),
        declares(value@, t),
    ensures
        forall|e: Seq<char>| str_view(r) == Some(e) <==> #[trigger] is_type_of(lower(t), e),
{
    law_declared_type_is_read(value@, t);
    assert forall|e: Seq<char>| str_view(r) == Some(e) <==> #[trigger] is_type_of(
        lower(t),
        e,
    ) by {
        if is_type_of(lower(t), e) {
            lemma_types_differ(lower(t), e);
        }
    }
}

/// A name without an extension gets that of the declared type behind a dot, and
/// stays as it is where the type has none. A name with an extension stays.
pub proof fn law_name_is_extended(
    name: Seq<char>,
    content_type: Seq<char>,
    t: Seq<char>,
    e: Seq<char>,
)
    requires
        declares(content_type, t),
    ensures
        is_type_of(lower(t), e) ==> extended(name, false, content_type) == name + "."@ + e,
        (forall|x: Seq<char>| !#[trigger] is_type_of(lower(t), x)) ==> extended(
            name,
            false,
            content_type,
        ) == name,
        extended(name, true, content_type) == name,
{
    law_declared_type_is_read(content_type, t);
    if is_type_of(lower(t), e) {
        lemma_types_differ(lower(t), e);
    }
    if let Some(x) = type_extension(lower(t)) {
        assert(is_type_of(lower(t), x));
    }
}

/// The disposition itself makes no difference to the name, whatever it says. A
/// value without parameters gives none.
pub proof fn law_disposition_makes_no_difference(
    disposition: Seq<char>,
    other: Seq<char>,
    parameters: Seq<char>,
)
    requires
        is_without(disposition, ';'),
        is_without(other, ';'),
    ensures
        disposition_name(disposition + seq![';'] + parameters) == disposition_name(
            other + seq![';'] + parameters,
        ),
        disposition_name(disposition) is None,
{
    law_parts_of_joined(disposition, ';', parameters);
    law_parts_of_joined(other, ';', parameters);
    law_parts_of_one(disposition, ';');
    lemma_parameters(disposition, parameters);
    lemma_parameters(other, parameters);
    assert(parts(disposition, ';').drop_first() =~= seq![]);
}

proof fn lemma_parameters(disposition: Seq<char>, parameters: Seq<char>)
    requires
        is_without(disposition, ';'),
    ensures
        disposition_name(disposition + seq![';'] + parameters) == parameter_name(
            parts(parameters, ';'),
        ),
{
    law_parts_of_joined(disposition, ';', parameters);
    assert((seq![disposition] + parts(parameters, ';')).drop_first() =~= parts(parameters, ';'));
}

/// The parameters of a value: the first, and what stands behind it.
pub open spec fn first_parameter(parameter: Seq<char>, tail: Option<Seq<char>>) -> Seq<char> {
    match tail {
        Some(tail) => parameter + seq![';'] + tail,
        None => parameter,
    }
}

proof fn lemma_first_parameter(parameter: Seq<char>, tail: Option<Seq<char>>)
    requires
        is_without(parameter, ';'),
    ensures
        parts(first_parameter(parameter, tail), ';').len() > 0,
        parts(first_parameter(parameter, tail), ';')[0] == parameter,
        parts(first_parameter(parameter, tail), ';').drop_first() == match tail {
            Some(tail) => parts(tail, ';'),
            None => seq![],
        },
{
    if let Some(tail) = tail {
        law_parts_of_joined(parameter, ';', tail);
        assert((seq![parameter] + parts(tail, ';')).drop_first() =~= parts(tail, ';'));
    } else {
        law_parts_of_one(parameter, ';');
        assert(seq![parameter].drop_first() =~= seq![]);
    }
}

/// A name that is given plainly is the name of the download, made safe: behind
/// any disposition, with or without quotes and white space around it, and
/// whatever parameters follow.
pub proof fn law_plain_name_is_given(
    disposition: Seq<char>,
    a: Seq<char>,
    b: Seq<char>,
    q: Seq<char>,
    name: Seq<char>,
    r: Seq<char>,
    c: Seq<char>,
    tail: Option<Seq<char>>,
)
    requires
        is_without(disposition, ';'),
        is_blank(a),
        is_blank(b),
        is_blank(c),
        is_all(q, CharClass::Only('"')),
        is_all(r, CharClass::Only('"')),
        name.len() > 0,
        is_without(name, ';'),
        name.first() != '"',
        name.last() != '"',
        q.len() > 0 || !is_white(name.first()),
        r.len() > 0 || !is_white(name.last()),
    ensures
        disposition_name(
            disposition + seq![';'] + first_parameter(
                a + "filename="@ + b + q + name + r + c,
                tail,
            ),
        ) == Some(sanitized(name)),
{
    reveal_strlit("filename=");
    reveal_strlit("filename*=UTF-8''");
    let quoted = q + name + r;
    let value = b + quoted;
    let core = "filename="@ + value;
    let parameter = a + "filename="@ + b + q + name + r + c;
    assert(parameter =~= a + core + c);
    lemma_quoted_ends(q, name, r);
    lemma_parameter_has_no_separator(a, b, q, name, r, c);
    assert(core.first() == 'f');
    assert(core.last() == quoted.last());
    law_trimmed_of_wrapped(a, core, c);
    let none = Seq::<char>::empty();
    law_trimmed_of_wrapped(b, quoted, none);
    assert(value =~= b + quoted + none);
    law_stripped_of_wrapped(q, name, r, CharClass::Only('"'));
    assert(core.subrange(0, 9) =~= "filename="@);
    assert(core.skip(9) =~= value);
    if "filename*=UTF-8''"@.is_prefix_of(core) {
        assert(core.subrange(0, 17)[8] == core[8]);
        assert(core[8] == '=');
    }
    lemma_parameters(disposition, first_parameter(parameter, tail));
    lemma_first_parameter(parameter, tail);
}

/// A safe name in quotes behind any disposition is the name of the download.
pub proof fn law_quoted_safe_name_is_kept(disposition: Seq<char>, name: Seq<char>)
    requires
        is_without(disposition, ';'),
        is_safe_name(name),
        !is_white(name.first()) && !is_white(name.last()),
        is_without(name, ';'),
    ensures
        disposition_name(disposition + "; filename=\""@ + name + "\""@) == Some(name),
        disposition_name(disposition + ";filename="@ + name) == Some(name),
{
    reveal_strlit("; filename=\"");
    reveal_strlit(";filename=");
    reveal_strlit("filename=");
    reveal_strlit("\"");
    let none = Seq::<char>::empty();
    let quote = seq!['"'];
    let space = seq![' '];
    assert(!is_forbidden(name[0]) && !is_forbidden(name[name.len() - 1]));
    law_plain_name_is_given(disposition, space, none, quote, name, quote, none, None);
    assert(disposition + "; filename=\""@ + name + "\""@ =~= disposition + seq![';'] + (space
        + "filename="@ + none + quote + name + quote + none));
    law_plain_name_is_given(disposition, none, none, none, name, none, none, None);
    assert(disposition + ";filename="@ + name =~= disposition + seq![';'] + (none + "filename="@
        + none + none + name + none + none));
    law_safe_name_is_kept(name);
}

/// Quotes around a name leave no white space at the ends.
proof fn lemma_quoted_ends(q: Seq<char>, name: Seq<char>, r: Seq<char>)
    requires
        is_all(q, CharClass::Only('"')),
        is_all(r, CharClass::Only('"')),
        name.len() > 0,
        q.len() > 0 || !is_white(name.first()),
        r.len() > 0 || !is_white(name.last()),
    ensures
        ({
            let quoted = q + name + r;
            quoted.len() > 0 && !is_white(quoted.first()) && !is_white(quoted.last())
        }),
{
    let quoted = q + name + r;
    if q.len() > 0 {
        assert(quoted.first() == q[0]);
    } else {
        assert(quoted.first() == name.first());
    }
    if r.len() > 0 {
        assert(quoted.last() == r[r.len() - 1]);
    } else {
        assert(quoted.last() == name.last());
    }
}

/// A parameter of these parts holds no semicolon.
proof fn lemma_parameter_has_no_separator(
    a: Seq<char>,
    b: Seq<char>,
    q: Seq<char>,
    name: Seq<char>,
    r: Seq<char>,
    c: Seq<char>,
)
    requires
        is_blank(a),
        is_blank(b),
        is_blank(c),
        is_all(q, CharClass::Only('"')),
        is_all(r, CharClass::Only('"')),
        is_without(name, ';'),
    ensures
        is_without(a + "filename="@ + b + q + name + r + c, ';'),
{
    reveal_strlit("filename=");
    lemma_blank_without(a);
    lemma_blank_without(b);
    lemma_blank_without(c);
    assert forall|i: int| 0 <= i < q.len() implies #[trigger] q[i] != ';' by {
        assert(CharClass::Only('"').has(q[i]));
    }
    assert forall|i: int| 0 <= i < r.len() implies #[trigger] r[i] != ';' by {
        assert(CharClass::Only('"').has(r[i]));
    }
    lemma_joined_without(a, "filename="@);
    lemma_joined_without(a + "filename="@, b);
    lemma_joined_without(a + "filename="@ + b, q);
    lemma_joined_without(a + "filename="@ + b + q, name);
    lemma_joined_without(a + "filename="@ + b + q + name, r);
    lemma_joined_without(a + "filename="@ + b + q + name + r, c);
}

proof fn lemma_blank_without(s: Seq<char>)
    requires
        is_blank(s),
    ensures
        is_without(s, ';'),
{
    assert forall|i: int| 0 <= i < s.len() implies #[trigger] s[i] != ';' by {
        assert(is_white(s[i]));
    }
}

proof fn lemma_joined_without(s: Seq<char>, t: Seq<char>)
    requires
        is_without(s, ';'),
        is_without(t, ';'),
    ensures
        is_without(s + t, ';'),
{
    let whole = s + t;
    assert forall|i: int| 0 <= i < whole.len() implies #[trigger] whole[i] != ';' by {
        if i < s.len() {
            assert(whole[i] == s[i]);
        } else {
            assert(whole[i] == t[i - s.len()]);
        }
    }
}

/// A name that is given encoded is the name of the download, decoded and made
/// safe. One that decodes to nothing is passed over, and one that does not
/// decode to text ends the search.
pub proof fn law_encoded_name_is_given(
    disposition: Seq<char>,
    a: Seq<char>,
    encoded: Seq<char>,
    c: Seq<char>,
    tail: Option<Seq<char>>,
)
    requires
        is_without(disposition, ';'),
        is_blank(a),
        is_blank(c),
        is_without(encoded, ';'),
        encoded.len() == 0 || !is_white(encoded.last()),
    ensures
        ({
            let given = disposition_name(
                disposition + seq![';'] + first_parameter(
                    a + "filename*=UTF-8''"@ + encoded + c,
                    tail,
                ),
            );
            match percent_text(encoded) {
                None => given is None,
                Some(name) => if name.len() > 0 {
                    given == Some(sanitized(name))
                } else {
                    given == match tail {
                        Some(tail) => disposition_name(disposition + seq![';'] + tail),
                        None => None,
                    }
                },
            }
        }),
{
    reveal_strlit("filename*=UTF-8''");
    let core = "filename*=UTF-8''"@ + encoded;
    let parameter = a + "filename*=UTF-8''"@ + encoded + c;
    assert(parameter =~= a + core + c);
    lemma_blank_without(a);
    lemma_blank_without(c);
    lemma_joined_without("filename*=UTF-8''"@, encoded);
    lemma_joined_without(a, core);
    lemma_joined_without(a + core, c);
    assert(core.first() == 'f');
    assert(core.last() == if encoded.len() > 0 {
        encoded.last()
    } else {
        '\''
    });
    law_trimmed_of_wrapped(a, core, c);
    assert(core.subrange(0, 17) =~= "filename*=UTF-8''"@);
    assert(core.skip(17) =~= encoded);
    lemma_parameters(disposition, first_parameter(parameter, tail));
    lemma_first_parameter(parameter, tail);
    reveal_with_fuel(parameter_name, 2);
    if let Some(tail) = tail {
        lemma_parameters(disposition, tail);
    }
}

/// A parameter that gives no name is passed over.
pub proof fn law_other_parameters_are_passed_over(
    disposition: Seq<char>,
    parameter: Seq<char>,
    tail: Option<Seq<char>>,
)
    requires
        is_without(disposition, ';'),
        is_without(parameter, ';'),
        !"filename="@.is_prefix_of(trimmed(parameter)),
        !"filename*=UTF-8''"@.is_prefix_of(trimmed(parameter)),
    ensures
        disposition_name(disposition + seq![';'] + first_parameter(parameter, tail)) == match tail {
            Some(tail) => disposition_name(disposition + seq![';'] + tail),
            None => None,
        },
{
    lemma_parameters(disposition, first_parameter(parameter, tail));
    lemma_first_parameter(parameter, tail);
    reveal_with_fuel(parameter_name, 2);
    if let Some(tail) = tail {
        lemma_parameters(disposition, tail);
    }
}

/// The disposition comes before the URL: a name that it gives is the name, and
/// where it gives none the name is that of the URL alone.
pub proof fn law_disposition_comes_first(value: Seq<char>, url: Seq<char>, other: Seq<char>)
    ensures
        disposition_name(value) is Some ==> response_name(Some(value), url) == disposition_name(
            value,
        ) && response_name(Some(value), other) == response_name(Some(value), url),
        disposition_name(value) is None ==> response_name(Some(value), url) == response_name(
            None,
            url,
        ),
        response_name(None, url) == match parsed_url(url) {
            Some(location) => path_name(location.path),
            None => None,
        },
{
}

/// The last name of a path is what follows its last slash that something
/// follows: it is decoded and made safe. Slashes behind it make no difference.
pub proof fn law_path_gives_its_last_name(
    folders: Seq<char>,
    segment: Seq<char>,
    slashes: Seq<char>,
)
    requires
        folders.len() > 0,
        folders.first() == '/',
        folders.last() == '/',
        segment.len() > 0,
        is_without(segment, '/'),
        is_all(slashes, CharClass::Only('/')),
    ensures
        path_name(folders + segment + slashes) == match percent_text(segment) {
            Some(name) => if sanitized(name) == "download"@ {
                None
            } else {
                Some(sanitized(name))
            },
            None => None,
        },
{
    let path = folders + segment + slashes;
    let end = segment + slashes;
    lemma_last_of_slashed(segment, slashes);
    assert(path[0] == '/');
    if folders.len() == 1 {
        assert(path.skip(1) =~= end);
    } else {
        let inner = folders.subrange(1, folders.len() - 1);
        assert(path.skip(1) =~= inner + seq!['/'] + end);
        law_parts_of_two(inner, '/', end);
        lemma_last_filled_of_joined(parts(inner, '/'), parts(end, '/'));
    }
}

proof fn lemma_last_of_slashed(segment: Seq<char>, slashes: Seq<char>)
    requires
        segment.len() > 0,
        is_without(segment, '/'),
        is_all(slashes, CharClass::Only('/')),
    ensures
        last_filled(parts(segment + slashes, '/')) == Some(segment),
    decreases slashes.len(),
{
    if slashes.len() == 0 {
        assert(segment + slashes =~= segment);
        law_parts_of_one(segment, '/');
    } else {
        let fewer = slashes.drop_last();
        assert(CharClass::Only('/').has(slashes[slashes.len() - 1]));
        assert forall|i: int| 0 <= i < fewer.len() implies CharClass::Only('/').has(
            #[trigger] fewer[i],
        ) by {
            assert(fewer[i] == slashes[i]);
        }
        let none = Seq::<char>::empty();
        assert(segment + slashes =~= segment + fewer + seq!['/'] + none);
        law_parts_of_two(segment + fewer, '/', none);
        law_parts_of_one(none, '/');
        lemma_last_of_slashed(segment, fewer);
        let all = parts(segment + slashes, '/');
        assert(all.last() == none);
        assert(all.drop_last() =~= parts(segment + fewer, '/'));
    }
}

proof fn lemma_last_filled_of_joined(a: Seq<Seq<char>>, b: Seq<Seq<char>>)
    requires
        last_filled(b) is Some,
    ensures
        last_filled(a + b) == last_filled(b),
    decreases b.len(),
{
    assert((a + b).last() == b.last());
    if b.last().len() == 0 {
        assert((a + b).drop_last() =~= a + b.drop_last());
        lemma_last_filled_of_joined(a, b.drop_last());
    }
}

/// A path of slashes alone has no name, and neither has one that does not begin
/// with a slash.
pub proof fn law_path_without_a_name(path: Seq<char>)
    ensures
        path.len() == 0 || path[0] != '/' ==> path_name(path) is None,
        is_all(path, CharClass::Only('/')) ==> path_name(path) is None,
{
    if is_all(path, CharClass::Only('/')) && path.len() > 0 {
        let rest = path.skip(1);
        assert forall|i: int| 0 <= i < rest.len() implies CharClass::Only('/').has(
            #[trigger] rest[i],
        ) by {
            assert(rest[i] == path[i + 1]);
        }
        lemma_slashes_are_empty(rest);
    }
}

proof fn lemma_slashes_are_empty(slashes: Seq<char>)
    requires
        is_all(slashes, CharClass::Only('/')),
    ensures
        last_filled(parts(slashes, '/')) is None,
    decreases slashes.len(),
{
    let none = Seq::<char>::empty();
    law_parts_of_one(none, '/');
    if slashes.len() == 0 {
        assert(slashes =~= none);
        assert(seq![none].drop_last() =~= seq![]);
        assert(last_filled(seq![none].drop_last()) is None);
    } else {
        let fewer = slashes.drop_last();
        assert(CharClass::Only('/').has(slashes[slashes.len() - 1]));
        assert forall|i: int| 0 <= i < fewer.len() implies CharClass::Only('/').has(
            #[trigger] fewer[i],
        ) by {
            assert(fewer[i] == slashes[i]);
        }
        assert(slashes =~= fewer + seq!['/'] + none);
        law_parts_of_two(fewer, '/', none);
        lemma_slashes_are_empty(fewer);
        assert(parts(slashes, '/').last() == none);
        assert(parts(slashes, '/').drop_last() =~= parts(fewer, '/'));
    }
}

/// A text without a percent sign decodes to itself.
pub proof fn law_plain_text_decodes_to_itself(s: Seq<char>)
    requires
        is_without(s, '%'),
    ensures
        percent_text(s) == Some(s),
{
    lemma_no_percent_byte(s);
    lemma_decoded_without_percent(encode_utf8(s));
    encode_utf8_valid_utf8(s);
    encode_utf8_decode_utf8(s);
}

proof fn lemma_no_percent_byte(s: Seq<char>)
    requires
        is_without(s, '%'),
    ensures
        forall|i: int| 0 <= i < encode_utf8(s).len() ==> #[trigger] encode_utf8(s)[i] != 37,
    decreases s.len(),
{
    if s.len() > 0 {
        let rest = s.drop_first();
        assert forall|i: int| 0 <= i < rest.len() implies #[trigger] rest[i] != '%' by {
            assert(rest[i] == s[i + 1]);
        }
        lemma_no_percent_byte(rest);
        let first = encode_scalar(s[0] as u32);
        assert(s[0] != '%');
        char_u32_cast(s[0], s[0] as u32);
        lemma_scalar_has_no_percent(s[0] as u32);
        assert forall|i: int| 0 <= i < encode_utf8(s).len() implies #[trigger] encode_utf8(s)[i]
            != 37 by {
            if i < first.len() {
                assert(encode_utf8(s)[i] == first[i]);
            } else {
                assert(encode_utf8(s)[i] == encode_utf8(rest)[i - first.len()]);
            }
        }
    }
}

proof fn lemma_scalar_has_no_percent(c: u32)
    requires
        c != 37,
    ensures
        forall|i: int| 0 <= i < encode_scalar(c).len() ==> #[trigger] encode_scalar(c)[i] != 37,
{
    assert(c != 37 && c <= 0x7f ==> (c & 0x7F) as u8 != 37) by (bit_vector);
    assert(0xC0 | ((c >> 6) & 0x1F) as u8 >= 128) by (bit_vector);
    assert(0xE0 | ((c >> 12) & 0x0F) as u8 >= 128) by (bit_vector);
    assert(0xF0 | ((c >> 18) & 0x7) as u8 >= 128) by (bit_vector);
    assert(0x80 | (c & 0x3F) as u8 >= 128) by (bit_vector);
    assert(0x80 | ((c >> 6) & 0x3F) as u8 >= 128) by (bit_vector);
    assert(0x80 | ((c >> 12) & 0x3F) as u8 >= 128) by (bit_vector);
}

proof fn lemma_decoded_without_percent(bytes: Seq<u8>)
    requires
        forall|i: int| 0 <= i < bytes.len() ==> #[trigger] bytes[i] != 37,
    ensures
        percent_decoded(bytes) == bytes,
    decreases bytes.len(),
{
    if bytes.len() > 0 {
        let rest = bytes.skip(1);
        assert forall|i: int| 0 <= i < rest.len() implies #[trigger] rest[i] != 37 by {
            assert(rest[i] == bytes[i + 1]);
        }
        lemma_decoded_without_percent(rest);
        assert(seq![bytes[0]] + rest =~= bytes);
    } else {
        assert(bytes =~= seq![]);
    }
}

/// The names that are tried: the file's own, then the stem with a number from 1
/// to 9999 in brackets before the extension, and then `download.bin`.
pub proof fn law_names_that_are_tried(
    filename: Seq<char>,
    stem: Seq<char>,
    extension: Seq<char>,
    k: int,
)
    ensures
        candidate(filename, stem, Some(extension), 0) == filename,
        candidate(filename, stem, None, 0) == filename,
        1 <= k <= 9999 ==> candidate(filename, stem, Some(extension), k) == stem + " ("@ + decimal(
            k as nat,
        ) + ")."@ + extension,
        1 <= k <= 9999 ==> candidate(filename, stem, None, k) == stem + " ("@ + decimal(k as nat)
            + ")"@,
        candidate(filename, stem, Some(extension), 10000) == "download.bin"@,
        candidate(filename, stem, None, 10000) == "download.bin"@,
        numbered_stem(Some(stem)) == stem,
        numbered_stem(None) == "download"@,
{
    reveal_strlit(")");
    reveal_strlit(".");
    reveal_strlit(").");
    assert(candidate(filename, stem, Some(extension), k) =~= if 1 <= k <= 9999 {
        stem + " ("@ + decimal(k as nat) + ")."@ + extension
    } else {
        candidate(filename, stem, Some(extension), k)
    });
}

/// Where it is settled which names are taken, the name that is found is the
/// first that is not, of the file's own and those numbered from 1 to 9999.
pub proof fn law_first_free_name_is_found<F: Fn(&str) -> bool>(
    taken: F,
    is_taken: spec_fn(Seq<char>) -> bool,
    filename: Seq<char>,
    stem: Seq<char>,
    extension: Seq<char>,
    k: int,
    name: Seq<char>,
)
    requires
        is_first_free(taken, filename, stem, Some(extension), name),
        forall|n: Seq<char>, answer: bool| #[trigger]
            answered(taken, n, answer) ==> answer == is_taken(n),
        is_taken(filename),
        1 <= k <= 9999,
        forall|j: int|
            1 <= j < k ==> is_taken(
                stem + " ("@ + #[trigger] decimal(j as nat) + ")."@ + extension,
            ),
        !is_taken(stem + " ("@ + decimal(k as nat) + ")."@ + extension),
    ensures
        name == stem + " ("@ + decimal(k as nat) + ")."@ + extension,
{
    let m = choose|m: int|
        {
            &&& 0 <= m <= crate::naming::LAST_CANDIDATE
            &&& name == #[trigger] candidate(filename, stem, Some(extension), m)
            &&& m < crate::naming::LAST_CANDIDATE ==> answered(taken, name, false)
            &&& forall|j: int|
                0 <= j < m ==> answered(
                    taken,
                    #[trigger] candidate(filename, stem, Some(extension), j),
                    true,
                )
        };
    law_names_that_are_tried(filename, stem, extension, k);
    law_names_that_are_tried(filename, stem, extension, m);
    if m > k {
        assert(answered(taken, candidate(filename, stem, Some(extension), k), true));
    } else if 1 <= m < k {
        assert(is_taken(stem + " ("@ + decimal(m as nat) + ")."@ + extension));
    }
}

/// A plain name is its stem, a dot and its extension where it has one, and its
/// stem alone where it has none.
pub proof fn law_stem_and_extension_are_the_name(name: Seq<char>)
    ensures
        name_extension(name) matches Some(extension) ==> {
            &&& is_without(extension, '.')
            &&& name_stem(name) matches Some(stem)
            &&& stem.len() > 0
            &&& name == stem + seq!['.'] + extension
        },
        name_extension(name) is None ==> {
            ||| name_stem(name) == Some(name)
            ||| name_stem(name) is None && (name == ""@ || name == "."@ || name == ".."@)
        },
{
    reveal_strlit("");
    reveal_strlit(".");
    reveal_strlit("..");
    lemma_last_index(name, '.');
    let i = last_index(name, '.');
    if name.len() == 0 {
        assert(name =~= ""@);
    }
    if i > 0 && name != ".."@ {
        let extension = name.skip(i + 1);
        assert forall|k: int| 0 <= k < extension.len() implies #[trigger] extension[k] != '.' by {
            assert(extension[k] == name[i + 1 + k]);
        }
        assert(name =~= name.take(i) + seq!['.'] + extension);
    }
}

/// A plain name that is empty, in quotes or not, is passed over.
pub proof fn law_empty_name_is_passed_over(
    disposition: Seq<char>,
    a: Seq<char>,
    b: Seq<char>,
    q: Seq<char>,
    c: Seq<char>,
    tail: Option<Seq<char>>,
)
    requires
        is_without(disposition, ';'),
        is_blank(a),
        is_blank(b),
        is_blank(c),
        is_all(q, CharClass::Only('"')),
        q.len() > 0 || b.len() == 0,
    ensures
        disposition_name(
            disposition + seq![';'] + first_parameter(a + "filename="@ + b + q + c, tail),
        ) == match tail {
            Some(tail) => disposition_name(disposition + seq![';'] + tail),
            None => None,
        },
{
    reveal_strlit("filename=");
    reveal_strlit("filename*=UTF-8''");
    let none = Seq::<char>::empty();
    let value = b + q;
    let core = "filename="@ + value;
    let parameter = a + "filename="@ + b + q + c;
    assert(parameter =~= a + core + c);
    lemma_parameter_has_no_separator(a, b, q, none, none, c);
    assert(parameter =~= a + "filename="@ + b + q + none + none + c);
    if q.len() > 0 {
        assert(CharClass::Only('"').has(q[0]));
        assert(CharClass::Only('"').has(q[q.len() - 1]));
        assert(core.last() == q[q.len() - 1]);
    } else {
        assert(core =~= "filename="@);
    }
    assert(core.first() == 'f');
    law_trimmed_of_wrapped(a, core, c);
    law_trimmed_of_wrapped(b, q, none);
    assert(value =~= b + q + none);
    law_stripped_of_wrapped(q, none, none, CharClass::Only('"'));
    assert(q + none + none =~= q);
    assert(core.subrange(0, 9) =~= "filename="@);
    assert(core.skip(9) =~= value);
    if "filename*=UTF-8''"@.is_prefix_of(core) {
        assert(core.subrange(0, 17)[8] == core[8]);
        assert(core[8] == '=');
    }
    lemma_parameters(disposition, first_parameter(parameter, tail));
    lemma_first_parameter(parameter, tail);
    reveal_with_fuel(parameter_name, 2);
    if let Some(tail) = tail {
        lemma_parameters(disposition, tail);
    }
}

/// Of a name without an extension too, the first numbered name that is not taken
/// is found where the name itself is.
pub proof fn law_first_free_bare_name_is_found<F: Fn(&str) -> bool>(
    taken: F,
    is_taken: spec_fn(Seq<char>) -> bool,
    filename: Seq<char>,
    stem: Seq<char>,
    k: int,
    name: Seq<char>,
)
    requires
        is_first_free(taken, filename, stem, None, name),
        forall|n: Seq<char>, answer: bool| #[trigger]
            answered(taken, n, answer) ==> answer == is_taken(n),
        is_taken(filename),
        1 <= k <= 9999,
        forall|j: int|
            1 <= j < k ==> is_taken(stem + " ("@ + #[trigger] decimal(j as nat) + ")"@),
        !is_taken(stem + " ("@ + decimal(k as nat) + ")"@),
    ensures
        name == stem + " ("@ + decimal(k as nat) + ")"@,
{
    let m = choose|m: int|
        {
            &&& 0 <= m <= crate::naming::LAST_CANDIDATE
            &&& name == #[trigger] candidate(filename, stem, None, m)
            &&& m < crate::naming::LAST_CANDIDATE ==> answered(taken, name, false)
            &&& forall|j: int|
                0 <= j < m ==> answered(
                    taken,
                    #[trigger] candidate(filename, stem, None, j),
                    true,
                )
        };
    law_names_that_are_tried(filename, stem, seq![], k);
    law_names_that_are_tried(filename, stem, seq![], m);
    if m > k {
        assert(answered(taken, candidate(filename, stem, None, k), true));
    } else if 1 <= m < k {
        assert(is_taken(stem + " ("@ + decimal(m as nat) + ")"@));
    }
}

/// A portable name gets the extension of the declared type exactly where it has
/// none, and is kept otherwise.
pub proof fn law_extension_is_ensured(
    filename: String,
    content_type: &str,
    t: Seq<char>,
    e: Seq<char>,
    r: String,
)
    requires
        call_ensures(ensure_extension, (filename, content_type), r),
        declares(content_type@, t),
        is_portable_path(filename@),
    ensures
        file_extension(filename@) is Some ==> r@ == filename@,
        file_extension(filename@) is None && is_type_of(lower(t), e) ==> r@ == filename@ + "."@ + e,
        file_extension(filename@) is None && (forall|x: Seq<char>|
            !#[trigger] is_type_of(lower(t), x)) ==> r@ == filename@,
{
    law_name_is_extended(filename@, content_type@, t, e);
}

/// A response whose disposition gives a safe name in quotes has that name,
/// whatever the disposition says and whatever its URL is.
pub proof fn law_response_has_the_quoted_name(
    value: &str,
    url: &str,
    disposition: Seq<char>,
    name: Seq<char>,
    r: Option<String>,
    s: Option<String>,
)
    requires
        call_ensures(filename_from_content_disposition, (value,), r),
        call_ensures(filename_from_response, (Some(value), url), s),
        is_without(disposition, ';'),
        is_safe_name(name),
        !is_white(name.first()) && !is_white(name.last()),
        is_without(name, ';'),
        value@ == disposition + "; filename=\""@ + name + "\""@ || value@ == disposition
            + ";filename="@ + name,
    ensures
        string_view(r) == Some(name),
        string_view(s) == Some(name),
{
    law_quoted_safe_name_is_kept(disposition, name);
}

/// A URL gives the last name of its path, where that is safe and is not the
/// stand-in name, and a response without a disposition has the name of its URL.
pub proof fn law_url_gives_its_last_name(
    url: &str,
    folders: Seq<char>,
    name: Seq<char>,
    slashes: Seq<char>,
    r: Option<String>,
    s: Option<String>,
)
    requires
        call_ensures(filename_from_url, (url,), r),
        call_ensures(filename_from_response, (None::<&str>, url), s),
        parsed_url(url@) matches Some(location) && location.path == folders + name + slashes,
        folders.len() > 0,
        folders.first() == '/',
        folders.last() == '/',
        is_all(slashes, CharClass::Only('/')),
        is_safe_name(name),
        !is_white(name.first()) && !is_white(name.last()),
        is_without(name, '%'),
        name != "download"@,
    ensures
        string_view(r) == Some(name),
        string_view(s) == Some(name),
{
    assert forall|i: int| 0 <= i < name.len() implies #[trigger] name[i] != '/' by {
        assert(!is_forbidden(name[i]));
    }
    law_path_gives_its_last_name(folders, name, slashes);
    law_plain_text_decodes_to_itself(name);
    law_safe_name_is_kept(name);
}

} // verus!
