//! What file names come to, said of the characters themselves.

use vstd::prelude::*;
use vstd::utf8::*;

use crate::filename::{
    cleaned, fitting, is_device_name, is_forbidden, is_safe_name, law_media_name_is_bounded,
    law_safe_name_is_kept, law_sanitized_is_safe, law_short_title_is_kept, law_truncated_is_longest,
    lemma_encode_concat, media_extension, media_name, media_suffix, replaced, safe_media_filename,
    sanitize_filename, sanitized, truncate_utf8,
};
use crate::text::{
    before_first, is_white, law_lower_of_cased, lower, stripped_start, upper, CharClass,
};
use crate::text_laws::{
    is_all, is_blank, law_stripped_of_wrapped, law_trimmed_of_wrapped,
};

verus! {

/// Whether no file name may hold `c`: one of nine signs, or a control code.
pub open spec fn is_banned(c: char) -> bool {
    ||| c == '<'
    ||| c == '>'
    ||| c == ':'
    ||| c == '"'
    ||| c == '/'
    ||| c == '\\'
    ||| c == '|'
    ||| c == '?'
    ||| c == '*'
    ||| c <= '\u{1f}'
    ||| '\u{7f}' <= c <= '\u{9f}'
}

/// `s` with an underscore in place of each banned character.
pub open spec fn masked(s: Seq<char>) -> Seq<char> {
    s.map_values(
        |c: char|
            if is_banned(c) {
                '_'
            } else {
                c
            },
    )
}

/// Whether `stem`, in any case, is the name of a device on Windows.
pub open spec fn is_windows_device(stem: Seq<char>) -> bool {
    let big = upper(stem);
    ||| big == "CON"@
    ||| big == "PRN"@
    ||| big == "AUX"@
    ||| big == "NUL"@
    ||| big == "COM1"@
    ||| big == "COM2"@
    ||| big == "COM3"@
    ||| big == "COM4"@
    ||| big == "COM5"@
    ||| big == "COM6"@
    ||| big == "COM7"@
    ||| big == "COM8"@
    ||| big == "COM9"@
    ||| big == "LPT1"@
    ||| big == "LPT2"@
    ||| big == "LPT3"@
    ||| big == "LPT4"@
    ||| big == "LPT5"@
    ||| big == "LPT6"@
    ||| big == "LPT7"@
    ||| big == "LPT8"@
    ||| big == "LPT9"@
}

proof fn lemma_devices(stem: Seq<char>)
    ensures
        is_windows_device(stem) <==> is_device_name(upper(stem)),
{
    let big = upper(stem);
    reveal_strlit("COM");
    reveal_strlit("LPT");
    reveal_strlit("COM1");
    reveal_strlit("COM2");
    reveal_strlit("COM3");
    reveal_strlit("COM4");
    reveal_strlit("COM5");
    reveal_strlit("COM6");
    reveal_strlit("COM7");
    reveal_strlit("COM8");
    reveal_strlit("COM9");
    reveal_strlit("LPT1");
    reveal_strlit("LPT2");
    reveal_strlit("LPT3");
    reveal_strlit("LPT4");
    reveal_strlit("LPT5");
    reveal_strlit("LPT6");
    reveal_strlit("LPT7");
    reveal_strlit("LPT8");
    reveal_strlit("LPT9");
    if big.len() == 4 && '1' <= big[3] <= '9' {
        if big.take(3) == "COM"@ {
            assert(big =~= "COM"@.push(big[3])) by {
                assert(big =~= big.take(3).push(big[3]));
            }
            lemma_numbered_device("COM"@, big);
        }
        if big.take(3) == "LPT"@ {
            assert(big =~= "LPT"@.push(big[3])) by {
                assert(big =~= big.take(3).push(big[3]));
            }
            lemma_numbered_device("LPT"@, big);
        }
    }
    if is_windows_device(stem) && big.len() == 4 {
        reveal_strlit("CON");
        reveal_strlit("PRN");
        reveal_strlit("AUX");
        reveal_strlit("NUL");
        assert(big[0] == 'C' && big[1] == 'O' && big[2] == 'M' || big[0] == 'L' && big[1] == 'P'
            && big[2] == 'T');
        if big[0] == 'C' {
            assert(big.take(3) =~= "COM"@);
        } else {
            assert(big.take(3) =~= "LPT"@);
        }
    }
}

proof fn lemma_numbered_device(port: Seq<char>, big: Seq<char>)
    requires
        big.len() == 4,
        big == port.push(big[3]),
        '1' <= big[3] <= '9',
        port == "COM"@ || port == "LPT"@,
    ensures
        big == "COM1"@ || big == "COM2"@ || big == "COM3"@ || big == "COM4"@ || big == "COM5"@
            || big == "COM6"@ || big == "COM7"@ || big == "COM8"@ || big == "COM9"@ || big
            == "LPT1"@ || big == "LPT2"@ || big == "LPT3"@ || big == "LPT4"@ || big == "LPT5"@
            || big == "LPT6"@ || big == "LPT7"@ || big == "LPT8"@ || big == "LPT9"@,
{
    reveal_strlit("COM");
    reveal_strlit("LPT");
    reveal_strlit("COM1");
    reveal_strlit("COM2");
    reveal_strlit("COM3");
    reveal_strlit("COM4");
    reveal_strlit("COM5");
    reveal_strlit("COM6");
    reveal_strlit("COM7");
    reveal_strlit("COM8");
    reveal_strlit("COM9");
    reveal_strlit("LPT1");
    reveal_strlit("LPT2");
    reveal_strlit("LPT3");
    reveal_strlit("LPT4");
    reveal_strlit("LPT5");
    reveal_strlit("LPT6");
    reveal_strlit("LPT7");
    reveal_strlit("LPT8");
    reveal_strlit("LPT9");
    let d = big[3];
    assert(d == '1' || d == '2' || d == '3' || d == '4' || d == '5' || d == '6' || d == '7' || d
        == '8' || d == '9');
    assert(big =~= seq![port[0], port[1], port[2], d]);
    assert("COM1"@ =~= seq!['C', 'O', 'M', '1']);
    assert("COM2"@ =~= seq!['C', 'O', 'M', '2']);
    assert("COM3"@ =~= seq!['C', 'O', 'M', '3']);
    assert("COM4"@ =~= seq!['C', 'O', 'M', '4']);
    assert("COM5"@ =~= seq!['C', 'O', 'M', '5']);
    assert("COM6"@ =~= seq!['C', 'O', 'M', '6']);
    assert("COM7"@ =~= seq!['C', 'O', 'M', '7']);
    assert("COM8"@ =~= seq!['C', 'O', 'M', '8']);
    assert("COM9"@ =~= seq!['C', 'O', 'M', '9']);
    assert("LPT1"@ =~= seq!['L', 'P', 'T', '1']);
    assert("LPT2"@ =~= seq!['L', 'P', 'T', '2']);
    assert("LPT3"@ =~= seq!['L', 'P', 'T', '3']);
    assert("LPT4"@ =~= seq!['L', 'P', 'T', '4']);
    assert("LPT5"@ =~= seq!['L', 'P', 'T', '5']);
    assert("LPT6"@ =~= seq!['L', 'P', 'T', '6']);
    assert("LPT7"@ =~= seq!['L', 'P', 'T', '7']);
    assert("LPT8"@ =~= seq!['L', 'P', 'T', '8']);
    assert("LPT9"@ =~= seq!['L', 'P', 'T', '9']);
}

/// No sanitized name holds a banned character, begins or ends with a dot, or is
/// that of a device before its first dot, and none is empty.
pub proof fn law_sanitized_can_be_written(s: Seq<char>, i: int)
    ensures
        sanitized(s).len() > 0,
        0 <= i < sanitized(s).len() ==> !is_banned(sanitized(s)[i]),
        sanitized(s).first() != '.',
        sanitized(s).last() != '.',
        !is_windows_device(before_first(sanitized(s), '.')),
{
    law_sanitized_is_safe(s);
    if 0 <= i < sanitized(s).len() {
        assert(!is_forbidden(sanitized(s)[i]));
    }
    lemma_devices(before_first(sanitized(s), '.'));
}

/// Each banned character becomes an underscore and every other stays. White
/// space that is around it, and then dots, are taken off. The name of a device
/// gets an underscore in front.
pub proof fn law_sanitized_is_masked(
    a: Seq<char>,
    dots: Seq<char>,
    s: Seq<char>,
    more: Seq<char>,
    b: Seq<char>,
)
    requires
        is_blank(masked(a)),
        is_blank(masked(b)),
        is_all(dots, CharClass::Only('.')),
        is_all(more, CharClass::Only('.')),
        s.len() > 0,
        !is_white(masked(s).first()) && !is_white(masked(s).last()),
        s.first() != '.' && s.last() != '.',
    ensures
        ({
            let m = masked(s);
            sanitized(a + dots + s + more + b) == if is_windows_device(before_first(m, '.')) {
                "_"@ + m
            } else {
                m
            }
        }),
{
    reveal_strlit("_");
    let whole = a + dots + s + more + b;
    let m = masked(s);
    let inner = dots + m + more;
    assert(replaced(whole) =~= masked(a) + inner + masked(b)) by {
        assert(replaced(whole) =~= masked(whole));
        assert forall|i: int| 0 <= i < dots.len() implies #[trigger] dots[i] == '.' by {
            assert(CharClass::Only('.').has(dots[i]));
        }
        assert forall|i: int| 0 <= i < more.len() implies #[trigger] more[i] == '.' by {
            assert(CharClass::Only('.').has(more[i]));
        }
        assert(masked(dots) =~= dots);
        assert(masked(more) =~= more);
        assert(masked(whole) =~= masked(a) + masked(dots) + m + masked(more) + masked(b));
    }
    assert(inner.first() == if dots.len() > 0 {
        dots[0]
    } else {
        m.first()
    });
    assert(inner.last() == if more.len() > 0 {
        more[more.len() - 1]
    } else {
        m.last()
    });
    if dots.len() > 0 {
        assert(CharClass::Only('.').has(dots[0]));
    }
    if more.len() > 0 {
        assert(CharClass::Only('.').has(more[more.len() - 1]));
    }
    law_trimmed_of_wrapped(masked(a), inner, masked(b));
    law_stripped_of_wrapped(dots, m, more, CharClass::Only('.'));
    assert(cleaned(whole) == m);
    lemma_devices(before_first(m, '.'));
    assert("_"@ =~= seq!['_']);
}

/// A text of white space and dots alone becomes `download`.
pub proof fn law_nothing_becomes_download(a: Seq<char>, dots: Seq<char>, b: Seq<char>)
    requires
        is_blank(masked(a)),
        is_blank(masked(b)),
        is_all(dots, CharClass::Only('.')),
        dots.len() > 0 || b.len() == 0,
    ensures
        sanitized(a + dots + b) == "download"@,
{
    let whole = a + dots + b;
    let none = Seq::<char>::empty();
    assert forall|i: int| 0 <= i < dots.len() implies #[trigger] dots[i] == '.' by {
        assert(CharClass::Only('.').has(dots[i]));
    }
    assert(replaced(whole) =~= masked(a) + dots + masked(b));
    law_trimmed_of_wrapped(masked(a), dots, masked(b));
    law_stripped_of_wrapped(dots, none, none, CharClass::Only('.'));
    assert(dots + none + none =~= dots);
    assert(cleaned(whole) == none);
    reveal_strlit("CON");
    reveal_strlit("PRN");
    reveal_strlit("AUX");
    reveal_strlit("NUL");
    assert(before_first(none, '.') =~= none);
    assert(upper(none) =~= none);
}

/// The name of a media file takes at most 100 bytes, as long as its extension
/// leaves room for the title.
pub proof fn law_media_name_takes_100_bytes(title: Seq<char>, extension: Seq<char>)
    requires
        encode_utf8(media_extension(extension)).len() < 99,
    ensures
        encode_utf8(media_name(title, extension)).len() <= 100,
{
    reveal_strlit(".");
    law_media_name_is_bounded(title, extension);
    lemma_encode_concat("."@, media_extension(extension));
    is_ascii_chars_encode_utf8("."@);
}

/// A safe title and a safe extension that fit in 100 bytes are the name, with a
/// dot between them, whatever case the extension is written in and whatever dots
/// stand before it.
pub proof fn law_media_name_of_safe_parts(
    title: Seq<char>,
    dots: Seq<char>,
    extension: Seq<char>,
)
    requires
        is_safe_name(title),
        !is_white(title.first()) && !is_white(title.last()),
        is_all(dots, CharClass::Only('.')),
        is_safe_name(lower(extension)),
        !is_white(lower(extension).first()) && !is_white(lower(extension).last()),
        encode_utf8(title).len() + encode_utf8(lower(extension)).len() < 100,
    ensures
        media_name(title, dots + extension) == title + "."@ + lower(extension),
{
    reveal_strlit(".");
    let none = Seq::<char>::empty();
    assert(extension.first() != '.' && extension.last() != '.') by {
        assert(lower(extension).first() != '.');
        assert(lower(extension).last() != '.');
        assert(lower(extension)[0] != '.');
        assert(lower(extension)[extension.len() - 1] != '.');
    }
    law_stripped_of_wrapped(dots, extension, none, CharClass::Only('.'));
    law_safe_name_is_kept(title);
    law_safe_name_is_kept(lower(extension));
    assert(media_extension(dots + extension) == lower(extension));
    lemma_encode_concat("."@, lower(extension));
    is_ascii_chars_encode_utf8("."@);
    law_short_title_is_kept(title, dots + extension);
    assert(title + ("."@ + lower(extension)) =~= title + "."@ + lower(extension));
}

/// Media without an extension gets `bin`.
pub proof fn law_media_without_extension(title: Seq<char>, dots: Seq<char>)
    requires
        is_safe_name(title),
        !is_white(title.first()) && !is_white(title.last()),
        is_all(dots, CharClass::Only('.')),
        encode_utf8(title).len() <= 96,
    ensures
        media_name(title, dots) == title + ".bin"@,
{
    reveal_strlit(".");
    reveal_strlit("bin");
    reveal_strlit(".bin");
    let none = Seq::<char>::empty();
    law_stripped_of_wrapped(dots, none, none, CharClass::Only('.'));
    assert(dots + none =~= dots);
    assert(lower(none) =~= none);
    law_safe_name_is_kept(title);
    assert("."@ + "bin"@ =~= ".bin"@);
    is_ascii_chars_encode_utf8(".bin"@);
    law_short_title_is_kept(title, dots);
}

/// The name of a media file does not depend on the case of the extension, nor on
/// dots before it.
pub proof fn law_media_name_in_any_case(title: Seq<char>, extension: Seq<char>, dots: Seq<char>)
    requires
        is_all(dots, CharClass::Only('.')),
        extension.len() == 0 || extension.first() != '.',
    ensures
        media_name(title, dots + extension) == media_name(title, extension),
        media_name(title, upper(extension)) == media_name(title, extension),
        media_name(title, lower(extension)) == media_name(title, extension),
{
    let none = Seq::<char>::empty();
    let class = CharClass::Only('.');
    lemma_dots_are_stripped(dots, extension);
    assert(none + extension =~= extension);
    lemma_dots_are_stripped(none, extension);
    if extension.len() > 0 {
        assert(upper(extension)[0] != '.');
        assert(lower(extension)[0] != '.');
    }
    assert(none + upper(extension) =~= upper(extension));
    assert(none + lower(extension) =~= lower(extension));
    lemma_dots_are_stripped(none, upper(extension));
    lemma_dots_are_stripped(none, lower(extension));
    law_lower_of_cased(extension);
}

proof fn lemma_dots_are_stripped(dots: Seq<char>, s: Seq<char>)
    requires
        is_all(dots, CharClass::Only('.')),
        s.len() == 0 || s.first() != '.',
    ensures
        stripped_start(dots + s, CharClass::Only('.')) == s,
    decreases dots.len(),
{
    if dots.len() == 0 {
        assert(dots + s =~= s);
    } else {
        assert(CharClass::Only('.').has(dots[0]));
        assert((dots + s).first() == dots[0]);
        assert((dots + s).drop_first() =~= dots.drop_first() + s);
        assert forall|i: int| 0 <= i < dots.drop_first().len() implies CharClass::Only('.').has(
            #[trigger] dots.drop_first()[i],
        ) by {
            assert(dots.drop_first()[i] == dots[i + 1]);
        }
        lemma_dots_are_stripped(dots.drop_first(), s);
    }
}

/// A title that is too long is cut as late as it can be: what is kept of it is
/// the longest part that leaves the whole name within 100 bytes.
pub proof fn law_long_title_is_cut_late(title: Seq<char>, extension: Seq<char>, n: int)
    requires
        encode_utf8(media_extension(extension)).len() < 99,
        0 <= n < sanitized(title).len(),
        encode_utf8(sanitized(title).take(n)).len() + encode_utf8(media_extension(extension)).len()
            + 1 <= 100,
        encode_utf8(sanitized(title).take(n + 1)).len() + encode_utf8(
            media_extension(extension),
        ).len() + 1 > 100,
    ensures
        media_name(title, extension) == sanitized(title).take(n) + "."@ + media_extension(
            extension,
        ),
{
    reveal_strlit(".");
    let safe = sanitized(title);
    let room = (99 - encode_utf8(media_extension(extension)).len()) as nat;
    lemma_encode_concat("."@, media_extension(extension));
    is_ascii_chars_encode_utf8("."@);
    law_truncated_is_longest(safe, room);
    let kept = fitting(safe, room);
    let k = kept.len() as int;
    assert(kept =~= safe.take(k));
    if k < n {
        assert(encode_utf8(safe.take(n)).len() > room);
    }
    if k > n {
        assert(safe.take(k) =~= safe.take(n + 1) + safe.subrange(n + 1, k));
        lemma_encode_concat(safe.take(n + 1), safe.subrange(n + 1, k));
    }
    assert(safe.take(n) + ("."@ + media_extension(extension)) =~= safe.take(n) + "."@
        + media_extension(extension));
}

/// The extension of a media file is made safe as names are, in lower case and
/// without the dots before it.
pub proof fn law_media_extension_is_sanitized(dots: Seq<char>, extension: Seq<char>)
    requires
        is_all(dots, CharClass::Only('.')),
        extension.len() > 0,
        extension.first() != '.',
    ensures
        media_extension(dots + extension) == sanitized(lower(extension)),
        media_suffix(dots + extension) == "."@ + sanitized(lower(extension)),
{
    lemma_dots_are_stripped(dots, extension);
}

/// Whatever text a name is made of, what comes out can be written.
pub proof fn law_any_text_becomes_a_name(filename: &str, r: String, i: int)
    requires
        call_ensures(sanitize_filename, (filename,), r),
    ensures
        r@.len() > 0,
        0 <= i < r@.len() ==> !is_banned(r@[i]),
        r@.first() != '.' && r@.last() != '.',
        !is_windows_device(before_first(r@, '.')),
        is_safe_name(filename@) && !is_white(filename@.first()) && !is_white(filename@.last())
            ==> r@ == filename@,
{
    law_sanitized_can_be_written(filename@, i);
    if is_safe_name(filename@) && !is_white(filename@.first()) && !is_white(filename@.last()) {
        law_safe_name_is_kept(filename@);
    }
}

/// What is kept of a text that is cut is the longest prefix that fits.
pub proof fn law_cut_text_is_the_longest(value: &str, max_bytes: usize, r: String)
    requires
        call_ensures(truncate_utf8, (value, max_bytes), r),
    ensures
        r@.is_prefix_of(value@),
        encode_utf8(r@).len() <= max_bytes,
        forall|n: int|
            r@.len() < n <= value@.len() ==> encode_utf8(#[trigger] value@.take(n)).len()
                > max_bytes,
{
    law_truncated_is_longest(value@, max_bytes as nat);
}

/// The name that media gets is the title and the extension, made safe, where
/// they fit.
pub proof fn law_media_gets_its_name(title: &str, extension: &str, r: String)
    requires
        call_ensures(safe_media_filename, (title, extension), r),
        extension@.len() > 0,
        extension@.first() != '.',
    ensures
        encode_utf8(sanitized(title@)).len() + encode_utf8(sanitized(lower(extension@))).len() < 100
            ==> r@ == sanitized(title@) + "."@ + sanitized(lower(extension@)),
        encode_utf8(sanitized(lower(extension@))).len() < 99 ==> encode_utf8(r@).len() <= 100,
{
    reveal_strlit(".");
    let none = Seq::<char>::empty();
    assert(none + extension@ =~= extension@);
    law_media_extension_is_sanitized(none, extension@);
    lemma_encode_concat("."@, sanitized(lower(extension@)));
    is_ascii_chars_encode_utf8("."@);
    if encode_utf8(sanitized(title@)).len() + encode_utf8(sanitized(lower(extension@))).len() < 100 {
        law_short_title_is_kept(title@, extension@);
        assert(sanitized(title@) + ("."@ + sanitized(lower(extension@))) =~= sanitized(title@) + "."@
            + sanitized(lower(extension@)));
    }
    if encode_utf8(sanitized(lower(extension@))).len() < 99 {
        law_media_name_takes_100_bytes(title@, extension@);
    }
}

} // verus!
