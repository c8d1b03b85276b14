//! File names that are safe to write on every platform.

use vstd::prelude::*;
use vstd::string::*;
use vstd::utf8::*;

use crate::outside::is_plain_name;
use crate::text::{
    before_first, characters, control_code, first_index, is_control_code, is_white, joined,
    lemma_first_index, lemma_stripped_ends, lemma_stripped_window, lower, same, strip, strip_start,
    stripped, stripped_start, to_lower, to_upper, trim, trimmed, until_first, upper,
    upper_char, CharClass,
};

verus! {

/// The characters that no file name may hold.
pub open spec fn is_forbidden(c: char) -> bool {
    ||| c == '<'
    ||| c == '>'
    ||| c == ':'
    ||| c == '"'
    ||| c == '/'
    ||| c == '\\'
    ||| c == '|'
    ||| c == '?'
    ||| c == '*'
    ||| is_control_code(c)
}

/// `s` with an underscore for each forbidden character.
pub open spec fn replaced(s: Seq<char>) -> Seq<char> {
    Seq::new(
        s.len(),
        |i: int|
            if is_forbidden(s[i]) {
                '_'
            } else {
                s[i]
            },
    )
}

/// `s` with forbidden characters replaced, then white space and then dots
/// taken off both ends.
pub open spec fn cleaned(s: Seq<char>) -> Seq<char> {
    stripped(trimmed(replaced(s)), CharClass::Only('.'))
}

/// The upper-case names that Windows reserves for devices.
pub open spec fn is_device_name(stem: Seq<char>) -> bool {
    ||| stem == "CON"@
    ||| stem == "PRN"@
    ||| stem == "AUX"@
    ||| stem == "NUL"@
    ||| stem.len() == 4 && (stem.take(3) == "COM"@ || stem.take(3) == "LPT"@) && '1' <= stem[3]
        <= '9'
}

/// Whether what stands before the first dot of `name` is a device name, in
/// any case.
pub open spec fn is_reserved(name: Seq<char>) -> bool {
    is_device_name(upper(before_first(name, '.')))
}

/// The safe file name for `s`.
pub open spec fn sanitized(s: Seq<char>) -> Seq<char> {
    let name = cleaned(s);
    if is_reserved(name) {
        seq!['_'] + name
    } else if name.len() == 0 {
        "download"@
    } else {
        name
    }
}

/// The longest prefix of `s` whose UTF-8 form takes at most `max` bytes.
pub open spec fn fitting(s: Seq<char>, max: nat) -> Seq<char>
    decreases s.len(),
{
    if s.len() == 0 || encode_utf8(s).len() <= max {
        s
    } else {
        fitting(s.drop_last(), max)
    }
}

/// Whether `stem`, in upper case, is a device name.
fn device_name(stem: &str) -> (r: bool)
    ensures
        r == is_device_name(stem@),
{
    if same(stem, "CON") || same(stem, "PRN") || same(stem, "AUX") || same(stem, "NUL") {
        return true;
    }
    let chars = characters(stem);
    if chars.len() != 4 {
        return false;
    }
    let head = stem.substring_char(0, 3);
    (same(head, "COM") || same(head, "LPT")) && '1' <= chars[3] && chars[3] <= '9'
}

/// Whether no file name may hold `c`.
fn forbidden(c: char) -> (r: bool)
    ensures
        r == is_forbidden(c),
{
    c == '<' || c == '>' || c == ':' || c == '"' || c == '/' || c == '\\' || c == '|' || c == '?'
        || c == '*' || control_code(c)
}

/// The safe file name for `filename`: each forbidden character becomes an
/// underscore, white space and dots are taken off the ends, a device name gets
/// an underscore in front, and what would be empty becomes `download`.
pub fn sanitize_filename(filename: &str) -> (r: String)
    ensures
        r@ == sanitized(filename@),
{
    let mut plain = String::new();
    for c in it: filename.chars()
        invariant
            it.seq() == filename@,
            plain@ == replaced(filename@).take(it.index()),
    {
        if forbidden(c) {
            plain.push('_');
        } else {
            plain.push(c);
        }
    }
    assert(plain@ == replaced(filename@));
    let name = strip(trim(plain.as_str()), CharClass::Only('.'));
    let stem = to_upper(until_first(name, '.'));
    if device_name(stem.as_str()) {
        let mut r = String::new();
        r.push('_');
        r.append(name);
        assert(r@ =~= seq!['_'] + name@);
        r
    } else if name.is_empty() {
        "download".to_owned()
    } else {
        name.to_owned()
    }
}

/// The UTF-8 form of two texts in a row is their forms in a row.
pub proof fn lemma_encode_concat(a: Seq<char>, b: Seq<char>)
    ensures
        encode_utf8(a + b) == encode_utf8(a) + encode_utf8(b),
    decreases a.len(),
{
    if a.len() == 0 {
        assert(a + b =~= b);
    } else {
        lemma_encode_concat(a.drop_first(), b);
        assert((a + b).drop_first() =~= a.drop_first() + b);
        assert(encode_utf8(a + b) =~= encode_utf8(a) + encode_utf8(b));
    }
}

/// The UTF-8 form of one more character.
proof fn lemma_encode_push(s: Seq<char>, c: char)
    ensures
        encode_utf8(s.push(c)).len() == encode_utf8(s).len() + encode_scalar(c as u32).len(),
{
    lemma_encode_concat(s, seq![c]);
    assert(s + seq![c] =~= s.push(c));
    assert(seq![c].drop_first() =~= Seq::<char>::empty());
    reveal_with_fuel(encode_utf8, 2);
    assert(encode_utf8(seq![c]) =~= encode_scalar(c as u32));
}

/// The prefix that fits is the one that fits while the next longer does not.
proof fn lemma_fitting(s: Seq<char>, max: nat, n: int)
    requires
        0 <= n < s.len(),
        encode_utf8(s.take(n)).len() <= max,
        encode_utf8(s.take(n + 1)).len() > max,
    ensures
        fitting(s, max) == s.take(n),
    decreases s.len(),
{
    let short = s.drop_last();
    assert(s.take(n + 1) + s.skip(n + 1) =~= s);
    lemma_encode_concat(s.take(n + 1), s.skip(n + 1));
    assert(short.take(n) =~= s.take(n));
    if n < short.len() {
        assert(short.take(n + 1) =~= s.take(n + 1));
        lemma_fitting(short, max, n);
    } else {
        assert(short =~= s.take(n));
        reveal_with_fuel(fitting, 2);
    }
}

/// A truncated text is the longest prefix that fits: it is a prefix, it fits,
/// and no longer prefix does.
pub proof fn law_truncated_is_longest(s: Seq<char>, max: nat)
    ensures
        fitting(s, max).is_prefix_of(s),
        encode_utf8(fitting(s, max)).len() <= max,
        forall|n: int|
            fitting(s, max).len() < n <= s.len() ==> encode_utf8(#[trigger] s.take(n)).len() > max,
    decreases s.len(),
{
    if s.len() > 0 && encode_utf8(s).len() > max {
        let short = s.drop_last();
        law_truncated_is_longest(short, max);
        assert forall|n: int| fitting(s, max).len() < n <= s.len() implies encode_utf8(
            #[trigger] s.take(n),
        ).len() > max by {
            if n == s.len() {
                assert(s.take(n) =~= s);
            } else {
                assert(s.take(n) =~= short.take(n));
            }
        }
    }
}

/// The number of bytes of the UTF-8 form of `c`.
fn encoded_width(c: char) -> (r: usize)
    ensures
        r == encode_scalar(c as u32).len(),
        1 <= r <= 4,
{
    let scalar = c as u32;
    if scalar <= 0x7f {
        1
    } else if scalar <= 0x7ff {
        2
    } else if scalar <= 0xffff {
        3
    } else {
        4
    }
}

/// The longest prefix of `value` that takes at most `max_bytes` bytes in
/// UTF-8, so that no character is cut apart.
pub fn truncate_utf8(value: &str, max_bytes: usize) -> (r: String)
    ensures
        r@ == fitting(value@, max_bytes as nat),
{
    let mut kept = String::new();
    let mut used: usize = 0;
    assert(value@.take(0) =~= Seq::<char>::empty());
    for c in it: value.chars()
        invariant
            it.seq() == value@,
            kept@ == value@.take(it.index()),
            used == encode_utf8(kept@).len(),
            used <= max_bytes,
    {
        let width = encoded_width(c);
        proof {
            lemma_encode_push(kept@, c);
            assert(kept@.push(c) =~= value@.take(it.index() + 1));
        }
        if width > max_bytes - used {
            proof {
                lemma_fitting(value@, max_bytes as nat, it.index());
            }
            return kept;
        }
        kept.push(c);
        used = used + width;
    }
    assert(kept@ =~= value@);
    kept
}

/// The most bytes that the name of a media file takes, where its extension
/// leaves room.
pub const MAX_NAME_BYTES: usize = 100;

/// The extension of a media file: without leading dots, in lower case, safe,
/// and `bin` where there is none.
pub open spec fn media_extension(extension: Seq<char>) -> Seq<char> {
    let bare = lower(stripped_start(extension, CharClass::Only('.')));
    if bare.len() == 0 {
        "bin"@
    } else {
        sanitized(bare)
    }
}

/// The extension of a media file with the dot before it.
pub open spec fn media_suffix(extension: Seq<char>) -> Seq<char> {
    "."@ + media_extension(extension)
}

/// The bytes that `suffix` leaves for what stands before it, at least one.
pub open spec fn room_before(suffix: Seq<char>) -> nat {
    if encode_utf8(suffix).len() < MAX_NAME_BYTES {
        (MAX_NAME_BYTES - encode_utf8(suffix).len()) as nat
    } else {
        1
    }
}

/// The name of a media file: as much of its safe title as the extension leaves
/// room for, then the extension.
pub open spec fn media_name(title: Seq<char>, extension: Seq<char>) -> Seq<char> {
    fitting(sanitized(title), room_before(media_suffix(extension))) + media_suffix(extension)
}

/// The name under which media with the given title and extension is stored.
pub fn safe_media_filename(title: &str, extension: &str) -> (r: String)
    ensures
        r@ == media_name(title@, extension@),
{
    let title = sanitize_filename(title);
    let bare = to_lower(strip_start(extension, CharClass::Only('.')));
    let extension = if bare.as_str().is_empty() {
        "bin".to_owned()
    } else {
        sanitize_filename(bare.as_str())
    };
    let suffix = joined(".", extension.as_str());
    let width = suffix.as_str().as_bytes().len();
    let room: usize = if width < MAX_NAME_BYTES {
        MAX_NAME_BYTES - width
    } else {
        1
    };
    let base = truncate_utf8(title.as_str(), room);
    joined(base.as_str(), suffix.as_str())
}

/// Whether no character of `s` is forbidden in file names.
pub open spec fn is_clear(s: Seq<char>) -> bool {
    forall|i: int| 0 <= i < s.len() ==> !is_forbidden(#[trigger] s[i])
}

/// Whether `s` can be written as a file name on every platform: it is not
/// empty, holds no forbidden character, has no dot at its ends and is not
/// reserved for a device.
pub open spec fn is_safe_name(s: Seq<char>) -> bool {
    &&& s.len() > 0
    &&& is_clear(s)
    &&& s.first() != '.'
    &&& s.last() != '.'
    &&& !is_reserved(s)
}

/// A cleaned text holds no forbidden character and has no dot at its ends.
proof fn lemma_cleaned(s: Seq<char>)
    ensures
        is_clear(cleaned(s)),
        cleaned(s).len() > 0 ==> cleaned(s).first() != '.' && cleaned(s).last() != '.',
{
    let r = replaced(s);
    assert(is_clear(r));
    let a = lemma_stripped_window(r, CharClass::White);
    let b = lemma_stripped_window(trimmed(r), CharClass::Only('.'));
    assert forall|i: int| 0 <= i < cleaned(s).len() implies !is_forbidden(
        #[trigger] cleaned(s)[i],
    ) by {
        assert(cleaned(s)[i] == r[a + b + i]);
    }
    lemma_stripped_ends(trimmed(r), CharClass::Only('.'));
}

/// A name with an underscore in front is not reserved.
proof fn lemma_marked_not_reserved(name: Seq<char>)
    ensures
        !is_reserved(seq!['_'] + name),
{
    let marked = seq!['_'] + name;
    lemma_first_index(marked, '.');
    let stem = upper(before_first(marked, '.'));
    assert(marked[0] == '_');
    assert(first_index(marked, '.') >= 1);
    assert(stem[0] == '_');
    reveal_strlit("CON");
    reveal_strlit("PRN");
    reveal_strlit("AUX");
    reveal_strlit("NUL");
    reveal_strlit("COM");
    reveal_strlit("LPT");
    if stem.len() == 4 {
        assert(stem.take(3)[0] == '_');
    }
}

/// A sanitized name is safe, whatever it was made from.
pub proof fn law_sanitized_is_safe(s: Seq<char>)
    ensures
        is_safe_name(sanitized(s)),
{
    lemma_cleaned(s);
    let name = cleaned(s);
    if is_reserved(name) {
        lemma_marked_not_reserved(name);
        assert forall|i: int| 0 <= i < sanitized(s).len() implies !is_forbidden(
            #[trigger] sanitized(s)[i],
        ) by {
            if i > 0 {
                assert(sanitized(s)[i] == name[i - 1]);
            }
        }
    } else if name.len() == 0 {
        reveal_strlit("download");
        let word = "download"@;
        lemma_first_index(word, '.');
        assert(first_index(word, '.') == 8);
        assert(upper(before_first(word, '.')).len() == 8);
        reveal_strlit("CON");
        reveal_strlit("PRN");
        reveal_strlit("AUX");
        reveal_strlit("NUL");
    }
}

/// A safe file name is a single path component on every platform.
pub proof fn law_safe_name_is_plain(s: Seq<char>)
    requires
        is_clear(s),
    ensures
        is_plain_name(s),
{
    assert forall|i: int| 0 <= i < s.len() implies #[trigger] s[i] != '/' && s[i] != '\\' && s[i]
        != ':' by {
        assert(!is_forbidden(s[i]));
    }
}

/// A name that is safe already, with no white space at its ends, is kept.
pub proof fn law_safe_name_is_kept(s: Seq<char>)
    requires
        is_safe_name(s),
        !is_white(s.first()) && !is_white(s.last()),
    ensures
        sanitized(s) == s,
{
    assert(replaced(s) =~= s);
}

/// Making a safe name safe again changes nothing, unless taking off dots has
/// laid white space bare at an end of it.
pub proof fn law_sanitized_idempotent(s: Seq<char>)
    requires
        !is_white(sanitized(s).first()) && !is_white(sanitized(s).last()),
    ensures
        sanitized(sanitized(s)) == sanitized(s),
{
    law_sanitized_is_safe(s);
    law_safe_name_is_kept(sanitized(s));
}

/// The name of a media file takes at most its allotted bytes, or one more than
/// its suffix where that alone leaves no room.
pub proof fn law_media_name_is_bounded(title: Seq<char>, extension: Seq<char>)
    ensures
        encode_utf8(media_name(title, extension)).len() <= if encode_utf8(
            media_suffix(extension),
        ).len() < MAX_NAME_BYTES {
            MAX_NAME_BYTES as nat
        } else {
            encode_utf8(media_suffix(extension)).len() + 1
        },
{
    let suffix = media_suffix(extension);
    let base = fitting(sanitized(title), room_before(suffix));
    law_truncated_is_longest(sanitized(title), room_before(suffix));
    lemma_encode_concat(base, suffix);
}

/// The name of a media file ends with its extension, which is never empty, and
/// what stands before that is a prefix of the safe title.
pub proof fn law_media_name_keeps_extension(title: Seq<char>, extension: Seq<char>)
    ensures
        media_suffix(extension).is_suffix_of(media_name(title, extension)),
        media_extension(extension).len() > 0,
        media_name(title, extension).take(
            media_name(title, extension).len() - media_suffix(extension).len(),
        ).is_prefix_of(sanitized(title)),
{
    let suffix = media_suffix(extension);
    let base = fitting(sanitized(title), room_before(suffix));
    law_truncated_is_longest(sanitized(title), room_before(suffix));
    let name = base + suffix;
    assert(name.subrange(name.len() - suffix.len(), name.len() as int) =~= suffix);
    assert(name.take(name.len() - suffix.len()) =~= base);
    reveal_strlit("bin");
    law_sanitized_is_safe(lower(stripped_start(extension, CharClass::Only('.'))));
}

/// A title that fits is kept whole.
pub proof fn law_short_title_is_kept(title: Seq<char>, extension: Seq<char>)
    requires
        encode_utf8(sanitized(title)).len() + encode_utf8(media_suffix(extension)).len()
            <= MAX_NAME_BYTES,
    ensures
        media_name(title, extension) == sanitized(title) + media_suffix(extension),
{
    law_sanitized_is_safe(title);
    lemma_encode_push(sanitized(title).drop_last(), sanitized(title).last());
    assert(sanitized(title).drop_last().push(sanitized(title).last()) =~= sanitized(title));
}

/// The name of a media file holds no forbidden character.
pub proof fn law_media_name_is_clear(title: Seq<char>, extension: Seq<char>)
    ensures
        is_clear(media_name(title, extension)),
        is_plain_name(media_name(title, extension)),
{
    let suffix = media_suffix(extension);
    let base = fitting(sanitized(title), room_before(suffix));
    let name = media_name(title, extension);
    law_truncated_is_longest(sanitized(title), room_before(suffix));
    law_sanitized_is_safe(title);
    law_sanitized_is_safe(lower(stripped_start(extension, CharClass::Only('.'))));
    reveal_strlit(".");
    reveal_strlit("bin");
    assert forall|i: int| 0 <= i < name.len() implies !is_forbidden(#[trigger] name[i]) by {
        if i < base.len() {
            assert(name[i] == sanitized(title)[i]);
        } else if i > base.len() {
            assert(name[i] == media_extension(extension)[i - base.len() - 1]);
        }
    }
    law_safe_name_is_plain(name);
}

/// Where the extension leaves at least eight bytes, the name of a media file is
/// safe.
pub proof fn law_media_name_is_safe(title: Seq<char>, extension: Seq<char>)
    requires
        room_before(media_suffix(extension)) >= 8,
    ensures
        is_safe_name(media_name(title, extension)),
{
    let suffix = media_suffix(extension);
    let room = room_before(suffix);
    let safe = sanitized(title);
    let base = fitting(safe, room);
    let name = media_name(title, extension);
    law_media_name_is_clear(title, extension);
    law_media_name_keeps_extension(title, extension);
    law_truncated_is_longest(safe, room);
    law_sanitized_is_safe(title);
    law_sanitized_is_safe(lower(stripped_start(extension, CharClass::Only('.'))));
    reveal_strlit(".");
    reveal_strlit("bin");
    assert(name.last() == media_extension(extension).last());
    lemma_base_is_long(safe, room);
    assert(base[0] == safe[0]);
    assert(name.first() == base[0]);
    lemma_first_index(safe, '.');
    lemma_first_index(name, '.');
    let i = first_index(name, '.');
    let j = first_index(safe, '.');
    assert(name[base.len() as int] == '.');
    assert(i <= base.len());
    if i < base.len() {
        assert(name[i] == safe[i]);
        if j < i {
            assert(name[j] == safe[j]);
        }
        assert(before_first(name, '.') =~= before_first(safe, '.'));
    } else {
        assert(before_first(name, '.') =~= base);
        if base == safe {
            if j < safe.len() {
                assert(name[j] == '.');
            }
            assert(before_first(safe, '.') =~= base);
        } else if is_device_name(upper(base)) {
            lemma_device_name_is_short(base);
        }
    }
}

/// The name of a device takes at most four bytes.
proof fn lemma_device_name_is_short(s: Seq<char>)
    requires
        is_device_name(upper(s)),
    ensures
        encode_utf8(s).len() <= 4,
{
    let big = upper(s);
    reveal_strlit("CON");
    reveal_strlit("PRN");
    reveal_strlit("AUX");
    reveal_strlit("NUL");
    reveal_strlit("COM");
    reveal_strlit("LPT");
    assert(big.len() <= 4);
    assert forall|i: int| 0 <= i < s.len() implies '\0' <= #[trigger] s[i] <= '\u{7f}' by {
        assert(big[i] == upper_char(s[i]));
        if big.len() == 4 && i < 3 {
            assert(big[i] == big.take(3)[i]);
        }
    }
    is_ascii_chars_encode_utf8(s);
}

/// What fits in eight bytes or more is the whole text, or takes over four bytes.
proof fn lemma_base_is_long(s: Seq<char>, max: nat)
    requires
        s.len() > 0,
        max >= 8,
    ensures
        fitting(s, max).len() > 0,
        fitting(s, max) != s ==> encode_utf8(fitting(s, max)).len() > 4,
{
    let base = fitting(s, max);
    law_truncated_is_longest(s, max);
    if base != s {
        let n = base.len() as int;
        assert(n < s.len()) by {
            if n == s.len() {
                assert(base =~= s);
            }
        }
        assert(s.take(n) =~= base);
        assert(s.take(n + 1) =~= base.push(s[n]));
        lemma_encode_push(base, s[n]);
    }
}

} // verus!
