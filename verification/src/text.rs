//! Text primitives, specified over sequences of characters.

use vstd::prelude::*;
use vstd::string::*;

verus! {

/// `String::push` appends one character to the end of the string.
pub assume_specification[ String::push ](text: &mut String, c: char)
    ensures
        final(text)@ == old(text)@.push(c),
;

/// The code points with the Unicode `White_Space` property.
pub open spec fn is_white(c: char) -> bool {
    ||| '\u{9}' <= c <= '\u{d}'
    ||| c == '\u{20}'
    ||| c == '\u{85}'
    ||| c == '\u{a0}'
    ||| c == '\u{1680}'
    ||| '\u{2000}' <= c <= '\u{200a}'
    ||| '\u{2028}' <= c <= '\u{2029}'
    ||| c == '\u{202f}'
    ||| c == '\u{205f}'
    ||| c == '\u{3000}'
}

/// The code points of the Unicode general category `Cc`.
pub open spec fn is_control_code(c: char) -> bool {
    c <= '\u{1f}' || '\u{7f}' <= c <= '\u{9f}'
}

/// Whether `c` is white space.
pub fn white(c: char) -> (r: bool)
    ensures
        r == is_white(c),
{
    ('\u{9}' <= c && c <= '\u{d}') || c == '\u{20}' || c == '\u{85}' || c == '\u{a0}' || c
        == '\u{1680}' || ('\u{2000}' <= c && c <= '\u{200a}') || ('\u{2028}' <= c && c
        <= '\u{2029}') || c == '\u{202f}' || c == '\u{205f}' || c == '\u{3000}'
}

/// Whether `c` is a control code.
pub fn control_code(c: char) -> (r: bool)
    ensures
        r == is_control_code(c),
{
    c <= '\u{1f}' || ('\u{7f}' <= c && c <= '\u{9f}')
}

/// A set of characters that a text can be trimmed of.
#[derive(Clone, Copy, Debug)]
pub enum CharClass {
    /// All white space.
    White,
    /// One character.
    Only(char),
}

impl CharClass {
    /// Membership in the class.
    pub open spec fn has(self, c: char) -> bool {
        match self {
            CharClass::White => is_white(c),
            CharClass::Only(only) => c == only,
        }
    }

    /// Whether the class holds `c`.
    pub fn holds(self, c: char) -> (r: bool)
        ensures
            r == self.has(c),
    {
        match self {
            CharClass::White => white(c),
            CharClass::Only(only) => c == only,
        }
    }
}

/// `s` without its longest prefix of characters of `class`.
pub open spec fn stripped_start(s: Seq<char>, class: CharClass) -> Seq<char>
    decreases s.len(),
{
    if s.len() > 0 && class.has(s.first()) {
        stripped_start(s.drop_first(), class)
    } else {
        s
    }
}

/// `s` without its longest suffix of characters of `class`.
pub open spec fn stripped_end(s: Seq<char>, class: CharClass) -> Seq<char>
    decreases s.len(),
{
    if s.len() > 0 && class.has(s.last()) {
        stripped_end(s.drop_last(), class)
    } else {
        s
    }
}

/// `s` without characters of `class` at either end.
pub open spec fn stripped(s: Seq<char>, class: CharClass) -> Seq<char> {
    stripped_end(stripped_start(s, class), class)
}

/// `s` without white space at either end.
pub open spec fn trimmed(s: Seq<char>) -> Seq<char> {
    stripped(s, CharClass::White)
}

/// `s` without any repetition of `suffix` at its end.
pub open spec fn without_suffixes(s: Seq<char>, suffix: Seq<char>) -> Seq<char>
    decreases s.len(),
{
    if suffix.len() > 0 && suffix.is_suffix_of(s) {
        without_suffixes(s.take(s.len() - suffix.len()), suffix)
    } else {
        s
    }
}

/// The index of the first `c` in `s`, or the length of `s`.
pub open spec fn first_index(s: Seq<char>, c: char) -> int
    decreases s.len(),
{
    if s.len() == 0 || s.first() == c {
        0
    } else {
        1 + first_index(s.drop_first(), c)
    }
}

/// The index of the last `c` in `s`, or -1.
pub open spec fn last_index(s: Seq<char>, c: char) -> int
    decreases s.len(),
{
    if s.len() == 0 || s.last() == c {
        s.len() - 1
    } else {
        last_index(s.drop_last(), c)
    }
}

/// What stands before the first `c`, or all of `s`.
pub open spec fn before_first(s: Seq<char>, c: char) -> Seq<char> {
    s.take(first_index(s, c))
}

/// What stands after the last `c`, or all of `s`.
pub open spec fn after_last(s: Seq<char>, c: char) -> Seq<char> {
    s.skip(last_index(s, c) + 1)
}

/// The parts of `s` that the separator `c` leaves, empty parts included.
pub open spec fn parts(s: Seq<char>, c: char) -> Seq<Seq<char>>
    decreases s.len(),
    via parts_decreases
{
    let i = first_index(s, c);
    if i < s.len() {
        seq![s.take(i)] + parts(s.skip(i + 1), c)
    } else {
        seq![s]
    }
}

#[via_fn]
proof fn parts_decreases(s: Seq<char>, c: char) {
    lemma_first_index(s, c);
}

/// Whether `pattern` stands in `s` at index `i`.
spec fn stands_at(s: Seq<char>, pattern: Seq<char>, i: int) -> bool {
    0 <= i && i + pattern.len() <= s.len() && s.subrange(i, i + pattern.len()) == pattern
}

/// The first index at which `pattern` stands in `s`.
pub open spec fn position(s: Seq<char>, pattern: Seq<char>) -> Option<int>
    decreases s.len(),
{
    if pattern.is_prefix_of(s) {
        Some(0)
    } else if s.len() == 0 {
        None
    } else {
        match position(s.drop_first(), pattern) {
            Some(i) => Some(i + 1),
            None => None,
        }
    }
}

/// The ASCII lower case of one character.
pub open spec fn lower_char(c: char) -> char {
    if 'A' <= c <= 'Z' {
        (c as u8 + 32) as char
    } else {
        c
    }
}

/// The ASCII upper case of one character.
pub open spec fn upper_char(c: char) -> char {
    if 'a' <= c <= 'z' {
        (c as u8 - 32) as char
    } else {
        c
    }
}

/// `s` with its ASCII letters in lower case.
pub open spec fn lower(s: Seq<char>) -> Seq<char> {
    Seq::new(s.len(), |i: int| lower_char(s[i]))
}

/// `s` with its ASCII letters in upper case.
pub open spec fn upper(s: Seq<char>) -> Seq<char> {
    Seq::new(s.len(), |i: int| upper_char(s[i]))
}

/// The characters of a text that may be missing.
pub open spec fn str_view(text: Option<&str>) -> Option<Seq<char>> {
    match text {
        Some(text) => Some(text@),
        None => None,
    }
}

/// The characters of a text that may be missing.
pub open spec fn string_view(text: Option<String>) -> Option<Seq<char>> {
    match text {
        Some(text) => Some(text@),
        None => None,
    }
}

/// The first index is within bounds, has `c` there, and none before it.
pub proof fn lemma_first_index(s: Seq<char>, c: char)
    ensures
        0 <= first_index(s, c) <= s.len(),
        first_index(s, c) < s.len() ==> s[first_index(s, c)] == c,
        forall|j: int| 0 <= j < first_index(s, c) ==> s[j] != c,
    decreases s.len(),
{
    if s.len() > 0 && s.first() != c {
        let rest = s.drop_first();
        lemma_first_index(rest, c);
        assert forall|j: int| 0 <= j < first_index(s, c) implies s[j] != c by {
            if j > 0 {
                assert(s[j] == rest[j - 1]);
            }
        }
    }
}

/// The last index is within bounds, has `c` there, and none after it.
pub proof fn lemma_last_index(s: Seq<char>, c: char)
    ensures
        -1 <= last_index(s, c) < s.len(),
        last_index(s, c) >= 0 ==> s[last_index(s, c)] == c,
        forall|j: int| last_index(s, c) < j < s.len() ==> s[j] != c,
    decreases s.len(),
{
    if s.len() > 0 && s.last() != c {
        let rest = s.drop_last();
        lemma_last_index(rest, c);
        assert forall|j: int| last_index(s, c) < j < s.len() implies s[j] != c by {
            if j < s.len() - 1 {
                assert(s[j] == rest[j]);
            }
        }
    }
}

/// A text stripped of a class has no character of the class at its ends.
pub proof fn lemma_stripped_ends(s: Seq<char>, class: CharClass)
    ensures
        stripped(s, class).len() > 0 ==> !class.has(stripped(s, class).first()) && !class.has(
            stripped(s, class).last(),
        ),
{
    lemma_stripped_start(s, class);
    lemma_stripped_end(stripped_start(s, class), class);
}

/// Stripping the start leaves a suffix that does not begin with the class.
pub proof fn lemma_stripped_start(s: Seq<char>, class: CharClass)
    ensures
        stripped_start(s, class).is_suffix_of(s),
        stripped_start(s, class).len() > 0 ==> !class.has(stripped_start(s, class).first()),
    decreases s.len(),
{
    if s.len() > 0 && class.has(s.first()) {
        lemma_stripped_start(s.drop_first(), class);
        let r = stripped_start(s, class);
        let t = s.drop_first();
        assert(s.subrange(s.len() - r.len(), s.len() as int) =~= t.subrange(
            t.len() - r.len(),
            t.len() as int,
        ));
    } else {
        assert(s.subrange(0, s.len() as int) =~= s);
    }
}

/// Stripping the end leaves a prefix that does not end with the class.
pub proof fn lemma_stripped_end(s: Seq<char>, class: CharClass)
    ensures
        stripped_end(s, class).is_prefix_of(s),
        stripped_end(s, class).len() > 0 ==> !class.has(stripped_end(s, class).last()),
    decreases s.len(),
{
    if s.len() > 0 && class.has(s.last()) {
        lemma_stripped_end(s.drop_last(), class);
        let r = stripped_end(s, class);
        let t = s.drop_last();
        assert(s.subrange(0, r.len() as int) =~= t.subrange(0, r.len() as int));
    } else {
        assert(s.subrange(0, s.len() as int) =~= s);
    }
}

/// Stripping takes characters off the ends and changes none.
pub proof fn lemma_stripped_window(s: Seq<char>, class: CharClass) -> (from: int)
    ensures
        0 <= from <= from + stripped(s, class).len() <= s.len(),
        stripped(s, class) == s.subrange(from, from + stripped(s, class).len()),
{
    lemma_stripped_start(s, class);
    let t = stripped_start(s, class);
    lemma_stripped_end(t, class);
    let r = stripped_end(t, class);
    let from = s.len() - t.len();
    assert(r =~= s.subrange(from, from + r.len()));
    from
}

/// Trimming a trimmed text changes nothing.
pub proof fn law_trimmed_idempotent(s: Seq<char>)
    ensures
        trimmed(trimmed(s)) == trimmed(s),
{
    lemma_stripped_ends(s, CharClass::White);
}

/// What is stripped off the start is not changed by what follows a character
/// that is not of the class.
pub proof fn lemma_stripped_start_of_joined(head: Seq<char>, tail: Seq<char>, class: CharClass)
    requires
        tail.len() > 0,
        !class.has(tail.first()),
    ensures
        stripped_start(head + tail, class) == stripped_start(head, class) + tail,
    decreases head.len(),
{
    if head.len() == 0 {
        assert(head + tail =~= tail);
    } else {
        assert((head + tail).first() == head.first());
        if class.has(head.first()) {
            assert((head + tail).drop_first() =~= head.drop_first() + tail);
            lemma_stripped_start_of_joined(head.drop_first(), tail, class);
        }
    }
}

/// Whether two texts have white space at the same places.
pub open spec fn is_spaced_alike(s: Seq<char>, t: Seq<char>) -> bool {
    s.len() == t.len() && forall|i: int|
        0 <= i < s.len() ==> is_white(#[trigger] s[i]) == is_white(t[i])
}

/// Texts with white space at the same places are trimmed alike at the start.
proof fn lemma_alike_start(s: Seq<char>, t: Seq<char>) -> (from: int)
    requires
        is_spaced_alike(s, t),
    ensures
        0 <= from <= s.len(),
        stripped_start(s, CharClass::White) == s.skip(from),
        stripped_start(t, CharClass::White) == t.skip(from),
    decreases s.len(),
{
    if s.len() > 0 && is_white(s[0]) {
        let a = s.drop_first();
        let b = t.drop_first();
        assert forall|i: int| 0 <= i < a.len() implies is_white(#[trigger] a[i]) == is_white(
            b[i],
        ) by {
            assert(a[i] == s[i + 1]);
        }
        let rest = lemma_alike_start(a, b);
        assert(a.skip(rest) =~= s.skip(rest + 1));
        assert(b.skip(rest) =~= t.skip(rest + 1));
        rest + 1
    } else {
        assert(s.skip(0) =~= s);
        assert(t.skip(0) =~= t);
        0
    }
}

/// Texts with white space at the same places are trimmed alike at the end.
proof fn lemma_alike_end(s: Seq<char>, t: Seq<char>) -> (to: int)
    requires
        is_spaced_alike(s, t),
    ensures
        0 <= to <= s.len(),
        stripped_end(s, CharClass::White) == s.take(to),
        stripped_end(t, CharClass::White) == t.take(to),
    decreases s.len(),
{
    if s.len() > 0 && is_white(s[s.len() - 1]) {
        let a = s.drop_last();
        let b = t.drop_last();
        assert forall|i: int| 0 <= i < a.len() implies is_white(#[trigger] a[i]) == is_white(
            b[i],
        ) by {
            assert(a[i] == s[i]);
        }
        let to = lemma_alike_end(a, b);
        assert(a.take(to) =~= s.take(to));
        assert(b.take(to) =~= t.take(to));
        to
    } else {
        assert(s.take(s.len() as int) =~= s);
        assert(t.take(t.len() as int) =~= t);
        s.len() as int
    }
}

/// Texts with white space at the same places are trimmed alike.
proof fn lemma_trimmed_alike(s: Seq<char>, t: Seq<char>) -> (window: (int, int))
    requires
        is_spaced_alike(s, t),
    ensures
        0 <= window.0 <= window.1 <= s.len(),
        trimmed(s) == s.subrange(window.0, window.1),
        trimmed(t) == t.subrange(window.0, window.1),
{
    let from = lemma_alike_start(s, t);
    let a = s.skip(from);
    let b = t.skip(from);
    assert forall|i: int| 0 <= i < a.len() implies is_white(#[trigger] a[i]) == is_white(b[i]) by {
        assert(a[i] == s[i + from]);
    }
    let to = lemma_alike_end(a, b);
    assert(a.take(to) =~= s.subrange(from, from + to));
    assert(b.take(to) =~= t.subrange(from, from + to));
    (from, from + to)
}

/// Trimming and changing the case of letters can be done in either order.
pub proof fn law_trimming_keeps_case(s: Seq<char>)
    ensures
        trimmed(lower(s)) == lower(trimmed(s)),
        trimmed(upper(s)) == upper(trimmed(s)),
{
    let (a, b) = lemma_trimmed_alike(s, lower(s));
    assert(lower(s).subrange(a, b) =~= lower(s.subrange(a, b)));
    let (c, d) = lemma_trimmed_alike(s, upper(s));
    assert(upper(s).subrange(c, d) =~= upper(s.subrange(c, d)));
}

/// Lower case is the same of a text in any case.
pub proof fn law_lower_of_cased(s: Seq<char>)
    ensures
        lower(lower(s)) == lower(s),
        lower(upper(s)) == lower(s),
{
    assert(lower(lower(s)) =~= lower(s));
    assert(lower(upper(s)) =~= lower(s));
}

/// Whether `c` does not stand in `s`.
pub open spec fn is_without(s: Seq<char>, c: char) -> bool {
    forall|i: int| 0 <= i < s.len() ==> #[trigger] s[i] != c
}

/// A separator parts off what stands before it.
pub proof fn law_parts_of_joined(head: Seq<char>, c: char, tail: Seq<char>)
    requires
        is_without(head, c),
    ensures
        parts(head + seq![c] + tail, c) == seq![head] + parts(tail, c),
{
    let whole = head + seq![c] + tail;
    lemma_first_index(whole, c);
    let i = first_index(whole, c);
    assert(whole[head.len() as int] == c);
    if i < head.len() {
        assert(whole[i] == head[i]);
    }
    assert(whole.take(i) =~= head);
    assert(whole.skip(i + 1) =~= tail);
}

/// What stands after the last separator is what was put behind it.
pub proof fn law_after_last_of_joined(head: Seq<char>, c: char, tail: Seq<char>)
    requires
        is_without(tail, c),
    ensures
        after_last(head + seq![c] + tail, c) == tail,
{
    let whole = head + seq![c] + tail;
    lemma_last_index(whole, c);
    let last = last_index(whole, c);
    assert(whole[head.len() as int] == c);
    if last > head.len() {
        assert(whole[last] == tail[last - head.len() - 1]);
    }
    assert(whole.skip(last + 1) =~= tail);
}

/// A text without the separator is one part.
pub proof fn law_parts_of_one(s: Seq<char>, c: char)
    requires
        is_without(s, c),
    ensures
        parts(s, c) == seq![s],
{
    lemma_first_index(s, c);
    if first_index(s, c) < s.len() {
        assert(s[first_index(s, c)] != c);
    }
}

/// What holds no separator and is put behind a text is put behind its last part.
pub proof fn law_last_part_grows(s: Seq<char>, c: char, tail: Seq<char>)
    requires
        is_without(tail, c),
    ensures
        parts(s, c).len() > 0,
        parts(s + tail, c) == parts(s, c).drop_last().push(parts(s, c).last() + tail),
        s.len() > 0 && s.last() != c ==> parts(s, c).last().len() > 0,
    decreases s.len(),
{
    let whole = s + tail;
    let i = first_index(s, c);
    lemma_first_index(s, c);
    lemma_first_index(whole, c);
    if i < s.len() {
        let rest = s.skip(i + 1);
        let j = first_index(whole, c);
        assert(whole[i] == s[i]);
        if j < i {
            assert(whole[j] == s[j]);
        }
        assert(whole.take(i) =~= s.take(i));
        assert(whole.skip(i + 1) =~= rest + tail);
        law_last_part_grows(rest, c, tail);
        assert(parts(whole, c) =~= parts(s, c).drop_last().push(
            parts(s, c).last() + tail,
        ));
        if s.last() != c {
            assert(rest.len() > 0);
            assert(rest.last() == s.last());
        }
    } else {
        assert forall|k: int| 0 <= k < whole.len() implies #[trigger] whole[k] != c by {
            if k < s.len() {
                assert(whole[k] == s[k]);
            } else {
                assert(whole[k] == tail[k - s.len()]);
            }
        }
        law_parts_of_one(whole, c);
        assert(parts(s, c) == seq![s]);
        assert(parts(whole, c) =~= parts(s, c).drop_last().push(
            parts(s, c).last() + tail,
        ));
    }
}

/// The parts of two texts with a separator between them are the parts of the one
/// and those of the other.
pub proof fn law_parts_of_two(s: Seq<char>, c: char, t: Seq<char>)
    ensures
        parts(s + seq![c] + t, c) == parts(s, c) + parts(t, c),
    decreases s.len(),
{
    let i = first_index(s, c);
    lemma_first_index(s, c);
    if i < s.len() {
        let head = s.take(i);
        let rest = s.skip(i + 1);
        assert forall|k: int| 0 <= k < head.len() implies #[trigger] head[k] != c by {
            assert(head[k] == s[k]);
        }
        assert(s + seq![c] + t =~= head + seq![c] + (rest + seq![c] + t));
        law_parts_of_joined(head, c, rest + seq![c] + t);
        law_parts_of_two(rest, c, t);
        assert(parts(s + seq![c] + t, c) =~= parts(s, c) + parts(t, c));
    } else {
        assert(is_without(s, c));
        law_parts_of_joined(s, c, t);
    }
}

/// The characters of `text`, in order.
pub fn characters(text: &str) -> (chars: Vec<char>)
    ensures
        chars@ == text@,
{
    let mut chars: Vec<char> = Vec::new();
    for c in it: text.chars()
        invariant
            chars@ == it.seq().take(it.index()),
            it.seq() == text@,
    {
        chars.push(c);
    }
    chars
}

/// Whether two texts hold the same characters.
pub fn same(a: &str, b: &str) -> (r: bool)
    ensures
        r == (a@ == b@),
{
    let x = characters(a);
    let y = characters(b);
    x.len() == y.len() && matches_at(&x, &y, 0)
}

/// Whether `pattern` stands in `chars` at index `at`.
fn matches_at(chars: &Vec<char>, pattern: &Vec<char>, at: usize) -> (r: bool)
    requires
        at + pattern@.len() <= chars@.len(),
    ensures
        r == stands_at(chars@, pattern@, at as int),
        chars@.len() == pattern@.len() ==> r == (chars@ == pattern@),
{
    let ghost window = chars@.subrange(at as int, at + pattern@.len());
    for i in 0..pattern.len()
        invariant
            at + pattern@.len() <= chars.len(),
            window == chars@.subrange(at as int, at + pattern@.len()),
            forall|j: int| 0 <= j < i ==> window[j] == pattern@[j],
    {
        if chars[at + i] != pattern[i] {
            assert(window[i as int] != pattern@[i as int]);
            assert(chars@.len() == pattern@.len() ==> chars@ != pattern@);
            return false;
        }
    }
    assert(window =~= pattern@);
    assert(chars@.len() == pattern@.len() ==> chars@ =~= window);
    true
}

/// `text` followed by `tail`.
pub fn joined(text: &str, tail: &str) -> (r: String)
    ensures
        r@ == text@ + tail@,
{
    let mut r = text.to_owned();
    r.append(tail);
    r
}

/// `text` without its leading characters of `class`.
pub fn strip_start<'a>(text: &'a str, class: CharClass) -> (r: &'a str)
    ensures
        r@ == stripped_start(text@, class),
{
    let chars = characters(text);
    let mut start: usize = 0;
    assert(chars@.skip(0) =~= chars@);
    while start < chars.len() && class.holds(chars[start])
        invariant
            start <= chars@.len(),
            chars@ == text@,
            stripped_start(chars@.skip(start as int), class) == stripped_start(text@, class),
        decreases chars@.len() - start,
    {
        assert(chars@.skip(start as int).drop_first() =~= chars@.skip(start + 1));
        start = start + 1;
    }
    text.substring_char(start, chars.len())
}

/// `text` without its trailing characters of `class`.
pub fn strip_end<'a>(text: &'a str, class: CharClass) -> (r: &'a str)
    ensures
        r@ == stripped_end(text@, class),
{
    let chars = characters(text);
    let mut end: usize = chars.len();
    assert(chars@.take(end as int) =~= chars@);
    while end > 0 && class.holds(chars[end - 1])
        invariant
            end <= chars@.len(),
            chars@ == text@,
            stripped_end(chars@.take(end as int), class) == stripped_end(text@, class),
        decreases end,
    {
        assert(chars@.take(end as int).drop_last() =~= chars@.take(end - 1));
        end = end - 1;
    }
    text.substring_char(0, end)
}

/// `text` without characters of `class` at either end.
pub fn strip<'a>(text: &'a str, class: CharClass) -> (r: &'a str)
    ensures
        r@ == stripped(text@, class),
{
    strip_end(strip_start(text, class), class)
}

/// `text` without white space at either end.
pub fn trim<'a>(text: &'a str) -> (r: &'a str)
    ensures
        r@ == trimmed(text@),
{
    strip(text, CharClass::White)
}

/// What follows `prefix` in `text`, where `text` begins with it.
pub fn after_prefix<'a>(text: &'a str, prefix: &str) -> (r: Option<&'a str>)
    ensures
        r is Some <==> prefix@.is_prefix_of(text@),
        r matches Some(rest) ==> rest@ == text@.skip(prefix@.len() as int),
{
    let chars = characters(text);
    let pattern = characters(prefix);
    if pattern.len() <= chars.len() && matches_at(&chars, &pattern, 0) {
        Some(text.substring_char(pattern.len(), chars.len()))
    } else {
        None
    }
}

/// What precedes `suffix` in `text`, where `text` ends with it.
pub fn before_suffix<'a>(text: &'a str, suffix: &str) -> (r: Option<&'a str>)
    ensures
        r is Some <==> suffix@.is_suffix_of(text@),
        r matches Some(rest) ==> rest@ == text@.take(text@.len() - suffix@.len()),
{
    let chars = characters(text);
    let pattern = characters(suffix);
    if pattern.len() <= chars.len() && matches_at(&chars, &pattern, chars.len() - pattern.len()) {
        Some(text.substring_char(0, chars.len() - pattern.len()))
    } else {
        None
    }
}

/// Whether `text` begins with `prefix`.
pub fn begins_with(text: &str, prefix: &str) -> (r: bool)
    ensures
        r == prefix@.is_prefix_of(text@),
{
    after_prefix(text, prefix).is_some()
}

/// Whether `text` ends with `suffix`.
pub fn ends_with(text: &str, suffix: &str) -> (r: bool)
    ensures
        r == suffix@.is_suffix_of(text@),
{
    before_suffix(text, suffix).is_some()
}

/// `text` without any repetition of `suffix` at its end.
pub fn strip_suffixes<'a>(text: &'a str, suffix: &str) -> (r: &'a str)
    ensures
        r@ == without_suffixes(text@, suffix@),
{
    if suffix.is_empty() {
        return text;
    }
    let mut rest = text;
    loop
        invariant
            suffix@.len() > 0,
            without_suffixes(rest@, suffix@) == without_suffixes(text@, suffix@),
        decreases rest@.len(),
    {
        match before_suffix(rest, suffix) {
            Some(shorter) => {
                rest = shorter;
            },
            None => {
                return rest;
            },
        }
    }
}

/// The index of the first `c` from `from` on, or the length.
fn index_from(chars: &Vec<char>, c: char, from: usize) -> (r: usize)
    requires
        from <= chars@.len(),
    ensures
        from <= r <= chars@.len(),
        r == from + first_index(chars@.skip(from as int), c),
{
    let mut i: usize = from;
    while i < chars.len() && chars[i] != c
        invariant
            from <= i <= chars@.len(),
            from + first_index(chars@.skip(from as int), c) == i + first_index(
                chars@.skip(i as int),
                c,
            ),
        decreases chars@.len() - i,
    {
        assert(chars@.skip(i as int).drop_first() =~= chars@.skip(i + 1));
        i = i + 1;
    }
    i
}

/// What stands before the first `c`, or all of `text`.
pub fn until_first<'a>(text: &'a str, c: char) -> (r: &'a str)
    ensures
        r@ == before_first(text@, c),
{
    let chars = characters(text);
    let i = index_from(&chars, c, 0);
    assert(chars@.skip(0) =~= chars@);
    text.substring_char(0, i)
}

/// What stands after the last `c`, or all of `text`.
pub fn since_last<'a>(text: &'a str, c: char) -> (r: &'a str)
    ensures
        r@ == after_last(text@, c),
{
    let chars = characters(text);
    let mut start: usize = chars.len();
    assert(chars@.take(start as int) =~= chars@);
    while start > 0 && chars[start - 1] != c
        invariant
            start <= chars@.len(),
            chars@ == text@,
            last_index(chars@.take(start as int), c) == last_index(text@, c),
        decreases start,
    {
        assert(chars@.take(start as int).drop_last() =~= chars@.take(start - 1));
        start = start - 1;
    }
    text.substring_char(start, chars.len())
}

/// The parts of `text` that the separator `c` leaves, empty parts included.
pub fn split<'a>(text: &'a str, c: char) -> (r: Vec<&'a str>)
    ensures
        r@.len() == parts(text@, c).len(),
        forall|i: int| 0 <= i < r@.len() ==> (#[trigger] r@[i])@ == parts(text@, c)[i],
{
    let chars = characters(text);
    let mut r: Vec<&'a str> = Vec::new();
    let mut start: usize = 0;
    let ghost mut done: Seq<Seq<char>> = seq![];
    assert(chars@.skip(0) =~= chars@);
    assert(done + parts(chars@.skip(0), c) =~= parts(text@, c));
    loop
        invariant
            start <= chars@.len(),
            chars@ == text@,
            done + parts(chars@.skip(start as int), c) == parts(text@, c),
            r@.len() == done.len(),
            forall|i: int| 0 <= i < r@.len() ==> (#[trigger] r@[i])@ == done[i],
        decreases chars@.len() - start,
    {
        let i = index_from(&chars, c, start);
        let ghost rest = chars@.skip(start as int);
        r.push(text.substring_char(start, i));
        proof {
            assert(rest.take(i - start) =~= chars@.subrange(start as int, i as int));
            let before = done;
            done = done.push(rest.take(i - start));
            if i < chars@.len() {
                assert(rest.skip(i - start + 1) =~= chars@.skip(i + 1));
                assert(done + parts(rest.skip(i - start + 1), c) =~= before + parts(rest, c));
            } else {
                assert(rest.take(i - start) =~= rest);
                assert(done =~= before + parts(rest, c));
            }
        }
        if i < chars.len() {
            start = i + 1;
        } else {
            return r;
        }
    }
}

/// A text shorter than the pattern does not hold it.
proof fn lemma_too_short(s: Seq<char>, pattern: Seq<char>)
    requires
        s.len() < pattern.len(),
    ensures
        position(s, pattern) is None,
    decreases s.len(),
{
    if s.len() > 0 {
        lemma_too_short(s.drop_first(), pattern);
    }
}

/// The first index at which `pattern` stands in `text`, in characters.
pub fn find(text: &str, pattern: &str) -> (r: Option<usize>)
    ensures
        r is Some <==> position(text@, pattern@) is Some,
        r matches Some(i) ==> position(text@, pattern@) == Some(i as int),
{
    let chars = characters(text);
    let wanted = characters(pattern);
    let mut i: usize = 0;
    assert(chars@.skip(0) =~= chars@);
    while i <= chars.len() && wanted.len() <= chars.len() - i
        invariant
            chars@ == text@,
            wanted@ == pattern@,
            i <= chars@.len(),
            position(chars@.skip(i as int), pattern@) is Some <==> position(text@, pattern@)
                is Some,
            position(chars@.skip(i as int), pattern@) matches Some(k) ==> position(text@, pattern@)
                == Some(i + k),
        decreases chars@.len() - i,
    {
        let ghost rest = chars@.skip(i as int);
        assert(rest.subrange(0, pattern@.len() as int) =~= chars@.subrange(
            i as int,
            i + pattern@.len(),
        ));
        if matches_at(&chars, &wanted, i) {
            assert(pattern@.is_prefix_of(rest));
            return Some(i);
        }
        assert(!pattern@.is_prefix_of(rest));
        if i == chars.len() {
            return None;
        }
        assert(rest.drop_first() =~= chars@.skip(i + 1));
        i = i + 1;
    }
    proof {
        lemma_too_short(chars@.skip(i as int), pattern@);
    }
    None
}

/// Whether `pattern` stands anywhere in `text`.
pub fn contains(text: &str, pattern: &str) -> (r: bool)
    ensures
        r == (position(text@, pattern@) is Some),
{
    find(text, pattern).is_some()
}

/// `text` with its ASCII letters in lower case.
pub fn to_lower(text: &str) -> (r: String)
    ensures
        r@ == lower(text@),
{
    let mut r = String::new();
    for c in it: text.chars()
        invariant
            it.seq() == text@,
            r@ == lower(text@).take(it.index()),
    {
        if 'A' <= c && c <= 'Z' {
            r.push((c as u8 + 32) as char);
        } else {
            r.push(c);
        }
    }
    r
}

/// `text` with its ASCII letters in upper case.
pub fn to_upper(text: &str) -> (r: String)
    ensures
        r@ == upper(text@),
{
    let mut r = String::new();
    for c in it: text.chars()
        invariant
            it.seq() == text@,
            r@ == upper(text@).take(it.index()),
    {
        if 'a' <= c && c <= 'z' {
            r.push((c as u8 - 32) as char);
        } else {
            r.push(c);
        }
    }
    r
}

} // verus!
