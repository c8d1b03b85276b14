//! What the text primitives give of texts that are put together.

use vstd::prelude::*;

use crate::text::{
    before_first, first_index, is_white, is_without, lemma_first_index, lower, position, stripped,
    stripped_end, stripped_start, trimmed, upper, without_suffixes, CharClass,
};

verus! {

/// Whether all of `s` is of `class`.
pub open spec fn is_all(s: Seq<char>, class: CharClass) -> bool {
    forall|i: int| 0 <= i < s.len() ==> class.has(#[trigger] s[i])
}

/// Whether all of `s` is white space.
pub open spec fn is_blank(s: Seq<char>) -> bool {
    forall|i: int| 0 <= i < s.len() ==> is_white(#[trigger] s[i])
}

/// Whether `s` has no character of `class` at its ends.
pub open spec fn has_bare_ends(s: Seq<char>, class: CharClass) -> bool {
    s.len() == 0 || !class.has(s.first()) && !class.has(s.last())
}

proof fn lemma_strip_front(a: Seq<char>, s: Seq<char>, class: CharClass)
    requires
        is_all(a, class),
        s.len() == 0 || !class.has(s.first()),
    ensures
        stripped_start(a + s, class) == s,
    decreases a.len(),
{
    if a.len() == 0 {
        assert(a + s =~= s);
    } else {
        assert((a + s).first() == a[0]);
        assert((a + s).drop_first() =~= a.drop_first() + s);
        assert forall|i: int| 0 <= i < a.drop_first().len() implies class.has(
            #[trigger] a.drop_first()[i],
        ) by {
            assert(a.drop_first()[i] == a[i + 1]);
        }
        lemma_strip_front(a.drop_first(), s, class);
    }
}

proof fn lemma_strip_back(s: Seq<char>, b: Seq<char>, class: CharClass)
    requires
        is_all(b, class),
        s.len() == 0 || !class.has(s.last()),
    ensures
        stripped_end(s + b, class) == s,
    decreases b.len(),
{
    if b.len() == 0 {
        assert(s + b =~= s);
    } else {
        assert((s + b).last() == b[b.len() - 1]);
        assert((s + b).drop_last() =~= s + b.drop_last());
        assert forall|i: int| 0 <= i < b.drop_last().len() implies class.has(
            #[trigger] b.drop_last()[i],
        ) by {
            assert(b.drop_last()[i] == b[i]);
        }
        lemma_strip_back(s, b.drop_last(), class);
    }
}

/// Stripping takes off exactly what was put around a text with bare ends.
pub proof fn law_stripped_of_wrapped(a: Seq<char>, s: Seq<char>, b: Seq<char>, class: CharClass)
    requires
        is_all(a, class),
        is_all(b, class),
        has_bare_ends(s, class),
    ensures
        stripped(a + s + b, class) == s,
        stripped_start(a + s, class) == s,
        stripped_end(s + b, class) == s,
{
    lemma_strip_front(a, s, class);
    lemma_strip_back(s, b, class);
    if s.len() > 0 {
        assert(a + s + b =~= a + (s + b));
        assert((s + b).first() == s.first());
        lemma_strip_front(a, s + b, class);
    } else {
        let whole = a + s + b;
        assert(whole =~= a + b);
        assert forall|i: int| 0 <= i < whole.len() implies class.has(#[trigger] whole[i]) by {
            if i < a.len() {
                assert(whole[i] == a[i]);
            } else {
                assert(whole[i] == b[i - a.len()]);
            }
        }
        assert(whole + s =~= whole);
        lemma_strip_front(whole, s, class);
    }
}

/// Trimming takes off exactly the white space that was put around a text.
pub proof fn law_trimmed_of_wrapped(a: Seq<char>, s: Seq<char>, b: Seq<char>)
    requires
        is_blank(a),
        is_blank(b),
        s.len() == 0 || !is_white(s.first()) && !is_white(s.last()),
    ensures
        trimmed(a + s + b) == s,
{
    assert(is_all(a, CharClass::White));
    assert(is_all(b, CharClass::White));
    law_stripped_of_wrapped(a, s, b, CharClass::White);
}

/// A text with bare ends is trimmed already.
pub proof fn law_trimmed_of_bare(s: Seq<char>)
    requires
        s.len() == 0 || !is_white(s.first()) && !is_white(s.last()),
    ensures
        trimmed(s) == s,
{
    law_trimmed_of_wrapped(seq![], s, seq![]);
    assert(seq![] + s + seq![] =~= s);
}

/// A blank text is trimmed to nothing, and only such a text is.
pub proof fn law_trimmed_of_blank(s: Seq<char>)
    ensures
        is_blank(s) <==> trimmed(s).len() == 0,
{
    if is_blank(s) {
        law_trimmed_of_wrapped(s, seq![], seq![]);
        assert(s + seq![] + seq![] =~= s);
    } else {
        let i = choose|i: int| 0 <= i < s.len() && !is_white(#[trigger] s[i]);
        lemma_start_keeps(s, i);
    }
}

proof fn lemma_start_keeps(s: Seq<char>, i: int)
    requires
        0 <= i < s.len(),
        !is_white(s[i]),
    ensures
        trimmed(s).len() > 0,
    decreases s.len(),
{
    if is_white(s[0]) {
        assert(s.drop_first()[i - 1] == s[i]);
        lemma_start_keeps(s.drop_first(), i - 1);
    } else {
        lemma_end_keeps(s);
    }
}

proof fn lemma_end_keeps(s: Seq<char>)
    requires
        s.len() > 0,
        !is_white(s[0]),
    ensures
        stripped_end(s, CharClass::White).len() > 0,
    decreases s.len(),
{
    if is_white(s.last()) {
        assert(s.drop_last()[0] == s[0]);
        lemma_end_keeps(s.drop_last());
    }
}

/// What stands before the first separator is what was put before it.
pub proof fn law_before_first_of_joined(head: Seq<char>, c: char, tail: Seq<char>)
    requires
        is_without(head, c),
    ensures
        before_first(head + seq![c] + tail, c) == head,
        before_first(head, c) == head,
{
    let whole = head + seq![c] + tail;
    lemma_first_index(whole, c);
    lemma_first_index(head, c);
    let i = first_index(whole, c);
    assert(whole[head.len() as int] == c);
    if i < head.len() {
        assert(whole[i] == head[i]);
    }
    assert(whole.take(i) =~= head);
    if first_index(head, c) < head.len() {
        assert(head[first_index(head, c)] != c);
    }
    assert(head.take(head.len() as int) =~= head);
}

/// Whether `pattern` stands somewhere in `s`.
pub open spec fn holds_text(s: Seq<char>, pattern: Seq<char>) -> bool {
    exists|a: Seq<char>, b: Seq<char>| s == #[trigger] (a + pattern + b)
}

/// A search finds a pattern exactly where there is one: what it finds is the
/// pattern, and it stands nowhere before that.
pub proof fn law_search_finds(s: Seq<char>, pattern: Seq<char>)
    ensures
        position(s, pattern) is Some <==> holds_text(s, pattern),
        position(s, pattern) matches Some(i) ==> {
            &&& 0 <= i
            &&& i + pattern.len() <= s.len()
            &&& s.subrange(i, i + pattern.len()) == pattern
            &&& forall|j: int|
                0 <= j < i && j + pattern.len() <= s.len() ==> #[trigger] s.subrange(
                    j,
                    j + pattern.len(),
                ) != pattern
        },
{
    lemma_position(s, pattern);
    if position(s, pattern) is Some {
        let i = position(s, pattern)->0;
        let a = s.take(i);
        let b = s.skip(i + pattern.len());
        assert(s =~= a + pattern + b);
    }
    if holds_text(s, pattern) {
        let (a, b) = choose|a: Seq<char>, b: Seq<char>| s == #[trigger] (a + pattern + b);
        assert(s.subrange(a.len() as int, a.len() as int + pattern.len()) =~= pattern);
    }
}

proof fn lemma_position(s: Seq<char>, pattern: Seq<char>)
    ensures
        position(s, pattern) matches Some(i) ==> {
            &&& 0 <= i
            &&& i + pattern.len() <= s.len()
            &&& s.subrange(i, i + pattern.len()) == pattern
            &&& forall|j: int|
                0 <= j < i && j + pattern.len() <= s.len() ==> #[trigger] s.subrange(
                    j,
                    j + pattern.len(),
                ) != pattern
        },
        position(s, pattern) is None ==> forall|j: int|
            0 <= j && j + pattern.len() <= s.len() ==> #[trigger] s.subrange(j, j + pattern.len())
                != pattern,
    decreases s.len(),
{
    if pattern.is_prefix_of(s) {
        assert(s.subrange(0, pattern.len() as int) == pattern);
    } else if s.len() == 0 {
        assert(s.subrange(0, 0) =~= s);
        assert(pattern.len() > 0) by {
            if pattern.len() == 0 {
                assert(s.subrange(0, 0) =~= pattern);
            }
        }
    } else {
        let rest = s.drop_first();
        lemma_position(rest, pattern);
        let n = pattern.len();
        assert forall|j: int| 1 <= j && j + n <= s.len() implies #[trigger] s.subrange(j, j + n)
            == rest.subrange(j - 1, j - 1 + n) by {
            assert(s.subrange(j, j + n) =~= rest.subrange(j - 1, j - 1 + n));
        }
    }
}

/// Lower case leaves everything but the letters from `A` to `Z`, and gives each
/// of those its small letter.
pub proof fn law_lower_case(s: Seq<char>, i: int)
    requires
        0 <= i < s.len(),
    ensures
        lower(s).len() == s.len(),
        upper(s).len() == s.len(),
        'A' <= s[i] <= 'Z' ==> lower(s)[i] as int == s[i] as int + 32,
        !('A' <= s[i] <= 'Z') ==> lower(s)[i] == s[i],
        'a' <= s[i] <= 'z' ==> upper(s)[i] as int == s[i] as int - 32,
        !('a' <= s[i] <= 'z') ==> upper(s)[i] == s[i],
{
}

/// Lower case is taken of each part of a text.
pub proof fn law_lower_of_joined(a: Seq<char>, b: Seq<char>)
    ensures
        lower(a + b) == lower(a) + lower(b),
{
    assert(lower(a + b) =~= lower(a) + lower(b));
}

/// A repeated suffix is taken off as often as it was put on.
pub proof fn law_suffixes_are_taken_off(s: Seq<char>, suffix: Seq<char>)
    requires
        suffix.len() > 0,
    ensures
        without_suffixes(s + suffix, suffix) == without_suffixes(s, suffix),
        !suffix.is_suffix_of(s) ==> without_suffixes(s, suffix) == s,
{
    let whole = s + suffix;
    assert(whole.subrange(whole.len() - suffix.len(), whole.len() as int) =~= suffix);
    assert(whole.take(whole.len() - suffix.len()) =~= s);
}

} // verus!
