//! What lines of progress and speeds come to, said of the texts themselves.

use vstd::prelude::*;

use crate::number::{
    decimal, is_digit, law_number_of_decimal, lemma_decimal, number, numeral_digits,
};
use crate::progress::{
    bare_speed, is_speed, parse_progress, progress, progress_of_fields, scaled, settled_total,
    size_field, speed_unit, ProgressLine,
};
use crate::text::{
    is_white, is_without, law_parts_of_joined, law_parts_of_one, lower, parts, position,
    stripped_end, trimmed, CharClass,
};
use crate::text_laws::{is_all, is_blank, law_search_finds, law_trimmed_of_wrapped};

verus! {

/// Whether `field` writes the number `n`, with nothing but white space around it.
pub open spec fn is_numeral_of(field: Seq<char>, n: u64) -> bool {
    exists|a: Seq<char>, b: Seq<char>|
        is_blank(a) && is_blank(b) && field == #[trigger] (a + decimal(n as nat) + b)
}

/// Whether `field` holds a character that stands in no number.
pub open spec fn is_no_numeral(field: Seq<char>) -> bool {
    exists|i: int|
        0 <= i < field.len() && !is_white(#[trigger] field[i]) && !('0' <= field[i] <= '9')
            && field[i] != '+'
}

proof fn lemma_numeral_is_read(field: Seq<char>, n: u64)
    requires
        is_numeral_of(field, n),
    ensures
        number(trimmed(field)) == Some(n),
{
    let (a, b) = choose|a: Seq<char>, b: Seq<char>|
        is_blank(a) && is_blank(b) && field == #[trigger] (a + decimal(n as nat) + b);
    let digits = decimal(n as nat);
    lemma_decimal(n as nat);
    assert(is_digit(digits[0]));
    assert(is_digit(digits[digits.len() - 1]));
    law_trimmed_of_wrapped(a, digits, b);
    law_number_of_decimal(n);
}

proof fn lemma_no_numeral_is_read(field: Seq<char>)
    requires
        is_no_numeral(field),
    ensures
        number(trimmed(field)) is None,
{
    let i = choose|i: int|
        0 <= i < field.len() && !is_white(#[trigger] field[i]) && !('0' <= field[i] <= '9')
            && field[i] != '+';
    let from = lemma_kept_by_trimming(field, i);
    let text = trimmed(field);
    let k = i - from;
    assert(text[k] == field[i]);
    let digits = numeral_digits(text);
    if text[0] == '+' {
        assert(k > 0);
        assert(digits[k - 1] == text[k]);
        assert(!is_digit(digits[k - 1]));
    } else {
        assert(digits[k] == text[k]);
        assert(!is_digit(digits[k]));
    }
}

/// What is not white space is kept by trimming.
proof fn lemma_kept_by_trimming(s: Seq<char>, i: int) -> (from: int)
    requires
        0 <= i < s.len(),
        !is_white(s[i]),
    ensures
        0 <= from <= i < from + trimmed(s).len() <= s.len(),
        trimmed(s) == s.subrange(from, from + trimmed(s).len()),
    decreases s.len(),
{
    if is_white(s[0]) {
        let rest = s.drop_first();
        assert(rest[i - 1] == s[i]);
        let inner = lemma_kept_by_trimming(rest, i - 1);
        assert(rest.subrange(inner, inner + trimmed(rest).len()) =~= s.subrange(
            inner + 1,
            inner + 1 + trimmed(rest).len(),
        ));
        inner + 1
    } else {
        lemma_kept_by_end(s, i);
        0
    }
}

proof fn lemma_kept_by_end(s: Seq<char>, i: int)
    requires
        0 <= i < s.len(),
        !is_white(s[i]),
    ensures
        ({
            let r = stripped_end(s, CharClass::White);
            i < r.len() <= s.len() && r == s.subrange(0, r.len() as int)
        }),
    decreases s.len(),
{
    if is_white(s.last()) {
        let rest = s.drop_last();
        assert(rest[i] == s[i]);
        lemma_kept_by_end(rest, i);
        let r = stripped_end(rest, CharClass::White);
        assert(rest.subrange(0, r.len() as int) =~= s.subrange(0, r.len() as int));
    } else {
        assert(s.subrange(0, s.len() as int) =~= s);
    }
}

/// A field is the size that it writes, unless that is zero, and one that writes
/// no number is none.
pub proof fn law_size_fields(field: Seq<char>, n: u64)
    ensures
        is_numeral_of(field, n) && n > 0 ==> size_field(field) == Some(n),
        is_numeral_of(field, 0) ==> size_field(field) is None,
        is_no_numeral(field) ==> size_field(field) is None,
{
    if is_numeral_of(field, n) {
        lemma_numeral_is_read(field, n);
    }
    if is_numeral_of(field, 0) {
        lemma_numeral_is_read(field, 0);
    }
    if is_no_numeral(field) {
        lemma_no_numeral_is_read(field);
    }
}

/// A line with at least five fields behind its first `download:`.
pub open spec fn line_of_fields(
    before: Seq<char>,
    downloaded: Seq<char>,
    total: Seq<char>,
    estimate: Seq<char>,
    speed: Seq<char>,
    percent: Seq<char>,
    more: Option<Seq<char>>,
) -> Seq<char> {
    let bar = seq!['|'];
    let fields = downloaded + bar + (total + bar + (estimate + bar + (speed + bar + (match more {
        Some(more) => percent + bar + more,
        None => percent,
    }))));
    before + "download:"@ + fields
}

/// Whether the marker of progress does not stand earlier than behind `before`.
pub open spec fn is_before_marker(before: Seq<char>) -> bool {
    let whole = before + "download:"@;
    forall|j: int|
        0 <= j < before.len() ==> #[trigger] whole.subrange(j, j + "download:"@.len())
            != "download:"@
}

/// A line of progress says what its fields say: the bytes so far; the size where
/// that is a number above zero, else the estimate where that is one, else none;
/// the speed as it is written; and the percentage without its sign. What stands
/// before the marker, and further fields, make no difference.
pub proof fn law_line_says_what_its_fields_say(
    before: Seq<char>,
    downloaded: Seq<char>,
    total: Seq<char>,
    estimate: Seq<char>,
    speed: Seq<char>,
    percent: Seq<char>,
    more: Option<Seq<char>>,
    d: u64,
    n: u64,
    m: u64,
)
    requires
        is_before_marker(before),
        is_without(downloaded, '|'),
        is_without(total, '|'),
        is_without(estimate, '|'),
        is_without(speed, '|'),
        is_without(percent, '|'),
    ensures
        ({
            let said = progress(
                line_of_fields(before, downloaded, total, estimate, speed, percent, more),
            );
            let untold = is_numeral_of(total, 0) || is_no_numeral(total);
            let unguessed = is_numeral_of(estimate, 0) || is_no_numeral(estimate);
            &&& is_numeral_of(downloaded, d) ==> {
                &&& said matches Some(line)
                &&& line.downloaded == d
                &&& line.speed == speed
                &&& line.percent == trimmed(
                    stripped_end(trimmed(percent), CharClass::Only('%')),
                )
                &&& is_numeral_of(total, n) && n > 0 ==> line.total == Some(n)
                &&& untold && is_numeral_of(estimate, m) && m > 0 ==> line.total == Some(m)
                &&& untold && unguessed ==> line.total is None
            }
            &&& is_no_numeral(downloaded) ==> said is None
        }),
{
    let line = line_of_fields(before, downloaded, total, estimate, speed, percent, more);
    let bar = seq!['|'];
    let tail4 = match more {
        Some(more) => percent + bar + more,
        None => percent,
    };
    let tail3 = speed + bar + tail4;
    let tail2 = estimate + bar + tail3;
    let tail1 = total + bar + tail2;
    let data = downloaded + bar + tail1;
    if let Some(more) = more {
        law_parts_of_joined(percent, '|', more);
    } else {
        law_parts_of_one(percent, '|');
    }
    law_parts_of_joined(speed, '|', tail4);
    law_parts_of_joined(estimate, '|', tail3);
    law_parts_of_joined(total, '|', tail2);
    law_parts_of_joined(downloaded, '|', tail1);
    let fields = parts(data, '|');
    assert(fields.len() >= 5);
    assert(fields[0] == downloaded && fields[1] == total && fields[2] == estimate && fields[3]
        == speed && fields[4] == percent);
    lemma_marker_is_found(before, data);
    law_size_fields(total, n);
    law_size_fields(estimate, m);
    if is_numeral_of(downloaded, d) {
        lemma_numeral_is_read(downloaded, d);
    }
    if is_no_numeral(downloaded) {
        lemma_no_numeral_is_read(downloaded);
    }
}

proof fn lemma_marker_is_found(before: Seq<char>, data: Seq<char>)
    requires
        is_before_marker(before),
    ensures
        progress(before + "download:"@ + data) == progress_of_fields(parts(data, '|')),
{
    let marker = "download:"@;
    let whole = before + marker + data;
    let n = marker.len();
    law_search_finds(whole, marker);
    assert(whole == before + marker + data);
    let i = position(whole, marker)->0;
    assert(whole.subrange(before.len() as int, before.len() + n as int) =~= marker);
    if i < before.len() {
        assert(whole.subrange(i, i + n) =~= (before + marker).subrange(i, i + n));
    }
    assert(i == before.len());
    assert(whole.skip(i + n) =~= data);
}

/// A line without the marker says nothing of progress, and neither does one with
/// fewer than five fields behind it.
pub proof fn law_other_lines_say_nothing(line: Seq<char>, before: Seq<char>, data: Seq<char>)
    ensures
        !crate::text_laws::holds_text(line, "download:"@) ==> progress(line) is None,
        is_before_marker(before) && parts(data, '|').len() < 5 ==> progress(
            before + "download:"@ + data,
        ) is None,
{
    law_search_finds(line, "download:"@);
    if is_before_marker(before) {
        lemma_marker_is_found(before, data);
    }
}

/// A percentage is what stands before its signs, without white space.
pub proof fn law_percentage_loses_its_sign(
    a: Seq<char>,
    figure: Seq<char>,
    b: Seq<char>,
    signs: Seq<char>,
    c: Seq<char>,
)
    requires
        is_blank(a),
        is_blank(b),
        is_blank(c),
        is_all(signs, CharClass::Only('%')),
        signs.len() > 0 || b.len() == 0,
        figure.len() > 0,
        !is_white(figure.first()) && !is_white(figure.last()),
        figure.last() != '%',
    ensures
        trimmed(stripped_end(trimmed(a + figure + b + signs + c), CharClass::Only('%'))) == figure,
{
    let inner = figure + b + signs;
    let none = Seq::<char>::empty();
    let class = CharClass::Only('%');
    assert(a + figure + b + signs + c =~= a + inner + c);
    assert(inner.first() == figure.first());
    if signs.len() > 0 {
        assert(class.has(signs[signs.len() - 1]));
        assert(inner.last() == signs[signs.len() - 1]);
    } else {
        assert(inner =~= figure);
    }
    law_trimmed_of_wrapped(a, inner, c);
    let kept = figure + b;
    if b.len() > 0 {
        assert(kept.last() == b[b.len() - 1]);
        assert(is_white(b[b.len() - 1]));
    } else {
        assert(kept =~= figure);
    }
    lemma_strip_signs(kept, signs);
    assert(inner =~= kept + signs);
    law_trimmed_of_wrapped(none, figure, b);
    assert(none + figure + b =~= kept);
}

proof fn lemma_strip_signs(s: Seq<char>, signs: Seq<char>)
    requires
        is_all(signs, CharClass::Only('%')),
        s.len() == 0 || s.last() != '%',
    ensures
        stripped_end(s + signs, CharClass::Only('%')) == s,
    decreases signs.len(),
{
    if signs.len() == 0 {
        assert(s + signs =~= s);
    } else {
        assert(CharClass::Only('%').has(signs[signs.len() - 1]));
        assert((s + signs).last() == signs[signs.len() - 1]);
        assert((s + signs).drop_last() =~= s + signs.drop_last());
        assert forall|i: int| 0 <= i < signs.drop_last().len() implies CharClass::Only('%').has(
            #[trigger] signs.drop_last()[i],
        ) by {
            assert(signs.drop_last()[i] == signs[i]);
        }
        lemma_strip_signs(s, signs.drop_last());
    }
}

/// The units of speeds: binary ones are powers of 1024, decimal ones of 1000.
pub open spec fn is_unit(name: Seq<char>, bytes: u64) -> bool {
    ||| name == "kib"@ && bytes == 1024
    ||| name == "mib"@ && bytes == 1024 * 1024
    ||| name == "gib"@ && bytes == 1024 * 1024 * 1024
    ||| name == "kb"@ && bytes == 1000
    ||| name == "mb"@ && bytes == 1000 * 1000
    ||| name == "gb"@ && bytes == 1000 * 1000 * 1000
}

/// A figure with a unit behind it counts in that unit, and what ends in no unit
/// counts in none.
pub proof fn law_units(speed: Seq<char>, figure: Seq<char>, name: Seq<char>, bytes: u64)
    ensures
        is_unit(name, bytes) ==> speed_unit(figure + name) == Some((trimmed(figure), bytes)),
        (forall|other: Seq<char>, size: u64| #[trigger]
            is_unit(other, size) ==> !other.is_suffix_of(speed)) ==> speed_unit(speed) is None,
{
    reveal_strlit("kib");
    reveal_strlit("mib");
    reveal_strlit("gib");
    reveal_strlit("kb");
    reveal_strlit("mb");
    reveal_strlit("gb");
    assert(is_unit("kib"@, 1024));
    assert(is_unit("mib"@, 1048576));
    assert(is_unit("gib"@, 1073741824));
    assert(is_unit("kb"@, 1000));
    assert(is_unit("mb"@, 1000000));
    assert(is_unit("gb"@, 1000000000));
    if is_unit(name, bytes) {
        lemma_unit(figure, name, bytes);
    }
}

proof fn lemma_unit(figure: Seq<char>, name: Seq<char>, bytes: u64)
    requires
        is_unit(name, bytes),
    ensures
        speed_unit(figure + name) == Some((trimmed(figure), bytes)),
{
    reveal_strlit("kib");
    reveal_strlit("mib");
    reveal_strlit("gib");
    reveal_strlit("kb");
    reveal_strlit("mb");
    reveal_strlit("gb");
    let s = figure + name;
    let n = s.len() as int;
    assert(s.subrange(n - name.len(), n) =~= name);
    assert(s.take(n - name.len()) =~= figure);
    assert(s[n - 1] == 'b');
    assert(s[n - 2] == name[name.len() - 2]);
    if name.len() == 3 {
        assert(s[n - 3] == name[0]);
    }
    if n >= 3 {
        assert(s.subrange(n - 3, n)[0] == s[n - 3]);
        assert(s.subrange(n - 3, n)[1] == s[n - 2]);
    }
    assert(s.subrange(n - 2, n)[0] == s[n - 2]);
}

/// Where it is settled what figures are worth, a speed is worth its figure, else
/// its figure in its unit, else nothing.
pub proof fn law_speed_is_worth_its_figure<F: Fn(&str, u64) -> Option<u64>>(
    scale: F,
    worth: spec_fn(Seq<char>, u64) -> Option<u64>,
    value: Seq<char>,
    r: u64,
    figure: Seq<char>,
    name: Seq<char>,
    bytes: u64,
)
    requires
        is_speed(scale, value, r),
        forall|f: Seq<char>, unit: u64, answer: Option<u64>| #[trigger]
            scaled(scale, f, unit, answer) ==> answer == worth(f, unit),
    ensures
        ({
            let speed = lower(bare_speed(value));
            &&& worth(speed, 1) matches Some(plain) ==> r == plain
            &&& worth(speed, 1) is None && speed == figure + name && is_unit(name, bytes) ==> (
            match worth(trimmed(figure), bytes) {
                Some(counted) => r == counted,
                None => r == 0,
            })
            &&& worth(speed, 1) is None && (forall|other: Seq<char>, size: u64| #[trigger]
                is_unit(other, size) ==> !other.is_suffix_of(speed)) ==> r == 0
        }),
{
    law_units(lower(bare_speed(value)), figure, name, bytes);
}

/// A size that is told is kept, and only one that is not told is estimated.
pub proof fn law_told_total_is_kept(total: Option<u64>, estimate: Option<u64>, r: Option<u64>)
    requires
        call_ensures(settled_total, (total, estimate), r),
    ensures
        total is Some ==> r == total,
        total is None ==> r == estimate,
{
}

/// What is read of a line is what its fields say.
pub proof fn law_line_is_read(
    line: &str,
    r: Option<ProgressLine>,
    before: Seq<char>,
    total: Seq<char>,
    estimate: Seq<char>,
    speed: Seq<char>,
    percent: Seq<char>,
    d: u64,
    n: u64,
)
    requires
        call_ensures(parse_progress, (line,), r),
        is_before_marker(before),
        is_without(total, '|'),
        is_without(estimate, '|'),
        is_without(speed, '|'),
        is_without(percent, '|'),
        is_numeral_of(total, n),
        n > 0,
        line@ == line_of_fields(
            before,
            decimal(d as nat),
            total,
            estimate,
            speed,
            percent,
            None,
        ),
    ensures
        r matches Some(said) && said.downloaded == d && said.total == Some(n) && said.speed@
            == speed,
{
    let digits = decimal(d as nat);
    let none = Seq::<char>::empty();
    lemma_decimal(d as nat);
    assert forall|i: int| 0 <= i < digits.len() implies #[trigger] digits[i] != '|' by {
        assert(is_digit(digits[i]));
    }
    assert(digits =~= none + digits + none);
    assert(is_numeral_of(digits, d));
    law_line_says_what_its_fields_say(
        before,
        digits,
        total,
        estimate,
        speed,
        percent,
        None,
        d,
        n,
        n,
    );
}

} // verus!
