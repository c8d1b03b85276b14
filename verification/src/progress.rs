//! Progress lines of the media downloader.

use vstd::prelude::*;
use vstd::string::*;

use crate::number::{
    decimal, is_digit, law_number_of_decimal, lemma_decimal, number, read_number,
};
use crate::text::{
    before_suffix, characters, find, is_without, law_lower_of_cased, law_parts_of_joined,
    law_parts_of_one, law_trimmed_idempotent, law_trimming_keeps_case, lemma_stripped_start,
    lemma_stripped_start_of_joined, lemma_stripped_window, lower, parts, position, split, strip_end,
    strip_suffixes, stripped_end, stripped_start, to_lower, trim, trimmed, upper, without_suffixes,
    CharClass,
};

verus! {

/// What one progress line says. Speed and percentage are kept as they were
/// written: they are decimal fractions.
#[derive(Clone, Debug)]
pub struct ProgressLine {
    /// The bytes downloaded so far.
    pub downloaded: u64,
    /// The size of the download: the exact one, else the estimate.
    pub total: Option<u64>,
    /// The speed, with its unit.
    pub speed: String,
    /// The percentage, without its sign.
    pub percent: String,
}

/// The characters of a [`ProgressLine`].
#[verifier::ext_equal]
pub struct ProgressView {
    pub downloaded: u64,
    pub total: Option<u64>,
    pub speed: Seq<char>,
    pub percent: Seq<char>,
}

impl View for ProgressLine {
    type V = ProgressView;

    open spec fn view(&self) -> ProgressView {
        ProgressView {
            downloaded: self.downloaded,
            total: self.total,
            speed: self.speed@,
            percent: self.percent@,
        }
    }
}

/// The view of a line that may be no progress line.
pub open spec fn progress_view(line: Option<ProgressLine>) -> Option<ProgressView> {
    match line {
        Some(line) => Some(line@),
        None => None,
    }
}

/// The size that a field gives. Zero is no size.
pub open spec fn size_field(field: Seq<char>) -> Option<u64> {
    match number(trimmed(field)) {
        Some(size) if size > 0 => Some(size),
        _ => None,
    }
}

/// What the fields of a progress line say: bytes so far, size, estimated size,
/// speed and percentage.
pub open spec fn progress_of_fields(fields: Seq<Seq<char>>) -> Option<ProgressView> {
    if fields.len() < 5 {
        None
    } else {
        match number(trimmed(fields[0])) {
            None => None,
            Some(downloaded) => Some(
                ProgressView {
                    downloaded,
                    total: if size_field(fields[1]) is Some {
                        size_field(fields[1])
                    } else {
                        size_field(fields[2])
                    },
                    speed: fields[3],
                    percent: trimmed(stripped_end(trimmed(fields[4]), CharClass::Only('%'))),
                },
            ),
        }
    }
}

/// What a line says of the progress: the fields after the first `download:`,
/// at least five, parted by bars. Any other line says nothing.
pub open spec fn progress(line: Seq<char>) -> Option<ProgressView> {
    match position(line, "download:"@) {
        None => None,
        Some(i) => progress_of_fields(parts(line.skip(i + "download:"@.len()), '|')),
    }
}

/// The size that a field gives.
fn read_size(field: &str) -> (r: Option<u64>)
    ensures
        r == size_field(field@),
{
    match read_number(trim(field)) {
        Some(size) => if size > 0 {
            Some(size)
        } else {
            None
        },
        None => None,
    }
}

/// A pattern that is found leaves no less than the text from its end on.
proof fn lemma_position_fits(s: Seq<char>, pattern: Seq<char>)
    ensures
        position(s, pattern) matches Some(i) ==> 0 <= i && i + pattern.len() <= s.len(),
    decreases s.len(),
{
    if !pattern.is_prefix_of(s) && s.len() > 0 {
        lemma_position_fits(s.drop_first(), pattern);
    }
}

/// Reads a line of the media downloader. `None` where it reports no progress.
pub fn parse_progress(line: &str) -> (r: Option<ProgressLine>)
    ensures
        progress_view(r) == progress(line@),
{
    proof {
        lemma_position_fits(line@, "download:"@);
        reveal_strlit("download:");
    }
    let marker: usize = match find(line, "download:") {
        Some(marker) => marker,
        None => {
            return None;
        },
    };
    let chars = characters(line);
    let end: usize = chars.len();
    assert(marker + 9 <= end);
    let data = line.substring_char(marker + 9, end);
    assert(data@ =~= line@.skip(marker + 9));
    let fields = split(data, '|');
    if fields.len() < 5 {
        return None;
    }
    assert(fields@[0]@ == parts(data@, '|')[0]);
    match read_number(trim(fields[0])) {
        Some(downloaded) => {
            let total = match read_size(fields[1]) {
                Some(size) => Some(size),
                None => read_size(fields[2]),
            };
            Some(
                ProgressLine {
                    downloaded,
                    total,
                    speed: fields[3].to_owned(),
                    percent: trim(strip_end(trim(fields[4]), CharClass::Only('%'))).to_owned(),
                },
            )
        },
        None => None,
    }
}

/// The size of a download: what the line says, else what follows from the
/// bytes so far and the percentage.
pub fn settled_total(total: Option<u64>, estimate: Option<u64>) -> (r: Option<u64>)
    ensures
        r == if total is Some {
            total
        } else {
            estimate
        },
{
    match total {
        Some(total) => Some(total),
        None => estimate,
    }
}

/// The speed as written, without white space and without `/s` at its end.
pub open spec fn bare_speed(value: Seq<char>) -> Seq<char> {
    trimmed(without_suffixes(trimmed(value), "/s"@))
}

/// The figure and the size of the unit of a speed in lower case.
pub open spec fn speed_unit(speed: Seq<char>) -> Option<(Seq<char>, u64)> {
    if "gib"@.is_suffix_of(speed) {
        Some((trimmed(speed.take(speed.len() - "gib"@.len())), 1073741824))
    } else if "mib"@.is_suffix_of(speed) {
        Some((trimmed(speed.take(speed.len() - "mib"@.len())), 1048576))
    } else if "kib"@.is_suffix_of(speed) {
        Some((trimmed(speed.take(speed.len() - "kib"@.len())), 1024))
    } else if "gb"@.is_suffix_of(speed) {
        Some((trimmed(speed.take(speed.len() - "gb"@.len())), 1000000000))
    } else if "mb"@.is_suffix_of(speed) {
        Some((trimmed(speed.take(speed.len() - "mb"@.len())), 1000000))
    } else if "kb"@.is_suffix_of(speed) {
        Some((trimmed(speed.take(speed.len() - "kb"@.len())), 1000))
    } else {
        None
    }
}

/// The figure and the size of the unit of a speed in lower case. At most one
/// unit ends it.
fn read_speed_unit<'a>(speed: &'a str) -> (r: Option<(&'a str, u64)>)
    ensures
        r is Some <==> speed_unit(speed@) is Some,
        r matches Some((figure, unit)) ==> speed_unit(speed@) == Some((figure@, unit)),
{
    if let Some(figure) = before_suffix(speed, "gib") {
        Some((trim(figure), 1073741824))
    } else if let Some(figure) = before_suffix(speed, "mib") {
        Some((trim(figure), 1048576))
    } else if let Some(figure) = before_suffix(speed, "kib") {
        Some((trim(figure), 1024))
    } else if let Some(figure) = before_suffix(speed, "gb") {
        Some((trim(figure), 1000000000))
    } else if let Some(figure) = before_suffix(speed, "mb") {
        Some((trim(figure), 1000000))
    } else if let Some(figure) = before_suffix(speed, "kb") {
        Some((trim(figure), 1000))
    } else {
        None
    }
}

/// Whether `scale` was able to give `answer` of a figure times a unit.
pub open spec fn scaled<F: Fn(&str, u64) -> Option<u64>>(
    scale: F,
    figure: Seq<char>,
    unit: u64,
    answer: Option<u64>,
) -> bool {
    exists|f: &str| f@ == figure && #[trigger] call_ensures(scale, (f, unit), answer)
}

/// Whether `r` is the speed that `value` writes, by what `scale` gave: that of a
/// bare figure, else that of a figure with a unit, else zero. Both are read in
/// lower case.
pub open spec fn is_speed<F: Fn(&str, u64) -> Option<u64>>(
    scale: F,
    value: Seq<char>,
    r: u64,
) -> bool {
    let speed = lower(bare_speed(value));
    ||| scaled(scale, speed, 1, Some(r))
    ||| scaled(scale, speed, 1, None) && match speed_unit(speed) {
        Some((figure, unit)) => {
            ||| scaled(scale, figure, unit, Some(r))
            ||| scaled(scale, figure, unit, None) && r == 0
        },
        None => r == 0,
    }
}

/// A speed in bytes per second. `scale` multiplies a decimal figure by a unit,
/// or gives `None` where the text is no figure. The speed is read first as a
/// bare figure, then as a figure with a unit. What is neither counts as zero.
/// The case of letters means nothing in a decimal figure, as in a unit, so that
/// `scale` is only given lower case.
pub fn parse_speed<F: Fn(&str, u64) -> Option<u64>>(value: &str, scale: F) -> (r: u64)
    requires
        forall|figure: &str, unit: u64| call_requires(scale, (figure, unit)),
    ensures
        is_speed(scale, value@, r),
{
    let lowered = to_lower(trim(strip_suffixes(trim(value), "/s")));
    if let Some(bytes) = scale(lowered.as_str(), 1) {
        return bytes;
    }
    if let Some((figure, unit)) = read_speed_unit(lowered.as_str()) {
        if let Some(bytes) = scale(figure, unit) {
            return bytes;
        }
    }
    0
}

/// A text without a slash has no `/s` to lose.
proof fn lemma_no_suffix(s: Seq<char>)
    requires
        is_without(s, '/'),
    ensures
        without_suffixes(s, "/s"@) == s,
{
    reveal_strlit("/s");
    if "/s"@.is_suffix_of(s) {
        assert(s.subrange(s.len() - 2, s.len() as int)[0] == '/');
        assert(s[s.len() - 2] == '/');
    }
}

/// A part of a text without a slash is without one.
proof fn lemma_trimmed_without_slash(s: Seq<char>)
    requires
        is_without(s, '/'),
    ensures
        is_without(trimmed(s), '/'),
        is_without(stripped_start(s, CharClass::White), '/'),
{
    let from = lemma_stripped_window(s, CharClass::White);
    assert forall|i: int| 0 <= i < trimmed(s).len() implies #[trigger] trimmed(s)[i] != '/' by {
        assert(trimmed(s)[i] == s[from + i]);
    }
    lemma_stripped_start(s, CharClass::White);
    let rest = stripped_start(s, CharClass::White);
    assert forall|i: int| 0 <= i < rest.len() implies #[trigger] rest[i] != '/' by {
        assert(rest[i] == s[s.len() - rest.len() + i]);
    }
}

/// The bare speed of a text without a slash is the text trimmed.
pub proof fn law_plain_speed_is_trimmed(value: Seq<char>)
    requires
        is_without(value, '/'),
    ensures
        bare_speed(value) == trimmed(value),
{
    lemma_trimmed_without_slash(value);
    lemma_no_suffix(trimmed(value));
    law_trimmed_idempotent(value);
}

/// That a speed is per second need not be written: `/s` behind a speed without a
/// slash makes no difference.
pub proof fn law_per_second_is_ignored(value: Seq<char>)
    requires
        is_without(value, '/'),
    ensures
        bare_speed(value + "/s"@) == bare_speed(value),
{
    reveal_strlit("/s");
    let whole = value + "/s"@;
    let rest = stripped_start(value, CharClass::White);
    lemma_stripped_start_of_joined(value, "/s"@, CharClass::White);
    assert((rest + "/s"@).last() == 's');
    assert(trimmed(whole) == rest + "/s"@);
    lemma_trimmed_without_slash(value);
    let both = rest + "/s"@;
    assert(both.subrange(both.len() - 2, both.len() as int) =~= "/s"@);
    assert(both.take(both.len() - 2) =~= rest);
    lemma_no_suffix(rest);
    assert(without_suffixes(both, "/s"@) == rest);
    law_plain_speed_is_trimmed(value);
    lemma_stripped_start(value, CharClass::White);
}

/// What is taken off a speed without a slash leaves the case of its letters.
pub proof fn law_bare_speed_keeps_case(value: Seq<char>)
    requires
        is_without(value, '/'),
    ensures
        bare_speed(lower(value)) == lower(bare_speed(value)),
        bare_speed(upper(value)) == upper(bare_speed(value)),
{
    assert forall|i: int| 0 <= i < value.len() implies #[trigger] lower(value)[i] != '/' by {
        assert(value[i] != '/');
    }
    assert forall|i: int| 0 <= i < value.len() implies #[trigger] upper(value)[i] != '/' by {
        assert(value[i] != '/');
    }
    law_plain_speed_is_trimmed(value);
    law_plain_speed_is_trimmed(lower(value));
    law_plain_speed_is_trimmed(upper(value));
    law_trimming_keeps_case(value);
}

/// A speed without a slash reads the same with `/s` behind it, and with its
/// letters in lower or upper case.
pub proof fn law_speed_reads_the_same<F: Fn(&str, u64) -> Option<u64>>(
    scale: F,
    value: Seq<char>,
    r: u64,
)
    requires
        is_without(value, '/'),
    ensures
        is_speed(scale, value + "/s"@, r) == is_speed(scale, value, r),
        is_speed(scale, lower(value), r) == is_speed(scale, value, r),
        is_speed(scale, upper(value), r) == is_speed(scale, value, r),
{
    law_per_second_is_ignored(value);
    law_bare_speed_keeps_case(value);
    law_lower_of_cased(bare_speed(value));
}

/// A line of progress with the given fields.
pub open spec fn progress_text(
    downloaded: Seq<char>,
    total: Seq<char>,
    estimate: Seq<char>,
    speed: Seq<char>,
    percent: Seq<char>,
) -> Seq<char> {
    "download:"@ + downloaded + seq!['|'] + total + seq!['|'] + estimate + seq!['|'] + speed
        + seq!['|'] + percent
}

/// A numeral has no white space to trim and no bar in it.
proof fn lemma_numeral(n: u64)
    ensures
        trimmed(decimal(n as nat)) == decimal(n as nat),
        is_without(decimal(n as nat), '|'),
{
    let digits = decimal(n as nat);
    lemma_decimal(n as nat);
    assert(is_digit(digits[0]));
    assert(is_digit(digits[digits.len() - 1]));
    assert forall|i: int| 0 <= i < digits.len() implies #[trigger] digits[i] != '|' by {
        assert(is_digit(digits[i]));
    }
}

/// What the media downloader reports of its progress is read back: the bytes so
/// far, the size, which is the exact one where that is a number above zero and
/// the estimate otherwise, the speed and the percentage.
pub proof fn law_progress_is_read_back(
    downloaded: u64,
    total: Seq<char>,
    estimate: Seq<char>,
    speed: Seq<char>,
    percent: Seq<char>,
)
    requires
        is_without(total, '|'),
        is_without(estimate, '|'),
        is_without(speed, '|'),
        is_without(percent, '|'),
    ensures
        progress(progress_text(decimal(downloaded as nat), total, estimate, speed, percent))
            == Some(
            ProgressView {
                downloaded,
                total: if size_field(total) is Some {
                    size_field(total)
                } else {
                    size_field(estimate)
                },
                speed,
                percent: trimmed(stripped_end(trimmed(percent), CharClass::Only('%'))),
            },
        ),
{
    let digits = decimal(downloaded as nat);
    let line = progress_text(digits, total, estimate, speed, percent);
    lemma_numeral(downloaded);
    law_number_of_decimal(downloaded);
    let tail4 = percent;
    let tail3 = speed + seq!['|'] + tail4;
    let tail2 = estimate + seq!['|'] + tail3;
    let tail1 = total + seq!['|'] + tail2;
    let data = digits + seq!['|'] + tail1;
    law_parts_of_one(tail4, '|');
    law_parts_of_joined(speed, '|', tail4);
    law_parts_of_joined(estimate, '|', tail3);
    law_parts_of_joined(total, '|', tail2);
    law_parts_of_joined(digits, '|', tail1);
    let fields = seq![digits, total, estimate, speed, percent];
    assert(parts(data, '|') =~= fields);
    let n = "download:"@.len() as int;
    assert(line.subrange(0, n) =~= "download:"@);
    assert(line.skip(n) =~= data);
}

/// A size that is written as a number above zero is that number.
pub proof fn law_size_is_read_back(size: u64)
    requires
        size > 0,
    ensures
        size_field(decimal(size as nat)) == Some(size),
{
    lemma_numeral(size);
    law_number_of_decimal(size);
}

} // verus!
