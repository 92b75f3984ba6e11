//! Times and lists of times as text.

use crate::clock::nanos_of;
use crate::clock::NANOS_PER_MILLI;
use crate::clock::NANOS_PER_SEC;
use std::time::Duration;
use vstd::prelude::*;

verus! {

/// The character of the digit `d`.
pub open spec fn digit(d: nat) -> char
    recommends
        d < 10,
{
    if d == 0 {
        '0'
    } else if d == 1 {
        '1'
    } else if d == 2 {
        '2'
    } else if d == 3 {
        '3'
    } else if d == 4 {
        '4'
    } else if d == 5 {
        '5'
    } else if d == 6 {
        '6'
    } else if d == 7 {
        '7'
    } else if d == 8 {
        '8'
    } else {
        '9'
    }
}

/// The number `n` in decimal digits, without leading zeros.
pub open spec fn decimal(n: nat) -> Seq<char>
    decreases n,
{
    if n < 10 {
        seq![digit(n)]
    } else {
        decimal(n / 10).push(digit(n % 10))
    }
}

/// The number `n` in decimal digits, with a leading zero where it has one
/// digit only.
pub open spec fn padded(n: nat) -> Seq<char> {
    if n < 10 {
        seq!['0', digit(n)]
    } else {
        decimal(n)
    }
}

/// The whole seconds in a length of `nanos` nanoseconds.
pub open spec fn whole_seconds(nanos: nat) -> nat {
    nanos / (NANOS_PER_SEC as nat)
}

/// The whole milliseconds in the fraction of a second that a length of
/// `nanos` nanoseconds ends with.
pub open spec fn fraction_millis(nanos: nat) -> nat {
    (nanos % (NANOS_PER_SEC as nat)) / (NANOS_PER_MILLI as nat)
}

/// A length of `nanos` nanoseconds as a solve time: seconds and hundredths,
/// with minutes before them from one minute on and hours before those from
/// one hour on. What is less than a hundredth is cut off.
pub open spec fn solve_time_text(nanos: nat) -> Seq<char> {
    let hours = whole_seconds(nanos) / 3600;
    let minutes = (whole_seconds(nanos) % 3600) / 60;
    let seconds = whole_seconds(nanos) % 60;
    let hundredths = fraction_millis(nanos) / 10;
    if hours == 0 && minutes == 0 {
        decimal(seconds) + seq!['.'] + padded(hundredths)
    } else if hours == 0 {
        decimal(minutes) + seq![':'] + padded(seconds) + seq!['.'] + padded(hundredths)
    } else {
        decimal(hours) + seq![':'] + padded(minutes) + seq![':'] + padded(seconds) + seq!['.']
            + padded(hundredths)
    }
}

/// A length of `nanos` nanoseconds as a clock reading: minutes, seconds and
/// milliseconds, the first two with two digits at least.
pub open spec fn clock_text(nanos: nat) -> Seq<char> {
    padded(whole_seconds(nanos) / 60) + seq![':'] + padded(whole_seconds(nanos) % 60) + seq![':']
        + decimal(fraction_millis(nanos))
}

/// The digit `d` as text.
fn digit_text(d: u64) -> (text: &'static str)
    requires
        d < 10,
    ensures
        text@ == seq![digit(d as nat)],
{
    proof {
        reveal_strlit("0");
        reveal_strlit("1");
        reveal_strlit("2");
        reveal_strlit("3");
        reveal_strlit("4");
        reveal_strlit("5");
        reveal_strlit("6");
        reveal_strlit("7");
        reveal_strlit("8");
        reveal_strlit("9");
    }
    if d == 0 {
        "0"
    } else if d == 1 {
        "1"
    } else if d == 2 {
        "2"
    } else if d == 3 {
        "3"
    } else if d == 4 {
        "4"
    } else if d == 5 {
        "5"
    } else if d == 6 {
        "6"
    } else if d == 7 {
        "7"
    } else if d == 8 {
        "8"
    } else {
        "9"
    }
}

/// Writes `n` in decimal digits at the end of `text`.
fn push_decimal(text: &mut String, n: u64)
    ensures
        final(text)@ == old(text)@ + decimal(n as nat),
    decreases n,
{
    if n >= 10 {
        push_decimal(text, n / 10);
    }
    text.append(digit_text(n % 10));
}

/// Writes `n` with two digits at least at the end of `text`.
fn push_padded(text: &mut String, n: u64)
    ensures
        final(text)@ == old(text)@ + padded(n as nat),
{
    if n < 10 {
        proof {
            reveal_strlit("0");
        }
        text.append("0");
    }
    push_decimal(text, n);
}

/// The solve time `time` as text, to the hundredth of a second.
pub fn format_time(time: Duration) -> (text: String)
    ensures
        text@ == solve_time_text(nanos_of(time)),
{
    let total_seconds: u64 = time.as_secs();
    let hours: u64 = total_seconds / 3600;
    let minutes: u64 = (total_seconds % 3600) / 60;
    let seconds: u64 = total_seconds % 60;
    let millis: u32 = time.subsec_nanos() / 1_000_000;
    let hundredths: u64 = (millis / 10) as u64;
    proof {
        reveal_strlit(":");
        reveal_strlit(".");
    }
    let mut text: String = String::new();
    if hours == 0 && minutes == 0 {
        push_decimal(&mut text, seconds);
    } else if hours == 0 {
        push_decimal(&mut text, minutes);
        text.append(":");
        push_padded(&mut text, seconds);
    } else {
        push_decimal(&mut text, hours);
        text.append(":");
        push_padded(&mut text, minutes);
        text.append(":");
        push_padded(&mut text, seconds);
    }
    text.append(".");
    push_padded(&mut text, hundredths);
    text
}

/// The time `time` as a clock reading: minutes, seconds and milliseconds.
pub fn render_time(time: Duration) -> (text: String)
    ensures
        text@ == clock_text(nanos_of(time)),
{
    let total_seconds: u64 = time.as_secs();
    let millis: u32 = time.subsec_nanos() / 1_000_000;
    proof {
        reveal_strlit(":");
    }
    let mut text: String = String::new();
    push_padded(&mut text, total_seconds / 60);
    text.append(":");
    push_padded(&mut text, total_seconds % 60);
    text.append(":");
    push_decimal(&mut text, millis as u64);
    text
}

/// The line of statistics: the mean and the standard deviation as they are
/// written, or `DNF` and `-1` in their places where there is none.
pub open spec fn stats_text(mean: Option<Seq<char>>, deviation: Option<Seq<char>>) -> Seq<char> {
    "avg: "@ + (match mean {
        Some(text) => text,
        None => "DNF"@,
    }) + " (σ = "@ + (match deviation {
        Some(text) => text,
        None => "-1"@,
    }) + ")"@
}

/// The line that shows the mean and the standard deviation, each as it was
/// written by the caller.
pub fn stats_line(mean: Option<String>, deviation: Option<String>) -> (line: String)
    ensures
        line@ == stats_text(
            match mean {
                Some(text) => Some(text@),
                None => None,
            },
            match deviation {
                Some(text) => Some(text@),
                None => None,
            },
        ),
{
    let mut line: String = String::from_str("avg: ");
    match mean {
        Some(text) => line.append(text.as_str()),
        None => line.append("DNF"),
    }
    line.append(" (σ = ");
    match deviation {
        Some(text) => line.append(text.as_str()),
        None => line.append("-1"),
    }
    line.append(")");
    line
}

/// The number of extended grapheme clusters in `text`: what counting the
/// items of `UnicodeSegmentation::graphemes` gives.
pub uninterp spec fn grapheme_count(text: Seq<char>) -> nat;

/// Whether `c` is white space in the sense of Unicode: a character with the
/// property `White_Space`.
pub open spec fn is_white_space(c: char) -> bool {
    let code = c as u32;
    ||| 0x0009 <= code <= 0x000d
    ||| code == 0x0020
    ||| code == 0x0085
    ||| code == 0x00a0
    ||| code == 0x1680
    ||| 0x2000 <= code <= 0x200a
    ||| code == 0x2028
    ||| code == 0x2029
    ||| code == 0x202f
    ||| code == 0x205f
    ||| code == 0x3000
}

/// Counts the extended grapheme clusters of `text` with
/// `UnicodeSegmentation::graphemes`. The count depends on the characters of
/// `text` alone.
#[verifier::external_body]
fn count_graphemes(text: &str) -> (count: usize)
    ensures
        count == grapheme_count(text@),
{
    unicode_segmentation::UnicodeSegmentation::graphemes(text, true).count()
}

/// `str::trim_end` returns the slice without its trailing white space: a
/// prefix of the slice that does not end in white space, after which only
/// white space follows.
pub assume_specification[ str::trim_end ](text: &str) -> (kept: &str)
    ensures
        kept@.len() <= text@.len(),
        kept@ == text@.take(kept@.len() as int),
        kept@.len() > 0 ==> !is_white_space(kept@.last()),
        forall|i: int| kept@.len() <= i < text@.len() ==> is_white_space(#[trigger] text@[i]),
;

/// `text` without the white space that it ends with.
pub open spec fn trimmed_end(text: Seq<char>) -> Seq<char>
    decreases text.len(),
{
    if text.len() > 0 && is_white_space(text.last()) {
        trimmed_end(text.drop_last())
    } else {
        text
    }
}

/// The separator between two times in a line.
pub open spec fn separator() -> Seq<char> {
    seq![',', ' ']
}

/// What the time at place `i` adds to a line: the time, and the separator
/// unless the time is the last one.
pub open spec fn addition(times: Seq<Seq<char>>, i: int) -> Seq<char> {
    if i == times.len() - 1 {
        times[i]
    } else {
        times[i] + separator()
    }
}

/// The lines that are full, and the line that is being filled.
pub struct Layout {
    pub full: Seq<Seq<char>>,
    pub open: Seq<char>,
}

/// The layout after the first `k` of `times` have been placed.
///
/// A time goes to the open line where the line then still has `max_width`
/// grapheme clusters at most. Else the open line is closed, unless it is
/// empty, and the time opens the next one.
pub open spec fn laid_out(times: Seq<Seq<char>>, k: int, max_width: nat) -> Layout
    decreases k,
{
    if k <= 0 {
        Layout { full: Seq::empty(), open: Seq::empty() }
    } else {
        let before = laid_out(times, k - 1, max_width);
        let added = addition(times, k - 1);
        if grapheme_count(before.open) + grapheme_count(added) <= max_width {
            Layout { full: before.full, open: before.open + added }
        } else if before.open.len() > 0 {
            Layout { full: before.full.push(before.open), open: added }
        } else {
            Layout { full: before.full, open: added }
        }
    }
}

/// The lines that `times` are laid out in, as they are filled: the full
/// lines, and the open line unless it is empty.
pub open spec fn drafted(times: Seq<Seq<char>>, max_width: nat) -> Seq<Seq<char>> {
    let end = laid_out(times, times.len() as int, max_width);
    if end.open.len() > 0 {
        end.full.push(end.open)
    } else {
        end.full
    }
}

/// Each of `lines` without the white space at its end.
pub open spec fn trimmed_lines(lines: Seq<Seq<char>>) -> Seq<Seq<char>> {
    lines.map_values(|line: Seq<char>| trimmed_end(line))
}

/// The lines that `times` are laid out in: the lines as they are filled,
/// each without the white space at its end.
pub open spec fn segmented(times: Seq<Seq<char>>, max_width: nat) -> Seq<Seq<char>> {
    trimmed_lines(drafted(times, max_width))
}

/// The texts of `lines`, one behind the other.
pub open spec fn glued(lines: Seq<Seq<char>>) -> Seq<char>
    decreases lines.len(),
{
    if lines.len() == 0 {
        Seq::empty()
    } else {
        glued(lines.drop_last()) + lines.last()
    }
}

/// What the first `k` of `times` add to the lines, one behind the other:
/// each time once, in order, with a separator behind each but the last.
pub open spec fn written(times: Seq<Seq<char>>, k: int) -> Seq<char>
    decreases k,
{
    if k <= 0 {
        Seq::empty()
    } else {
        written(times, k - 1) + addition(times, k - 1)
    }
}

/// At every step the full lines and the open line hold, one behind the
/// other, what the times placed so far have added; no full line is empty,
/// and there are no more full lines than times placed before the last.
pub proof fn lemma_layout_keeps_the_times(times: Seq<Seq<char>>, k: int, max_width: nat)
    requires
        0 <= k,
    ensures
        glued(laid_out(times, k, max_width).full) + laid_out(times, k, max_width).open == written(
            times,
            k,
        ),
        forall|i: int|
            0 <= i < laid_out(times, k, max_width).full.len() ==> (#[trigger] laid_out(
                times,
                k,
                max_width,
            ).full[i]).len() > 0,
        k > 0 ==> laid_out(times, k, max_width).full.len() < k,
        k == 0 ==> laid_out(times, k, max_width).full.len() == 0,
    decreases k,
{
    if k > 0 {
        lemma_layout_keeps_the_times(times, k - 1, max_width);
        let before = laid_out(times, k - 1, max_width);
        let after = laid_out(times, k, max_width);
        let added = addition(times, k - 1);
        if grapheme_count(before.open) + grapheme_count(added) <= max_width {
            assert(glued(after.full) + after.open =~= (glued(before.full) + before.open) + added);
        } else if before.open.len() > 0 {
            assert(after.full.drop_last() =~= before.full);
            assert(glued(after.full) + after.open =~= (glued(before.full) + before.open) + added);
        } else {
            assert(glued(before.full) + before.open =~= glued(before.full));
        }
    } else {
        assert(glued(laid_out(times, k, max_width).full) + laid_out(times, k, max_width).open
            =~= written(times, k));
    }
}

/// The lines hold every time once and in order: one behind the other, before
/// white space is cut from their ends, they are the times with their
/// separators. No line is empty before it is cut, and there are no more
/// lines than times.
pub proof fn lemma_lines_hold_every_time_once(times: Seq<Seq<char>>, max_width: nat)
    ensures
        glued(drafted(times, max_width)) == written(times, times.len() as int),
        forall|i: int|
            0 <= i < drafted(times, max_width).len() ==> (#[trigger] drafted(
                times,
                max_width,
            )[i]).len() > 0,
        drafted(times, max_width).len() <= times.len(),
        segmented(times, max_width).len() == drafted(times, max_width).len(),
{
    lemma_layout_keeps_the_times(times, times.len() as int, max_width);
    let end = laid_out(times, times.len() as int, max_width);
    if end.open.len() > 0 {
        assert(end.full.push(end.open).drop_last() =~= end.full);
    } else {
        assert(glued(end.full) + end.open =~= glued(end.full));
    }
}

/// A line is closed only where the next time does not fit: where the
/// grapheme clusters of the open line and of what the time adds are more than
/// `max_width` together. Where they fit, the time goes to the open line.
pub proof fn lemma_breaks_are_forced(times: Seq<Seq<char>>, k: int, max_width: nat)
    requires
        0 < k,
    ensures
        ({
            let before = laid_out(times, k - 1, max_width);
            let after = laid_out(times, k, max_width);
            let fits = grapheme_count(before.open) + grapheme_count(addition(times, k - 1))
                <= max_width;
            &&& fits ==> after.full == before.full && after.open == before.open + addition(
                times,
                k - 1,
            )
            &&& !fits ==> after.open == addition(times, k - 1)
            &&& after.full.len() > before.full.len() ==> !fits
        }),
{
}

/// Whether `text` holds a character that is no white space.
pub open spec fn has_text(text: Seq<char>) -> bool {
    exists|i: int| 0 <= i < text.len() && !is_white_space(#[trigger] text[i])
}

/// A text that holds a character that is no white space is not empty after
/// the white space at its end is cut.
pub proof fn lemma_text_is_left_after_trimming(text: Seq<char>)
    requires
        has_text(text),
    ensures
        trimmed_end(text).len() > 0,
    decreases text.len(),
{
    if text.len() > 0 && is_white_space(text.last()) {
        let i = choose|i: int| 0 <= i < text.len() && !is_white_space(#[trigger] text[i]);
        assert(text.drop_last()[i] == text[i]);
        lemma_text_is_left_after_trimming(text.drop_last());
    }
}

/// With a last time that holds a character that is no white space, every
/// full line holds one, and so does the open line unless it is empty.
proof fn lemma_layout_has_text(times: Seq<Seq<char>>, k: int, max_width: nat)
    requires
        0 <= k <= times.len(),
        times.len() > 0 ==> has_text(times.last()),
    ensures
        forall|i: int|
            0 <= i < laid_out(times, k, max_width).full.len() ==> has_text(
                #[trigger] laid_out(times, k, max_width).full[i],
            ),
        laid_out(times, k, max_width).open.len() > 0 ==> has_text(
            laid_out(times, k, max_width).open,
        ),
    decreases k,
{
    if k > 0 {
        lemma_layout_has_text(times, k - 1, max_width);
        let before = laid_out(times, k - 1, max_width);
        let added = addition(times, k - 1);
        if k - 1 == times.len() - 1 {
            assert(added == times.last());
        } else {
            assert(added[times[k - 1].len() as int] == ',');
            assert(!is_white_space(added[times[k - 1].len() as int]));
        }
        let j = choose|j: int| 0 <= j < added.len() && !is_white_space(#[trigger] added[j]);
        assert((before.open + added)[before.open.len() + j] == added[j]);
    }
}

/// Where the last time holds a character that is no white space, no line is
/// empty.
pub proof fn lemma_no_line_is_empty(times: Seq<Seq<char>>, max_width: nat)
    requires
        times.len() > 0 ==> has_text(times.last()),
    ensures
        forall|i: int|
            0 <= i < segmented(times, max_width).len() ==> (#[trigger] segmented(
                times,
                max_width,
            )[i]).len() > 0,
{
    lemma_layout_has_text(times, times.len() as int, max_width);
    assert forall|i: int| 0 <= i < segmented(times, max_width).len() implies (#[trigger] segmented(
        times,
        max_width,
    )[i]).len() > 0 by {
        lemma_text_is_left_after_trimming(drafted(times, max_width)[i]);
    }
}

/// What `str::trim_end` keeps of a text is the text without the white space
/// that it ends with.
proof fn lemma_trimmed_end(text: Seq<char>, kept: Seq<char>)
    requires
        kept.len() <= text.len(),
        kept == text.take(kept.len() as int),
        kept.len() > 0 ==> !is_white_space(kept.last()),
        forall|i: int| kept.len() <= i < text.len() ==> is_white_space(#[trigger] text[i]),
    ensures
        kept == trimmed_end(text),
    decreases text.len(),
{
    if kept.len() < text.len() {
        assert(kept =~= text.drop_last().take(kept.len() as int));
        lemma_trimmed_end(text.drop_last(), kept);
    }
}

/// Closes `line`: adds it to `lines` without the white space at its end.
fn close_line(lines: &mut Vec<String>, line: &String)
    ensures
        final(lines).deep_view() == old(lines).deep_view().push(trimmed_end(line@)),
{
    let kept: &str = line.as_str().trim_end();
    proof {
        lemma_trimmed_end(line@, kept@);
    }
    lines.push(String::from_str(kept));
    assert(lines.deep_view() =~= old(lines).deep_view().push(trimmed_end(line@)));
}

/// Cutting the lines after one more is closed is closing the line that was
/// cut.
proof fn lemma_trimmed_lines_push(full: Seq<Seq<char>>, line: Seq<char>)
    ensures
        trimmed_lines(full.push(line)) == trimmed_lines(full).push(trimmed_end(line)),
{
    assert(trimmed_lines(full.push(line)) =~= trimmed_lines(full).push(trimmed_end(line)));
}

/// Lays `times` out in lines of `max_width` grapheme clusters at most,
/// separated by a comma and a space within a line.
///
/// A time that is wider than a line gets a line of its own.
pub fn segment_times_in_lines(times: &[String], max_width: usize) -> (lines: Vec<String>)
    ensures
        lines.deep_view() == segmented(times.deep_view(), max_width as nat),
{
    let mut lines: Vec<String> = Vec::new();
    let mut current_line: String = String::new();
    let n: usize = times.len();
    let mut i: usize = 0;
    assert(lines.deep_view() =~= trimmed_lines(Seq::empty()));
    while i < n
        invariant
            n == times@.len(),
            i <= n,
            lines.deep_view() == trimmed_lines(
                laid_out(times.deep_view(), i as int, max_width as nat).full,
            ),
            current_line@ == laid_out(times.deep_view(), i as int, max_width as nat).open,
        decreases n - i,
    {
        let mut potential_addition: String = times[i].clone();
        if i != n - 1 {
            proof {
                reveal_strlit(", ");
            }
            potential_addition.append(", ");
        }
        assert(potential_addition@ == addition(times.deep_view(), i as int));
        let held: usize = count_graphemes(current_line.as_str());
        let added: usize = count_graphemes(potential_addition.as_str());
        if held <= max_width && added <= max_width - held {
            current_line.append(potential_addition.as_str());
        } else {
            if !current_line.as_str().is_empty() {
                proof {
                    lemma_trimmed_lines_push(
                        laid_out(times.deep_view(), i as int, max_width as nat).full,
                        current_line@,
                    );
                }
                close_line(&mut lines, &current_line);
            }
            current_line = potential_addition;
        }
        i = i + 1;
    }
    if !current_line.as_str().is_empty() {
        proof {
            lemma_trimmed_lines_push(
                laid_out(times.deep_view(), n as int, max_width as nat).full,
                current_line@,
            );
        }
        close_line(&mut lines, &current_line);
    }
    lines
}

} // verus!
