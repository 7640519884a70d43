//! Reading a GPU description out of a listing of the host's devices.
//!
//! The listing is text with one device per line. The first line that names a
//! display controller, stripped of the white space around it, describes the GPU.

use vstd::prelude::*;
use vstd::string::*;

verus! {

/// Whether a character is white space, as Unicode defines it.
pub open spec fn is_whitespace(c: char) -> bool {
    let u = c as u32;
    ||| 0x09 <= u <= 0x0d
    ||| u == 0x20
    ||| u == 0x85
    ||| u == 0xa0
    ||| u == 0x1680
    ||| 0x2000 <= u <= 0x200a
    ||| u == 0x2028
    ||| u == 0x2029
    ||| u == 0x202f
    ||| u == 0x205f
    ||| u == 0x3000
}

/// Whether `pattern` stands in `text` at position `at`.
pub open spec fn occurs_at(text: Seq<char>, pattern: Seq<char>, at: int) -> bool {
    0 <= at && at + pattern.len() <= text.len() && text.subrange(at, at + pattern.len())
        == pattern
}

/// Whether `pattern` stands somewhere in `text`.
pub open spec fn contains(text: Seq<char>, pattern: Seq<char>) -> bool {
    exists|at: int| occurs_at(text, pattern, at)
}

/// Whether a line of the listing names a display controller.
pub open spec fn names_gpu(line: Seq<char>) -> bool {
    contains(line, seq!['V', 'G', 'A']) || contains(line, seq!['3', 'D'])
}

/// `text` without the white space at its start.
pub open spec fn trim_start(text: Seq<char>) -> Seq<char>
    decreases text.len(),
{
    if text.len() > 0 && is_whitespace(text.first()) {
        trim_start(text.drop_first())
    } else {
        text
    }
}

/// `text` without the white space at its end.
pub open spec fn trim_end(text: Seq<char>) -> Seq<char>
    decreases text.len(),
{
    if text.len() > 0 && is_whitespace(text.last()) {
        trim_end(text.drop_last())
    } else {
        text
    }
}

/// `text` without the white space at either end.
pub open spec fn trimmed(text: Seq<char>) -> Seq<char> {
    trim_end(trim_start(text))
}

/// Where the line that starts at `start` ends: at the next line feed, or at
/// the end of the text.
pub open spec fn line_end(text: Seq<char>, start: int) -> int
    decreases text.len() - start,
{
    if start < 0 || start >= text.len() || text[start] == '\n' {
        start
    } else {
        line_end(text, start + 1)
    }
}

/// The description found in the lines of `text` from position `start` on,
/// where `start` is the start of a line.
pub open spec fn gpu_line_from(text: Seq<char>, start: int) -> Option<Seq<char>>
    decreases text.len() - start,
    via gpu_line_from_decreases
{
    if start < 0 || start > text.len() {
        None
    } else {
        let end = line_end(text, start);
        let line = text.subrange(start, end);
        if names_gpu(line) {
            Some(trimmed(line))
        } else if end >= text.len() {
            None
        } else {
            gpu_line_from(text, end + 1)
        }
    }
}

#[via_fn]
proof fn gpu_line_from_decreases(text: Seq<char>, start: int) {
    if 0 <= start <= text.len() {
        line_end_bounds(text, start);
    }
}

/// The description of the GPU in a listing of devices: the first line that
/// names a display controller, trimmed, if there is such a line.
pub open spec fn gpu_line(text: Seq<char>) -> Option<Seq<char>> {
    gpu_line_from(text, 0)
}

/// A line ends at or after its start and within the text, at a line feed or
/// at the text's end, and holds no line feed.
pub proof fn line_end_bounds(text: Seq<char>, start: int)
    requires
        0 <= start <= text.len(),
    ensures
        start <= line_end(text, start) <= text.len(),
        line_end(text, start) < text.len() ==> text[line_end(text, start)] == '\n',
        forall|i: int| start <= i < line_end(text, start) ==> text[i] != '\n',
    decreases text.len() - start,
{
    if start < text.len() && text[start] != '\n' {
        line_end_bounds(text, start + 1);
    }
}

/// Whether a character is white space.
fn is_white(c: char) -> (white: bool)
    ensures
        white == is_whitespace(c),
{
    let u: u32 = c as u32;
    (0x09 <= u && u <= 0x0d) || u == 0x20 || u == 0x85 || u == 0xa0 || u == 0x1680 || (0x2000 <= u
        && u <= 0x200a) || u == 0x2028 || u == 0x2029 || u == 0x202f || u == 0x205f || u == 0x3000
}

/// The characters of a string, one by one.
fn chars_of(text: &str) -> (chars: Vec<char>)
    ensures
        chars@ == text@,
{
    let count = text.unicode_len();
    let mut chars: Vec<char> = Vec::new();
    let mut i: usize = 0;
    while i < count
        invariant
            i <= count,
            count == text@.len(),
            chars@ == text@.take(i as int),
        decreases count - i,
    {
        chars.push(text.get_char(i));
        assert(text@.take(i as int + 1) =~= text@.take(i as int).push(text@[i as int]));
        i = i + 1;
    }
    assert(text@.take(count as int) =~= text@);
    chars
}

/// Whether `pattern` stands at position `at` of the line that runs from
/// `from` to `to` in `text`.
fn occurs_in_line(text: &[char], from: usize, to: usize, pattern: &[char], at: usize) -> (found:
    bool)
    requires
        from <= to <= text@.len(),
        at + pattern@.len() <= to - from,
    ensures
        found == occurs_at(text@.subrange(from as int, to as int), pattern@, at as int),
{
    let ghost line = text@.subrange(from as int, to as int);
    let mut j: usize = 0;
    while j < pattern.len()
        invariant
            j <= pattern@.len(),
            from <= to <= text@.len(),
            at + pattern@.len() <= to - from,
            line == text@.subrange(from as int, to as int),
            forall|k: int| 0 <= k < j ==> line[at + k] == pattern@[k],
        decreases pattern@.len() - j,
    {
        if text[from + at + j] != pattern[j] {
            assert(line.subrange(at as int, at + pattern@.len())[j as int] == line[at + j]);
            return false;
        }
        j = j + 1;
    }
    assert(line.subrange(at as int, at + pattern@.len()) =~= pattern@);
    true
}

/// Whether `pattern` stands somewhere in the line that runs from `from` to
/// `to` in `text`.
fn line_contains(text: &[char], from: usize, to: usize, pattern: &[char]) -> (found: bool)
    requires
        from <= to <= text@.len(),
    ensures
        found == contains(text@.subrange(from as int, to as int), pattern@),
{
    let ghost line = text@.subrange(from as int, to as int);
    if pattern.len() > to - from {
        return false;
    }
    let last: usize = to - from - pattern.len();
    let mut at: usize = 0;
    loop
        invariant
            at <= last,
            from <= to <= text@.len(),
            last == to - from - pattern@.len(),
            line == text@.subrange(from as int, to as int),
            forall|k: int| 0 <= k < at ==> !occurs_at(line, pattern@, k),
        decreases last - at,
    {
        if occurs_in_line(text, from, to, pattern, at) {
            return true;
        }
        if at == last {
            return false;
        }
        at = at + 1;
    }
}

/// Where the line that starts at `start` ends.
fn find_line_end(text: &[char], start: usize) -> (end: usize)
    requires
        start <= text@.len(),
    ensures
        end == line_end(text@, start as int),
        start <= end <= text@.len(),
{
    let mut end: usize = start;
    while end < text.len() && text[end] != '\n'
        invariant
            start <= end <= text@.len(),
            line_end(text@, start as int) == line_end(text@, end as int),
        decreases text@.len() - end,
    {
        end = end + 1;
    }
    end
}

/// Trimming a stretch of text that starts with white space is trimming the
/// rest of it.
proof fn trim_start_step(text: Seq<char>, from: int, to: int)
    requires
        0 <= from < to <= text.len(),
        is_whitespace(text[from]),
    ensures
        trim_start(text.subrange(from, to)) == trim_start(text.subrange(from + 1, to)),
{
    assert(text.subrange(from, to).drop_first() =~= text.subrange(from + 1, to));
}

/// Trimming a stretch of text that ends with white space is trimming the
/// rest of it.
proof fn trim_end_step(text: Seq<char>, from: int, to: int)
    requires
        0 <= from < to <= text.len(),
        is_whitespace(text[to - 1]),
    ensures
        trim_end(text.subrange(from, to)) == trim_end(text.subrange(from, to - 1)),
{
    assert(text.subrange(from, to).drop_last() =~= text.subrange(from, to - 1));
}

/// The bounds, within `text`, of the line from `from` to `to` once trimmed.
fn trim_bounds(text: &[char], from: usize, to: usize) -> (bounds: (usize, usize))
    requires
        from <= to <= text@.len(),
    ensures
        from <= bounds.0 <= bounds.1 <= to,
        text@.subrange(bounds.0 as int, bounds.1 as int) == trimmed(
            text@.subrange(from as int, to as int),
        ),
{
    let mut first: usize = from;
    while first < to && is_white(text[first])
        invariant
            from <= first <= to <= text@.len(),
            trim_start(text@.subrange(from as int, to as int)) == trim_start(
                text@.subrange(first as int, to as int),
            ),
        decreases to - first,
    {
        proof {
            trim_start_step(text@, first as int, to as int);
        }
        first = first + 1;
    }
    let mut last: usize = to;
    while first < last && is_white(text[last - 1])
        invariant
            first <= last <= to <= text@.len(),
            trim_end(text@.subrange(first as int, to as int)) == trim_end(
                text@.subrange(first as int, last as int),
            ),
        decreases last - first,
    {
        proof {
            trim_end_step(text@, first as int, last as int);
        }
        last = last - 1;
    }
    (first, last)
}

/// The bounds, within `text`, of the description of the GPU, if `text`
/// holds one.
fn gpu_line_bounds(text: &[char]) -> (bounds: Option<(usize, usize)>)
    ensures
        match bounds {
            Some((first, last)) => first <= last <= text@.len() && gpu_line(text@) == Some(
                text@.subrange(first as int, last as int),
            ),
            None => gpu_line(text@) is None,
        },
{
    let mut vga: Vec<char> = Vec::new();
    vga.push('V');
    vga.push('G');
    vga.push('A');
    let mut three_d: Vec<char> = Vec::new();
    three_d.push('3');
    three_d.push('D');
    assert(vga@ =~= seq!['V', 'G', 'A']);
    assert(three_d@ =~= seq!['3', 'D']);
    let mut start: usize = 0;
    loop
        invariant
            start <= text@.len(),
            vga@ == seq!['V', 'G', 'A'],
            three_d@ == seq!['3', 'D'],
            gpu_line(text@) == gpu_line_from(text@, start as int),
        decreases text@.len() - start,
    {
        let end = find_line_end(text, start);
        if line_contains(text, start, end, vga.as_slice()) || line_contains(
            text,
            start,
            end,
            three_d.as_slice(),
        ) {
            return Some(trim_bounds(text, start, end));
        }
        if end >= text.len() {
            return None;
        }
        start = end + 1;
    }
}

/// The description of the GPU in a listing of the host's devices, one device
/// per line: the first line that holds `VGA` or `3D`, without the white space
/// around it. There is none where no line holds either.
pub fn find_gpu(listing: &str) -> (description: Option<String>)
    ensures
        match description {
            Some(line) => gpu_line(listing@) == Some(line@),
            None => gpu_line(listing@) is None,
        },
{
    let chars = chars_of(listing);
    match gpu_line_bounds(chars.as_slice()) {
        Some((first, last)) => Some(listing.substring_char(first, last).to_owned()),
        None => None,
    }
}

} // verus!
