//! Lines, words and surrounding white space.
//!
//! A piece of a text is given by the index of its first character and the
//! index after its last.

use vstd::prelude::*;

verus! {

/// Whether the Unicode standard counts `c` as white space.
pub uninterp spec fn white_space(c: char) -> bool;

/// `char::is_whitespace` of the standard library, which tells whether a
/// character has the Unicode property White_Space. The answer is given the
/// name [`white_space`]; nothing more is claimed of it.
#[verifier::external_body]
pub(crate) fn is_white_space(c: char) -> (white: bool)
    ensures
        white == white_space(c),
{
    c.is_whitespace()
}

/// `text` in lower case, as the Unicode standard defines it.
pub uninterp spec fn lowercased(text: Seq<char>) -> Seq<char>;

/// `str::to_lowercase` of the standard library, which gives the lower-case
/// equivalent of a text. The result is given the name [`lowercased`];
/// nothing more is claimed of it.
#[verifier::external_body]
pub(crate) fn lowercase(text: &str) -> (lower: String)
    ensures
        lower@ == lowercased(text@),
{
    text.to_lowercase()
}

/// A line without the carriage return that ends it, if one does.
pub open spec fn without_cr(line: Seq<char>) -> Seq<char> {
    if line.len() > 0 && line.last() == '\r' {
        line.drop_last()
    } else {
        line
    }
}

/// The lines of `text` from index `i` on, where the line in progress
/// began at `start`.
pub open spec fn lines_scan(text: Seq<char>, start: int, i: int) -> Seq<Seq<char>>
    decreases text.len() - i,
{
    if i < 0 || start < 0 || start > i {
        Seq::empty()
    } else if i >= text.len() {
        if start < text.len() {
            seq![text.subrange(start, text.len() as int)]
        } else {
            Seq::empty()
        }
    } else if text[i] == '\n' {
        seq![without_cr(text.subrange(start, i))] + lines_scan(text, i + 1, i + 1)
    } else {
        lines_scan(text, start, i + 1)
    }
}

/// The lines of `text`. A line ends at a line feed, or at a carriage
/// return followed by one; neither belongs to the line. What follows the
/// last line feed is a line too, unless it is empty.
pub open spec fn lines_of(text: Seq<char>) -> Seq<Seq<char>> {
    lines_scan(text, 0, 0)
}

/// Whether `ranges` gives, in order, the places in `text` of `pieces`.
pub open spec fn ranges_cover(
    text: Seq<char>,
    ranges: Seq<(usize, usize)>,
    pieces: Seq<Seq<char>>,
) -> bool {
    &&& ranges.len() == pieces.len()
    &&& forall|k: int|
        0 <= k < ranges.len() ==> (#[trigger] ranges[k]).0 <= ranges[k].1 <= text.len()
            && text.subrange(ranges[k].0 as int, ranges[k].1 as int) == pieces[k]
}

/// Where the lines of `text` stand in it.
pub fn line_ranges(text: &Vec<char>) -> (ranges: Vec<(usize, usize)>)
    ensures
        ranges_cover(text@, ranges@, lines_of(text@)),
{
    let n = text.len();
    let mut ranges: Vec<(usize, usize)> = Vec::new();
    let ghost mut done: Seq<Seq<char>> = Seq::empty();
    let mut start: usize = 0;
    let mut i: usize = 0;
    while i < n
        invariant
            n == text.len(),
            start <= i <= n,
            ranges_cover(text@, ranges@, done),
            lines_of(text@) == done + lines_scan(text@, start as int, i as int),
        decreases n - i,
    {
        if text[i] == '\n' {
            let end: usize = if i > start && text[i - 1] == '\r' {
                i - 1
            } else {
                i
            };
            proof {
                let raw = text@.subrange(start as int, i as int);
                let line = without_cr(raw);
                assert(line =~= text@.subrange(start as int, end as int));
                assert(done + (seq![line] + lines_scan(text@, i + 1, i + 1)) =~= done.push(line)
                    + lines_scan(text@, i + 1, i + 1));
                done = done.push(line);
            }
            ranges.push((start, end));
            start = i + 1;
        }
        i += 1;
    }
    if start < n {
        proof {
            let line = text@.subrange(start as int, n as int);
            assert(done + seq![line] =~= done.push(line));
            done = done.push(line);
        }
        ranges.push((start, n));
    } else {
        assert(done + Seq::<Seq<char>>::empty() =~= done);
    }
    ranges
}

/// The words of `text` from index `i` on, where a word in progress began
/// at `word_start`.
pub open spec fn words_scan(text: Seq<char>, word_start: Option<int>, i: int) -> Seq<Seq<char>>
    decreases text.len() - i,
{
    if i < 0 {
        Seq::empty()
    } else if i >= text.len() {
        match word_start {
            Some(start) => seq![text.subrange(start, text.len() as int)],
            None => Seq::empty(),
        }
    } else if white_space(text[i]) {
        match word_start {
            Some(start) => seq![text.subrange(start, i)] + words_scan(text, None, i + 1),
            None => words_scan(text, None, i + 1),
        }
    } else {
        words_scan(
            text,
            if word_start is Some {
                word_start
            } else {
                Some(i)
            },
            i + 1,
        )
    }
}

/// The words of `text`: its longest runs of characters that are not white
/// space.
pub open spec fn words_of(text: Seq<char>) -> Seq<Seq<char>> {
    words_scan(text, None, 0)
}

/// Where the words of the piece of `text` from `from` up to `to` stand in
/// `text`.
pub fn word_ranges(text: &Vec<char>, from: usize, to: usize) -> (ranges: Vec<(usize, usize)>)
    requires
        from <= to <= text.len(),
    ensures
        ranges_cover(text@, ranges@, words_of(text@.subrange(from as int, to as int))),
{
    let ghost piece = text@.subrange(from as int, to as int);
    let mut ranges: Vec<(usize, usize)> = Vec::new();
    let ghost mut done: Seq<Seq<char>> = Seq::empty();
    let mut word_start: Option<usize> = None;
    let mut i: usize = from;
    while i < to
        invariant
            from <= i <= to <= text.len(),
            piece == text@.subrange(from as int, to as int),
            word_start matches Some(start) ==> from <= start < i,
            ranges_cover(text@, ranges@, done),
            words_of(piece) == done + words_scan(
                piece,
                match word_start {
                    Some(start) => Some(start - from),
                    None => None,
                },
                i - from,
            ),
        decreases to - i,
    {
        assert(piece[i - from] == text@[i as int]);
        if is_white_space(text[i]) {
            match word_start {
                Some(start) => {
                    proof {
                        let word = piece.subrange(start - from, i - from);
                        assert(word =~= text@.subrange(start as int, i as int));
                        assert(done + (seq![word] + words_scan(piece, None, i - from + 1))
                            =~= done.push(word) + words_scan(piece, None, i - from + 1));
                        done = done.push(word);
                    }
                    ranges.push((start, i));
                    word_start = None;
                },
                None => {},
            }
        } else {
            if word_start.is_none() {
                word_start = Some(i);
            }
        }
        i += 1;
    }
    match word_start {
        Some(start) => {
            proof {
                let word = piece.subrange(start - from, to - from);
                assert(word =~= text@.subrange(start as int, to as int));
                assert(done + seq![word] =~= done.push(word));
                done = done.push(word);
            }
            ranges.push((start, to));
        },
        None => {
            assert(done + Seq::<Seq<char>>::empty() =~= done);
        },
    }
    ranges
}

/// The index of the first character of `text` at or after `i` that is not
/// white space, or the length of `text`.
pub open spec fn skip_white(text: Seq<char>, i: int) -> int
    decreases text.len() - i,
{
    if 0 <= i < text.len() && white_space(text[i]) {
        skip_white(text, i + 1)
    } else {
        i
    }
}

/// The index after the last character of `text` before `j` that is not
/// white space, or zero.
pub open spec fn drop_white(text: Seq<char>, j: int) -> int
    decreases j,
{
    if 0 < j <= text.len() && white_space(text[j - 1]) {
        drop_white(text, j - 1)
    } else {
        j
    }
}

/// `text` without the white space at its beginning and at its end.
pub open spec fn trimmed(text: Seq<char>) -> Seq<char> {
    let first = skip_white(text, 0);
    let last = drop_white(text, text.len() as int);
    if first < last {
        text.subrange(first, last)
    } else {
        Seq::empty()
    }
}

/// Where the piece of `text` from `from` up to `to` stands once the white
/// space around it is taken away.
pub fn trim_range(text: &Vec<char>, from: usize, to: usize) -> (range: (usize, usize))
    requires
        from <= to <= text.len(),
    ensures
        from <= range.0 <= range.1 <= to,
        text@.subrange(range.0 as int, range.1 as int) == trimmed(
            text@.subrange(from as int, to as int),
        ),
{
    let ghost piece = text@.subrange(from as int, to as int);
    let mut first: usize = from;
    while first < to && is_white_space(text[first])
        invariant
            from <= first <= to <= text.len(),
            piece == text@.subrange(from as int, to as int),
            skip_white(piece, 0) == skip_white(piece, first - from),
        decreases to - first,
    {
        assert(piece[first - from] == text@[first as int]);
        first += 1;
    }
    assert(skip_white(piece, 0) == first - from) by {
        if first < to {
            assert(piece[first - from] == text@[first as int]);
        }
    }
    let mut last: usize = to;
    while last > first && is_white_space(text[last - 1])
        invariant
            from <= first <= last <= to <= text.len(),
            piece == text@.subrange(from as int, to as int),
            drop_white(piece, piece.len() as int) == drop_white(piece, last - from),
        decreases last - first,
    {
        assert(piece[last - 1 - from] == text@[last - 1]);
        last -= 1;
    }
    proof {
        if last > first {
            assert(piece[last - 1 - from] == text@[last - 1]);
            assert(drop_white(piece, piece.len() as int) == last - from);
            assert(piece.subrange(first - from, last - from) =~= text@.subrange(
                first as int,
                last as int,
            ));
        } else {
            // Everything from `first` on is white space, or nothing is left.
            lemma_drop_white_stops(piece, last - from, first - from);
            assert(text@.subrange(first as int, last as int) =~= Seq::<char>::empty());
        }
    }
    (first, last)
}

/// Taking white space away from the end never goes below the point up to
/// which everything is white space from the beginning.
pub proof fn lemma_drop_white_stops(text: Seq<char>, j: int, first: int)
    requires
        0 <= j <= text.len(),
        first == skip_white(text, 0),
        j <= first,
    ensures
        drop_white(text, j) <= first,
    decreases j,
{
    if 0 < j && white_space(text[j - 1]) {
        lemma_drop_white_stops(text, j - 1, first);
    }
}

/// The index of the first `c` in `text` at or after `from`, or the length
/// of `text` where there is none.
pub open spec fn index_of(text: Seq<char>, c: char, from: int) -> int
    decreases text.len() - from,
{
    if from < 0 || from >= text.len() {
        text.len() as int
    } else if text[from] == c {
        from
    } else {
        index_of(text, c, from + 1)
    }
}

/// What stands between the first `separator` in `text` and the next one,
/// or the end of `text`; nothing where `text` holds no `separator`.
pub open spec fn second_field(text: Seq<char>, separator: char) -> Seq<char> {
    let first = index_of(text, separator, 0);
    if first >= text.len() {
        Seq::empty()
    } else {
        text.subrange(first + 1, index_of(text, separator, first + 1))
    }
}

/// The index of the first `c` in `text` at or after `from`, or the length
/// of `text`.
pub fn find_char(text: &Vec<char>, c: char, from: usize) -> (at: usize)
    requires
        from <= text.len(),
    ensures
        at == index_of(text@, c, from as int),
        from <= at <= text.len(),
{
    let mut at: usize = from;
    while at < text.len() && text[at] != c
        invariant
            from <= at <= text.len(),
            index_of(text@, c, from as int) == index_of(text@, c, at as int),
        decreases text.len() - at,
    {
        at += 1;
    }
    at
}

/// Where the second field of `text` stands in it.
pub fn second_field_range(text: &Vec<char>, separator: char) -> (range: (usize, usize))
    ensures
        range.0 <= range.1 <= text.len(),
        text@.subrange(range.0 as int, range.1 as int) == second_field(text@, separator),
{
    let first = find_char(text, separator, 0);
    if first >= text.len() {
        assert(text@.subrange(first as int, first as int) =~= Seq::<char>::empty());
        (first, first)
    } else {
        let next = find_char(text, separator, first + 1);
        (first + 1, next)
    }
}

/// Scanning for lines goes over characters that are no line feeds
/// without finding a line.
pub proof fn lemma_lines_scan_run(text: Seq<char>, start: int, i: int, end: int)
    requires
        0 <= start <= i <= end <= text.len(),
        forall|j: int| i <= j < end ==> text[j] != '\n',
    ensures
        lines_scan(text, start, i) == lines_scan(text, start, end),
    decreases end - i,
{
    if i < end {
        lemma_lines_scan_run(text, start, i + 1, end);
    }
}

} // verus!
