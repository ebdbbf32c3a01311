//! Conversion between absolute character offsets in a document and the
//! line/column coordinates used by editor protocols.
use vstd::prelude::*;
use vstd::string::StrSliceExecFns;

verus! {

/// A line/column coordinate, zero-based, columns counted in characters.
#[derive(Clone, Copy, Debug, PartialEq, Eq, Structural)]
pub struct Position {
    pub line: u32,
    pub character: u32,
}

/// A half-open span of the document between two positions.
#[derive(Clone, Copy, Debug, PartialEq, Eq, Structural)]
pub struct TextRange {
    pub start: Position,
    pub end: Position,
}

/// Mathematical image of a `Position`, free of machine widths.
pub ghost struct PosModel {
    pub line: int,
    pub character: int,
}

/// Mathematical image of a `TextRange`.
pub ghost struct RangeModel {
    pub start: PosModel,
    pub end: PosModel,
}

impl View for Position {
    type V = PosModel;

    open spec fn view(&self) -> PosModel {
        PosModel { line: self.line as int, character: self.character as int }
    }
}

impl View for TextRange {
    type V = RangeModel;

    open spec fn view(&self) -> RangeModel {
        RangeModel { start: self.start@, end: self.end@ }
    }
}

/// How many newline characters occur strictly before `end`.
pub open spec fn count_nl(s: Seq<char>, end: int) -> int
    decreases end,
{
    if end <= 0 {
        0
    } else {
        count_nl(s, end - 1) + if 0 <= end - 1 < s.len() && s[end - 1] == '\n' {
            1int
        } else {
            0int
        }
    }
}

/// The index of the first newline at or after `i`, or the document length.
pub open spec fn next_nl(s: Seq<char>, i: int) -> int
    decreases s.len() - i when 0 <= i
{
    if i >= s.len() {
        s.len() as int
    } else if s[i] == '\n' {
        i
    } else {
        next_nl(s, i + 1)
    }
}

/// The offset at which line `l` begins.
pub open spec fn line_start(s: Seq<char>, l: int) -> int
    decreases l,
{
    if l <= 0 {
        0
    } else {
        next_nl(s, line_start(s, l - 1)) + 1
    }
}

/// The number of characters in line `l`, its terminating newline excluded.
pub open spec fn line_len(s: Seq<char>, l: int) -> int {
    next_nl(s, line_start(s, l)) - line_start(s, l)
}

/// How many lines the document has; a final line without a newline counts.
pub open spec fn num_lines(s: Seq<char>) -> int {
    count_nl(s, s.len() as int) + 1
}

/// The line/column coordinate of the character offset `off`.
pub open spec fn pos_of(s: Seq<char>, off: int) -> PosModel {
    PosModel { line: count_nl(s, off), character: off - line_start(s, count_nl(s, off)) }
}

/// The character offset of a line/column coordinate: positions past the last
/// line map to the end of the document, and a column that overruns its line
/// is clamped to the line's length.
pub open spec fn offset_of(s: Seq<char>, line: int, character: int) -> int {
    if line >= num_lines(s) {
        s.len() as int
    } else if character > line_len(s, line) {
        line_start(s, line) + line_len(s, line)
    } else {
        line_start(s, line) + character
    }
}

pub proof fn lemma_count_nl_bounds(s: Seq<char>, end: int)
    requires
        0 <= end,
    ensures
        0 <= count_nl(s, end) <= end,
    decreases end,
{
    if end > 0 {
        lemma_count_nl_bounds(s, end - 1);
    }
}

pub proof fn lemma_count_nl_mono(s: Seq<char>, a: int, b: int)
    requires
        a <= b,
    ensures
        count_nl(s, a) <= count_nl(s, b),
    decreases b - a,
{
    if a < b {
        lemma_count_nl_mono(s, a, b - 1);
    }
}

pub proof fn lemma_next_nl_props(s: Seq<char>, i: int)
    requires
        0 <= i <= s.len(),
    ensures
        i <= next_nl(s, i) <= s.len(),
        next_nl(s, i) < s.len() ==> s[next_nl(s, i)] == '\n',
        forall|j: int| i <= j < next_nl(s, i) ==> s[j] != '\n',
    decreases s.len() - i,
{
    if i < s.len() && s[i] != '\n' {
        lemma_next_nl_props(s, i + 1);
    }
}

pub proof fn lemma_next_nl_min(s: Seq<char>, i: int, j: int)
    requires
        0 <= i <= j < s.len(),
        s[j] == '\n',
    ensures
        next_nl(s, i) <= j,
    decreases j - i,
{
    if i < j && s[i] != '\n' {
        lemma_next_nl_min(s, i + 1, j);
    }
}

/// A range free of newlines does not change the newline count.
pub proof fn lemma_count_nl_flat(s: Seq<char>, a: int, b: int)
    requires
        0 <= a <= b <= s.len(),
        forall|j: int| a <= j < b ==> s[j] != '\n',
    ensures
        count_nl(s, b) == count_nl(s, a),
    decreases b - a,
{
    if a < b {
        lemma_count_nl_flat(s, a, b - 1);
    }
}

pub proof fn lemma_count_nl_step(s: Seq<char>, e: int)
    requires
        0 <= e < s.len(),
    ensures
        count_nl(s, e + 1) == count_nl(s, e) + if s[e] == '\n' {
            1int
        } else {
            0int
        },
{
}

/// Every offset lies within the line that `count_nl` assigns to it.
pub proof fn lemma_offset_in_line(s: Seq<char>, off: int)
    requires
        0 <= off <= s.len(),
    ensures
        line_start(s, count_nl(s, off)) <= off,
        off <= next_nl(s, line_start(s, count_nl(s, off))),
        0 <= line_start(s, count_nl(s, off)),
    decreases off,
{
    if off == 0 {
        lemma_next_nl_props(s, 0);
    } else {
        lemma_offset_in_line(s, off - 1);
        let c = count_nl(s, off - 1);
        let ls = line_start(s, c);
        lemma_count_nl_bounds(s, off - 1);
        lemma_next_nl_props(s, ls);
        if s[off - 1] == '\n' {
            // The previous character ends line c exactly at off - 1.
            lemma_next_nl_min(s, ls, off - 1);
            assert(next_nl(s, ls) == off - 1);
            assert(count_nl(s, off) == c + 1);
            assert(line_start(s, c + 1) == off);
            lemma_next_nl_props(s, off);
        } else {
            assert(count_nl(s, off) == c);
            assert(next_nl(s, ls) != off - 1);
        }
    }
}

/// The newline count at the start of line `l` is `l` itself.
pub proof fn lemma_line_start_count(s: Seq<char>, l: int)
    requires
        0 <= l < num_lines(s),
    ensures
        0 <= line_start(s, l) <= s.len(),
        count_nl(s, line_start(s, l)) == l,
    decreases l,
{
    if l == 0 {
    } else {
        lemma_line_start_count(s, l - 1);
        let ls = line_start(s, l - 1);
        lemma_next_nl_props(s, ls);
        let e = next_nl(s, ls);
        lemma_count_nl_flat(s, ls, e);
        if e >= s.len() {
            // No newline after line l - 1, so the document has l lines only.
            lemma_count_nl_flat(s, ls, s.len() as int);
            assert(count_nl(s, s.len() as int) == l - 1);
            assert(false);
        }
        assert(count_nl(s, e + 1) == l);
    }
}

/// Converting an offset to a line/column pair and back returns the offset.
pub proof fn lemma_offset_roundtrip(s: Seq<char>, off: int)
    requires
        0 <= off <= s.len(),
    ensures
        offset_of(s, pos_of(s, off).line, pos_of(s, off).character) == off,
{
    let l = count_nl(s, off);
    lemma_offset_in_line(s, off);
    lemma_count_nl_mono(s, off, s.len() as int);
    lemma_count_nl_bounds(s, off);
    assert(l < num_lines(s));
}

/// Converting a valid line/column pair to an offset and back returns the pair.
pub proof fn lemma_position_roundtrip(s: Seq<char>, line: int, character: int)
    requires
        0 <= line < num_lines(s),
        0 <= character <= line_len(s, line),
    ensures
        pos_of(s, offset_of(s, line, character)) == (PosModel { line, character }),
{
    let ls = line_start(s, line);
    lemma_line_start_count(s, line);
    lemma_next_nl_props(s, ls);
    let off = ls + character;
    lemma_count_nl_flat(s, ls, off);
    assert(count_nl(s, off) == line);
}

/// The line/column coordinate of character offset `input`: the line is the
/// number of newlines before it, the column its distance from the line start.
pub fn pos_to_lsp_pos(input: usize, content: &str) -> (r: Position)
    requires
        input <= content@.len(),
        content@.len() <= u32::MAX,
    ensures
        r@ == pos_of(content@, input as int),
{
    let ghost s = content@;
    let mut j: usize = 0;
    let mut count: usize = 0;
    let mut start: usize = 0;
    while j < input
        invariant
            0 <= j <= input <= s.len() <= u32::MAX,
            s == content@,
            count == count_nl(s, j as int),
            start == line_start(s, count as int),
            start <= j,
            forall|k: int| start <= k < j ==> s[k] != '\n',
        decreases input - j,
    {
        proof {
            lemma_count_nl_bounds(s, j as int);
        }
        let c = content.get_char(j);
        proof {
            lemma_count_nl_step(s, j as int);
            if c == '\n' {
                lemma_next_nl_props(s, start as int);
                lemma_next_nl_min(s, start as int, j as int);
                assert(next_nl(s, start as int) == j as int);
                assert(line_start(s, count + 1) == j + 1);
            }
        }
        if c == '\n' {
            count = count + 1;
            start = j + 1;
        }
        j = j + 1;
    }
    proof {
        lemma_count_nl_bounds(s, input as int);
    }
    Position { line: count as u32, character: (input - start) as u32 }
}

/// The character offset of a line/column coordinate; positions past the end
/// of the document clamp to its length, and an overlong column clamps to its
/// line's length.
pub fn lsp_pos_to_pos(input: Position, content: &str) -> (r: usize)
    requires
        content@.len() <= u32::MAX,
    ensures
        r as int == offset_of(content@, input@.line, input@.character),
{
    let ghost s = content@;
    let len = content.unicode_len();
    let target = input.line as usize;
    let mut j: usize = 0;
    let mut count: usize = 0;
    let mut start: usize = 0;
    while j < len && count < target
        invariant
            0 <= j <= len,
            len == s.len(),
            s == content@,
            count == count_nl(s, j as int),
            count <= target,
            start == line_start(s, count as int),
            start <= j,
            forall|k: int| start <= k < j ==> s[k] != '\n',
        decreases len - j,
    {
        let c = content.get_char(j);
        proof {
            lemma_count_nl_step(s, j as int);
            if c == '\n' {
                lemma_next_nl_props(s, start as int);
                lemma_next_nl_min(s, start as int, j as int);
                assert(next_nl(s, start as int) == j as int);
                assert(line_start(s, count + 1) == j + 1);
            }
        }
        if c == '\n' {
            count = count + 1;
            start = j + 1;
        }
        j = j + 1;
    }
    if count < target {
        // The document has no line `target`: clamp to its end.
        proof {
            lemma_count_nl_flat(s, j as int, s.len() as int);
            assert(count_nl(s, s.len() as int) == count);
            assert(input@.line >= num_lines(s));
        }
        return len;
    }
    // `start` begins line `target`; find where the line ends.
    let mut e: usize = start;
    while e < len && content.get_char(e) != '\n'
        invariant
            start <= e <= len,
            len == s.len(),
            s == content@,
            start == line_start(s, target as int),
            forall|k: int| start <= k < e ==> s[k] != '\n',
        decreases len - e,
    {
        e = e + 1;
    }
    proof {
        lemma_next_nl_props(s, start as int);
        if e < len {
            lemma_next_nl_min(s, start as int, e as int);
        }
        assert(next_nl(s, start as int) == e as int);
        lemma_count_nl_mono(s, j as int, s.len() as int);
        assert(input@.line < num_lines(s));
    }
    let ll = e - start;
    let character = input.character as usize;
    if character > ll {
        start + ll
    } else {
        start + character
    }
}

/// The line/column span of the half-open character offset range `[start, end)`.
pub fn range_to_lsp_range(start: usize, end: usize, content: &str) -> (r: TextRange)
    requires
        start <= content@.len(),
        end <= content@.len(),
        content@.len() <= u32::MAX,
    ensures
        r@.start == pos_of(content@, start as int),
        r@.end == pos_of(content@, end as int),
{
    TextRange {
        start: pos_to_lsp_pos(start, content),
        end: pos_to_lsp_pos(end, content),
    }
}

/// The character offset pair of a line/column span.
pub fn lsp_range_to_range(range: TextRange, content: &str) -> (r: (usize, usize))
    requires
        content@.len() <= u32::MAX,
    ensures
        r.0 as int == offset_of(content@, range@.start.line, range@.start.character),
        r.1 as int == offset_of(content@, range@.end.line, range@.end.character),
{
    (lsp_pos_to_pos(range.start, content), lsp_pos_to_pos(range.end, content))
}

} // verus!
