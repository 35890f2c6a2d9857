//! The program text: its division into lines, and the grid of characters
//! that the instruction pointer walks.
//!
//! Rows may differ in length. A row is never padded: a column beyond the end
//! of a row holds no character.

use vstd::prelude::*;
use crate::direction::ProgramPosition;
use crate::error::ErrorKind;

verus! {

/// The index of the first line feed of `text` at or after `from`, or the
/// length of `text` where there is none.
pub open spec fn line_end(text: Seq<char>, from: int) -> int
    recommends
        0 <= from,
    decreases text.len() - from,
{
    if from >= text.len() {
        text.len() as int
    } else if text[from] == '\n' {
        from
    } else {
        line_end(text, from + 1)
    }
}

/// The line that begins at `from` and ends before `end`. A line that a line
/// feed closes loses the carriage return in front of that line feed, if
/// there is one; a last line that no line feed closes is kept whole.
pub open spec fn line_content(text: Seq<char>, from: int, end: int) -> Seq<char>
    recommends
        0 <= from <= end <= text.len(),
{
    if end < text.len() && from < end && text[end - 1] == '\r' {
        text.subrange(from, end - 1)
    } else {
        text.subrange(from, end)
    }
}

/// The lines of `text` from index `from` on.
pub open spec fn lines_from(text: Seq<char>, from: int) -> Seq<Seq<char>>
    recommends
        0 <= from,
    decreases text.len() - from,
    via lines_from_terminates
{
    if from >= text.len() {
        Seq::empty()
    } else {
        let end = line_end(text, from);
        if end >= text.len() {
            seq![line_content(text, from, end)]
        } else {
            seq![line_content(text, from, end)] + lines_from(text, end + 1)
        }
    }
}

#[via_fn]
proof fn lines_from_terminates(text: Seq<char>, from: int) {
    if from < text.len() {
        lemma_line_end_bounds(text, from);
    }
}

/// The lines of `text`. Each line feed closes a line; what follows the last
/// line feed is a line of its own unless it is empty, so that the empty text
/// has no line at all.
pub open spec fn lines_of(text: Seq<char>) -> Seq<Seq<char>> {
    lines_from(text, 0)
}

/// A line ends at or after the place where it begins, and within the text.
pub proof fn lemma_line_end_bounds(text: Seq<char>, from: int)
    requires
        from <= text.len(),
    ensures
        from <= line_end(text, from) <= text.len(),
        line_end(text, from) < text.len() ==> text[line_end(text, from)] == '\n',
        forall|i: int| from <= i < line_end(text, from) ==> text[i] != '\n',
    decreases text.len() - from,
{
    if from < text.len() && text[from] != '\n' {
        lemma_line_end_bounds(text, from + 1);
    }
}

/// The rows that a list of lines stands for: each line as its sequence of
/// characters.
pub open spec fn rows_of(lines: Seq<String>) -> Seq<Seq<char>> {
    Seq::new(lines.len(), |i: int| lines[i]@)
}

/// The characters of `text`, one by one.
pub fn characters(text: &str) -> (chars: Vec<char>)
    ensures
        chars@ == text@,
{
    let mut chars: Vec<char> = Vec::new();
    for c in it: text.chars()
        invariant
            chars@ == it.seq().take(it.index() as int),
    {
        chars.push(c);
    }
    chars
}

/// Divides the text of a program into its lines.
pub fn parse_program(source: &str) -> (lines: Vec<String>)
    ensures
        rows_of(lines@) == lines_of(source@),
{
    let chars: Vec<char> = characters(source);
    let n: usize = chars.len();
    let mut lines: Vec<String> = Vec::new();
    let mut start: usize = 0;
    while start < n
        invariant
            chars@ == source@,
            n == chars@.len(),
            start <= n,
            lines_of(source@) == rows_of(lines@) + lines_from(source@, start as int),
        decreases n - start,
    {
        let mut end: usize = start;
        while end < n && chars[end] != '\n'
            invariant
                chars@ == source@,
                n == chars@.len(),
                start <= end <= n,
                line_end(source@, start as int) == line_end(source@, end as int),
            decreases n - end,
        {
            end = end + 1;
        }
        let stop: usize = if end < n && start < end && chars[end - 1] == '\r' {
            end - 1
        } else {
            end
        };
        let line: String = source.substring_char(start, stop).to_owned();
        proof {
            let rest = lines_from(source@, if end < n { end + 1 } else { n as int });
            assert(line_end(source@, end as int) == end);
            assert(line@ == line_content(source@, start as int, end as int));
            assert(lines_from(source@, start as int) =~= seq![line@] + rest);
            assert(rows_of(lines@.push(line)) =~= rows_of(lines@) + seq![line@]);
            assert(rows_of(lines@) + (seq![line@] + rest) =~= rows_of(lines@) + seq![line@]
                + rest);
        }
        lines.push(line);
        start = if end < n {
            end + 1
        } else {
            n
        };
    }
    assert(rows_of(lines@) + Seq::<Seq<char>>::empty() =~= rows_of(lines@));
    lines
}

/// The program as a grid of characters.
#[derive(Clone, Debug, PartialEq, Eq)]
pub struct Grid {
    /// The rows from top to bottom, each from left to right.
    pub rows: Vec<Vec<char>>,
}

impl View for Grid {
    type V = Seq<Seq<char>>;

    open spec fn view(&self) -> Seq<Seq<char>> {
        Seq::new(self.rows@.len(), |i: int| self.rows@[i]@)
    }
}

/// Whether `grid` holds a character at the given row and column.
pub open spec fn holds(grid: Seq<Seq<char>>, row: int, col: int) -> bool {
    0 <= row < grid.len() && 0 <= col < grid[row].len()
}

/// The character at the given row and column, or the character with code
/// point zero where the grid holds none.
pub open spec fn cell_or_zero(grid: Seq<Seq<char>>, row: int, col: int) -> char {
    if holds(grid, row, col) {
        grid[row][col]
    } else {
        '\0'
    }
}

impl Grid {
    /// The grid whose rows are the given lines, in their order.
    pub fn new(lines: &Vec<String>) -> (grid: Grid)
        ensures
            grid@ == rows_of(lines@),
    {
        let mut rows: Vec<Vec<char>> = Vec::new();
        let n: usize = lines.len();
        let mut i: usize = 0;
        while i < n
            invariant
                n == lines@.len(),
                i <= n,
                rows@.len() == i,
                forall|k: int| 0 <= k < i ==> rows@[k]@ == lines@[k]@,
            decreases n - i,
        {
            let row: Vec<char> = characters(lines[i].as_str());
            rows.push(row);
            i = i + 1;
        }
        let grid = Grid { rows };
        assert(grid@ =~= rows_of(lines@));
        grid
    }

    /// The character at `position`. It fails where the row lies outside the
    /// grid or the column outside that row.
    pub fn char_at(&self, position: ProgramPosition) -> (r: Result<char, ErrorKind>)
        ensures
            holds(self@, position.row as int, position.col as int) ==> r == Ok::<
                char,
                ErrorKind,
            >(self@[position.row as int][position.col as int]),
            !holds(self@, position.row as int, position.col as int) ==> r == Err::<
                char,
                ErrorKind,
            >(ErrorKind::OutOfBoundsPosition),
    {
        if position.row < 0 || position.col < 0 {
            return Err(ErrorKind::OutOfBoundsPosition);
        }
        let row: usize = position.row as usize;
        let col: usize = position.col as usize;
        if row >= self.rows.len() {
            return Err(ErrorKind::OutOfBoundsPosition);
        }
        if col >= self.rows[row].len() {
            return Err(ErrorKind::OutOfBoundsPosition);
        }
        Ok(self.rows[row][col])
    }

    /// The character at the given row and column, or the character with code
    /// point zero where the grid holds none. It never fails.
    pub fn get_or_zero(&self, row: i32, col: i32) -> (c: char)
        ensures
            c == cell_or_zero(self@, row as int, col as int),
    {
        match self.char_at(ProgramPosition { row, col }) {
            Ok(c) => c,
            Err(_) => '\0',
        }
    }
}

} // verus!
