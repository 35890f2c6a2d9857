use befunge::direction::ProgramPosition;
use befunge::error::ErrorKind;
use befunge::grid::{characters, parse_program, Grid};

fn owned(lines: &[&str]) -> Vec<String> {
    lines.iter().map(|line| line.to_string()).collect()
}

fn at(row: i32, col: i32) -> ProgramPosition {
    ProgramPosition { row, col }
}

#[test]
fn characters_lists_the_code_points() {
    assert_eq!(characters(""), Vec::<char>::new());
    assert_eq!(characters("a@1"), vec!['a', '@', '1']);
    assert_eq!(characters("\u{e9}\u{1f600}x"), vec!['\u{e9}', '\u{1f600}', 'x']);
}

#[test]
fn the_empty_text_has_no_line() {
    assert_eq!(parse_program(""), Vec::<String>::new());
}

#[test]
fn a_text_without_line_feed_is_one_line() {
    assert_eq!(parse_program(">@"), owned(&[">@"]));
}

#[test]
fn a_line_feed_closes_a_line() {
    assert_eq!(parse_program("ab\ncd"), owned(&["ab", "cd"]));
    assert_eq!(parse_program("ab\ncd\n"), owned(&["ab", "cd"]));
    assert_eq!(parse_program("\n"), owned(&[""]));
    assert_eq!(parse_program("\n\n"), owned(&["", ""]));
    assert_eq!(parse_program("a\n\nb"), owned(&["a", "", "b"]));
    assert_eq!(parse_program("\nb"), owned(&["", "b"]));
}

#[test]
fn a_carriage_return_before_a_line_feed_belongs_to_the_line_ending() {
    assert_eq!(parse_program("ab\r\ncd\r\n"), owned(&["ab", "cd"]));
    assert_eq!(parse_program("\r\n"), owned(&[""]));
    assert_eq!(parse_program("a\r\r\nb"), owned(&["a\r", "b"]));
}

#[test]
fn a_carriage_return_elsewhere_is_kept() {
    assert_eq!(parse_program("ab\r"), owned(&["ab\r"]));
    assert_eq!(parse_program("a\rb\nc"), owned(&["a\rb", "c"]));
    assert_eq!(parse_program("ab\ncd\r"), owned(&["ab", "cd\r"]));
    assert_eq!(parse_program("\r"), owned(&["\r"]));
}

#[test]
fn lines_keep_characters_beyond_ascii() {
    assert_eq!(parse_program("\u{e9}t\u{e9}\n\u{1f600}\n"), owned(&["\u{e9}t\u{e9}", "\u{1f600}"]));
}

#[test]
fn lines_agree_with_the_standard_library() {
    let texts = ["", "a", "a\n", "a\nb", "a\r\nb\r\n", "\n\n\n", "x\r", "x\r\n\r\n", " 1 \n\n 2", "\r\n\r"];
    for text in texts {
        let expected: Vec<String> = text.lines().map(|line| line.to_string()).collect();
        assert_eq!(parse_program(text), expected);
    }
}

#[test]
fn the_grid_holds_the_lines_as_rows() {
    let grid = Grid::new(&owned(&["12", "", "abc"]));
    assert_eq!(grid.rows, vec![vec!['1', '2'], vec![], vec!['a', 'b', 'c']]);
    let empty = Grid::new(&Vec::new());
    assert_eq!(empty.rows, Vec::<Vec<char>>::new());
}

#[test]
fn char_at_reads_the_cell() {
    let grid = Grid::new(&owned(&["12", "abc"]));
    assert_eq!(grid.char_at(at(0, 0)), Ok('1'));
    assert_eq!(grid.char_at(at(0, 1)), Ok('2'));
    assert_eq!(grid.char_at(at(1, 0)), Ok('a'));
    assert_eq!(grid.char_at(at(1, 2)), Ok('c'));
}

#[test]
fn char_at_fails_outside_the_rows() {
    let grid = Grid::new(&owned(&["12", "abc"]));
    assert_eq!(grid.char_at(at(2, 0)), Err(ErrorKind::OutOfBoundsPosition));
    assert_eq!(grid.char_at(at(-1, 0)), Err(ErrorKind::OutOfBoundsPosition));
    assert_eq!(grid.char_at(at(i32::MAX, 0)), Err(ErrorKind::OutOfBoundsPosition));
    assert_eq!(grid.char_at(at(i32::MIN, 0)), Err(ErrorKind::OutOfBoundsPosition));
}

#[test]
fn char_at_does_not_pad_a_short_row() {
    let grid = Grid::new(&owned(&["12", "abc", ""]));
    assert_eq!(grid.char_at(at(0, 2)), Err(ErrorKind::OutOfBoundsPosition));
    assert_eq!(grid.char_at(at(1, 3)), Err(ErrorKind::OutOfBoundsPosition));
    assert_eq!(grid.char_at(at(2, 0)), Err(ErrorKind::OutOfBoundsPosition));
    assert_eq!(grid.char_at(at(0, -1)), Err(ErrorKind::OutOfBoundsPosition));
    assert_eq!(grid.char_at(at(0, i32::MAX)), Err(ErrorKind::OutOfBoundsPosition));
}

#[test]
fn char_at_counts_characters_and_not_bytes() {
    let grid = Grid::new(&owned(&["\u{e9}\u{1f600}@"]));
    assert_eq!(grid.char_at(at(0, 0)), Ok('\u{e9}'));
    assert_eq!(grid.char_at(at(0, 1)), Ok('\u{1f600}'));
    assert_eq!(grid.char_at(at(0, 2)), Ok('@'));
    assert_eq!(grid.char_at(at(0, 3)), Err(ErrorKind::OutOfBoundsPosition));
}

#[test]
fn an_empty_grid_holds_nothing() {
    let grid = Grid::new(&Vec::new());
    assert_eq!(grid.char_at(at(0, 0)), Err(ErrorKind::OutOfBoundsPosition));
    assert_eq!(grid.get_or_zero(0, 0), '\0');
}

#[test]
fn get_or_zero_reads_the_cell_or_zero() {
    let grid = Grid::new(&owned(&["12", "abc"]));
    assert_eq!(grid.get_or_zero(0, 0), '1');
    assert_eq!(grid.get_or_zero(1, 2), 'c');
    assert_eq!(grid.get_or_zero(0, 2), '\0');
    assert_eq!(grid.get_or_zero(2, 0), '\0');
    assert_eq!(grid.get_or_zero(-1, 0), '\0');
    assert_eq!(grid.get_or_zero(0, -1), '\0');
    assert_eq!(grid.get_or_zero(i32::MIN, i32::MAX), '\0');
}
