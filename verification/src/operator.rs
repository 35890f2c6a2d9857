//! The instruction set and the decoder that maps a character to an
//! instruction.

use vstd::prelude::*;
use crate::direction::Direction;

verus! {

/// How the decoder reads the next character.
#[derive(Clone, Copy, Debug, PartialEq, Eq, Structural)]
pub enum ReaderMode {
    /// Characters are instructions.
    Normal,
    /// Characters are pushed as they are, up to the closing quote.
    StringLiteral,
}

impl ReaderMode {
    /// The other mode.
    pub open spec fn toggled(self) -> ReaderMode {
        match self {
            ReaderMode::Normal => ReaderMode::StringLiteral,
            ReaderMode::StringLiteral => ReaderMode::Normal,
        }
    }
}

/// One decoded instruction.
#[derive(Clone, Copy, Debug, PartialEq, Eq, Structural)]
pub enum Operator {
    /// Push the number written by a decimal digit.
    PushDigit(u8),
    /// Push a character met in string mode.
    PushCharacter(char),
    /// `+`: pop `a` and `b`, push `a + b`.
    Add,
    /// `-`: pop `a` and `b`, push `b - a`.
    Sub,
    /// `*`: pop `a` and `b`, push `a * b`.
    Mul,
    /// `/`: pop `a` and `b`, push `b / a`, rounded towards zero.
    Div,
    /// `"`: enter or leave string mode.
    ToggleStringMode,
    /// `,`: pop a value and write it to the output as a character.
    Pop,
    /// `:`: push a copy of the top value.
    Duplicate,
    /// `_`: pop a value; head right if it is zero, left otherwise.
    PopMoveHorizontal,
    /// `|`: pop a value; head down if it is zero, up otherwise.
    PopMoveVertical,
    /// `g`: pop a column and a row, push the character the grid holds there.
    Get,
    /// `>`, `<`, `^`, `v`: head in the given direction.
    SetDirection(Direction),
    /// `#`: jump over the next cell.
    Bridge,
    /// A space: do nothing.
    NoOp,
    /// A character that is no instruction.
    Unknown(char),
    /// `@`: stop.
    End,
}

/// Whether `c` is one of the ten decimal digits.
pub open spec fn is_digit(c: char) -> bool {
    '0' <= c <= '9'
}

/// The number that the digit `c` writes.
pub open spec fn digit_value(c: char) -> int
    recommends
        is_digit(c),
{
    c as int - '0' as int
}

/// The instruction that a character other than a digit stands for outside
/// string mode, if it stands for one.
pub open spec fn symbol_instruction(c: char) -> Option<Operator> {
    if c == ' ' {
        Some(Operator::NoOp)
    } else if c == '+' {
        Some(Operator::Add)
    } else if c == '-' {
        Some(Operator::Sub)
    } else if c == '*' {
        Some(Operator::Mul)
    } else if c == '/' {
        Some(Operator::Div)
    } else if c == '"' {
        Some(Operator::ToggleStringMode)
    } else if c == ':' {
        Some(Operator::Duplicate)
    } else if c == ',' {
        Some(Operator::Pop)
    } else if c == '_' {
        Some(Operator::PopMoveHorizontal)
    } else if c == '|' {
        Some(Operator::PopMoveVertical)
    } else if c == 'g' {
        Some(Operator::Get)
    } else if c == '>' {
        Some(Operator::SetDirection(Direction::Right))
    } else if c == '<' {
        Some(Operator::SetDirection(Direction::Left))
    } else if c == '^' {
        Some(Operator::SetDirection(Direction::Up))
    } else if c == 'v' {
        Some(Operator::SetDirection(Direction::Down))
    } else if c == '#' {
        Some(Operator::Bridge)
    } else if c == '@' {
        Some(Operator::End)
    } else {
        None
    }
}

/// Whether `c` is an instruction outside string mode.
pub open spec fn is_instruction(c: char) -> bool {
    is_digit(c) || symbol_instruction(c) is Some
}

/// The decoder as a mathematical function, total over modes and characters.
pub open spec fn decode(mode: ReaderMode, c: char) -> Operator {
    match mode {
        ReaderMode::Normal => {
            if is_digit(c) {
                Operator::PushDigit(digit_value(c) as u8)
            } else {
                match symbol_instruction(c) {
                    Some(op) => op,
                    None => Operator::Unknown(c),
                }
            }
        },
        ReaderMode::StringLiteral => {
            if c == '"' {
                Operator::ToggleStringMode
            } else {
                Operator::PushCharacter(c)
            }
        },
    }
}

/// Decodes the character `c` as read in `reader_mode`.
pub fn parse_operator(reader_mode: ReaderMode, c: char) -> (op: Operator)
    ensures
        op == decode(reader_mode, c),
{
    match reader_mode {
        ReaderMode::Normal => match c {
            '0'..='9' => {
                let code: u32 = c as u32;
                let zero: u32 = '0' as u32;
                Operator::PushDigit((code - zero) as u8)
            },
            ' ' => Operator::NoOp,
            '+' => Operator::Add,
            '-' => Operator::Sub,
            '*' => Operator::Mul,
            '/' => Operator::Div,
            '"' => Operator::ToggleStringMode,
            ':' => Operator::Duplicate,
            ',' => Operator::Pop,
            '_' => Operator::PopMoveHorizontal,
            '|' => Operator::PopMoveVertical,
            'g' => Operator::Get,
            '>' => Operator::SetDirection(Direction::Right),
            '<' => Operator::SetDirection(Direction::Left),
            '^' => Operator::SetDirection(Direction::Up),
            'v' => Operator::SetDirection(Direction::Down),
            '#' => Operator::Bridge,
            '@' => Operator::End,
            other => Operator::Unknown(other),
        },
        ReaderMode::StringLiteral => match c {
            '"' => Operator::ToggleStringMode,
            other => Operator::PushCharacter(other),
        },
    }
}

} // verus!
