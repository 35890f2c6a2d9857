//! What holds of the engine on every program: statements that relate the
//! functions of the other modules to each other, each with its proof.

use vstd::prelude::*;
use vstd::arithmetic::div_mod::{lemma_fundamental_div_mod, lemma_mod_bound};
use crate::direction::Direction;
use crate::error::ErrorKind;
use crate::grid::{holds, lemma_line_end_bounds, line_content, line_end, lines_from, lines_of};
use crate::model::{operator_at, representable, EngineModel, MachineModel};
use crate::operator::{decode, digit_value, is_digit, is_instruction, Operator, ReaderMode};
use crate::stack::{arithmetic_outcome, truncating_quotient, wrap, Arithmetic, StackValue};

verus! {

/// Outside string mode a character decodes to `Unknown` exactly when it is
/// no instruction, and `Unknown` then carries that character.
pub proof fn unknown_exactly_outside_the_table(c: char)
    ensures
        !is_instruction(c) ==> decode(ReaderMode::Normal, c) == Operator::Unknown(c),
        is_instruction(c) ==> !(decode(ReaderMode::Normal, c) is Unknown),
{
}

/// A digit decodes to the push of the number it writes, which lies between
/// zero and nine.
pub proof fn digits_push_their_value(c: char)
    requires
        is_digit(c),
    ensures
        0 <= digit_value(c) <= 9,
        decode(ReaderMode::Normal, c) == Operator::PushDigit(digit_value(c) as u8),
{
}

/// In string mode the quote leaves the mode and every other character is
/// pushed as it is: no character is unknown there.
pub proof fn string_mode_pushes_all_but_the_quote(c: char)
    ensures
        c == '"' ==> decode(ReaderMode::StringLiteral, c) == Operator::ToggleStringMode,
        c != '"' ==> decode(ReaderMode::StringLiteral, c) == Operator::PushCharacter(c),
{
}

/// Only the quote toggles string mode, whatever the mode it is read in.
pub proof fn only_the_quote_toggles(mode: ReaderMode, c: char)
    ensures
        decode(mode, c) == Operator::ToggleStringMode <==> c == '"',
{
}

/// No line of a text holds a line feed.
pub proof fn lines_hold_no_line_feed(text: Seq<char>)
    ensures
        forall|i: int, j: int|
            0 <= i < lines_of(text).len() && 0 <= j < lines_of(text)[i].len() ==> lines_of(
                text,
            )[i][j] != '\n',
{
    lines_from_hold_no_line_feed(text, 0);
}

proof fn lines_from_hold_no_line_feed(text: Seq<char>, from: int)
    requires
        0 <= from,
    ensures
        forall|i: int, j: int|
            0 <= i < lines_from(text, from).len() && 0 <= j < lines_from(text, from)[i].len()
                ==> lines_from(text, from)[i][j] != '\n',
    decreases text.len() - from,
{
    let lines = lines_from(text, from);
    if from < text.len() {
        let end = line_end(text, from);
        lemma_line_end_bounds(text, from);
        let first = line_content(text, from, end);
        if end < text.len() {
            lines_from_hold_no_line_feed(text, end + 1);
        }
        assert forall|i: int, j: int| 0 <= i < lines.len() && 0 <= j < lines[i].len() implies lines[i][j]
            != '\n' by {
            if i == 0 {
                assert(lines[0] == first);
                assert(first[j] == text[from + j]);
            } else {
                assert(lines[i] == lines_from(text, end + 1)[i - 1]);
            }
        }
    }
}

/// A text that is not empty and holds no line feed is one line, the text
/// itself.
pub proof fn a_text_without_line_feed_is_one_line(text: Seq<char>)
    requires
        text.len() > 0,
        forall|i: int| 0 <= i < text.len() ==> text[i] != '\n',
    ensures
        lines_of(text) == seq![text],
{
    line_end_without_line_feed(text, 0);
    assert(text.subrange(0, text.len() as int) =~= text);
}

proof fn line_end_without_line_feed(text: Seq<char>, from: int)
    requires
        0 <= from <= text.len(),
        forall|i: int| 0 <= i < text.len() ==> text[i] != '\n',
    ensures
        line_end(text, from) == text.len(),
    decreases text.len() - from,
{
    if from < text.len() {
        line_end_without_line_feed(text, from + 1);
    }
}

/// Wrapping keeps a number that `i32` can hold, and takes every other
/// number into the range of `i32` by a multiple of 2^32.
pub proof fn wrap_is_exact_in_range(n: int)
    ensures
        i32::MIN <= wrap(n) <= i32::MAX,
        (wrap(n) - n) % 0x1_0000_0000 == 0,
        i32::MIN <= n <= i32::MAX ==> wrap(n) == n,
{
    lemma_fundamental_div_mod(n, 0x1_0000_0000);
    lemma_mod_bound(n, 0x1_0000_0000);
    let quotient = n / 0x1_0000_0000;
    assert((wrap(n) - n) % 0x1_0000_0000 == 0) by {
        if n % 0x1_0000_0000 > i32::MAX {
            assert(wrap(n) - n == 0x1_0000_0000 * (-quotient - 1));
            vstd::arithmetic::div_mod::lemma_mod_multiples_basic(-quotient - 1, 0x1_0000_0000);
        } else {
            assert(wrap(n) - n == 0x1_0000_0000 * (-quotient));
            vstd::arithmetic::div_mod::lemma_mod_multiples_basic(-quotient, 0x1_0000_0000);
        }
    }
}

/// The quotient is rounded towards zero: what the division leaves over is
/// smaller in size than the divisor and never has the sign opposite to the
/// dividend's.
pub proof fn quotient_rounds_towards_zero(dividend: int, divisor: int)
    requires
        divisor != 0,
    ensures
        ({
            let rest = dividend - truncating_quotient(dividend, divisor) * divisor;
            let size = if divisor > 0 {
                divisor
            } else {
                -divisor
            };
            &&& dividend >= 0 ==> 0 <= rest < size
            &&& dividend <= 0 ==> -size < rest <= 0
        }),
{
    let n = if dividend >= 0 {
        dividend
    } else {
        -dividend
    };
    let d = if divisor > 0 {
        divisor
    } else {
        -divisor
    };
    lemma_fundamental_div_mod(n, d);
    lemma_mod_bound(n, d);
    let q = n / d;
    let rest = dividend - truncating_quotient(dividend, divisor) * divisor;
    assert(n == d * q + n % d);
    if dividend >= 0 {
        if divisor > 0 {
            assert(rest == n % d) by (nonlinear_arith)
                requires
                    rest == n - q * d,
                    n == d * q + n % d,
            ;
        } else {
            assert(rest == n % d) by (nonlinear_arith)
                requires
                    rest == n - (-q) * (-d),
                    n == d * q + n % d,
            ;
        }
    } else {
        if divisor > 0 {
            assert(rest == -(n % d)) by (nonlinear_arith)
                requires
                    rest == -n - (-q) * d,
                    n == d * q + n % d,
            ;
        } else {
            assert(rest == -(n % d)) by (nonlinear_arith)
                requires
                    rest == -n - q * (-d),
                    n == d * q + n % d,
            ;
        }
    }
}

/// The operand popped second is the left-hand one: on a stack that ends in
/// the numbers `b` and then `a`, subtraction leaves `b - a` and division
/// leaves `b / a`, wherever `i32` can hold that result.
pub proof fn left_operand_is_popped_second(stack: Seq<StackValue>, b: i32, a: i32)
    ensures
        representable(b - a) ==> arithmetic_outcome(
            stack.push(StackValue::NumericDigit(b)).push(StackValue::NumericDigit(a)),
            Arithmetic::Sub,
        ) == Ok::<Seq<StackValue>, ErrorKind>(stack.push(StackValue::NumericDigit((b - a) as i32))),
        a != 0 && representable(truncating_quotient(b as int, a as int)) ==> arithmetic_outcome(
            stack.push(StackValue::NumericDigit(b)).push(StackValue::NumericDigit(a)),
            Arithmetic::Div,
        ) == Ok::<Seq<StackValue>, ErrorKind>(
            stack.push(StackValue::NumericDigit(truncating_quotient(b as int, a as int) as i32)),
        ),
{
    let full = stack.push(StackValue::NumericDigit(b)).push(StackValue::NumericDigit(a));
    assert(full.take(full.len() - 2) =~= stack);
    wrap_is_exact_in_range(b - a);
    if a != 0 {
        wrap_is_exact_in_range(truncating_quotient(b as int, a as int));
    }
}

/// A character whose code point fits in a byte comes back unchanged when it
/// is read as an integer and that integer is read as a character.
pub proof fn byte_characters_survive_the_round_trip(c: char)
    requires
        (c as int) < 256,
    ensures
        StackValue::NumericDigit(StackValue::Character(c).as_integer() as i32).as_character() == c,
{
}

/// The end is absorbing: a machine that has ended has no next instruction,
/// and neither an instruction nor a step changes it.
pub proof fn the_end_is_absorbing(machine: MachineModel, operator: Operator)
    requires
        machine.terminated,
    ensures
        machine.next_operation() is None,
        machine.interpret(operator) == Ok::<MachineModel, ErrorKind>(machine),
        machine.step() == Ok::<MachineModel, ErrorKind>(machine),
{
}

/// What an instruction leaves alone: the program always, the mode unless the
/// instruction is the quote, and the end flag unless the instruction is
/// `End`; and once a machine has ended it stays ended.
pub proof fn instructions_keep_what_is_not_theirs(machine: MachineModel, operator: Operator)
    ensures
        machine.interpret(operator) matches Ok(after) ==> {
            &&& after.program == machine.program
            &&& (after.mode != machine.mode ==> operator == Operator::ToggleStringMode)
            &&& (machine.terminated ==> after.terminated)
            &&& (after.terminated && !machine.terminated ==> operator == Operator::End)
        },
{
}

/// One step changes the mode only when the character under the instruction
/// pointer is the quote.
pub proof fn mode_changes_only_at_a_quote(machine: MachineModel)
    ensures
        machine.step() matches Ok(after) ==> (after.mode != machine.mode ==> holds(
            machine.program,
            machine.row,
            machine.col,
        ) && machine.program[machine.row][machine.col] == '"'),
{
    if !machine.terminated && holds(machine.program, machine.row, machine.col) {
        let c = machine.program[machine.row][machine.col];
        only_the_quote_toggles(machine.mode, c);
        instructions_keep_what_is_not_theirs(machine, decode(machine.mode, c));
    }
}

/// The two instructions that choose a heading never fail for want of a
/// value: an empty stack counts as zero, so that `_` heads right and `|`
/// heads down, and the stack stays empty.
pub proof fn choosing_a_heading_tolerates_an_empty_stack(machine: MachineModel)
    requires
        !machine.terminated,
        machine.stack.len() == 0,
    ensures
        machine.interpret(Operator::PopMoveHorizontal) == (MachineModel {
            direction: Direction::Right,
            ..machine
        }).advanced(),
        machine.interpret(Operator::PopMoveVertical) == (MachineModel {
            direction: Direction::Down,
            ..machine
        }).advanced(),
        machine.interpret(Operator::PopMoveHorizontal) != Err::<MachineModel, ErrorKind>(
            ErrorKind::StackUnderflow,
        ),
        machine.interpret(Operator::PopMoveVertical) != Err::<MachineModel, ErrorKind>(
            ErrorKind::StackUnderflow,
        ),
{
}

/// On any stack at all, choosing a heading does not underflow.
pub proof fn choosing_a_heading_never_underflows(machine: MachineModel)
    ensures
        machine.interpret(Operator::PopMoveHorizontal) != Err::<MachineModel, ErrorKind>(
            ErrorKind::StackUnderflow,
        ),
        machine.interpret(Operator::PopMoveVertical) != Err::<MachineModel, ErrorKind>(
            ErrorKind::StackUnderflow,
        ),
{
}

/// Copying the top of an empty stack fails; on any other stack it pushes the
/// top once more.
pub proof fn duplicate_needs_a_value(machine: MachineModel)
    requires
        !machine.terminated,
    ensures
        machine.stack.len() == 0 ==> machine.interpret(Operator::Duplicate) == Err::<
            MachineModel,
            ErrorKind,
        >(ErrorKind::StackUnderflow),
        machine.stack.len() > 0 ==> machine.interpret(Operator::Duplicate) == (MachineModel {
            stack: machine.stack.push(machine.stack.last()),
            ..machine
        }).advanced(),
{
}

/// A bridge jumps over exactly one cell: the instruction pointer comes to
/// stand two cells further along its heading, and nothing else changes.
pub proof fn bridge_skips_one_cell(machine: MachineModel)
    requires
        machine.valid(),
        !machine.terminated,
        representable(machine.row + 2 * machine.direction.row_delta()),
        representable(machine.col + 2 * machine.direction.col_delta()),
    ensures
        machine.interpret(Operator::Bridge) == Ok::<MachineModel, ErrorKind>(
            MachineModel {
                row: machine.row + 2 * machine.direction.row_delta(),
                col: machine.col + 2 * machine.direction.col_delta(),
                ..machine
            },
        ),
{
}

/// Heading right from column `c`, a bridge makes the next instruction the
/// one in column `c + 2` of the same row, not the one in column `c + 1`.
pub proof fn after_a_bridge_the_next_instruction_is_two_columns_on(machine: MachineModel)
    requires
        machine.valid(),
        !machine.terminated,
        machine.direction == Direction::Right,
        representable(machine.col + 2),
    ensures
        machine.interpret(Operator::Bridge) matches Ok(after) && after.next_operation() == Some(
            operator_at(machine.program, machine.row, machine.col + 2, machine.mode),
        ),
{
    bridge_skips_one_cell(machine);
}

/// A step never takes the instruction pointer to a place that the machine
/// cannot hold: what follows a valid machine is valid.
pub proof fn steps_keep_the_machine_valid(machine: MachineModel, operator: Operator)
    requires
        machine.valid(),
    ensures
        machine.interpret(operator) matches Ok(after) ==> after.valid(),
        machine.step() matches Ok(after) ==> after.valid(),
{
}

/// A character that is no instruction, met outside string mode, stops the
/// program with a failure that carries it.
pub proof fn unknown_instruction_is_fatal(machine: MachineModel, c: char)
    requires
        !machine.terminated,
        machine.mode == ReaderMode::Normal,
        holds(machine.program, machine.row, machine.col),
        machine.program[machine.row][machine.col] == c,
        !is_instruction(c),
    ensures
        machine.step() == Err::<MachineModel, ErrorKind>(ErrorKind::UnknownInstruction(c)),
{
}

/// An instruction pointer that has left the grid stops the program at the
/// next step, whatever the mode.
pub proof fn leaving_the_grid_is_fatal(machine: MachineModel)
    requires
        !machine.terminated,
        !holds(machine.program, machine.row, machine.col),
    ensures
        machine.step() == Err::<MachineModel, ErrorKind>(ErrorKind::OutOfBoundsPosition),
{
}

/// A halted engine stays as it is, whatever budget it is given.
pub proof fn a_halted_engine_stays(engine: EngineModel, budget: nat)
    requires
        engine.halted(),
    ensures
        engine.next() == engine,
        engine.run(budget) == engine,
{
}

/// A failure, once recorded, is never lost or replaced.
pub proof fn a_fault_is_final(engine: EngineModel, budget: nat)
    requires
        engine.fault is Some,
    ensures
        engine.run(budget).fault == engine.fault,
{
}

/// A run in two parts is the run of both budgets together.
pub proof fn runs_compose(engine: EngineModel, first: nat, second: nat)
    ensures
        engine.run(first).run(second) == engine.run(first + second),
    decreases first,
{
    if first == 0 || engine.halted() {
        a_halted_engine_stays_or_idles(engine, second);
    } else {
        runs_compose(engine.next(), (first - 1) as nat, second);
    }
}

/// The result of a program does not depend on the budget: once a run has
/// halted, a larger budget changes nothing of the state, the output, the
/// count of steps or the failure.
pub proof fn a_larger_budget_changes_nothing(engine: EngineModel, budget: nat, larger: nat)
    requires
        engine.run(budget).halted(),
        budget <= larger,
    ensures
        engine.run(larger) == engine.run(budget),
{
    runs_compose(engine, budget, (larger - budget) as nat);
    a_halted_engine_stays(engine.run(budget), (larger - budget) as nat);
}

/// Running a program is reproducible: any two runs of one program that
/// reach its end, or its failure, leave the same state and the same output
/// after the same number of steps.
pub proof fn runs_are_reproducible(program: Seq<Seq<char>>, one: nat, other: nat)
    requires
        EngineModel::start(program).run(one).halted(),
        EngineModel::start(program).run(other).halted(),
    ensures
        EngineModel::start(program).run(one) == EngineModel::start(program).run(other),
{
    if one <= other {
        a_larger_budget_changes_nothing(EngineModel::start(program), one, other);
    } else {
        a_larger_budget_changes_nothing(EngineModel::start(program), other, one);
    }
}

/// A run takes no more steps than its budget allows.
pub proof fn a_run_stays_within_its_budget(engine: EngineModel, budget: nat)
    ensures
        engine.steps <= engine.run(budget).steps <= engine.steps + budget,
    decreases budget,
{
    if budget > 0 && !engine.halted() {
        a_run_stays_within_its_budget(engine.next(), (budget - 1) as nat);
    }
}

proof fn a_halted_engine_stays_or_idles(engine: EngineModel, budget: nat)
    ensures
        engine.run(0) == engine,
        engine.halted() ==> engine.run(budget) == engine,
{
}

} // verus!
