//! The execution state machine: the state of a running program, the step
//! that carries out one instruction, and the engine that takes step after
//! step.
//!
//! Every state has a [`MachineModel`] as its view, and every function here
//! states its result over the definitions of that model.

use vstd::prelude::*;
use crate::direction::{Direction, ProgramPosition};
use crate::error::{ErrorKind, Fault};
use crate::grid::{rows_of, Grid};
use crate::model::{operator_at, outcome_of, state_of, EngineModel, MachineModel, Outcome};
use crate::operator::{parse_operator, Operator, ReaderMode};
use crate::stack::{mathematical_operation, Arithmetic, Stack, StackValue};

verus! {

/// The state of a running program.
#[derive(Clone, Debug, PartialEq, Eq)]
pub struct InterpreterState {
    /// The heading of the instruction pointer.
    pub direction: Direction,
    /// The row of the instruction pointer, counted from the top.
    pub row: i32,
    /// The column of the instruction pointer, counted from the left.
    pub col: i32,
    /// How the next character is read.
    pub mode: ReaderMode,
    /// The operand stack.
    pub stack: Stack,
    /// The program, which no step changes.
    pub program: Grid,
    /// The characters written so far, in the order in which they were
    /// written.
    pub output: Vec<char>,
    /// Whether the program has reached its end. Once set it stays set.
    pub terminated: bool,
}

impl View for InterpreterState {
    type V = MachineModel;

    open spec fn view(&self) -> MachineModel {
        MachineModel {
            program: self.program@,
            row: self.row as int,
            col: self.col as int,
            direction: self.direction,
            mode: self.mode,
            stack: self.stack@,
            output: self.output@,
            terminated: self.terminated,
        }
    }
}

impl InterpreterState {
    /// The state of a program that has not yet taken a step. The lines of
    /// the program are the rows of its grid.
    pub fn new(program: Vec<String>) -> (state: Self)
        ensures
            state@ == MachineModel::initial(rows_of(program@)),
    {
        Self {
            direction: Direction::Right,
            row: 0,
            col: 0,
            mode: ReaderMode::Normal,
            stack: Stack::new(),
            program: Grid::new(&program),
            output: Vec::new(),
            terminated: false,
        }
    }

    /// The place of the instruction pointer.
    pub fn position(&self) -> (position: ProgramPosition)
        ensures
            position.row == self.row,
            position.col == self.col,
    {
        ProgramPosition { row: self.row, col: self.col }
    }
}

/// Appends `val` to `v` and hands the longer vector back.
pub fn put_ret<T>(v: Vec<T>, val: T) -> (d: Vec<T>)
    where
        T: Clone,
    ensures
        d@ == v@.push(val),
{
    let mut d = v;
    d.push(val);
    d
}

/// Decodes the instruction that `program` holds at `position`, read in
/// `reader_mode`.
pub fn get_operator(program: &Grid, position: ProgramPosition, reader_mode: ReaderMode) -> (r: Result<
    Operator,
    ErrorKind,
>)
    ensures
        r == operator_at(program@, position.row as int, position.col as int, reader_mode),
{
    match program.char_at(position) {
        Ok(c) => Ok(parse_operator(reader_mode, c)),
        Err(kind) => Err(kind),
    }
}

/// The engine: a program together with its progress.
#[derive(Clone, Debug, PartialEq, Eq)]
pub struct Interpreter {
    /// The state that the next step starts from.
    pub state: InterpreterState,
    /// The number of instructions carried out so far. The count stops at the
    /// largest number it can hold.
    pub steps: u64,
    /// The failure that stopped the program, if one did.
    pub fault: Option<Fault>,
}

impl View for Interpreter {
    type V = EngineModel;

    open spec fn view(&self) -> EngineModel {
        EngineModel { state: self.state@, steps: self.steps, fault: self.fault }
    }
}

impl Interpreter {
    /// An engine that is about to take the first step of `program`.
    pub fn new(program: Vec<String>) -> (interpreter: Self)
        ensures
            interpreter@ == EngineModel::start(rows_of(program@)),
    {
        Interpreter { state: InterpreterState::new(program), steps: 0, fault: None }
    }

    /// Decodes the instruction under the instruction pointer of `s`. There
    /// is none once the program has ended.
    pub fn next_operation(s: &InterpreterState) -> (r: Option<Result<Operator, ErrorKind>>)
        ensures
            r == s@.next_operation(),
    {
        if !s.terminated {
            Some(get_operator(&s.program, s.position(), s.mode))
        } else {
            None
        }
    }

    /// Carries out `operator` on `state`. It hands back the state after the
    /// instruction and how the instruction ended; where it failed, the state
    /// is handed back as it was.
    pub fn interpret(state: InterpreterState, operator: Operator) -> (r: (InterpreterState, Outcome))
        ensures
            r.0@ == state_of(state@, state@.interpret(operator)),
            r.1 == outcome_of(state@.interpret(operator)),
    {
        let mut s = state;
        if s.terminated {
            return (s, Outcome::Terminated);
        }
        // The instruction works on a copy of the stack, so that a failure
        // leaves the state untouched.
        let mut stack: Stack = s.stack.copy();
        let mut heading: Direction = s.direction;
        let mut mode: ReaderMode = s.mode;
        let mut written: Option<char> = None;
        let mut skip: bool = false;
        match operator {
            Operator::PushDigit(d) => {
                stack.push(StackValue::NumericDigit(d as i32));
            },
            Operator::PushCharacter(c) => {
                stack.push(StackValue::Character(c));
            },
            Operator::Add => {
                if let Err(kind) = mathematical_operation(&mut stack, Arithmetic::Add) {
                    return (s, Outcome::Error(kind));
                }
            },
            Operator::Sub => {
                if let Err(kind) = mathematical_operation(&mut stack, Arithmetic::Sub) {
                    return (s, Outcome::Error(kind));
                }
            },
            Operator::Mul => {
                if let Err(kind) = mathematical_operation(&mut stack, Arithmetic::Mul) {
                    return (s, Outcome::Error(kind));
                }
            },
            Operator::Div => {
                if let Err(kind) = mathematical_operation(&mut stack, Arithmetic::Div) {
                    return (s, Outcome::Error(kind));
                }
            },
            Operator::Duplicate => {
                if let Err(kind) = stack.duplicate() {
                    return (s, Outcome::Error(kind));
                }
            },
            Operator::Pop => {
                match stack.pop() {
                    Ok(value) => {
                        written = Some(value.to_character());
                    },
                    Err(kind) => {
                        return (s, Outcome::Error(kind));
                    },
                }
            },
            Operator::PopMoveHorizontal => {
                let value: StackValue = stack.pop_or_default(StackValue::NumericDigit(0));
                heading = if value.to_integer() == 0 {
                    Direction::Right
                } else {
                    Direction::Left
                };
            },
            Operator::PopMoveVertical => {
                let value: StackValue = stack.pop_or_default(StackValue::NumericDigit(0));
                heading = if value.to_integer() == 0 {
                    Direction::Down
                } else {
                    Direction::Up
                };
            },
            Operator::Get => {
                let y: StackValue = match stack.pop() {
                    Ok(value) => value,
                    Err(kind) => {
                        return (s, Outcome::Error(kind));
                    },
                };
                let x: StackValue = match stack.pop() {
                    Ok(value) => value,
                    Err(kind) => {
                        return (s, Outcome::Error(kind));
                    },
                };
                let c: char = s.program.get_or_zero(x.to_integer(), y.to_integer());
                stack.push(StackValue::Character(c));
                assert(stack@ == s.stack@.take(s.stack@.len() - 2).push(StackValue::Character(c)));
            },
            Operator::ToggleStringMode => {
                mode = match s.mode {
                    ReaderMode::StringLiteral => ReaderMode::Normal,
                    ReaderMode::Normal => ReaderMode::StringLiteral,
                };
            },
            Operator::SetDirection(direction) => {
                heading = direction;
            },
            Operator::Bridge => {
                skip = true;
            },
            Operator::NoOp => {},
            Operator::End => {
                s.terminated = true;
                return (s, Outcome::Terminated);
            },
            Operator::Unknown(c) => {
                return (s, Outcome::Error(ErrorKind::UnknownInstruction(c)));
            },
        }
        let mut target: Option<ProgramPosition> = s.position().moved(heading);
        if skip {
            target = match target {
                Some(skipped) => skipped.moved(heading),
                None => None,
            };
        }
        match target {
            Some(position) => {
                s.stack = stack;
                s.direction = heading;
                s.mode = mode;
                if let Some(c) = written {
                    s.output = put_ret(s.output, c);
                }
                s.row = position.row;
                s.col = position.col;
                (s, Outcome::Continue)
            },
            None => (s, Outcome::Error(ErrorKind::OutOfBoundsPosition)),
        }
    }

    /// Whether the engine takes no further step.
    pub fn halted(&self) -> (b: bool)
        ensures
            b == self@.halted(),
    {
        self.fault.is_some() || self.state.terminated
    }

    /// Why the engine stands where it stands: `Continue` while the program
    /// can go on.
    pub fn status(&self) -> (outcome: Outcome)
        ensures
            outcome == self@.status(),
    {
        match self.fault {
            Some(fault) => Outcome::Error(fault.kind),
            None => if self.state.terminated {
                Outcome::Terminated
            } else {
                Outcome::Continue
            },
        }
    }

    /// Takes the next step and yields the state it leads to, or the failure
    /// that stops the program. A halted engine yields nothing and stays as
    /// it is; so the states yielded are finitely many exactly when the
    /// program ends or fails.
    pub fn next(&mut self) -> (r: Option<Result<&InterpreterState, Fault>>)
        ensures
            final(self)@ == old(self)@.next(),
            old(self)@.halted() ==> r is None,
            !old(self)@.halted() ==> r == Some(
                match final(self).fault {
                    Some(fault) => Err::<&InterpreterState, Fault>(fault),
                    None => Ok::<&InterpreterState, Fault>(&final(self).state),
                },
            ),
    {
        if self.halted() {
            return None;
        }
        let position: ProgramPosition = self.state.position();
        let mut current: InterpreterState = InterpreterState::new(Vec::new());
        core::mem::swap(&mut self.state, &mut current);
        let (mut after, outcome) = step(current);
        core::mem::swap(&mut self.state, &mut after);
        match outcome {
            Outcome::Error(kind) => {
                let fault = Fault { kind, position, step: self.steps };
                self.fault = Some(fault);
                Some(Err(fault))
            },
            _ => {
                if self.steps < u64::MAX {
                    self.steps = self.steps + 1;
                }
                Some(Ok(&self.state))
            },
        }
    }

    /// Takes steps until the program ends or fails, but no more than
    /// `budget` of them, and says why it stopped: `Continue` where the
    /// budget ran out first.
    pub fn run(&mut self, budget: u64) -> (outcome: Outcome)
        ensures
            final(self)@ == old(self)@.run(budget as nat),
            outcome == final(self)@.status(),
    {
        let mut left: u64 = budget;
        while left > 0 && !self.halted()
            invariant
                self@.run(left as nat) == old(self)@.run(budget as nat),
            decreases left,
        {
            let _ = self.next();
            left = left - 1;
        }
        self.status()
    }
}

/// Takes one step: decodes the instruction under the instruction pointer of
/// `state` and carries it out. A state that has ended is handed back as it
/// is, and so is one whose step fails.
pub fn step(state: InterpreterState) -> (r: (InterpreterState, Outcome))
    ensures
        r.0@ == state@.step_state(),
        r.1 == state@.step_outcome(),
{
    match Interpreter::next_operation(&state) {
        None => (state, Outcome::Terminated),
        Some(Ok(operator)) => Interpreter::interpret(state, operator),
        Some(Err(kind)) => (state, Outcome::Error(kind)),
    }
}

} // verus!
