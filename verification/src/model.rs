//! The machine as a mathematical value, and what a step of it is.
//!
//! Nothing in this module runs. [`MachineModel`] is the state of a program
//! written with integers and sequences, [`EngineModel`] adds the count of
//! steps and the failure that stopped the program, and the functions on them
//! define one instruction, one step and a run of many steps. The executable
//! engine states its results over these definitions.

use vstd::prelude::*;
use crate::direction::{Direction, ProgramPosition};
use crate::error::{ErrorKind, Fault};
use crate::grid::{cell_or_zero, holds};
use crate::operator::{decode, Operator, ReaderMode};
use crate::stack::{arithmetic_outcome, Arithmetic, StackValue};

verus! {

/// How a step ended.
#[derive(Clone, Copy, Debug, PartialEq, Eq, Structural)]
pub enum Outcome {
    /// The instruction was carried out and the program goes on.
    Continue,
    /// The program has reached its end.
    Terminated,
    /// The instruction failed; the program cannot go on.
    Error(ErrorKind),
}

/// The machine as a mathematical value.
pub struct MachineModel {
    /// The rows of the program from top to bottom.
    pub program: Seq<Seq<char>>,
    /// The row of the instruction pointer.
    pub row: int,
    /// The column of the instruction pointer.
    pub col: int,
    /// The heading of the instruction pointer.
    pub direction: Direction,
    /// How the next character is read.
    pub mode: ReaderMode,
    /// The operand stack from its bottom to its top.
    pub stack: Seq<StackValue>,
    /// The characters written so far.
    pub output: Seq<char>,
    /// Whether the program has reached its end.
    pub terminated: bool,
}

/// Whether a coordinate can be held by the machine.
pub open spec fn representable(coordinate: int) -> bool {
    i32::MIN <= coordinate <= i32::MAX
}

/// The instruction that `program` holds at the given place when read in
/// `mode`. A place where the grid holds no character is a failure, and never
/// an unknown instruction.
pub open spec fn operator_at(program: Seq<Seq<char>>, row: int, col: int, mode: ReaderMode) -> Result<
    Operator,
    ErrorKind,
> {
    if holds(program, row, col) {
        Ok(decode(mode, program[row][col]))
    } else {
        Err(ErrorKind::OutOfBoundsPosition)
    }
}

/// The heading that a popped value chooses between: `on_zero` for zero,
/// `otherwise` for any other value. An empty stack counts as zero.
pub open spec fn chosen_direction(stack: Seq<StackValue>, on_zero: Direction, otherwise: Direction) -> Direction {
    if stack.len() == 0 || stack.last().as_integer() == 0 {
        on_zero
    } else {
        otherwise
    }
}

/// The stack without its top value; an empty stack stays empty.
pub open spec fn without_top(stack: Seq<StackValue>) -> Seq<StackValue> {
    if stack.len() == 0 {
        stack
    } else {
        stack.drop_last()
    }
}

impl MachineModel {
    /// The machine before its first step: at the top left corner, heading
    /// right, outside string mode, with nothing on the stack and nothing
    /// written.
    pub open spec fn initial(program: Seq<Seq<char>>) -> MachineModel {
        MachineModel {
            program,
            row: 0,
            col: 0,
            direction: Direction::Right,
            mode: ReaderMode::Normal,
            stack: Seq::empty(),
            output: Seq::empty(),
            terminated: false,
        }
    }

    /// Whether the machine can be held in a state: its instruction pointer
    /// has coordinates in the range of `i32`. The view of every executable
    /// state is such a machine.
    pub open spec fn valid(self) -> bool {
        representable(self.row) && representable(self.col)
    }

    /// The instruction to carry out next: none once the program has ended,
    /// a failure where the instruction pointer is off the grid.
    pub open spec fn next_operation(self) -> Option<Result<Operator, ErrorKind>> {
        if self.terminated {
            None
        } else {
            Some(operator_at(self.program, self.row, self.col, self.mode))
        }
    }

    /// The machine one cell further along its heading. A place whose
    /// coordinates the machine cannot hold lies outside every grid.
    pub open spec fn advanced(self) -> Result<MachineModel, ErrorKind> {
        let row = self.row + self.direction.row_delta();
        let col = self.col + self.direction.col_delta();
        if representable(row) && representable(col) {
            Ok(MachineModel { row, col, ..self })
        } else {
            Err(ErrorKind::OutOfBoundsPosition)
        }
    }

    /// The machine after a binary operation on its stack, one cell further.
    pub open spec fn calculated(self, operation: Arithmetic) -> Result<MachineModel, ErrorKind> {
        match arithmetic_outcome(self.stack, operation) {
            Ok(stack) => MachineModel { stack, ..self }.advanced(),
            Err(kind) => Err(kind),
        }
    }

    /// The machine after `operator`, or the reason why `operator` fails.
    ///
    /// A machine that has ended stays as it is. `End` ends the machine where
    /// it stands. Every other instruction that succeeds moves the instruction
    /// pointer one cell along the heading it leaves behind, `Bridge` two.
    pub open spec fn interpret(self, operator: Operator) -> Result<MachineModel, ErrorKind> {
        if self.terminated {
            Ok(self)
        } else {
            match operator {
                Operator::PushDigit(d) => MachineModel {
                    stack: self.stack.push(StackValue::NumericDigit(d as i32)),
                    ..self
                }.advanced(),
                Operator::PushCharacter(c) => MachineModel {
                    stack: self.stack.push(StackValue::Character(c)),
                    ..self
                }.advanced(),
                Operator::Add => self.calculated(Arithmetic::Add),
                Operator::Sub => self.calculated(Arithmetic::Sub),
                Operator::Mul => self.calculated(Arithmetic::Mul),
                Operator::Div => self.calculated(Arithmetic::Div),
                Operator::ToggleStringMode => MachineModel {
                    mode: self.mode.toggled(),
                    ..self
                }.advanced(),
                Operator::Pop => if self.stack.len() == 0 {
                    Err(ErrorKind::StackUnderflow)
                } else {
                    MachineModel {
                        stack: self.stack.drop_last(),
                        output: self.output.push(self.stack.last().as_character()),
                        ..self
                    }.advanced()
                },
                Operator::Duplicate => if self.stack.len() == 0 {
                    Err(ErrorKind::StackUnderflow)
                } else {
                    MachineModel { stack: self.stack.push(self.stack.last()), ..self }.advanced()
                },
                Operator::PopMoveHorizontal => MachineModel {
                    stack: without_top(self.stack),
                    direction: chosen_direction(self.stack, Direction::Right, Direction::Left),
                    ..self
                }.advanced(),
                Operator::PopMoveVertical => MachineModel {
                    stack: without_top(self.stack),
                    direction: chosen_direction(self.stack, Direction::Down, Direction::Up),
                    ..self
                }.advanced(),
                Operator::Get => if self.stack.len() < 2 {
                    Err(ErrorKind::StackUnderflow)
                } else {
                    let y = self.stack[self.stack.len() - 1].as_integer();
                    let x = self.stack[self.stack.len() - 2].as_integer();
                    MachineModel {
                        stack: self.stack.take(self.stack.len() - 2).push(
                            StackValue::Character(cell_or_zero(self.program, x, y)),
                        ),
                        ..self
                    }.advanced()
                },
                Operator::SetDirection(direction) => MachineModel { direction, ..self }.advanced(),
                Operator::Bridge => match self.advanced() {
                    Ok(skipped) => skipped.advanced(),
                    Err(kind) => Err(kind),
                },
                Operator::NoOp => self.advanced(),
                Operator::Unknown(c) => Err(ErrorKind::UnknownInstruction(c)),
                Operator::End => Ok(MachineModel { terminated: true, ..self }),
            }
        }
    }

    /// The machine one step further: the instruction under the instruction
    /// pointer is decoded and carried out. A machine that has ended stays as
    /// it is.
    pub open spec fn step(self) -> Result<MachineModel, ErrorKind> {
        match self.next_operation() {
            None => Ok(self),
            Some(Ok(operator)) => self.interpret(operator),
            Some(Err(kind)) => Err(kind),
        }
    }

    /// How a step from this machine ends.
    pub open spec fn step_outcome(self) -> Outcome {
        outcome_of(self.step())
    }

    /// The machine after a step, which is the machine itself where the step
    /// fails.
    pub open spec fn step_state(self) -> MachineModel {
        state_of(self, self.step())
    }
}

/// The outcome that the result of a step stands for.
pub open spec fn outcome_of(result: Result<MachineModel, ErrorKind>) -> Outcome {
    match result {
        Ok(next) => if next.terminated {
            Outcome::Terminated
        } else {
            Outcome::Continue
        },
        Err(kind) => Outcome::Error(kind),
    }
}

/// The machine that the result of a step from `before` leaves: the new
/// machine, or `before` where the step failed.
pub open spec fn state_of(before: MachineModel, result: Result<MachineModel, ErrorKind>) -> MachineModel {
    match result {
        Ok(next) => next,
        Err(_) => before,
    }
}

/// One more than `steps`, or `steps` where that is the largest count.
pub open spec fn counted(steps: u64) -> u64 {
    if steps < u64::MAX {
        (steps + 1) as u64
    } else {
        steps
    }
}

/// The engine as a mathematical value.
pub struct EngineModel {
    /// The machine that the next step starts from.
    pub state: MachineModel,
    /// The number of instructions carried out so far.
    pub steps: u64,
    /// The failure that stopped the program, if one did.
    pub fault: Option<Fault>,
}

impl EngineModel {
    /// The engine that is about to take the first step of `program`.
    pub open spec fn start(program: Seq<Seq<char>>) -> EngineModel {
        EngineModel { state: MachineModel::initial(program), steps: 0, fault: None }
    }

    /// Whether the engine takes no further step: its program has ended or
    /// has failed.
    pub open spec fn halted(self) -> bool {
        self.fault is Some || self.state.terminated
    }

    /// Why the engine stands where it stands.
    pub open spec fn status(self) -> Outcome {
        match self.fault {
            Some(fault) => Outcome::Error(fault.kind),
            None => if self.state.terminated {
                Outcome::Terminated
            } else {
                Outcome::Continue
            },
        }
    }

    /// The failure of kind `kind` at the place and step where the engine
    /// stands.
    pub open spec fn fault_here(self, kind: ErrorKind) -> Fault {
        Fault {
            kind,
            position: ProgramPosition { row: self.state.row as i32, col: self.state.col as i32 },
            step: self.steps,
        }
    }

    /// The engine one step further. A halted engine stays as it is. A step
    /// that succeeds is counted; one that fails leaves the state and the
    /// count as they were and records the failure.
    pub open spec fn next(self) -> EngineModel {
        if self.halted() {
            self
        } else {
            match self.state.step() {
                Ok(state) => EngineModel { state, steps: counted(self.steps), fault: None },
                Err(kind) => EngineModel { fault: Some(self.fault_here(kind)), ..self },
            }
        }
    }

    /// The engine after at most `budget` further steps. It stops early at
    /// the end of the program or at the first failure.
    pub open spec fn run(self, budget: nat) -> EngineModel
        decreases budget,
    {
        if budget == 0 || self.halted() {
            self
        } else {
            self.next().run((budget - 1) as nat)
        }
    }
}

} // verus!
