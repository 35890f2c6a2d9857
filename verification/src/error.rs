//! The ways in which a program can fail. Every failure is fatal: the engine
//! neither retries nor recovers.

use vstd::prelude::*;
use crate::direction::ProgramPosition;

verus! {

/// What went wrong.
#[derive(Clone, Copy, Debug, PartialEq, Eq, Structural)]
pub enum ErrorKind {
    /// The instruction pointer is, or would come to be, at a place where the
    /// grid holds no character.
    OutOfBoundsPosition,
    /// An instruction needed more values than the stack holds.
    StackUnderflow,
    /// Arithmetic met a value that is not a number.
    TypeMismatch,
    /// A division whose divisor is zero.
    DivisionByZero,
    /// A character outside string mode that is no instruction.
    UnknownInstruction(char),
}

/// A failure together with the place and the step at which it occurred.
/// Steps are counted from zero: `step` is the number of instructions that
/// were carried out before the one that failed.
#[derive(Clone, Copy, Debug, PartialEq, Eq, Structural)]
pub struct Fault {
    pub kind: ErrorKind,
    pub position: ProgramPosition,
    pub step: u64,
}

} // verus!
