//! An execution engine for a two-dimensional, stack-based language in the
//! style of Befunge-93.
//!
//! A program is a grid of single-character instructions. An instruction
//! pointer walks the grid in one of four directions, and every instruction it
//! meets changes an operand stack, an output buffer, or the pointer itself.
//! Every executable function carries a contract over a mathematical model of
//! the machine, so that one step of the engine is a function of the state it
//! starts from and of nothing else.

pub mod direction;
pub mod error;
pub mod grid;
pub mod laws;
pub mod machine;
pub mod model;
pub mod operator;
pub mod stack;
