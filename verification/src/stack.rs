//! The operand stack, the values it holds and its arithmetic.
//!
//! The stack is a last-in, first-out sequence; the last element of its view
//! is the top. Arithmetic is that of 32-bit two's complement numbers: a
//! result outside the range of `i32` wraps around.

use vstd::prelude::*;
use crate::error::ErrorKind;

verus! {

/// A value on the operand stack.
#[derive(Clone, Copy, Debug, PartialEq, Eq, Structural)]
pub enum StackValue {
    /// A number: a digit of the program, or the result of arithmetic.
    NumericDigit(i32),
    /// A character, held by its code point.
    Character(char),
}

/// The character whose code point is the lowest eight bits of `n`.
pub open spec fn byte_character(n: int) -> char {
    (n % 256) as char
}

impl StackValue {
    /// The value read as an integer: a number is itself, a character is its
    /// code point.
    pub open spec fn as_integer(self) -> int {
        match self {
            StackValue::NumericDigit(n) => n as int,
            StackValue::Character(c) => c as int,
        }
    }

    /// The value read as a character: a character is itself, a number is
    /// cut down to its lowest byte, which is then taken as a code point.
    pub open spec fn as_character(self) -> char {
        match self {
            StackValue::NumericDigit(n) => byte_character(n as int),
            StackValue::Character(c) => c,
        }
    }

    /// Reads the value as an integer.
    pub fn to_integer(self) -> (n: i32)
        ensures
            n == self.as_integer(),
    {
        match self {
            StackValue::NumericDigit(n) => n,
            StackValue::Character(c) => {
                let code: u32 = c as u32;
                code as i32
            },
        }
    }

    /// Reads the value as a character.
    pub fn to_character(self) -> (c: char)
        ensures
            c == self.as_character(),
    {
        match self {
            StackValue::NumericDigit(n) => {
                let byte: u8 = #[verifier::truncate] (n as u8);
                assert(byte as int == (n as int) % 256) by (bit_vector)
                    requires
                        byte == n as u8,
                ;
                byte as char
            },
            StackValue::Character(c) => c,
        }
    }
}

/// The number in the range of `i32` that differs from `n` by a multiple of
/// 2^32: what 32-bit two's complement arithmetic keeps of `n`.
pub open spec fn wrap(n: int) -> int {
    let low = n % 0x1_0000_0000;
    if low > i32::MAX {
        low - 0x1_0000_0000
    } else {
        low
    }
}

/// The quotient of `dividend` by `divisor`, rounded towards zero.
pub open spec fn truncating_quotient(dividend: int, divisor: int) -> int
    recommends
        divisor != 0,
{
    if dividend >= 0 {
        if divisor > 0 {
            dividend / divisor
        } else {
            -(dividend / (-divisor))
        }
    } else {
        if divisor > 0 {
            -((-dividend) / divisor)
        } else {
            (-dividend) / (-divisor)
        }
    }
}

/// The four binary operations of the stack machine.
#[derive(Clone, Copy, Debug, PartialEq, Eq, Structural)]
pub enum Arithmetic {
    Add,
    Sub,
    Mul,
    Div,
}

impl Arithmetic {
    /// The exact result of the operation on `a`, the value popped first (the
    /// right-hand operand in the program text), and `b`, the value popped
    /// second (the left-hand operand).
    pub open spec fn exact(self, a: int, b: int) -> int
        recommends
            self == Arithmetic::Div ==> a != 0,
    {
        match self {
            Arithmetic::Add => a + b,
            Arithmetic::Sub => b - a,
            Arithmetic::Mul => a * b,
            Arithmetic::Div => truncating_quotient(b, a),
        }
    }

    /// What the machine makes of the operation on two numbers, `a` popped
    /// first and `b` second: the exact result wrapped into the range of
    /// `i32`, or a failure where a division has the divisor zero.
    pub open spec fn result(self, a: i32, b: i32) -> Result<i32, ErrorKind> {
        if self == Arithmetic::Div && a == 0 {
            Err(ErrorKind::DivisionByZero)
        } else {
            Ok(wrap(self.exact(a as int, b as int)) as i32)
        }
    }

    /// Carries out the operation on two numbers, `a` popped first and `b`
    /// second.
    pub fn compute(self, a: i32, b: i32) -> (r: Result<i32, ErrorKind>)
        ensures
            r == self.result(a, b),
    {
        match self {
            Arithmetic::Add => Ok(a.wrapping_add(b)),
            Arithmetic::Sub => Ok(b.wrapping_sub(a)),
            Arithmetic::Mul => Ok(a.wrapping_mul(b)),
            Arithmetic::Div => {
                if a == 0 {
                    Err(ErrorKind::DivisionByZero)
                } else {
                    match b.checked_div(a) {
                        Some(quotient) => Ok(quotient),
                        // The one quotient that `i32` cannot hold is that
                        // of its least number by -1, which wraps to the
                        // least number.
                        None => Ok(i32::MIN),
                    }
                }
            },
        }
    }
}

/// The operand stack.
#[derive(Clone, Debug, PartialEq, Eq)]
pub struct Stack {
    /// The values from the bottom of the stack to its top.
    pub items: Vec<StackValue>,
}

impl View for Stack {
    type V = Seq<StackValue>;

    open spec fn view(&self) -> Seq<StackValue> {
        self.items@
    }
}

/// What a binary operation makes of a stack, or the reason why it fails.
/// Too few values come first, then a value that is no number, then a zero
/// divisor.
pub open spec fn arithmetic_outcome(stack: Seq<StackValue>, operation: Arithmetic) -> Result<
    Seq<StackValue>,
    ErrorKind,
> {
    if stack.len() < 2 {
        Err(ErrorKind::StackUnderflow)
    } else {
        match (stack[stack.len() - 1], stack[stack.len() - 2]) {
            (StackValue::NumericDigit(a), StackValue::NumericDigit(b)) => {
                match operation.result(a, b) {
                    Ok(n) => Ok(stack.take(stack.len() - 2).push(StackValue::NumericDigit(n))),
                    Err(kind) => Err(kind),
                }
            },
            _ => Err(ErrorKind::TypeMismatch),
        }
    }
}

impl Stack {
    /// An empty stack.
    pub fn new() -> (stack: Stack)
        ensures
            stack@ == Seq::<StackValue>::empty(),
    {
        Stack { items: Vec::new() }
    }

    /// A stack of its own that holds the same values.
    pub fn copy(&self) -> (stack: Stack)
        ensures
            stack@ == self@,
    {
        Stack { items: self.items.clone() }
    }

    /// The number of values on the stack.
    pub fn len(&self) -> (n: usize)
        ensures
            n == self@.len(),
    {
        self.items.len()
    }

    /// Whether the stack holds no value.
    pub fn is_empty(&self) -> (b: bool)
        ensures
            b == (self@.len() == 0),
    {
        self.items.len() == 0
    }

    /// Puts `value` on top.
    pub fn push(&mut self, value: StackValue)
        ensures
            final(self)@ == old(self)@.push(value),
    {
        self.items.push(value);
    }

    /// Takes the top value off. An empty stack is left as it is and the call
    /// fails.
    pub fn pop(&mut self) -> (r: Result<StackValue, ErrorKind>)
        ensures
            old(self)@.len() == 0 ==> r == Err::<StackValue, ErrorKind>(ErrorKind::StackUnderflow)
                && final(self)@ == old(self)@,
            old(self)@.len() > 0 ==> r == Ok::<StackValue, ErrorKind>(old(self)@.last())
                && final(self)@ == old(self)@.drop_last(),
    {
        match self.items.pop() {
            Some(value) => Ok(value),
            None => Err(ErrorKind::StackUnderflow),
        }
    }

    /// Takes the top value off, or hands back `default` where there is none.
    /// It never fails.
    pub fn pop_or_default(&mut self, default: StackValue) -> (value: StackValue)
        ensures
            old(self)@.len() == 0 ==> value == default && final(self)@ == old(self)@,
            old(self)@.len() > 0 ==> value == old(self)@.last() && final(self)@ == old(
                self,
            )@.drop_last(),
    {
        match self.items.pop() {
            Some(value) => value,
            None => default,
        }
    }

    /// Pushes a copy of the top value. An empty stack is left as it is and
    /// the call fails.
    pub fn duplicate(&mut self) -> (r: Result<(), ErrorKind>)
        ensures
            old(self)@.len() == 0 ==> r == Err::<(), ErrorKind>(ErrorKind::StackUnderflow)
                && final(self)@ == old(self)@,
            old(self)@.len() > 0 ==> r == Ok::<(), ErrorKind>(()) && final(self)@ == old(
                self,
            )@.push(old(self)@.last()),
    {
        let n: usize = self.items.len();
        if n == 0 {
            Err(ErrorKind::StackUnderflow)
        } else {
            let top: StackValue = self.items[n - 1];
            self.items.push(top);
            Ok(())
        }
    }
}

/// Replaces the two topmost values of `stack` by the result of `operation`
/// on them. Where the operation fails, the stack is left as it was.
pub fn mathematical_operation(stack: &mut Stack, operation: Arithmetic) -> (r: Result<
    (),
    ErrorKind,
>)
    ensures
        match arithmetic_outcome(old(stack)@, operation) {
            Ok(after) => r == Ok::<(), ErrorKind>(()) && final(stack)@ == after,
            Err(kind) => r == Err::<(), ErrorKind>(kind) && final(stack)@ == old(stack)@,
        },
{
    let n: usize = stack.items.len();
    if n < 2 {
        return Err(ErrorKind::StackUnderflow);
    }
    let first: StackValue = stack.items[n - 1];
    let second: StackValue = stack.items[n - 2];
    match (first, second) {
        (StackValue::NumericDigit(a), StackValue::NumericDigit(b)) => {
            match operation.compute(a, b) {
                Ok(result) => {
                    stack.items.pop();
                    stack.items.pop();
                    stack.items.push(StackValue::NumericDigit(result));
                    assert(stack@ == old(stack)@.take(n - 2).push(
                        StackValue::NumericDigit(result),
                    ));
                    Ok(())
                },
                Err(kind) => Err(kind),
            }
        },
        _ => Err(ErrorKind::TypeMismatch),
    }
}

} // verus!
