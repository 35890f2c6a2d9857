use befunge::error::ErrorKind;
use befunge::machine::put_ret;
use befunge::stack::{mathematical_operation, Arithmetic, Stack, StackValue};

fn numbers(values: &[i32]) -> Stack {
    let mut stack = Stack::new();
    for value in values {
        stack.push(StackValue::NumericDigit(*value));
    }
    stack
}

#[test]
fn a_new_stack_is_empty() {
    let stack = Stack::new();
    assert!(stack.is_empty());
    assert_eq!(stack.len(), 0);
    assert_eq!(stack.items, vec![]);
}

#[test]
fn push_appends_to_the_top() {
    let mut stack = Stack::new();
    stack.push(StackValue::NumericDigit(1));
    stack.push(StackValue::Character('x'));
    assert_eq!(stack.items, vec![StackValue::NumericDigit(1), StackValue::Character('x')]);
    assert_eq!(stack.len(), 2);
    assert!(!stack.is_empty());
}

#[test]
fn pop_returns_the_values_last_in_first_out() {
    let mut stack = numbers(&[1, 2, 3]);
    assert_eq!(stack.pop(), Ok(StackValue::NumericDigit(3)));
    assert_eq!(stack.pop(), Ok(StackValue::NumericDigit(2)));
    assert_eq!(stack.items, vec![StackValue::NumericDigit(1)]);
    assert_eq!(stack.pop(), Ok(StackValue::NumericDigit(1)));
    assert!(stack.is_empty());
}

#[test]
fn pop_on_an_empty_stack_underflows() {
    let mut stack = Stack::new();
    assert_eq!(stack.pop(), Err(ErrorKind::StackUnderflow));
    assert!(stack.is_empty());
}

#[test]
fn pop_or_default_tolerates_an_empty_stack() {
    let mut stack = Stack::new();
    assert_eq!(stack.pop_or_default(StackValue::NumericDigit(0)), StackValue::NumericDigit(0));
    assert_eq!(stack.pop_or_default(StackValue::Character('d')), StackValue::Character('d'));
    assert!(stack.is_empty());
}

#[test]
fn pop_or_default_prefers_the_top_value() {
    let mut stack = numbers(&[4, 9]);
    assert_eq!(stack.pop_or_default(StackValue::NumericDigit(0)), StackValue::NumericDigit(9));
    assert_eq!(stack.items, vec![StackValue::NumericDigit(4)]);
}

#[test]
fn duplicate_on_an_empty_stack_underflows() {
    let mut stack = Stack::new();
    assert_eq!(stack.duplicate(), Err(ErrorKind::StackUnderflow));
    assert!(stack.is_empty());
}

#[test]
fn duplicate_copies_the_top() {
    let mut stack = numbers(&[5]);
    assert_eq!(stack.duplicate(), Ok(()));
    assert_eq!(stack.items, vec![StackValue::NumericDigit(5), StackValue::NumericDigit(5)]);
    let mut mixed = numbers(&[1]);
    mixed.push(StackValue::Character('q'));
    assert_eq!(mixed.duplicate(), Ok(()));
    assert_eq!(
        mixed.items,
        vec![StackValue::NumericDigit(1), StackValue::Character('q'), StackValue::Character('q')]
    );
}

#[test]
fn copy_is_a_stack_of_its_own() {
    let base = numbers(&[1, 2]);
    let mut copy = base.copy();
    assert_eq!(copy, base);
    copy.push(StackValue::NumericDigit(3));
    assert_eq!(base.items, vec![StackValue::NumericDigit(1), StackValue::NumericDigit(2)]);
    assert_eq!(copy.len(), 3);
}

#[test]
fn addition_adds_the_two_topmost_numbers() {
    let mut stack = numbers(&[10, 3, 4]);
    assert_eq!(mathematical_operation(&mut stack, Arithmetic::Add), Ok(()));
    assert_eq!(stack.items, vec![StackValue::NumericDigit(10), StackValue::NumericDigit(7)]);
}

#[test]
fn subtraction_takes_the_top_from_the_value_below() {
    let mut stack = numbers(&[1, 2]);
    assert_eq!(mathematical_operation(&mut stack, Arithmetic::Sub), Ok(()));
    assert_eq!(stack.items, vec![StackValue::NumericDigit(-1)]);
    let mut other = numbers(&[9, 4]);
    assert_eq!(mathematical_operation(&mut other, Arithmetic::Sub), Ok(()));
    assert_eq!(other.items, vec![StackValue::NumericDigit(5)]);
}

#[test]
fn multiplication_multiplies() {
    let mut stack = numbers(&[6, -7]);
    assert_eq!(mathematical_operation(&mut stack, Arithmetic::Mul), Ok(()));
    assert_eq!(stack.items, vec![StackValue::NumericDigit(-42)]);
}

#[test]
fn division_divides_the_value_below_by_the_top() {
    let mut stack = numbers(&[8, 2]);
    assert_eq!(mathematical_operation(&mut stack, Arithmetic::Div), Ok(()));
    assert_eq!(stack.items, vec![StackValue::NumericDigit(4)]);
    let mut other = numbers(&[2, 8]);
    assert_eq!(mathematical_operation(&mut other, Arithmetic::Div), Ok(()));
    assert_eq!(other.items, vec![StackValue::NumericDigit(0)]);
}

#[test]
fn division_rounds_towards_zero() {
    assert_eq!(Arithmetic::Div.compute(2, 7), Ok(3));
    assert_eq!(Arithmetic::Div.compute(2, -7), Ok(-3));
    assert_eq!(Arithmetic::Div.compute(-2, 7), Ok(-3));
    assert_eq!(Arithmetic::Div.compute(-2, -7), Ok(3));
    assert_eq!(Arithmetic::Div.compute(5, 0), Ok(0));
    assert_eq!(Arithmetic::Div.compute(-3, 1), Ok(0));
}

#[test]
fn division_by_zero_fails_and_keeps_the_stack() {
    let mut stack = numbers(&[8, 0]);
    assert_eq!(mathematical_operation(&mut stack, Arithmetic::Div), Err(ErrorKind::DivisionByZero));
    assert_eq!(stack.items, vec![StackValue::NumericDigit(8), StackValue::NumericDigit(0)]);
    assert_eq!(Arithmetic::Div.compute(0, 0), Err(ErrorKind::DivisionByZero));
}

#[test]
fn zero_is_no_failure_for_the_other_operations() {
    assert_eq!(Arithmetic::Add.compute(0, 5), Ok(5));
    assert_eq!(Arithmetic::Sub.compute(0, 5), Ok(5));
    assert_eq!(Arithmetic::Mul.compute(0, 5), Ok(0));
}

#[test]
fn arithmetic_needs_two_values() {
    let mut empty = Stack::new();
    assert_eq!(mathematical_operation(&mut empty, Arithmetic::Add), Err(ErrorKind::StackUnderflow));
    assert!(empty.is_empty());
    let mut single = numbers(&[5]);
    assert_eq!(mathematical_operation(&mut single, Arithmetic::Mul), Err(ErrorKind::StackUnderflow));
    assert_eq!(single.items, vec![StackValue::NumericDigit(5)]);
}

#[test]
fn arithmetic_on_a_character_is_a_type_mismatch() {
    let mut top = numbers(&[1]);
    top.push(StackValue::Character('a'));
    assert_eq!(mathematical_operation(&mut top, Arithmetic::Add), Err(ErrorKind::TypeMismatch));
    assert_eq!(top.items, vec![StackValue::NumericDigit(1), StackValue::Character('a')]);

    let mut below = Stack::new();
    below.push(StackValue::Character('a'));
    below.push(StackValue::NumericDigit(1));
    assert_eq!(mathematical_operation(&mut below, Arithmetic::Sub), Err(ErrorKind::TypeMismatch));
    assert_eq!(below.items, vec![StackValue::Character('a'), StackValue::NumericDigit(1)]);
}

#[test]
fn a_type_mismatch_comes_before_a_zero_divisor() {
    let mut stack = Stack::new();
    stack.push(StackValue::Character('a'));
    stack.push(StackValue::NumericDigit(0));
    assert_eq!(mathematical_operation(&mut stack, Arithmetic::Div), Err(ErrorKind::TypeMismatch));
}

#[test]
fn underflow_comes_before_a_type_mismatch() {
    let mut stack = Stack::new();
    stack.push(StackValue::Character('a'));
    assert_eq!(mathematical_operation(&mut stack, Arithmetic::Add), Err(ErrorKind::StackUnderflow));
}

#[test]
fn results_outside_the_range_wrap_around() {
    assert_eq!(Arithmetic::Add.compute(i32::MAX, 1), Ok(i32::MIN));
    assert_eq!(Arithmetic::Add.compute(i32::MIN, -1), Ok(i32::MAX));
    assert_eq!(Arithmetic::Sub.compute(1, i32::MIN), Ok(i32::MAX));
    assert_eq!(Arithmetic::Sub.compute(i32::MIN, 0), Ok(i32::MIN));
    assert_eq!(Arithmetic::Mul.compute(65536, 65536), Ok(0));
    assert_eq!(Arithmetic::Mul.compute(i32::MAX, 2), Ok(-2));
    assert_eq!(Arithmetic::Mul.compute(i32::MIN, -1), Ok(i32::MIN));
    assert_eq!(Arithmetic::Div.compute(-1, i32::MIN), Ok(i32::MIN));
}

#[test]
fn the_extremes_divide_exactly() {
    assert_eq!(Arithmetic::Div.compute(1, i32::MIN), Ok(i32::MIN));
    assert_eq!(Arithmetic::Div.compute(-1, i32::MAX), Ok(-i32::MAX));
    assert_eq!(Arithmetic::Div.compute(i32::MIN, i32::MIN), Ok(1));
    assert_eq!(Arithmetic::Div.compute(i32::MIN, i32::MAX), Ok(0));
    assert_eq!(Arithmetic::Div.compute(2, i32::MIN), Ok(-1073741824));
}

#[test]
fn a_number_reads_as_itself_and_a_character_as_its_code_point() {
    assert_eq!(StackValue::NumericDigit(-12).to_integer(), -12);
    assert_eq!(StackValue::Character('@').to_integer(), 64);
    assert_eq!(StackValue::Character('\0').to_integer(), 0);
    assert_eq!(StackValue::Character('\u{10ffff}').to_integer(), 0x10ffff);
}

#[test]
fn a_number_reads_as_the_character_of_its_lowest_byte() {
    assert_eq!(StackValue::NumericDigit(72).to_character(), 'H');
    assert_eq!(StackValue::NumericDigit(0).to_character(), '\0');
    assert_eq!(StackValue::NumericDigit(255).to_character(), '\u{ff}');
    assert_eq!(StackValue::NumericDigit(256).to_character(), '\0');
    assert_eq!(StackValue::NumericDigit(256 + 65).to_character(), 'A');
    assert_eq!(StackValue::NumericDigit(-1).to_character(), '\u{ff}');
    assert_eq!(StackValue::NumericDigit(-256).to_character(), '\0');
    assert_eq!(StackValue::NumericDigit(i32::MIN).to_character(), '\0');
    assert_eq!(StackValue::NumericDigit(i32::MAX).to_character(), '\u{ff}');
}

#[test]
fn a_character_reads_as_itself() {
    assert_eq!(StackValue::Character('a').to_character(), 'a');
    assert_eq!(StackValue::Character('\u{1f600}').to_character(), '\u{1f600}');
}

#[test]
fn a_byte_character_survives_the_round_trip() {
    for code in 0u8..=255 {
        let c = char::from(code);
        let n = StackValue::Character(c).to_integer();
        assert_eq!(n, i32::from(code));
        assert_eq!(StackValue::NumericDigit(n).to_character(), c);
    }
}

#[test]
fn put_ret_appends_one_value() {
    assert_eq!(put_ret(vec![1, 2], 3), vec![1, 2, 3]);
    assert_eq!(put_ret(Vec::new(), 'a'), vec!['a']);
    assert_eq!(put_ret(vec!["x".to_string()], "y".to_string()), vec!["x".to_string(), "y".to_string()]);
}
