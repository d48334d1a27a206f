use voting_core::calculator::Calculator;
use voting_core::calculator::Operation;
use voting_core::calculator::OperationType;

#[test]
fn get_sign_of_each_operation() {
    assert_eq!(OperationType::Addition.get_sign(), "+");
    assert_eq!(OperationType::Subtraction.get_sign(), "-");
    assert_eq!(OperationType::Multiplication.get_sign(), "*");
}

#[test]
fn perform_basic_results() {
    assert_eq!(OperationType::Addition.perform(5, 3), Some(8));
    assert_eq!(OperationType::Subtraction.perform(10, 2), Some(8));
    assert_eq!(OperationType::Multiplication.perform(6, 7), Some(42));
}

#[test]
fn perform_overflow_protection() {
    assert_eq!(OperationType::Addition.perform(i64::MAX, 1), None);
    assert_eq!(OperationType::Subtraction.perform(i64::MIN, 1), None);
    assert_eq!(OperationType::Multiplication.perform(i64::MAX, 2), None);
    assert_eq!(OperationType::Addition.perform(i64::MAX, 0), Some(i64::MAX));
}

#[test]
fn operation_new_keeps_fields() {
    let op = Operation::new(4, 9, OperationType::Multiplication);
    assert_eq!(op.first_num, 4);
    assert_eq!(op.second_num, 9);
    assert_eq!(op.operation_type.get_sign(), "*");
}

#[test]
fn calculator_records_successes() {
    let mut c = Calculator::new();
    assert_eq!(c.addition(5, 3), Some(8));
    assert_eq!(c.subtraction(10, 2), Some(8));
    assert_eq!(c.multiplication(6, 7), Some(42));
    assert_eq!(c.history.len(), 3);
}

#[test]
fn calculator_skips_failures() {
    let mut c = Calculator::new();
    assert_eq!(c.addition(i64::MAX, 1), None);
    assert_eq!(c.subtraction(i64::MIN, 1), None);
    assert_eq!(c.multiplication(i64::MIN, -1), None);
    assert_eq!(c.history.len(), 0);
}

#[test]
fn show_history_format() {
    let mut c = Calculator::new();
    c.addition(5, 3);
    c.subtraction(10, 2);
    assert_eq!(c.show_history(), "0: 5 + 3 = 8\n1: 10 - 2 = 8\n");
}

#[test]
fn show_history_negative_numbers() {
    let mut c = Calculator::new();
    c.addition(-5, 3);
    c.multiplication(-4, -6);
    assert_eq!(c.show_history(), "0: -5 + 3 = -2\n1: -4 * -6 = 24\n");
}

#[test]
fn show_history_large_numbers() {
    let mut c = Calculator::new();
    c.addition(i64::MAX, 0);
    c.addition(i64::MIN, 0);
    assert_eq!(
        c.show_history(),
        "0: 9223372036854775807 + 0 = 9223372036854775807\n\
         1: -9223372036854775808 + 0 = -9223372036854775808\n"
    );
}

#[test]
fn repeat_valid_index() {
    let mut c = Calculator::new();
    c.addition(5, 3);
    assert_eq!(c.repeat(0), Some(8));
    assert_eq!(c.history.len(), 2);
    assert_eq!(c.show_history(), "0: 5 + 3 = 8\n1: 5 + 3 = 8\n");
}

#[test]
fn repeat_invalid_index() {
    let mut c = Calculator::new();
    c.addition(5, 3);
    assert_eq!(c.repeat(1), None);
    assert_eq!(c.history.len(), 1);
}

#[test]
fn clear_history_empties() {
    let mut c = Calculator::new();
    c.addition(5, 3);
    c.multiplication(2, 2);
    c.clear_history();
    assert_eq!(c.history.len(), 0);
    assert_eq!(c.show_history(), "");
}
