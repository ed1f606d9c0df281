use minipl::ast::{MplType, Statement};
use minipl::environment::Environment;
use minipl::error::RuntimeError;
use minipl::interpreter::Interpreter;
use minipl::value::MplValue;

#[test]
fn empty_table_binds_nothing() {
    let table = Environment::new();
    assert_eq!(table.get(&"x".to_string()), None);
}

#[test]
fn table_keeps_the_last_value_of_each_name() {
    let mut table = Environment::new();
    let x = "x".to_string();
    let y = "y".to_string();
    table.set(&x, MplValue::Int(1));
    table.set(&y, MplValue::String("a".to_string()));
    assert_eq!(table.get(&x), Some(MplValue::Int(1)));
    assert_eq!(table.get(&y), Some(MplValue::String("a".to_string())));
    table.set(&x, MplValue::Bool(true));
    assert_eq!(table.get(&x), Some(MplValue::Bool(true)));
    assert_eq!(table.get(&y), Some(MplValue::String("a".to_string())));
    assert_eq!(table.get(&"xy".to_string()), None);
}

#[test]
fn interpreter_takes_lines_as_they_come() {
    let mut interpreter = Interpreter::new(vec![]);
    assert!(!interpreter.has_line());
    let declare = Statement::Declaration {
        identifier: "s".to_string(),
        mpl_type: MplType::String,
        value: None,
    };
    let read = Statement::Read("s".to_string());
    assert_eq!(interpreter.evaluate_statement(&declare), Ok(()));
    assert_eq!(interpreter.evaluate_statement(&read), Err(RuntimeError::InputExhausted));
    interpreter.add_line(" late ".to_string());
    assert!(interpreter.has_line());
    assert_eq!(interpreter.evaluate_statement(&read), Ok(()));
    assert!(!interpreter.has_line());
}

#[test]
fn output_is_handed_out_once() {
    let mut interpreter = Interpreter::new(vec![]);
    let print = |text: &str| {
        Statement::Print(minipl::ast::Expression::Simple(minipl::ast::Operand::String(
            text.to_string(),
        )))
    };
    assert_eq!(interpreter.evaluate_statement(&print("a")), Ok(()));
    assert_eq!(interpreter.evaluate_statement(&print("b")), Ok(()));
    assert_eq!(interpreter.take_output(), "ab");
    assert_eq!(interpreter.take_output(), "");
    assert_eq!(interpreter.evaluate_statement(&print("c")), Ok(()));
    assert_eq!(interpreter.into_output(), "c");
}
