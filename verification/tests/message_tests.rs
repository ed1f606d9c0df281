use minipl::ast::MplType;
use minipl::error::{LexError, RuntimeError, SyntaxError};
use minipl::message::name_of_type;
use minipl::pipeline::{run, Failure};

#[test]
fn names_of_types() {
    assert_eq!(name_of_type(MplType::Int), "integer");
    assert_eq!(name_of_type(MplType::String), "string");
    assert_eq!(name_of_type(MplType::Bool), "boolean");
}

#[test]
fn lexical_messages() {
    assert_eq!(LexError::IllegalCharacter('#').message(), "Character '#' not allowed at this point");
    assert_eq!(LexError::UnterminatedString.message(), "Reached end while scanning string.");
    assert_eq!(LexError::UnterminatedInteger.message(), "Reached end while scanning integer.");
    assert_eq!(LexError::UnterminatedWord.message(), "Reached end while scanning word.");
    assert_eq!(
        LexError::UnterminatedPrefix(':').message(),
        "Reached end while scanning. : expected continuation"
    );
    assert_eq!(LexError::IntegerOutOfRange.message(), "Integer literal out of range");
}

#[test]
fn syntax_messages() {
    assert_eq!(SyntaxError::UnexpectedToken { position: 0 }.message(), "Unexpected token at position 0");
    assert_eq!(SyntaxError::UnexpectedToken { position: 120 }.message(), "Unexpected token at position 120");
    assert_eq!(SyntaxError::UnexpectedEnd.message(), "Reached end while parsing");
}

#[test]
fn runtime_messages() {
    let mismatch = RuntimeError::TypeMismatch { expected: MplType::Int, found: MplType::Bool };
    assert_eq!(mismatch.message(), "Expected integer, got boolean");
    let mismatch = RuntimeError::TypeMismatch { expected: MplType::String, found: MplType::Int };
    assert_eq!(mismatch.message(), "Expected string, got integer");
    assert_eq!(RuntimeError::UnknownOperator('%').message(), "Unknown operator: %");
    assert_eq!(RuntimeError::WrongArity('!').message(), "! is a unary operator");
    assert_eq!(RuntimeError::WrongArity('-').message(), "Operator - is not a unary operator");
    assert_eq!(RuntimeError::DivisionByZero.message(), "Division by zero");
    assert_eq!(RuntimeError::Overflow.message(), "Integer overflow");
    assert_eq!(RuntimeError::UndeclaredIdentifier.message(), "Identifier used before declaration");
    assert_eq!(RuntimeError::UnassignedIdentifier.message(), "Identifier used before assignment");
    assert_eq!(RuntimeError::MalformedInput.message(), "Malformed input");
    assert_eq!(RuntimeError::InputExhausted.message(), "IO error: no input left");
    assert_eq!(RuntimeError::AssertionFailed.message(), "Assertion failed");
}

#[test]
fn message_names_the_stage() {
    assert_eq!(
        Failure::Lexical(LexError::UnterminatedWord).message(),
        "Scanning failed: Reached end while scanning word."
    );
    assert_eq!(
        Failure::Syntax(SyntaxError::UnexpectedEnd).message(),
        "Parsing failed: Reached end while parsing"
    );
    assert_eq!(
        Failure::Runtime(RuntimeError::AssertionFailed).message(),
        "Runtime error: Assertion failed"
    );
    let report = run("print 1 / 0;", vec![]);
    assert_eq!(report.failure.unwrap().message(), "Runtime error: Division by zero");
}
