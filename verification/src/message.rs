//! The one line that tells why a run ended: the stage and its error.
use vstd::prelude::*;
use crate::ast::MplType;
use crate::error::{LexError, RuntimeError, SyntaxError};
use crate::pipeline::Failure;
use crate::text::{nat_text, push_nat_text};

verus! {

/// The name of a type in a message.
pub open spec fn type_text(mpl_type: MplType) -> Seq<char> {
    match mpl_type {
        MplType::Int => "integer"@,
        MplType::String => "string"@,
        MplType::Bool => "boolean"@,
    }
}

/// What is said of a lexical error.
pub open spec fn lex_text(error: LexError) -> Seq<char> {
    match error {
        LexError::IllegalCharacter(c) => "Character '"@.push(c) + "' not allowed at this point"@,
        LexError::UnterminatedString => "Reached end while scanning string."@,
        LexError::UnterminatedInteger => "Reached end while scanning integer."@,
        LexError::UnterminatedWord => "Reached end while scanning word."@,
        LexError::UnterminatedPrefix(c) => "Reached end while scanning. "@.push(c)
            + " expected continuation"@,
        LexError::IntegerOutOfRange => "Integer literal out of range"@,
    }
}

/// What is said of a syntax error.
pub open spec fn syntax_text(error: SyntaxError) -> Seq<char> {
    match error {
        SyntaxError::UnexpectedToken { position } => "Unexpected token at position "@ + nat_text(
            position as nat,
        ),
        SyntaxError::UnexpectedEnd => "Reached end while parsing"@,
    }
}

/// What is said of a runtime error.
pub open spec fn runtime_text(error: RuntimeError) -> Seq<char> {
    match error {
        RuntimeError::TypeMismatch { expected, found } => "Expected "@ + type_text(expected)
            + ", got "@ + type_text(found),
        RuntimeError::UnknownOperator(sign) => "Unknown operator: "@.push(sign),
        RuntimeError::WrongArity(sign) => if sign == '!' {
            "! is a unary operator"@
        } else {
            "Operator "@.push(sign) + " is not a unary operator"@
        },
        RuntimeError::DivisionByZero => "Division by zero"@,
        RuntimeError::Overflow => "Integer overflow"@,
        RuntimeError::UndeclaredIdentifier => "Identifier used before declaration"@,
        RuntimeError::UnassignedIdentifier => "Identifier used before assignment"@,
        RuntimeError::MalformedInput => "Malformed input"@,
        RuntimeError::InputExhausted => "IO error: no input left"@,
        RuntimeError::AssertionFailed => "Assertion failed"@,
    }
}

/// What is said of a run that failed: the stage, then the error.
pub open spec fn failure_text(failure: Failure) -> Seq<char> {
    match failure {
        Failure::Lexical(e) => "Scanning failed: "@ + lex_text(e),
        Failure::Syntax(e) => "Parsing failed: "@ + syntax_text(e),
        Failure::Runtime(e) => "Runtime error: "@ + runtime_text(e),
    }
}

/// The text `before`, the character `c` and the text `after` in a row.
fn around(before: &str, c: char, after: &str) -> (text: String)
    ensures
        text@ == before@.push(c) + after@,
{
    let mut text = String::from_str(before);
    text.push(c);
    text.append(after);
    text
}

/// The name of a type in a message.
pub fn name_of_type(mpl_type: MplType) -> (name: &'static str)
    ensures
        name@ == type_text(mpl_type),
{
    match mpl_type {
        MplType::Int => "integer",
        MplType::String => "string",
        MplType::Bool => "boolean",
    }
}

impl LexError {
    /// The message of the error.
    pub fn message(&self) -> (text: String)
        ensures
            text@ == lex_text(*self),
    {
        match self {
            LexError::IllegalCharacter(c) => around("Character '", *c, "' not allowed at this point"),
            LexError::UnterminatedString => String::from_str("Reached end while scanning string."),
            LexError::UnterminatedInteger => String::from_str(
                "Reached end while scanning integer.",
            ),
            LexError::UnterminatedWord => String::from_str("Reached end while scanning word."),
            LexError::UnterminatedPrefix(c) => around(
                "Reached end while scanning. ",
                *c,
                " expected continuation",
            ),
            LexError::IntegerOutOfRange => String::from_str("Integer literal out of range"),
        }
    }
}

impl SyntaxError {
    /// The message of the error.
    pub fn message(&self) -> (text: String)
        ensures
            text@ == syntax_text(*self),
    {
        match self {
            SyntaxError::UnexpectedToken { position } => {
                let mut text = String::from_str("Unexpected token at position ");
                push_nat_text(&mut text, *position as u64);
                text
            },
            SyntaxError::UnexpectedEnd => String::from_str("Reached end while parsing"),
        }
    }
}

impl RuntimeError {
    /// The message of the error.
    pub fn message(&self) -> (text: String)
        ensures
            text@ == runtime_text(*self),
    {
        match self {
            RuntimeError::TypeMismatch { expected, found } => {
                let mut text = String::from_str("Expected ");
                text.append(name_of_type(*expected));
                text.append(", got ");
                text.append(name_of_type(*found));
                text
            },
            RuntimeError::UnknownOperator(sign) => {
                let mut text = String::from_str("Unknown operator: ");
                text.push(*sign);
                text
            },
            RuntimeError::WrongArity(sign) => {
                if *sign == '!' {
                    String::from_str("! is a unary operator")
                } else {
                    around("Operator ", *sign, " is not a unary operator")
                }
            },
            RuntimeError::DivisionByZero => String::from_str("Division by zero"),
            RuntimeError::Overflow => String::from_str("Integer overflow"),
            RuntimeError::UndeclaredIdentifier => String::from_str(
                "Identifier used before declaration",
            ),
            RuntimeError::UnassignedIdentifier => String::from_str(
                "Identifier used before assignment",
            ),
            RuntimeError::MalformedInput => String::from_str("Malformed input"),
            RuntimeError::InputExhausted => String::from_str("IO error: no input left"),
            RuntimeError::AssertionFailed => String::from_str("Assertion failed"),
        }
    }
}

impl Failure {
    /// The message of a run that failed.
    pub fn message(&self) -> (text: String)
        ensures
            text@ == failure_text(*self),
    {
        match self {
            Failure::Lexical(e) => {
                let mut text = String::from_str("Scanning failed: ");
                text.append(e.message().as_str());
                text
            },
            Failure::Syntax(e) => {
                let mut text = String::from_str("Parsing failed: ");
                text.append(e.message().as_str());
                text
            },
            Failure::Runtime(e) => {
                let mut text = String::from_str("Runtime error: ");
                text.append(e.message().as_str());
                text
            },
        }
    }
}

} // verus!
