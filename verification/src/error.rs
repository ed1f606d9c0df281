//! The three families of errors, one per stage.
use vstd::prelude::*;
use crate::ast::MplType;

verus! {

/// Why a source text is not a sequence of tokens.
#[derive(Clone, Copy, Debug, PartialEq, Eq, Structural)]
pub enum LexError {
    /// A character that starts no token and is no whitespace.
    IllegalCharacter(char),
    /// The text ended inside a string literal.
    UnterminatedString,
    /// The text ended inside an integer literal.
    UnterminatedInteger,
    /// The text ended inside an identifier or keyword.
    UnterminatedWord,
    /// The text ended right after `:`, `.` or `/`, before the character
    /// that decides which token it starts.
    UnterminatedPrefix(char),
    /// An integer literal that no 32-bit signed integer holds.
    IntegerOutOfRange,
}

/// Why a token sequence is not a program.
#[derive(Clone, Copy, Debug, PartialEq, Eq, Structural)]
pub enum SyntaxError {
    /// The token at this index of the sequence cannot stand where it does.
    UnexpectedToken { position: usize },
    /// The tokens ran out while a construct was incomplete.
    UnexpectedEnd,
}

/// Why a program stopped before its last statement.
#[derive(Clone, Copy, Debug, PartialEq, Eq, Structural)]
pub enum RuntimeError {
    /// A value of type `found` stands where one of type `expected` is needed.
    TypeMismatch { expected: MplType, found: MplType },
    /// The symbol is no operator of the language.
    UnknownOperator(char),
    /// A unary operator between two operands, or a binary one before a
    /// single operand.
    WrongArity(char),
    /// The divisor is zero.
    DivisionByZero,
    /// The exact result is no 32-bit signed integer.
    Overflow,
    /// An assignment, a loop or a read names an identifier that no
    /// declaration has bound.
    UndeclaredIdentifier,
    /// An expression names an identifier that has no value.
    UnassignedIdentifier,
    /// The line read is no literal of the identifier's type.
    MalformedInput,
    /// A read found no line left.
    InputExhausted,
    /// The asserted expression is false.
    AssertionFailed,
}

} // verus!
