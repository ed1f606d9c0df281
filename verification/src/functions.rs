//! The operators of the language.
use vstd::prelude::*;
use crate::ast::MplType;
use crate::error::RuntimeError;
use crate::text::{text_before, text_less};
use crate::value::{MplValue, ValueView};

verus! {

/// The function that an operator symbol stands for.
pub struct MplFunction {
    pub sign: char,
}

/// The result of a call as mathematical values.
pub open spec fn result_view(result: Result<MplValue, RuntimeError>) -> Result<
    ValueView,
    RuntimeError,
> {
    match result {
        Ok(v) => Ok(v@),
        Err(e) => Err(e),
    }
}

/// The integer as a value, where 32 bits hold it; an overflow error where
/// they do not. No result of the arithmetic is wrapped round.
pub open spec fn int_value(i: int) -> Result<ValueView, RuntimeError> {
    if -2147483648 <= i <= 2147483647 {
        Ok(ValueView::Int(i))
    } else {
        Err(RuntimeError::Overflow)
    }
}

/// The quotient rounded toward zero.
pub open spec fn truncated_quotient(a: int, b: int) -> int
    recommends
        b != 0,
{
    let magnitude = (if a < 0 {
        -a
    } else {
        a
    }) / (if b < 0 {
        -b
    } else {
        b
    });
    if (a < 0) != (b < 0) {
        -magnitude
    } else {
        magnitude
    }
}

/// `-`, `*` and `/` on two integers.
pub open spec fn arithmetic(sign: char, a: int, b: int) -> Result<ValueView, RuntimeError> {
    if sign == '-' {
        int_value(a - b)
    } else if sign == '*' {
        int_value(a * b)
    } else if b == 0 {
        Err(RuntimeError::DivisionByZero)
    } else {
        int_value(truncated_quotient(a, b))
    }
}

/// `+`: the sum of two integers, or a text followed by a text. Only a text
/// is joined to a text: an integer or a truth value after a text is a type
/// mismatch, as is a truth value on the left.
pub open spec fn plus_values(left: ValueView, right: ValueView) -> Result<ValueView, RuntimeError> {
    match left {
        ValueView::Int(a) => match right.as_int() {
            Ok(b) => int_value(a + b),
            Err(e) => Err(e),
        },
        ValueView::String(s) => match right.as_text() {
            Ok(t) => Ok(ValueView::String(s + t)),
            Err(e) => Err(e),
        },
        ValueView::Bool(_) => Err(left.mismatch(MplType::Int)),
    }
}

/// `<`: both operands of the type of the left one; integers by size, texts
/// in the order of texts, false before true.
pub open spec fn compare_values(left: ValueView, right: ValueView) -> Result<
    ValueView,
    RuntimeError,
> {
    match left {
        ValueView::Int(a) => match right.as_int() {
            Ok(b) => Ok(ValueView::Bool(a < b)),
            Err(e) => Err(e),
        },
        ValueView::String(s) => match right.as_text() {
            Ok(t) => Ok(ValueView::Bool(text_less(s, t))),
            Err(e) => Err(e),
        },
        ValueView::Bool(a) => match right.as_bool() {
            Ok(b) => Ok(ValueView::Bool(!a && b)),
            Err(e) => Err(e),
        },
    }
}

/// What a binary operator makes of two values. The left operand is
/// checked before the right one.
pub open spec fn apply_binary(sign: char, left: ValueView, right: ValueView) -> Result<
    ValueView,
    RuntimeError,
> {
    if sign == '+' {
        plus_values(left, right)
    } else if sign == '-' || sign == '*' || sign == '/' {
        match left.as_int() {
            Ok(a) => match right.as_int() {
                Ok(b) => arithmetic(sign, a, b),
                Err(e) => Err(e),
            },
            Err(e) => Err(e),
        }
    } else if sign == '&' {
        match left.as_bool() {
            Ok(a) => match right.as_bool() {
                Ok(b) => Ok(ValueView::Bool(a && b)),
                Err(e) => Err(e),
            },
            Err(e) => Err(e),
        }
    } else if sign == '=' {
        Ok(ValueView::Bool(left == right))
    } else if sign == '<' {
        compare_values(left, right)
    } else if sign == '!' {
        Err(RuntimeError::WrongArity(sign))
    } else {
        Err(RuntimeError::UnknownOperator(sign))
    }
}

/// What a unary operator makes of a value: `!` negates a truth value, and
/// there is no other.
pub open spec fn apply_unary(sign: char, operand: ValueView) -> Result<ValueView, RuntimeError> {
    if sign == '!' {
        match operand.as_bool() {
            Ok(b) => Ok(ValueView::Bool(!b)),
            Err(e) => Err(e),
        }
    } else {
        Err(RuntimeError::WrongArity(sign))
    }
}

fn checked_int(i: i64) -> (result: Result<MplValue, RuntimeError>)
    ensures
        result_view(result) == int_value(i as int),
{
    if -2147483648 <= i && i <= 2147483647 {
        Ok(MplValue::Int(i as i32))
    } else {
        Err(RuntimeError::Overflow)
    }
}

fn magnitude(i: i32) -> (m: u64)
    ensures
        m == (if i < 0 {
            -(i as int)
        } else {
            i as int
        }),
{
    if i < 0 {
        (-(i as i64)) as u64
    } else {
        i as u64
    }
}

fn divide(a: i32, b: i32) -> (result: Result<MplValue, RuntimeError>)
    ensures
        result_view(result) == arithmetic('/', a as int, b as int),
{
    if b == 0 {
        return Err(RuntimeError::DivisionByZero);
    }
    let dividend = magnitude(a);
    let divisor = magnitude(b);
    let quotient: u64 = dividend / divisor;
    assert(quotient <= 2147483648) by (nonlinear_arith)
        requires
            quotient == dividend / divisor,
            dividend <= 2147483648,
            divisor >= 1,
    ;
    if (a < 0) != (b < 0) {
        checked_int(-(quotient as i64))
    } else {
        checked_int(quotient as i64)
    }
}

/// The sum of two integers, or a text followed by a text.
pub fn plus(left: MplValue, right: MplValue) -> (result: Result<MplValue, RuntimeError>)
    ensures
        result_view(result) == plus_values(left@, right@),
{
    match left {
        MplValue::Int(a) => match right.to_int() {
            Ok(b) => checked_int(a as i64 + b as i64),
            Err(e) => Err(e),
        },
        MplValue::String(s) => match right.to_string() {
            Ok(t) => Ok(MplValue::String(s.concat(t.as_str()))),
            Err(e) => Err(e),
        },
        MplValue::Bool(_) => Err(
            RuntimeError::TypeMismatch { expected: MplType::Int, found: MplType::Bool },
        ),
    }
}

/// Whether the left value comes before the right one.
pub fn compare(left: MplValue, right: MplValue) -> (result: Result<MplValue, RuntimeError>)
    ensures
        result_view(result) == compare_values(left@, right@),
{
    match left {
        MplValue::Int(a) => match right.to_int() {
            Ok(b) => Ok(MplValue::Bool(a < b)),
            Err(e) => Err(e),
        },
        MplValue::String(s) => match right.to_string() {
            Ok(t) => Ok(MplValue::Bool(text_before(s.as_str(), t.as_str()))),
            Err(e) => Err(e),
        },
        MplValue::Bool(a) => match right.to_bool() {
            Ok(b) => Ok(MplValue::Bool(!a && b)),
            Err(e) => Err(e),
        },
    }
}

impl MplFunction {
    /// Applies the operator to one operand.
    pub fn call_unary(&self, operand: MplValue) -> (result: Result<MplValue, RuntimeError>)
        ensures
            result_view(result) == apply_unary(self.sign, operand@),
    {
        if self.sign == '!' {
            match operand.to_bool() {
                Ok(b) => Ok(MplValue::Bool(!b)),
                Err(e) => Err(e),
            }
        } else {
            Err(RuntimeError::WrongArity(self.sign))
        }
    }

    /// Applies the operator to two operands.
    pub fn call(&self, left: MplValue, right: MplValue) -> (result: Result<MplValue, RuntimeError>)
        ensures
            result_view(result) == apply_binary(self.sign, left@, right@),
    {
        let sign = self.sign;
        if sign == '+' {
            plus(left, right)
        } else if sign == '-' || sign == '*' || sign == '/' {
            let a = match left.to_int() {
                Ok(a) => a,
                Err(e) => {
                    return Err(e);
                },
            };
            let b = match right.to_int() {
                Ok(b) => b,
                Err(e) => {
                    return Err(e);
                },
            };
            if sign == '-' {
                checked_int(a as i64 - b as i64)
            } else if sign == '*' {
                assert(-4611686018427387904 <= (a as int) * (b as int) <= 4611686018427387904)
                    by (nonlinear_arith)
                    requires
                        -2147483648 <= a <= 2147483647,
                        -2147483648 <= b <= 2147483647,
                ;
                checked_int(a as i64 * b as i64)
            } else {
                divide(a, b)
            }
        } else if sign == '&' {
            let a = match left.to_bool() {
                Ok(a) => a,
                Err(e) => {
                    return Err(e);
                },
            };
            match right.to_bool() {
                Ok(b) => Ok(MplValue::Bool(a && b)),
                Err(e) => Err(e),
            }
        } else if sign == '=' {
            Ok(MplValue::Bool(left.same(&right)))
        } else if sign == '<' {
            compare(left, right)
        } else if sign == '!' {
            Err(RuntimeError::WrongArity(sign))
        } else {
            Err(RuntimeError::UnknownOperator(sign))
        }
    }
}

} // verus!
