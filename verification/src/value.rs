//! Runtime values and their conversions.
use vstd::prelude::*;
use crate::ast::MplType;
use crate::error::RuntimeError;
use crate::text::{bool_text, bool_to_text, int_text, int_to_text};

verus! {

/// A value of the language.
#[derive(Debug, PartialEq)]
pub enum MplValue {
    Int(i32),
    String(String),
    Bool(bool),
}

/// The mathematical value of a runtime value.
pub enum ValueView {
    Int(int),
    String(Seq<char>),
    Bool(bool),
}

impl ValueView {
    /// The tag of the value.
    pub open spec fn mpl_type(self) -> MplType {
        match self {
            ValueView::Int(_) => MplType::Int,
            ValueView::String(_) => MplType::String,
            ValueView::Bool(_) => MplType::Bool,
        }
    }

    /// The error of a value that stands where `expected` is needed.
    pub open spec fn mismatch(self, expected: MplType) -> RuntimeError {
        RuntimeError::TypeMismatch { expected, found: self.mpl_type() }
    }

    /// The integer that the value is; no other tag is converted.
    pub open spec fn as_int(self) -> Result<int, RuntimeError> {
        match self {
            ValueView::Int(i) => Ok(i),
            _ => Err(self.mismatch(MplType::Int)),
        }
    }

    /// The text that the value is; no other tag is converted.
    pub open spec fn as_text(self) -> Result<Seq<char>, RuntimeError> {
        match self {
            ValueView::String(s) => Ok(s),
            _ => Err(self.mismatch(MplType::String)),
        }
    }

    /// The truth value that the value is; no other tag is converted.
    pub open spec fn as_bool(self) -> Result<bool, RuntimeError> {
        match self {
            ValueView::Bool(b) => Ok(b),
            _ => Err(self.mismatch(MplType::Bool)),
        }
    }

    /// What printing the value writes: the literal of an integer or a truth
    /// value, a text as it is.
    pub open spec fn display(self) -> Seq<char> {
        match self {
            ValueView::Int(i) => int_text(i),
            ValueView::String(s) => s,
            ValueView::Bool(b) => bool_text(b),
        }
    }

    /// The value of a declaration without initializer.
    pub open spec fn default_of(mpl_type: MplType) -> ValueView {
        match mpl_type {
            MplType::Int => ValueView::Int(0),
            MplType::String => ValueView::String(Seq::empty()),
            MplType::Bool => ValueView::Bool(false),
        }
    }
}

impl View for MplValue {
    type V = ValueView;

    open spec fn view(&self) -> ValueView {
        match self {
            MplValue::Int(i) => ValueView::Int(*i as int),
            MplValue::String(s) => ValueView::String(s@),
            MplValue::Bool(b) => ValueView::Bool(*b),
        }
    }
}

impl Clone for MplValue {
    fn clone(&self) -> (copy: MplValue)
        ensures
            copy@ == self@,
    {
        match self {
            MplValue::Int(i) => MplValue::Int(*i),
            MplValue::String(s) => MplValue::String(s.clone()),
            MplValue::Bool(b) => MplValue::Bool(*b),
        }
    }
}

impl MplValue {
    /// Whether the value has the type `mpl_type`.
    pub fn is(&self, mpl_type: &MplType) -> (b: bool)
        ensures
            b == (self@.mpl_type() == *mpl_type),
    {
        match (self, mpl_type) {
            (MplValue::Int(_), MplType::Int) => true,
            (MplValue::String(_), MplType::String) => true,
            (MplValue::Bool(_), MplType::Bool) => true,
            _ => false,
        }
    }

    /// The integer that the value is, or a type mismatch.
    pub fn to_int(self) -> (result: Result<i32, RuntimeError>)
        ensures
            match result {
                Ok(i) => self@.as_int() == Ok::<int, RuntimeError>(i as int),
                Err(e) => self@.as_int() == Err::<int, RuntimeError>(e),
            },
    {
        match self {
            MplValue::Int(i) => Ok(i),
            MplValue::String(_) => Err(
                RuntimeError::TypeMismatch { expected: MplType::Int, found: MplType::String },
            ),
            MplValue::Bool(_) => Err(
                RuntimeError::TypeMismatch { expected: MplType::Int, found: MplType::Bool },
            ),
        }
    }

    /// The text that the value is, or a type mismatch.
    pub fn to_string(self) -> (result: Result<String, RuntimeError>)
        ensures
            match result {
                Ok(s) => self@.as_text() == Ok::<Seq<char>, RuntimeError>(s@),
                Err(e) => self@.as_text() == Err::<Seq<char>, RuntimeError>(e),
            },
    {
        match self {
            MplValue::Int(_) => Err(
                RuntimeError::TypeMismatch { expected: MplType::String, found: MplType::Int },
            ),
            MplValue::String(s) => Ok(s),
            MplValue::Bool(_) => Err(
                RuntimeError::TypeMismatch { expected: MplType::String, found: MplType::Bool },
            ),
        }
    }

    /// The truth value that the value is, or a type mismatch.
    pub fn to_bool(self) -> (result: Result<bool, RuntimeError>)
        ensures
            result == self@.as_bool(),
    {
        match self {
            MplValue::Int(_) => Err(
                RuntimeError::TypeMismatch { expected: MplType::Bool, found: MplType::Int },
            ),
            MplValue::String(_) => Err(
                RuntimeError::TypeMismatch { expected: MplType::Bool, found: MplType::String },
            ),
            MplValue::Bool(b) => Ok(b),
        }
    }

    /// The tag of the value.
    pub fn mpl_type(&self) -> (t: MplType)
        ensures
            t == self@.mpl_type(),
    {
        match self {
            MplValue::Int(_) => MplType::Int,
            MplValue::String(_) => MplType::String,
            MplValue::Bool(_) => MplType::Bool,
        }
    }

    /// The value of a declaration without initializer: 0, the empty text,
    /// false.
    pub fn default(mpl_type: &MplType) -> (value: MplValue)
        ensures
            value@ == ValueView::default_of(*mpl_type),
    {
        match mpl_type {
            MplType::Int => MplValue::Int(0),
            MplType::String => MplValue::String(String::new()),
            MplType::Bool => MplValue::Bool(false),
        }
    }

    /// The text that printing the value writes.
    pub fn display(&self) -> (text: String)
        ensures
            text@ == self@.display(),
    {
        match self {
            MplValue::Int(i) => int_to_text(*i),
            MplValue::String(s) => s.clone(),
            MplValue::Bool(b) => bool_to_text(*b),
        }
    }

    /// Whether two values have the same tag and hold the same.
    pub fn same(&self, other: &MplValue) -> (b: bool)
        ensures
            b == (self@ == other@),
    {
        match self {
            MplValue::Int(a) => match other {
                MplValue::Int(b) => *a == *b,
                _ => false,
            },
            MplValue::String(a) => match other {
                MplValue::String(b) => *a == *b,
                _ => false,
            },
            MplValue::Bool(a) => match other {
                MplValue::Bool(b) => *a == *b,
                _ => false,
            },
        }
    }
}

} // verus!
