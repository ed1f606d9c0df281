//! Tokens, the smallest named units of a source text.
use vstd::prelude::*;

verus! {

/// The reserved words of the language.
#[derive(Clone, Copy, Debug, PartialEq, Eq, Structural)]
pub enum Keyword {
    Var,
    For,
    End,
    In,
    Do,
    Read,
    Print,
    Assert,
    Int,
    String,
    Bool,
}

/// A token as the scanner hands it to the parser.
#[derive(Debug, PartialEq)]
pub enum Token {
    Reserved(Keyword),
    Identifier(String),
    Int(i32),
    String(String),
    Bool(bool),
    Operator(char),
    OpenParen,
    CloseParen,
    Assignment,
    TypeDecl,
    Range,
    Dot,
    EndStatement,
}

/// The mathematical value of a token: texts are sequences of characters.
pub enum TokenView {
    Reserved(Keyword),
    Identifier(Seq<char>),
    Int(int),
    String(Seq<char>),
    Bool(bool),
    Operator(char),
    OpenParen,
    CloseParen,
    Assignment,
    TypeDecl,
    Range,
    Dot,
    EndStatement,
}

impl View for Token {
    type V = TokenView;

    open spec fn view(&self) -> TokenView {
        match self {
            Token::Reserved(k) => TokenView::Reserved(*k),
            Token::Identifier(s) => TokenView::Identifier(s@),
            Token::Int(i) => TokenView::Int(*i as int),
            Token::String(s) => TokenView::String(s@),
            Token::Bool(b) => TokenView::Bool(*b),
            Token::Operator(c) => TokenView::Operator(*c),
            Token::OpenParen => TokenView::OpenParen,
            Token::CloseParen => TokenView::CloseParen,
            Token::Assignment => TokenView::Assignment,
            Token::TypeDecl => TokenView::TypeDecl,
            Token::Range => TokenView::Range,
            Token::Dot => TokenView::Dot,
            Token::EndStatement => TokenView::EndStatement,
        }
    }
}

/// The values of a sequence of tokens, one for one.
pub open spec fn tokens_view(tokens: Seq<Token>) -> Seq<TokenView> {
    Seq::new(tokens.len(), |i: int| tokens[i]@)
}

impl Clone for Token {
    /// A copy of the token, with the same value.
    fn clone(&self) -> (copy: Token)
        ensures
            copy@ == self@,
    {
        match self {
            Token::Reserved(k) => Token::Reserved(*k),
            Token::Identifier(s) => Token::Identifier(s.clone()),
            Token::Int(i) => Token::Int(*i),
            Token::String(s) => Token::String(s.clone()),
            Token::Bool(b) => Token::Bool(*b),
            Token::Operator(c) => Token::Operator(*c),
            Token::OpenParen => Token::OpenParen,
            Token::CloseParen => Token::CloseParen,
            Token::Assignment => Token::Assignment,
            Token::TypeDecl => Token::TypeDecl,
            Token::Range => Token::Range,
            Token::Dot => Token::Dot,
            Token::EndStatement => Token::EndStatement,
        }
    }
}

} // verus!
