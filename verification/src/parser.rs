//! The parser: recursive descent over the tokens, with one token of
//! lookahead.
use vstd::prelude::*;
use crate::ast::{
    lemma_statements_view_push, statements_view, Ast, Expression, ExpressionView, MplType, Operand,
    OperandView, Statement, StatementView,
};
use crate::error::SyntaxError;
use crate::token::{tokens_view, Keyword, Token, TokenView};

verus! {

/// A parse that succeeded holds what was read and the index of the first
/// token after it.
pub type Parsed<T> = Result<(T, int), SyntaxError>;

/// `parsed`, where it ends beyond `at`. Every construct of the grammar
/// holds at least one token, so no parse ends where it began
/// (`lemma_statement_advances`); saying so where one parse follows another
/// keeps the definitions well-founded.
pub open spec fn beyond<T>(parsed: Parsed<T>, at: int) -> Parsed<T> {
    match parsed {
        Ok((_, end)) => if end > at {
            parsed
        } else {
            Err(SyntaxError::UnexpectedEnd)
        },
        Err(_) => parsed,
    }
}

/// How many tokens stand at `at` or after it.
pub open spec fn remaining(tokens: Seq<TokenView>, at: int) -> nat {
    if at <= tokens.len() {
        (tokens.len() - at) as nat
    } else {
        0
    }
}

/// The token at `at` has to be `wanted`.
pub open spec fn expect_at(tokens: Seq<TokenView>, at: int, wanted: TokenView) -> Result<
    int,
    SyntaxError,
> {
    if at >= tokens.len() {
        Err(SyntaxError::UnexpectedEnd)
    } else if tokens[at] == wanted {
        Ok(at + 1)
    } else {
        Err(SyntaxError::UnexpectedToken { position: at as usize })
    }
}

/// An operand whose first token stands at `at`: a literal, a name, or
/// `(` expression `)`.
pub open spec fn operand_at(tokens: Seq<TokenView>, at: int) -> Parsed<OperandView>
    decreases remaining(tokens, at), 0nat,
{
    if at < 0 || at >= tokens.len() {
        Err(SyntaxError::UnexpectedEnd)
    } else {
        match tokens[at] {
            TokenView::Int(i) => Ok((OperandView::Int(i), at + 1)),
            TokenView::String(s) => Ok((OperandView::String(s), at + 1)),
            TokenView::Identifier(name) => Ok((OperandView::Identifier(name), at + 1)),
            TokenView::OpenParen => match expression_at(tokens, at + 1) {
                Ok((e, end)) => match expect_at(tokens, end, TokenView::CloseParen) {
                    Ok(after) => Ok((OperandView::Expr(Box::new(e)), after)),
                    Err(error) => Err(error),
                },
                Err(error) => Err(error),
            },
            _ => Err(SyntaxError::UnexpectedToken { position: at as usize }),
        }
    }
}

/// An expression whose first token stands at `at`: an operator and one
/// operand, or one operand, an operator and one more operand, or one
/// operand alone, which some token has to follow.
pub open spec fn expression_at(tokens: Seq<TokenView>, at: int) -> Parsed<ExpressionView>
    decreases remaining(tokens, at), 1nat,
{
    if at < 0 || at >= tokens.len() {
        Err(SyntaxError::UnexpectedEnd)
    } else {
        match tokens[at] {
            TokenView::Operator(operator) => match operand_at(tokens, at + 1) {
                Ok((operand, end)) => Ok((ExpressionView::Unary { operator, operand }, end)),
                Err(error) => Err(error),
            },
            _ => match beyond(operand_at(tokens, at), at) {
                Ok((left, end)) => if end >= tokens.len() {
                    Err(SyntaxError::UnexpectedEnd)
                } else {
                    match tokens[end] {
                        TokenView::Operator(operator) => match operand_at(tokens, end + 1) {
                            Ok((right, after)) => Ok(
                                (ExpressionView::Binary { left, operator, right }, after),
                            ),
                            Err(error) => Err(error),
                        },
                        _ => Ok((ExpressionView::Simple(left), end)),
                    }
                },
                Err(error) => Err(error),
            },
        }
    }
}

/// An expression at `at` and the statement terminator after it.
pub open spec fn terminated_expression_at(tokens: Seq<TokenView>, at: int) -> Parsed<
    ExpressionView,
> {
    match expression_at(tokens, at) {
        Ok((e, end)) => match expect_at(tokens, end, TokenView::EndStatement) {
            Ok(after) => Ok((e, after)),
            Err(error) => Err(error),
        },
        Err(error) => Err(error),
    }
}

/// After `read`: a name and the terminator.
pub open spec fn read_at(tokens: Seq<TokenView>, at: int) -> Parsed<StatementView> {
    if at >= tokens.len() {
        Err(SyntaxError::UnexpectedEnd)
    } else {
        match tokens[at] {
            TokenView::Identifier(name) => match expect_at(
                tokens,
                at + 1,
                TokenView::EndStatement,
            ) {
                Ok(after) => Ok((StatementView::Read(name), after)),
                Err(error) => Err(error),
            },
            _ => Err(SyntaxError::UnexpectedToken { position: at as usize }),
        }
    }
}

/// After `assert`: `(` expression `)` and the terminator.
pub open spec fn assert_at(tokens: Seq<TokenView>, at: int) -> Parsed<StatementView> {
    match expect_at(tokens, at, TokenView::OpenParen) {
        Ok(inside) => match expression_at(tokens, inside) {
            Ok((e, end)) => match expect_at(tokens, end, TokenView::CloseParen) {
                Ok(closed) => match expect_at(tokens, closed, TokenView::EndStatement) {
                    Ok(after) => Ok((StatementView::Assert(e), after)),
                    Err(error) => Err(error),
                },
                Err(error) => Err(error),
            },
            Err(error) => Err(error),
        },
        Err(error) => Err(error),
    }
}

/// After the name of an assignment: `:=`, an expression and the
/// terminator.
pub open spec fn assignment_at(tokens: Seq<TokenView>, at: int, identifier: Seq<char>) -> Parsed<
    StatementView,
> {
    match expect_at(tokens, at, TokenView::Assignment) {
        Ok(inside) => match terminated_expression_at(tokens, inside) {
            Ok((expression, after)) => Ok(
                (StatementView::Assignment { identifier, expression }, after),
            ),
            Err(error) => Err(error),
        },
        Err(error) => Err(error),
    }
}

/// After `print`: an expression and the terminator.
pub open spec fn print_at(tokens: Seq<TokenView>, at: int) -> Parsed<StatementView> {
    match terminated_expression_at(tokens, at) {
        Ok((e, after)) => Ok((StatementView::Print(e), after)),
        Err(error) => Err(error),
    }
}

/// The type that a token names.
pub open spec fn type_at(tokens: Seq<TokenView>, at: int) -> Result<MplType, SyntaxError> {
    if at >= tokens.len() {
        Err(SyntaxError::UnexpectedEnd)
    } else {
        match tokens[at] {
            TokenView::Reserved(Keyword::Int) => Ok(MplType::Int),
            TokenView::Reserved(Keyword::String) => Ok(MplType::String),
            TokenView::Reserved(Keyword::Bool) => Ok(MplType::Bool),
            _ => Err(SyntaxError::UnexpectedToken { position: at as usize }),
        }
    }
}

/// After the type of a declaration: the terminator, or `:=`, an expression
/// and the terminator.
pub open spec fn initializer_at(tokens: Seq<TokenView>, at: int) -> Parsed<Option<ExpressionView>> {
    if at >= tokens.len() {
        Err(SyntaxError::UnexpectedEnd)
    } else {
        match tokens[at] {
            TokenView::EndStatement => Ok((None, at + 1)),
            TokenView::Assignment => match terminated_expression_at(tokens, at + 1) {
                Ok((e, after)) => Ok((Some(e), after)),
                Err(error) => Err(error),
            },
            _ => Err(SyntaxError::UnexpectedToken { position: at as usize }),
        }
    }
}

/// After `var`: a name, `:`, a type, and an initializer or none.
pub open spec fn declaration_at(tokens: Seq<TokenView>, at: int) -> Parsed<StatementView> {
    if at >= tokens.len() {
        Err(SyntaxError::UnexpectedEnd)
    } else {
        match tokens[at] {
            TokenView::Identifier(identifier) => match expect_at(
                tokens,
                at + 1,
                TokenView::TypeDecl,
            ) {
                Ok(typed) => match type_at(tokens, typed) {
                    Ok(mpl_type) => match initializer_at(tokens, typed + 1) {
                        Ok((value, after)) => Ok(
                            (StatementView::Declaration { identifier, mpl_type, value }, after),
                        ),
                        Err(error) => Err(error),
                    },
                    Err(error) => Err(error),
                },
                Err(error) => Err(error),
            },
            _ => Err(SyntaxError::UnexpectedToken { position: at as usize }),
        }
    }
}

/// An expression at `at` and the token `wanted` after it.
pub open spec fn bound_at(tokens: Seq<TokenView>, at: int, wanted: TokenView) -> Parsed<
    ExpressionView,
> {
    match beyond(expression_at(tokens, at), at) {
        Ok((e, end)) => match expect_at(tokens, end, wanted) {
            Ok(after) => Ok((e, after)),
            Err(error) => Err(error),
        },
        Err(error) => Err(error),
    }
}

/// After `for`: a name, `in`, an expression, `..`, an expression, `do`,
/// the statements of the body, `end`, `for` and the terminator.
pub open spec fn for_at(tokens: Seq<TokenView>, at: int) -> Parsed<StatementView>
    decreases remaining(tokens, at), 0nat,
{
    if at < 0 || at >= tokens.len() {
        Err(SyntaxError::UnexpectedEnd)
    } else {
        match tokens[at] {
            TokenView::Identifier(identifier) => match expect_at(
                tokens,
                at + 1,
                TokenView::Reserved(Keyword::In),
            ) {
                Ok(first) => match bound_at(tokens, first, TokenView::Range) {
                    Ok((begin, second)) => match bound_at(
                        tokens,
                        second,
                        TokenView::Reserved(Keyword::Do),
                    ) {
                        Ok((end, body)) => match block_at(tokens, body, Seq::empty()) {
                            Ok((statements, closing)) => match expect_at(
                                tokens,
                                closing,
                                TokenView::Reserved(Keyword::For),
                            ) {
                                Ok(last) => match expect_at(tokens, last, TokenView::EndStatement) {
                                    Ok(after) => Ok(
                                        (
                                            StatementView::For {
                                                identifier,
                                                begin,
                                                end,
                                                statements,
                                            },
                                            after,
                                        ),
                                    ),
                                    Err(error) => Err(error),
                                },
                                Err(error) => Err(error),
                            },
                            Err(error) => Err(error),
                        },
                        Err(error) => Err(error),
                    },
                    Err(error) => Err(error),
                },
                Err(error) => Err(error),
            },
            _ => Err(SyntaxError::UnexpectedToken { position: at as usize }),
        }
    }
}

/// The statements of a loop body from `at` up to its `end`, added to
/// `done`; the parse ends after the `end`.
pub open spec fn block_at(tokens: Seq<TokenView>, at: int, done: Seq<StatementView>) -> Parsed<
    Seq<StatementView>,
>
    decreases remaining(tokens, at), 1nat,
{
    if at < 0 || at >= tokens.len() {
        Err(SyntaxError::UnexpectedEnd)
    } else if tokens[at] == TokenView::Reserved(Keyword::End) {
        Ok((done, at + 1))
    } else {
        match beyond(statement_at(tokens, at), at) {
            Ok((statement, end)) => block_at(tokens, end, done.push(statement)),
            Err(error) => Err(error),
        }
    }
}

/// The statement whose first token stands at `at`; that token decides its
/// kind.
pub open spec fn statement_at(tokens: Seq<TokenView>, at: int) -> Parsed<StatementView>
    decreases remaining(tokens, at), 0nat,
{
    if at < 0 || at >= tokens.len() {
        Err(SyntaxError::UnexpectedEnd)
    } else {
        match tokens[at] {
            TokenView::Reserved(Keyword::Var) => declaration_at(tokens, at + 1),
            TokenView::Identifier(name) => assignment_at(tokens, at + 1, name),
            TokenView::Reserved(Keyword::For) => for_at(tokens, at + 1),
            TokenView::Reserved(Keyword::Read) => read_at(tokens, at + 1),
            TokenView::Reserved(Keyword::Print) => print_at(tokens, at + 1),
            TokenView::Reserved(Keyword::Assert) => assert_at(tokens, at + 1),
            TokenView::EndStatement => Ok((StatementView::Empty, at + 1)),
            _ => Err(SyntaxError::UnexpectedToken { position: at as usize }),
        }
    }
}

/// The statements from `at` to the last token, added to `done`.
pub open spec fn program_at(tokens: Seq<TokenView>, at: int, done: Seq<StatementView>) -> Result<
    Seq<StatementView>,
    SyntaxError,
>
    decreases remaining(tokens, at),
{
    if at < 0 || at >= tokens.len() {
        Ok(done)
    } else {
        match beyond(statement_at(tokens, at), at) {
            Ok((statement, end)) => program_at(tokens, end, done.push(statement)),
            Err(error) => Err(error),
        }
    }
}

/// The program that a token sequence is, or the first syntax error in it.
pub open spec fn parse_result(tokens: Seq<TokenView>) -> Result<Seq<StatementView>, SyntaxError> {
    program_at(tokens, 0, Seq::empty())
}

/// Whether a parse ended as the model says.
pub open spec fn parse_matches(
    result: Result<Ast, SyntaxError>,
    expected: Result<Seq<StatementView>, SyntaxError>,
) -> bool {
    match result {
        Ok(ast) => expected == Ok::<Seq<StatementView>, SyntaxError>(ast@),
        Err(e) => expected == Err::<Seq<StatementView>, SyntaxError>(e),
    }
}

/// Where a parse ends: beyond where it began and within the tokens.
pub open spec fn advances<T>(parsed: Parsed<T>, tokens: Seq<TokenView>, at: int) -> bool {
    parsed matches Ok((_, end)) ==> at < end <= tokens.len()
}

/// An operand holds at least one token.
pub proof fn lemma_operand_advances(tokens: Seq<TokenView>, at: int)
    ensures
        advances(operand_at(tokens, at), tokens, at),
    decreases remaining(tokens, at), 0nat,
{
    if 0 <= at < tokens.len() && tokens[at] is OpenParen {
        lemma_expression_advances(tokens, at + 1);
    }
}

/// An expression holds at least one token, and the parse of its first
/// operand is never cut short.
pub proof fn lemma_expression_advances(tokens: Seq<TokenView>, at: int)
    ensures
        advances(expression_at(tokens, at), tokens, at),
        beyond(operand_at(tokens, at), at) == operand_at(tokens, at),
    decreases remaining(tokens, at), 1nat,
{
    lemma_operand_advances(tokens, at);
    if 0 <= at < tokens.len() {
        if tokens[at] is Operator {
            lemma_operand_advances(tokens, at + 1);
        } else if let Ok((_, end)) = operand_at(tokens, at) {
            if end < tokens.len() && tokens[end] is Operator {
                lemma_operand_advances(tokens, end + 1);
            }
        }
    }
}

/// An expression with its terminator holds at least two tokens.
pub proof fn lemma_terminated_expression_advances(tokens: Seq<TokenView>, at: int)
    ensures
        advances(terminated_expression_at(tokens, at), tokens, at),
{
    lemma_expression_advances(tokens, at);
}

/// A bound of a loop with the token after it holds at least two tokens,
/// and the parse of its expression is never cut short.
pub proof fn lemma_bound_advances(tokens: Seq<TokenView>, at: int, wanted: TokenView)
    ensures
        advances(bound_at(tokens, at, wanted), tokens, at),
        beyond(expression_at(tokens, at), at) == expression_at(tokens, at),
{
    lemma_expression_advances(tokens, at);
}

/// A loop after its `for` holds at least one token, and the parse of its
/// body ends within the tokens.
pub proof fn lemma_for_advances(tokens: Seq<TokenView>, at: int)
    ensures
        advances(for_at(tokens, at), tokens, at),
    decreases remaining(tokens, at), 0nat,
{
    if 0 <= at < tokens.len() && tokens[at] is Identifier {
        lemma_bound_advances(tokens, at + 2, TokenView::Range);
        if let Ok((_, second)) = bound_at(tokens, at + 2, TokenView::Range) {
            lemma_bound_advances(tokens, second, TokenView::Reserved(Keyword::Do));
            if let Ok((_, body)) = bound_at(tokens, second, TokenView::Reserved(Keyword::Do)) {
                lemma_block_advances(tokens, body, Seq::empty());
            }
        }
    }
}

/// The body of a loop with its `end` holds at least one token, and the
/// parse of none of its statements is cut short.
pub proof fn lemma_block_advances(tokens: Seq<TokenView>, at: int, done: Seq<StatementView>)
    ensures
        advances(block_at(tokens, at, done), tokens, at),
        beyond(statement_at(tokens, at), at) == statement_at(tokens, at),
    decreases remaining(tokens, at), 1nat,
{
    lemma_statement_advances(tokens, at);
    if 0 <= at < tokens.len() && tokens[at] != TokenView::Reserved(Keyword::End) {
        if let Ok((statement, end)) = statement_at(tokens, at) {
            lemma_block_advances(tokens, end, done.push(statement));
        }
    }
}

/// A statement holds at least one token: no parse ends where it began, so
/// `beyond` never turns the parse of a statement into an error.
pub proof fn lemma_statement_advances(tokens: Seq<TokenView>, at: int)
    ensures
        advances(statement_at(tokens, at), tokens, at),
        beyond(statement_at(tokens, at), at) == statement_at(tokens, at),
    decreases remaining(tokens, at), 0nat,
{
    if 0 <= at < tokens.len() {
        match tokens[at] {
            TokenView::Reserved(Keyword::Var) => {
                lemma_terminated_expression_advances(tokens, at + 5);
            },
            TokenView::Identifier(_) => {
                lemma_terminated_expression_advances(tokens, at + 2);
            },
            TokenView::Reserved(Keyword::For) => {
                lemma_for_advances(tokens, at + 1);
            },
            TokenView::Reserved(Keyword::Print) => {
                lemma_terminated_expression_advances(tokens, at + 1);
            },
            TokenView::Reserved(Keyword::Assert) => {
                lemma_expression_advances(tokens, at + 2);
            },
            _ => {},
        }
    }
}

/// Whether two tokens have the same value.
pub fn same_token(left: &Token, right: &Token) -> (same: bool)
    ensures
        same == (left@ == right@),
{
    match left {
        Token::Reserved(a) => match right {
            Token::Reserved(b) => *a == *b,
            _ => false,
        },
        Token::Identifier(a) => match right {
            Token::Identifier(b) => *a == *b,
            _ => false,
        },
        Token::Int(a) => match right {
            Token::Int(b) => *a == *b,
            _ => false,
        },
        Token::String(a) => match right {
            Token::String(b) => *a == *b,
            _ => false,
        },
        Token::Bool(a) => match right {
            Token::Bool(b) => *a == *b,
            _ => false,
        },
        Token::Operator(a) => match right {
            Token::Operator(b) => *a == *b,
            _ => false,
        },
        Token::OpenParen => match right {
            Token::OpenParen => true,
            _ => false,
        },
        Token::CloseParen => match right {
            Token::CloseParen => true,
            _ => false,
        },
        Token::Assignment => match right {
            Token::Assignment => true,
            _ => false,
        },
        Token::TypeDecl => match right {
            Token::TypeDecl => true,
            _ => false,
        },
        Token::Range => match right {
            Token::Range => true,
            _ => false,
        },
        Token::Dot => match right {
            Token::Dot => true,
            _ => false,
        },
        Token::EndStatement => match right {
            Token::EndStatement => true,
            _ => false,
        },
    }
}

/// A parser over a token sequence. A token that was read and not used is
/// kept in a slot and handed out again by the next read.
pub struct Parser {
    tokens: Vec<Token>,
    position: usize,
    buffer: Option<Token>,
}

impl Parser {
    /// The values of the tokens that the parser was made with.
    pub closed spec fn tokens(&self) -> Seq<TokenView> {
        tokens_view(self.tokens@)
    }

    /// The index of the token that the next read hands out.
    pub closed spec fn cursor(&self) -> int {
        if self.buffer is Some {
            self.position - 1
        } else {
            self.position as int
        }
    }

    /// The slot holds nothing, or the token before the position.
    pub closed spec fn wf(&self) -> bool {
        &&& self.position <= self.tokens@.len()
        &&& self.buffer matches Some(t) ==> self.position >= 1 && t@ == self.tokens@[self.position - 1]@
    }

    /// The parser has the tokens of `before`, and where `expected` is a
    /// success it stands where that parse ended, beyond `start`.
    spec fn follows<T>(&self, before: &Parser, start: int, expected: Parsed<T>) -> bool {
        &&& self.wf()
        &&& self.tokens@ == before.tokens@
        &&& expected matches Ok((_, end)) ==> self.cursor() == end && end > start
    }

    /// A parser that stands before the first of `tokens`.
    pub fn new(tokens: Vec<Token>) -> (parser: Parser)
        ensures
            parser.wf(),
            parser.cursor() == 0,
            parser.tokens() == tokens_view(tokens@),
    {
        Parser { tokens, position: 0, buffer: None }
    }

    /// The next token: the one in the slot, or else the one at the
    /// position.
    fn next(&mut self) -> (token: Option<Token>)
        requires
            old(self).wf(),
        ensures
            final(self).wf(),
            final(self).tokens@ == old(self).tokens@,
            final(self).buffer is None,
            match token {
                Some(t) => old(self).cursor() < old(self).tokens@.len() && t@ == old(
                    self,
                ).tokens()[old(self).cursor()] && final(self).position == old(self).cursor() + 1,
                None => old(self).cursor() >= old(self).tokens@.len() && final(self).position
                    == old(self).cursor(),
            },
    {
        if self.buffer.is_some() {
            let mut token = None;
            std::mem::swap(&mut self.buffer, &mut token);
            token
        } else if self.position < self.tokens.len() {
            let token = self.tokens[self.position].clone();
            self.position += 1;
            Some(token)
        } else {
            None
        }
    }

    /// The next token, which has to be there.
    fn expect_next(&mut self) -> (token: Result<Token, SyntaxError>)
        requires
            old(self).wf(),
        ensures
            final(self).wf(),
            final(self).tokens@ == old(self).tokens@,
            final(self).buffer is None,
            match token {
                Ok(t) => old(self).cursor() < old(self).tokens@.len() && t@ == old(self).tokens()[old(
                    self,
                ).cursor()] && final(self).position == old(self).cursor() + 1,
                Err(e) => old(self).cursor() >= old(self).tokens@.len() && e
                    == SyntaxError::UnexpectedEnd,
            },
    {
        match self.next() {
            Some(token) => Ok(token),
            None => Err(SyntaxError::UnexpectedEnd),
        }
    }

    /// Reads the next token, which has to be `expected`.
    fn assume_next(&mut self, expected: Token) -> (result: Result<(), SyntaxError>)
        requires
            old(self).wf(),
        ensures
            final(self).wf(),
            final(self).tokens@ == old(self).tokens@,
            final(self).buffer is None,
            match expect_at(old(self).tokens(), old(self).cursor(), expected@) {
                Ok(end) => result is Ok && final(self).position == end,
                Err(e) => result == Err::<(), SyntaxError>(e),
            },
    {
        match self.next() {
            Some(token) => {
                if same_token(&token, &expected) {
                    Ok(())
                } else {
                    Err(SyntaxError::UnexpectedToken { position: self.position - 1 })
                }
            },
            None => Err(SyntaxError::UnexpectedEnd),
        }
    }

    /// Reads the statement terminator.
    fn assume_end(&mut self) -> (result: Result<(), SyntaxError>)
        requires
            old(self).wf(),
        ensures
            final(self).wf(),
            final(self).tokens@ == old(self).tokens@,
            final(self).buffer is None,
            match expect_at(old(self).tokens(), old(self).cursor(), TokenView::EndStatement) {
                Ok(end) => result is Ok && final(self).position == end,
                Err(e) => result == Err::<(), SyntaxError>(e),
            },
    {
        self.assume_next(Token::EndStatement)
    }

    /// The operand that `token`, which was just read, starts.
    fn parse_operand(&mut self, token: Token) -> (result: Result<Operand, SyntaxError>)
        requires
            old(self).wf(),
            old(self).buffer is None,
            old(self).position >= 1,
            token@ == old(self).tokens()[old(self).position - 1],
        ensures
            final(self).follows(
                old(self),
                old(self).position - 1,
                operand_at(old(self).tokens(), old(self).position - 1),
            ),
            match operand_at(old(self).tokens(), old(self).position - 1) {
                Ok((v, _)) => result is Ok && result->Ok_0@ == v && final(self).buffer is None,
                Err(e) => result == Err::<Operand, SyntaxError>(e),
            },
        decreases old(self).tokens@.len() - old(self).position + 1, 0nat,
    {
        match token {
            Token::Int(i) => Ok(Operand::Int(i)),
            Token::String(s) => Ok(Operand::String(s)),
            Token::Identifier(id) => Ok(Operand::Identifier(id)),
            Token::OpenParen => {
                let expression = match self.parse_expression() {
                    Ok(e) => e,
                    Err(error) => { return Err(error); },
                };
                match self.assume_next(Token::CloseParen) {
                    Ok(()) => Ok(Operand::Expr(Box::new(expression))),
                    Err(error) => Err(error),
                }
            },
            _ => Err(SyntaxError::UnexpectedToken { position: self.position - 1 }),
        }
    }

    /// An expression; the token after an operand that no operator follows
    /// goes back into the slot.
    fn parse_expression(&mut self) -> (result: Result<Expression, SyntaxError>)
        requires
            old(self).wf(),
        ensures
            final(self).follows(
                old(self),
                old(self).cursor(),
                expression_at(old(self).tokens(), old(self).cursor()),
            ),
            match expression_at(old(self).tokens(), old(self).cursor()) {
                Ok((v, _)) => result is Ok && result->Ok_0@ == v,
                Err(e) => result == Err::<Expression, SyntaxError>(e),
            },
        decreases old(self).tokens@.len() - old(self).cursor(), 1nat,
    {
        let first = match self.next() {
            Some(token) => token,
            None => { return Err(SyntaxError::UnexpectedEnd); },
        };
        match first {
            Token::Operator(operator) => {
                let token = match self.expect_next() {
                    Ok(token) => token,
                    Err(error) => { return Err(error); },
                };
                match self.parse_operand(token) {
                    Ok(operand) => Ok(Expression::Unary { operator, operand }),
                    Err(error) => Err(error),
                }
            },
            _ => {
                let left = match self.parse_operand(first) {
                    Ok(left) => left,
                    Err(error) => { return Err(error); },
                };
                match self.next() {
                    Some(Token::Operator(operator)) => {
                        let token = match self.expect_next() {
                            Ok(token) => token,
                            Err(error) => { return Err(error); },
                        };
                        match self.parse_operand(token) {
                            Ok(right) => Ok(Expression::Binary { left, operator, right }),
                            Err(error) => Err(error),
                        }
                    },
                    Some(token) => {
                        self.buffer = Some(token);
                        Ok(Expression::Simple(left))
                    },
                    None => Err(SyntaxError::UnexpectedEnd),
                }
            },
        }
    }

    /// An expression and the statement terminator after it.
    fn parse_terminated_expression(&mut self) -> (result: Result<Expression, SyntaxError>)
        requires
            old(self).wf(),
        ensures
            final(self).follows(
                old(self),
                old(self).cursor(),
                terminated_expression_at(old(self).tokens(), old(self).cursor()),
            ),
            result is Ok ==> final(self).buffer is None,
            match terminated_expression_at(old(self).tokens(), old(self).cursor()) {
                Ok((v, _)) => result is Ok && result->Ok_0@ == v,
                Err(e) => result == Err::<Expression, SyntaxError>(e),
            },
    {
        let expression = match self.parse_expression() {
            Ok(e) => e,
            Err(error) => {
                return Err(error);
            },
        };
        match self.assume_end() {
            Ok(()) => Ok(expression),
            Err(error) => Err(error),
        }
    }

    /// After `read`: a name and the terminator.
    fn parse_read(&mut self) -> (result: Result<Statement, SyntaxError>)
        requires
            old(self).wf(),
        ensures
            final(self).follows(
                old(self),
                old(self).cursor(),
                read_at(old(self).tokens(), old(self).cursor()),
            ),
            result is Ok ==> final(self).buffer is None,
            match read_at(old(self).tokens(), old(self).cursor()) {
                Ok((v, _)) => result is Ok && result->Ok_0@ == v,
                Err(e) => result == Err::<Statement, SyntaxError>(e),
            },
    {
        let name = match self.next() {
            Some(Token::Identifier(name)) => name,
            Some(_) => {
                return Err(SyntaxError::UnexpectedToken { position: self.position - 1 });
            },
            None => {
                return Err(SyntaxError::UnexpectedEnd);
            },
        };
        match self.assume_end() {
            Ok(()) => Ok(Statement::Read(name)),
            Err(error) => Err(error),
        }
    }

    /// After `assert`: `(` expression `)` and the terminator.
    fn parse_assert(&mut self) -> (result: Result<Statement, SyntaxError>)
        requires
            old(self).wf(),
        ensures
            final(self).follows(
                old(self),
                old(self).cursor(),
                assert_at(old(self).tokens(), old(self).cursor()),
            ),
            result is Ok ==> final(self).buffer is None,
            match assert_at(old(self).tokens(), old(self).cursor()) {
                Ok((v, _)) => result is Ok && result->Ok_0@ == v,
                Err(e) => result == Err::<Statement, SyntaxError>(e),
            },
    {
        match self.assume_next(Token::OpenParen) {
            Ok(()) => {},
            Err(error) => {
                return Err(error);
            },
        }
        let expression = match self.parse_expression() {
            Ok(e) => e,
            Err(error) => {
                return Err(error);
            },
        };
        match self.assume_next(Token::CloseParen) {
            Ok(()) => {},
            Err(error) => {
                return Err(error);
            },
        }
        match self.assume_end() {
            Ok(()) => Ok(Statement::Assert(expression)),
            Err(error) => Err(error),
        }
    }

    /// After the name of an assignment: `:=`, an expression and the
    /// terminator.
    fn parse_assignment(&mut self, identifier: String) -> (result: Result<Statement, SyntaxError>)
        requires
            old(self).wf(),
        ensures
            final(self).follows(
                old(self),
                old(self).cursor(),
                assignment_at(old(self).tokens(), old(self).cursor(), identifier@),
            ),
            result is Ok ==> final(self).buffer is None,
            match assignment_at(old(self).tokens(), old(self).cursor(), identifier@) {
                Ok((v, _)) => result is Ok && result->Ok_0@ == v,
                Err(e) => result == Err::<Statement, SyntaxError>(e),
            },
    {
        match self.assume_next(Token::Assignment) {
            Ok(()) => {},
            Err(error) => {
                return Err(error);
            },
        }
        match self.parse_terminated_expression() {
            Ok(expression) => Ok(Statement::Assignment { identifier, expression }),
            Err(error) => Err(error),
        }
    }

    /// After `print`: an expression and the terminator.
    fn parse_print(&mut self) -> (result: Result<Statement, SyntaxError>)
        requires
            old(self).wf(),
        ensures
            final(self).follows(
                old(self),
                old(self).cursor(),
                print_at(old(self).tokens(), old(self).cursor()),
            ),
            result is Ok ==> final(self).buffer is None,
            match print_at(old(self).tokens(), old(self).cursor()) {
                Ok((v, _)) => result is Ok && result->Ok_0@ == v,
                Err(e) => result == Err::<Statement, SyntaxError>(e),
            },
    {
        match self.parse_terminated_expression() {
            Ok(expression) => Ok(Statement::Print(expression)),
            Err(error) => Err(error),
        }
    }

    /// After `var`: a name, `:`, a type, and an initializer or none.
    fn parse_declaration(&mut self) -> (result: Result<Statement, SyntaxError>)
        requires
            old(self).wf(),
        ensures
            final(self).follows(
                old(self),
                old(self).cursor(),
                declaration_at(old(self).tokens(), old(self).cursor()),
            ),
            result is Ok ==> final(self).buffer is None,
            match declaration_at(old(self).tokens(), old(self).cursor()) {
                Ok((v, _)) => result is Ok && result->Ok_0@ == v,
                Err(e) => result == Err::<Statement, SyntaxError>(e),
            },
    {
        let identifier = match self.expect_next() {
            Ok(Token::Identifier(value)) => value,
            Ok(_) => {
                return Err(SyntaxError::UnexpectedToken { position: self.position - 1 });
            },
            Err(error) => {
                return Err(error);
            },
        };
        match self.assume_next(Token::TypeDecl) {
            Ok(()) => {},
            Err(error) => {
                return Err(error);
            },
        }
        let mpl_type = match self.next() {
            Some(Token::Reserved(Keyword::Int)) => MplType::Int,
            Some(Token::Reserved(Keyword::String)) => MplType::String,
            Some(Token::Reserved(Keyword::Bool)) => MplType::Bool,
            Some(_) => {
                return Err(SyntaxError::UnexpectedToken { position: self.position - 1 });
            },
            None => {
                return Err(SyntaxError::UnexpectedEnd);
            },
        };
        let value = match self.next() {
            Some(Token::EndStatement) => None,
            Some(Token::Assignment) => match self.parse_terminated_expression() {
                Ok(expression) => Some(expression),
                Err(error) => {
                    return Err(error);
                },
            },
            Some(_) => {
                return Err(SyntaxError::UnexpectedToken { position: self.position - 1 });
            },
            None => {
                return Err(SyntaxError::UnexpectedEnd);
            },
        };
        Ok(Statement::Declaration { identifier, mpl_type, value })
    }

    /// An expression and the token `wanted` after it.
    fn parse_bound(&mut self, wanted: Token) -> (result: Result<Expression, SyntaxError>)
        requires
            old(self).wf(),
        ensures
            final(self).follows(
                old(self),
                old(self).cursor(),
                bound_at(old(self).tokens(), old(self).cursor(), wanted@),
            ),
            result is Ok ==> final(self).buffer is None,
            match bound_at(old(self).tokens(), old(self).cursor(), wanted@) {
                Ok((v, _)) => result is Ok && result->Ok_0@ == v,
                Err(e) => result == Err::<Expression, SyntaxError>(e),
            },
    {
        let expression = match self.parse_expression() {
            Ok(e) => e,
            Err(error) => {
                return Err(error);
            },
        };
        match self.assume_next(wanted) {
            Ok(()) => Ok(expression),
            Err(error) => Err(error),
        }
    }

    /// After `for`: the head of the loop, its body and `end for;`.
    fn parse_for(&mut self) -> (result: Result<Statement, SyntaxError>)
        requires
            old(self).wf(),
            old(self).buffer is None,
        ensures
            final(self).follows(
                old(self),
                old(self).cursor(),
                for_at(old(self).tokens(), old(self).cursor()),
            ),
            result is Ok ==> final(self).buffer is None,
            match for_at(old(self).tokens(), old(self).cursor()) {
                Ok((v, _)) => result is Ok && result->Ok_0@ == v,
                Err(e) => result == Err::<Statement, SyntaxError>(e),
            },
        decreases old(self).tokens@.len() - old(self).position, 0nat,
    {
        let identifier = match self.next() {
            Some(Token::Identifier(value)) => value,
            Some(_) => {
                return Err(SyntaxError::UnexpectedToken { position: self.position - 1 });
            },
            None => {
                return Err(SyntaxError::UnexpectedEnd);
            },
        };
        match self.assume_next(Token::Reserved(Keyword::In)) {
            Ok(()) => {},
            Err(error) => {
                return Err(error);
            },
        }
        let begin = match self.parse_bound(Token::Range) {
            Ok(e) => e,
            Err(error) => {
                return Err(error);
            },
        };
        let end = match self.parse_bound(Token::Reserved(Keyword::Do)) {
            Ok(e) => e,
            Err(error) => {
                return Err(error);
            },
        };
        let statements = match self.parse_block() {
            Ok(statements) => statements,
            Err(error) => {
                return Err(error);
            },
        };
        match self.assume_next(Token::Reserved(Keyword::For)) {
            Ok(()) => {},
            Err(error) => {
                return Err(error);
            },
        }
        match self.assume_end() {
            Ok(()) => Ok(Statement::For { identifier, begin, end, statements }),
            Err(error) => Err(error),
        }
    }

    /// The statements of a loop body, up to and with its `end`.
    fn parse_block(&mut self) -> (result: Result<Vec<Statement>, SyntaxError>)
        requires
            old(self).wf(),
            old(self).buffer is None,
        ensures
            final(self).follows(
                old(self),
                old(self).cursor(),
                block_at(old(self).tokens(), old(self).cursor(), Seq::empty()),
            ),
            result is Ok ==> final(self).buffer is None,
            match block_at(old(self).tokens(), old(self).cursor(), Seq::empty()) {
                Ok((v, _)) => result is Ok && statements_view(result->Ok_0@) == v,
                Err(e) => result == Err::<Vec<Statement>, SyntaxError>(e),
            },
        decreases old(self).tokens@.len() - old(self).position, 1nat,
    {
        let mut statements: Vec<Statement> = Vec::new();
        assert(statements_view(statements@) =~= Seq::empty());
        loop
            invariant
                self.wf(),
                self.buffer is None,
                self.tokens@ == old(self).tokens@,
                self.position >= old(self).position,
                block_at(self.tokens(), self.cursor(), statements_view(statements@)) == block_at(
                    old(self).tokens(),
                    old(self).cursor(),
                    Seq::empty(),
                ),
            decreases self.tokens@.len() - self.position,
        {
            let ghost before = statements@;
            match self.next() {
                Some(Token::Reserved(Keyword::End)) => {
                    return Ok(statements);
                },
                Some(token) => match self.parse_statement(token) {
                    Ok(statement) => {
                        statements.push(statement);
                        proof {
                            lemma_statements_view_push(before, statement);
                        }
                    },
                    Err(error) => {
                        return Err(error);
                    },
                },
                None => {
                    return Err(SyntaxError::UnexpectedEnd);
                },
            }
        }
    }

    /// The statement that `token`, which was just read, starts.
    fn parse_statement(&mut self, token: Token) -> (result: Result<Statement, SyntaxError>)
        requires
            old(self).wf(),
            old(self).buffer is None,
            old(self).position >= 1,
            token@ == old(self).tokens()[old(self).position - 1],
        ensures
            final(self).follows(
                old(self),
                old(self).position - 1,
                statement_at(old(self).tokens(), old(self).position - 1),
            ),
            result is Ok ==> final(self).buffer is None,
            match statement_at(old(self).tokens(), old(self).position - 1) {
                Ok((v, _)) => result is Ok && result->Ok_0@ == v,
                Err(e) => result == Err::<Statement, SyntaxError>(e),
            },
        decreases old(self).tokens@.len() - old(self).position + 1, 0nat,
    {
        match token {
            Token::Reserved(Keyword::Var) => self.parse_declaration(),
            Token::Identifier(name) => self.parse_assignment(name),
            Token::Reserved(Keyword::For) => self.parse_for(),
            Token::Reserved(Keyword::Read) => self.parse_read(),
            Token::Reserved(Keyword::Print) => self.parse_print(),
            Token::Reserved(Keyword::Assert) => self.parse_assert(),
            Token::EndStatement => Ok(Statement::Empty),
            _ => Err(SyntaxError::UnexpectedToken { position: self.position - 1 }),
        }
    }

    /// Parses all the tokens into a program.
    pub fn into_ast(self) -> (result: Result<Ast, SyntaxError>)
        requires
            self.wf(),
        ensures
            parse_matches(result, program_at(self.tokens(), self.cursor(), Seq::empty())),
    {
        let mut parser = self;
        let mut statements: Vec<Statement> = Vec::new();
        assert(statements_view(statements@) =~= Seq::empty());
        loop
            invariant
                parser.wf(),
                parser.tokens@ == self.tokens@,
                program_at(parser.tokens(), parser.cursor(), statements_view(statements@))
                    == program_at(self.tokens(), self.cursor(), Seq::empty()),
            decreases parser.tokens@.len() - parser.cursor(),
        {
            let ghost before = statements@;
            match parser.next() {
                Some(token) => match parser.parse_statement(token) {
                    Ok(statement) => {
                        statements.push(statement);
                        proof {
                            lemma_statements_view_push(before, statement);
                        }
                    },
                    Err(error) => {
                        return Err(error);
                    },
                },
                None => {
                    return Ok(Ast { statements });
                },
            }
        }
    }
}

/// Parses a token sequence into a program.
pub fn parse(input: Vec<Token>) -> (result: Result<Ast, SyntaxError>)
    ensures
        parse_matches(result, parse_result(tokens_view(input@))),
{
    Parser::new(input).into_ast()
}

} // verus!
