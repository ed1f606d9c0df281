//! The syntax tree: statements, expressions and operands.
use vstd::prelude::*;

verus! {

/// The types of the language: the annotation of a declaration and the tag
/// of a runtime value.
#[derive(Clone, Copy, Debug, PartialEq, Eq, Structural)]
pub enum MplType {
    Int,
    String,
    Bool,
}

/// The building block of an expression: a literal, a name, or an
/// expression in parentheses.
#[derive(Debug, PartialEq)]
pub enum Operand {
    Int(i32),
    String(String),
    Identifier(String),
    Expr(Box<Expression>),
}

/// An expression holds at most one operator; deeper nesting goes through
/// parenthesized operands.
#[derive(Debug, PartialEq)]
pub enum Expression {
    Simple(Operand),
    Binary { left: Operand, operator: char, right: Operand },
    Unary { operator: char, operand: Operand },
}

/// A statement of a program.
#[derive(Debug, PartialEq)]
pub enum Statement {
    Declaration { identifier: String, mpl_type: MplType, value: Option<Expression> },
    Assignment { identifier: String, expression: Expression },
    /// Counts from `begin` to `end`, both included.
    For { identifier: String, begin: Expression, end: Expression, statements: Vec<Statement> },
    Read(String),
    Print(Expression),
    Assert(Expression),
    /// A statement terminator on its own.
    Empty,
}

/// A program: its statements in order.
#[derive(Debug, PartialEq)]
pub struct Ast {
    pub statements: Vec<Statement>,
}

/// An operand as a mathematical value.
pub enum OperandView {
    Int(int),
    String(Seq<char>),
    Identifier(Seq<char>),
    Expr(Box<ExpressionView>),
}

/// An expression as a mathematical value.
pub enum ExpressionView {
    Simple(OperandView),
    Binary { left: OperandView, operator: char, right: OperandView },
    Unary { operator: char, operand: OperandView },
}

/// A statement as a mathematical value.
pub enum StatementView {
    Declaration { identifier: Seq<char>, mpl_type: MplType, value: Option<ExpressionView> },
    Assignment { identifier: Seq<char>, expression: ExpressionView },
    For {
        identifier: Seq<char>,
        begin: ExpressionView,
        end: ExpressionView,
        statements: Seq<StatementView>,
    },
    Read(Seq<char>),
    Print(ExpressionView),
    Assert(ExpressionView),
    Empty,
}

/// The mathematical value of an operand.
pub open spec fn operand_view(operand: Operand) -> OperandView
    decreases operand,
{
    match operand {
        Operand::Int(i) => OperandView::Int(i as int),
        Operand::String(s) => OperandView::String(s@),
        Operand::Identifier(s) => OperandView::Identifier(s@),
        Operand::Expr(e) => OperandView::Expr(Box::new(expression_view(*e))),
    }
}

/// The mathematical value of an expression.
pub open spec fn expression_view(expression: Expression) -> ExpressionView
    decreases expression,
{
    match expression {
        Expression::Simple(o) => ExpressionView::Simple(operand_view(o)),
        Expression::Binary { left, operator, right } => ExpressionView::Binary {
            left: operand_view(left),
            operator,
            right: operand_view(right),
        },
        Expression::Unary { operator, operand } => ExpressionView::Unary {
            operator,
            operand: operand_view(operand),
        },
    }
}

/// The mathematical value of a statement.
pub open spec fn statement_view(statement: Statement) -> StatementView
    decreases statement,
{
    match statement {
        Statement::Declaration { identifier, mpl_type, value } => StatementView::Declaration {
            identifier: identifier@,
            mpl_type,
            value: match value {
                Some(e) => Some(expression_view(e)),
                None => None,
            },
        },
        Statement::Assignment { identifier, expression } => StatementView::Assignment {
            identifier: identifier@,
            expression: expression_view(expression),
        },
        Statement::For { identifier, begin, end, statements } => StatementView::For {
            identifier: identifier@,
            begin: expression_view(begin),
            end: expression_view(end),
            statements: statements_view(statements@),
        },
        Statement::Read(identifier) => StatementView::Read(identifier@),
        Statement::Print(e) => StatementView::Print(expression_view(e)),
        Statement::Assert(e) => StatementView::Assert(expression_view(e)),
        Statement::Empty => StatementView::Empty,
    }
}

/// The values of a sequence of statements, one for one.
pub open spec fn statements_view(statements: Seq<Statement>) -> Seq<StatementView>
    decreases statements,
{
    Seq::new(
        statements.len(),
        |i: int|
            if 0 <= i < statements.len() {
                statement_view(statements[i])
            } else {
                StatementView::Empty
            },
    )
}

impl View for Operand {
    type V = OperandView;

    open spec fn view(&self) -> OperandView {
        operand_view(*self)
    }
}

impl View for Expression {
    type V = ExpressionView;

    open spec fn view(&self) -> ExpressionView {
        expression_view(*self)
    }
}

impl View for Statement {
    type V = StatementView;

    open spec fn view(&self) -> StatementView {
        statement_view(*self)
    }
}

impl View for Ast {
    type V = Seq<StatementView>;

    open spec fn view(&self) -> Seq<StatementView> {
        statements_view(self.statements@)
    }
}

/// A copy of the operand, with the same value.
pub fn clone_operand(operand: &Operand) -> (copy: Operand)
    ensures
        copy@ == operand@,
    decreases operand,
{
    match operand {
        Operand::Int(i) => Operand::Int(*i),
        Operand::String(s) => Operand::String(s.clone()),
        Operand::Identifier(s) => Operand::Identifier(s.clone()),
        Operand::Expr(e) => Operand::Expr(Box::new(clone_expression(e))),
    }
}

/// A copy of the expression, with the same value.
pub fn clone_expression(expression: &Expression) -> (copy: Expression)
    ensures
        copy@ == expression@,
    decreases expression,
{
    match expression {
        Expression::Simple(o) => Expression::Simple(clone_operand(o)),
        Expression::Binary { left, operator, right } => Expression::Binary {
            left: clone_operand(left),
            operator: *operator,
            right: clone_operand(right),
        },
        Expression::Unary { operator, operand } => Expression::Unary {
            operator: *operator,
            operand: clone_operand(operand),
        },
    }
}

/// Copies of the statements, with the same values.
pub fn clone_statements(statements: &Vec<Statement>) -> (copies: Vec<Statement>)
    ensures
        statements_view(copies@) == statements_view(statements@),
    decreases statements_view(statements@), 0nat,
{
    let mut copies: Vec<Statement> = Vec::new();
    let mut i: usize = 0;
    while i < statements.len()
        invariant
            i <= statements@.len(),
            copies@.len() == i,
            forall|j: int| 0 <= j < i ==> copies@[j]@ == statements@[j]@,
        decreases statements@.len() - i,
    {
        assert(statements_view(statements@)[i as int] == statements@[i as int]@);
        copies.push(clone_statement(&statements[i]));
        i += 1;
    }
    assert(statements_view(copies@) =~= statements_view(statements@));
    copies
}

/// A copy of the statement, with the same value.
pub fn clone_statement(statement: &Statement) -> (copy: Statement)
    ensures
        copy@ == statement@,
    decreases statement@, 0nat,
{
    match statement {
        Statement::Declaration { identifier, mpl_type, value } => Statement::Declaration {
            identifier: identifier.clone(),
            mpl_type: *mpl_type,
            value: match value {
                Some(e) => Some(clone_expression(e)),
                None => None,
            },
        },
        Statement::Assignment { identifier, expression } => Statement::Assignment {
            identifier: identifier.clone(),
            expression: clone_expression(expression),
        },
        Statement::For { identifier, begin, end, statements } => {
            assert(statement@ matches StatementView::For { statements: body, .. } && body
                == statements_view(statements@));
            Statement::For {
                identifier: identifier.clone(),
                begin: clone_expression(begin),
                end: clone_expression(end),
                statements: clone_statements(statements),
            }
        },
        Statement::Read(identifier) => Statement::Read(identifier.clone()),
        Statement::Print(e) => Statement::Print(clone_expression(e)),
        Statement::Assert(e) => Statement::Assert(clone_expression(e)),
        Statement::Empty => Statement::Empty,
    }
}

impl Clone for Operand {
    fn clone(&self) -> (copy: Operand)
        ensures
            copy@ == self@,
    {
        clone_operand(self)
    }
}

impl Clone for Expression {
    fn clone(&self) -> (copy: Expression)
        ensures
            copy@ == self@,
    {
        clone_expression(self)
    }
}

impl Clone for Statement {
    fn clone(&self) -> (copy: Statement)
        ensures
            copy@ == self@,
    {
        clone_statement(self)
    }
}

impl Clone for Ast {
    fn clone(&self) -> (copy: Ast)
        ensures
            copy@ == self@,
    {
        Ast { statements: clone_statements(&self.statements) }
    }
}

/// One statement more at the end of a sequence is one value more at the
/// end of its values.
pub proof fn lemma_statements_view_push(statements: Seq<Statement>, last: Statement)
    ensures
        statements_view(statements.push(last)) == statements_view(statements).push(last@),
{
    assert(statements_view(statements.push(last)) =~= statements_view(statements).push(last@));
}

} // verus!
