//! The evaluator: it walks the syntax tree against one name table, reads
//! the lines it was given and collects what the program prints.
use vstd::prelude::*;
use crate::ast::{
    statements_view, Ast, Expression, ExpressionView, MplType, Operand, OperandView, Statement,
    StatementView,
};
use crate::environment::Environment;
use crate::error::RuntimeError;
use crate::functions::{apply_binary, apply_unary, result_view, MplFunction};
use crate::text::{bool_of_text, int_of_text, parse_bool_text, parse_int_text, trim_text, trimmed};
use crate::value::{MplValue, ValueView};

verus! {

/// The state of a run as a mathematical value.
pub struct MachineView {
    /// The name table.
    pub names: Map<Seq<char>, ValueView>,
    /// The lines of input that the run was given.
    pub lines: Seq<Seq<char>>,
    /// How many of them have been read.
    pub consumed: nat,
    /// What has been printed.
    pub output: Seq<char>,
}

/// A state and the error that stopped the run in it, if one did.
pub struct Outcome {
    pub machine: MachineView,
    pub failure: Option<RuntimeError>,
}

impl MachineView {
    /// The state before the first statement: no name, nothing read,
    /// nothing printed.
    pub open spec fn start(lines: Seq<Seq<char>>) -> MachineView {
        MachineView { names: Map::empty(), lines, consumed: 0, output: Seq::empty() }
    }

    /// The state as the outcome of a step that succeeded.
    pub open spec fn done(self) -> Outcome {
        Outcome { machine: self, failure: None }
    }

    /// The state as the outcome of a step that `error` stopped.
    pub open spec fn failed(self, error: RuntimeError) -> Outcome {
        Outcome { machine: self, failure: Some(error) }
    }

    /// The state with `name` bound to `value`.
    pub open spec fn bind(self, name: Seq<char>, value: ValueView) -> MachineView {
        MachineView { names: self.names.insert(name, value), ..self }
    }

    /// A new value for a name that is bound: the value keeps the type that
    /// the name was declared with.
    pub open spec fn assign(self, name: Seq<char>, value: ValueView) -> Outcome {
        if !self.names.contains_key(name) {
            self.failed(RuntimeError::UndeclaredIdentifier)
        } else if self.names[name].mpl_type() != value.mpl_type() {
            self.failed(value.mismatch(self.names[name].mpl_type()))
        } else {
            self.bind(name, value).done()
        }
    }

    /// The state with `text` printed.
    pub open spec fn print(self, text: Seq<char>) -> MachineView {
        MachineView { output: self.output + text, ..self }
    }

    /// The state with the lines `more` after those it has.
    pub open spec fn with_lines(self, more: Seq<Seq<char>>) -> MachineView {
        MachineView { lines: self.lines + more, ..self }
    }

    /// The state with one more line read.
    pub open spec fn take_line(self) -> MachineView {
        MachineView { consumed: self.consumed + 1, ..self }
    }
}

/// The outcome of a step that ended in `machine` with `result`.
pub open spec fn outcome(machine: MachineView, result: Result<(), RuntimeError>) -> Outcome {
    match result {
        Ok(_) => machine.done(),
        Err(e) => machine.failed(e),
    }
}

/// The value of an operand: a literal is its value, a name is what it is
/// bound to.
pub open spec fn eval_operand(operand: OperandView, names: Map<Seq<char>, ValueView>) -> Result<
    ValueView,
    RuntimeError,
>
    decreases operand,
{
    match operand {
        OperandView::Int(i) => Ok(ValueView::Int(i)),
        OperandView::String(s) => Ok(ValueView::String(s)),
        OperandView::Identifier(name) => if names.contains_key(name) {
            Ok(names[name])
        } else {
            Err(RuntimeError::UnassignedIdentifier)
        },
        OperandView::Expr(e) => eval_expression(*e, names),
    }
}

/// The value of an expression. The left operand is evaluated before the
/// right one.
pub open spec fn eval_expression(
    expression: ExpressionView,
    names: Map<Seq<char>, ValueView>,
) -> Result<ValueView, RuntimeError>
    decreases expression,
{
    match expression {
        ExpressionView::Simple(operand) => eval_operand(operand, names),
        ExpressionView::Binary { left, operator, right } => match eval_operand(left, names) {
            Ok(a) => match eval_operand(right, names) {
                Ok(b) => apply_binary(operator, a, b),
                Err(e) => Err(e),
            },
            Err(e) => Err(e),
        },
        ExpressionView::Unary { operator, operand } => match eval_operand(operand, names) {
            Ok(a) => apply_unary(operator, a),
            Err(e) => Err(e),
        },
    }
}

/// The integer that an expression evaluates to.
pub open spec fn eval_int(expression: ExpressionView, names: Map<Seq<char>, ValueView>) -> Result<
    int,
    RuntimeError,
> {
    match eval_expression(expression, names) {
        Ok(v) => v.as_int(),
        Err(e) => Err(e),
    }
}

/// The value of type `mpl_type` that a line of input, already trimmed,
/// denotes.
pub open spec fn read_value(mpl_type: MplType, line: Seq<char>) -> Result<ValueView, RuntimeError> {
    match mpl_type {
        MplType::Int => match int_of_text(line) {
            Some(i) => Ok(ValueView::Int(i)),
            None => Err(RuntimeError::MalformedInput),
        },
        MplType::String => Ok(ValueView::String(line)),
        MplType::Bool => match bool_of_text(line) {
            Some(b) => Ok(ValueView::Bool(b)),
            None => Err(RuntimeError::MalformedInput),
        },
    }
}

/// A declaration binds the name to the initializer's value, or to the
/// default of the type, in place of what the name was bound to; the value
/// has to be of the declared type.
pub open spec fn run_declaration(
    identifier: Seq<char>,
    mpl_type: MplType,
    value: Option<ExpressionView>,
    machine: MachineView,
) -> Outcome {
    let initial = match value {
        Some(e) => eval_expression(e, machine.names),
        None => Ok(ValueView::default_of(mpl_type)),
    };
    match initial {
        Ok(v) => if v.mpl_type() == mpl_type {
            machine.bind(identifier, v).done()
        } else {
            machine.failed(v.mismatch(mpl_type))
        },
        Err(e) => machine.failed(e),
    }
}

/// An assignment evaluates the expression, then gives the name its value.
pub open spec fn run_assignment(
    identifier: Seq<char>,
    expression: ExpressionView,
    machine: MachineView,
) -> Outcome {
    match eval_expression(expression, machine.names) {
        Ok(v) => machine.assign(identifier, v),
        Err(e) => machine.failed(e),
    }
}

/// A read takes the next line, trims it, and gives the name the value
/// that the line denotes in the name's type.
pub open spec fn run_read(identifier: Seq<char>, machine: MachineView) -> Outcome {
    if machine.consumed >= machine.lines.len() {
        machine.failed(RuntimeError::InputExhausted)
    } else {
        let line = trimmed(machine.lines[machine.consumed as int]);
        let taken = machine.take_line();
        if !taken.names.contains_key(identifier) {
            taken.failed(RuntimeError::UndeclaredIdentifier)
        } else {
            match read_value(taken.names[identifier].mpl_type(), line) {
                Ok(v) => taken.bind(identifier, v).done(),
                Err(e) => taken.failed(e),
            }
        }
    }
}

/// A print writes the display text of the expression's value, and nothing
/// after it.
pub open spec fn run_print(expression: ExpressionView, machine: MachineView) -> Outcome {
    match eval_expression(expression, machine.names) {
        Ok(v) => machine.print(v.display()).done(),
        Err(e) => machine.failed(e),
    }
}

/// An assertion passes on true, fails on false, and is a type mismatch on
/// any other value.
pub open spec fn run_assert(expression: ExpressionView, machine: MachineView) -> Outcome {
    match eval_expression(expression, machine.names) {
        Ok(ValueView::Bool(true)) => machine.done(),
        Ok(ValueView::Bool(false)) => machine.failed(RuntimeError::AssertionFailed),
        Ok(v) => machine.failed(v.mismatch(MplType::Bool)),
        Err(e) => machine.failed(e),
    }
}

/// The statements `statements[from..]` in order, up to the first that
/// fails.
pub open spec fn run_block(statements: Seq<StatementView>, from: int, machine: MachineView) -> Outcome
    decreases statements, 0nat, statements.len() - from,
{
    if from < 0 || from >= statements.len() {
        machine.done()
    } else {
        let first = run_statement(statements[from], machine);
        if first.failure is Some {
            first
        } else {
            run_block(statements, from + 1, first.machine)
        }
    }
}

/// The rounds of a loop from `current` to `last`, both included: each
/// assigns the counter to the loop's name, then runs the body.
pub open spec fn run_loop(
    identifier: Seq<char>,
    body: Seq<StatementView>,
    current: int,
    last: int,
    machine: MachineView,
) -> Outcome
    decreases body, 1nat, last - current + 1,
{
    if current > last {
        machine.done()
    } else {
        let bound = machine.assign(identifier, ValueView::Int(current));
        if bound.failure is Some {
            bound
        } else {
            let round = run_block(body, 0, bound.machine);
            if round.failure is Some {
                round
            } else {
                run_loop(identifier, body, current + 1, last, round.machine)
            }
        }
    }
}

/// A loop over the integers from `begin` to `end`; its name has to be
/// bound before the first round, also where there is none.
pub open spec fn run_for(
    identifier: Seq<char>,
    body: Seq<StatementView>,
    begin: int,
    end: int,
    machine: MachineView,
) -> Outcome
    decreases body, 2nat, 0int,
{
    if !machine.names.contains_key(identifier) {
        machine.failed(RuntimeError::UndeclaredIdentifier)
    } else {
        run_loop(identifier, body, begin, end, machine)
    }
}

/// One statement.
pub open spec fn run_statement(statement: StatementView, machine: MachineView) -> Outcome
    decreases statement, 0nat, 0int,
{
    match statement {
        StatementView::Declaration { identifier, mpl_type, value } => run_declaration(
            identifier,
            mpl_type,
            value,
            machine,
        ),
        StatementView::Assignment { identifier, expression } => run_assignment(
            identifier,
            expression,
            machine,
        ),
        StatementView::For { identifier, begin, end, statements } => match eval_int(
            begin,
            machine.names,
        ) {
            Ok(first) => match eval_int(end, machine.names) {
                Ok(last) => run_for(identifier, statements, first, last, machine),
                Err(e) => machine.failed(e),
            },
            Err(e) => machine.failed(e),
        },
        StatementView::Read(identifier) => run_read(identifier, machine),
        StatementView::Print(expression) => run_print(expression, machine),
        StatementView::Assert(expression) => run_assert(expression, machine),
        StatementView::Empty => machine.done(),
    }
}

/// A whole program on the given lines of input.
pub open spec fn run_program(statements: Seq<StatementView>, lines: Seq<Seq<char>>) -> Outcome {
    run_block(statements, 0, MachineView::start(lines))
}

/// The texts of a sequence of lines, one for one.
pub open spec fn lines_view(lines: Seq<String>) -> Seq<Seq<char>> {
    Seq::new(lines.len(), |i: int| lines[i]@)
}

/// One run of a program: its name table, its input and its output.
pub struct Interpreter {
    names: Environment,
    lines: Vec<String>,
    consumed: usize,
    /// What was printed and has been handed out by `take_output`.
    delivered: Ghost<Seq<char>>,
    /// What was printed since.
    pending: String,
}

impl View for Interpreter {
    type V = MachineView;

    closed spec fn view(&self) -> MachineView {
        MachineView {
            names: self.names@,
            lines: lines_view(self.lines@),
            consumed: self.consumed as nat,
            output: self.delivered@ + self.pending@,
        }
    }
}

/// What a run leaves behind.
#[derive(Debug, PartialEq)]
pub struct Execution {
    /// Everything that was printed, also by a run that failed.
    pub output: String,
    pub result: Result<(), RuntimeError>,
}

impl Interpreter {
    /// The name table is well-formed and no more lines were read than
    /// there are.
    pub closed spec fn wf(&self) -> bool {
        self.names.wf() && self.consumed <= self.lines@.len()
    }

    /// What was printed and has already been handed out.
    pub closed spec fn delivered(&self) -> Seq<char> {
        self.delivered@
    }

    /// A run that has executed nothing, with the lines it may read.
    pub fn new(input: Vec<String>) -> (interpreter: Interpreter)
        ensures
            interpreter.wf(),
            interpreter@ == MachineView::start(lines_view(input@)),
            interpreter.delivered() == Seq::<char>::empty(),
    {
        let interpreter = Interpreter {
            names: Environment::new(),
            lines: input,
            consumed: 0,
            delivered: Ghost(Seq::empty()),
            pending: String::new(),
        };
        assert(interpreter@.output =~= Seq::empty());
        interpreter
    }

    /// Whether a line is left for the next read.
    pub fn has_line(&self) -> (b: bool)
        requires
            self.wf(),
        ensures
            b == (self@.consumed < self@.lines.len()),
    {
        self.consumed < self.lines.len()
    }

    /// One more line for the reads to come.
    pub fn add_line(&mut self, line: String)
        requires
            old(self).wf(),
        ensures
            final(self).wf(),
            final(self).delivered() == old(self).delivered(),
            final(self)@ == (MachineView { lines: old(self)@.lines.push(line@), ..old(self)@ }),
    {
        self.lines.push(line);
        assert(lines_view(self.lines@) =~= lines_view(old(self).lines@).push(line@));
    }

    /// Hands out what was printed since the last call.
    pub fn take_output(&mut self) -> (output: String)
        requires
            old(self).wf(),
        ensures
            final(self).wf(),
            final(self)@ == old(self)@,
            old(self)@.output == old(self).delivered() + output@,
            final(self).delivered() == old(self)@.output,
    {
        let mut output = String::new();
        std::mem::swap(&mut self.pending, &mut output);
        self.delivered = Ghost(self.delivered@ + output@);
        assert(self@.output =~= old(self)@.output);
        output
    }

    /// What was printed since the last call of `take_output`: everything,
    /// where there was none.
    pub fn into_output(self) -> (output: String)
        ensures
            self@.output == self.delivered() + output@,
    {
        self.pending
    }

    /// The value of an operand.
    pub(crate) fn evaluate_operand(&self, operand: &Operand) -> (result: Result<MplValue, RuntimeError>)
        requires
            self.wf(),
        ensures
            result_view(result) == eval_operand(operand@, self@.names),
        decreases operand,
    {
        match operand {
            Operand::Int(i) => Ok(MplValue::Int(*i)),
            Operand::String(s) => Ok(MplValue::String(s.clone())),
            Operand::Identifier(id) => match self.names.get(id) {
                Some(value) => Ok(value),
                None => Err(RuntimeError::UnassignedIdentifier),
            },
            Operand::Expr(expr) => self.evaluate_expression(expr),
        }
    }

    /// The value of an expression.
    pub(crate) fn evaluate_expression(&self, expr: &Expression) -> (result: Result<MplValue, RuntimeError>)
        requires
            self.wf(),
        ensures
            result_view(result) == eval_expression(expr@, self@.names),
        decreases expr,
    {
        match expr {
            Expression::Simple(operand) => self.evaluate_operand(operand),
            Expression::Binary { left, operator, right } => {
                let func = MplFunction { sign: *operator };
                let a = match self.evaluate_operand(left) {
                    Ok(a) => a,
                    Err(e) => {
                        return Err(e);
                    },
                };
                let b = match self.evaluate_operand(right) {
                    Ok(b) => b,
                    Err(e) => {
                        return Err(e);
                    },
                };
                func.call(a, b)
            },
            Expression::Unary { operator, operand } => {
                let func = MplFunction { sign: *operator };
                match self.evaluate_operand(operand) {
                    Ok(a) => func.call_unary(a),
                    Err(e) => Err(e),
                }
            },
        }
    }

    /// The integer that an expression evaluates to.
    pub(crate) fn expect_int_expr(&self, expr: &Expression) -> (result: Result<i32, RuntimeError>)
        requires
            self.wf(),
        ensures
            match result {
                Ok(i) => eval_int(expr@, self@.names) == Ok::<int, RuntimeError>(i as int),
                Err(e) => eval_int(expr@, self@.names) == Err::<int, RuntimeError>(e),
            },
    {
        match self.evaluate_expression(expr) {
            Ok(value) => value.to_int(),
            Err(e) => Err(e),
        }
    }

    /// The type that `identifier` was declared with.
    pub(crate) fn get_type(&self, identifier: &String) -> (result: Result<MplType, RuntimeError>)
        requires
            self.wf(),
        ensures
            match result {
                Ok(t) => self@.names.contains_key(identifier@) && t == self@.names[identifier@].mpl_type(),
                Err(e) => !self@.names.contains_key(identifier@) && e
                    == RuntimeError::UndeclaredIdentifier,
            },
    {
        match self.names.get(identifier) {
            Some(value) => Ok(value.mpl_type()),
            None => Err(RuntimeError::UndeclaredIdentifier),
        }
    }

    /// The integer that a line of input denotes.
    fn parse_int(&self, input: String) -> (result: Result<MplValue, RuntimeError>)
        ensures
            result_view(result) == read_value(MplType::Int, input@),
    {
        match parse_int_text(input.as_str()) {
            Some(i) => Ok(MplValue::Int(i)),
            None => Err(RuntimeError::MalformedInput),
        }
    }

    /// The truth value that a line of input denotes.
    fn parse_bool(&self, input: String) -> (result: Result<MplValue, RuntimeError>)
        ensures
            result_view(result) == read_value(MplType::Bool, input@),
    {
        match parse_bool_text(input.as_str()) {
            Some(b) => Ok(MplValue::Bool(b)),
            None => Err(RuntimeError::MalformedInput),
        }
    }

    /// Gives a bound name a new value of its type.
    pub(crate) fn assign(&mut self, identifier: &String, value: MplValue) -> (result: Result<(), RuntimeError>)
        requires
            old(self).wf(),
        ensures
            final(self).wf(),
            final(self).delivered() == old(self).delivered(),
            outcome(final(self)@, result) == old(self)@.assign(identifier@, value@),
    {
        let declared = match self.get_type(identifier) {
            Ok(t) => t,
            Err(e) => {
                return Err(e);
            },
        };
        if !value.is(&declared) {
            return Err(RuntimeError::TypeMismatch { expected: declared, found: value.mpl_type() });
        }
        self.names.set(identifier, value);
        Ok(())
    }

    /// Executes a declaration.
    fn evaluate_declaration(
        &mut self,
        identifier: &String,
        mpl_type: &MplType,
        value: &Option<Expression>,
    ) -> (result: Result<(), RuntimeError>)
        requires
            old(self).wf(),
        ensures
            final(self).wf(),
            final(self).delivered() == old(self).delivered(),
            outcome(final(self)@, result) == run_declaration(
                identifier@,
                *mpl_type,
                match *value {
                    Some(e) => Some(e@),
                    None => None,
                },
                old(self)@,
            ),
    {
        let init = match value {
            Some(expr) => match self.evaluate_expression(expr) {
                Ok(v) => v,
                Err(e) => {
                    return Err(e);
                },
            },
            None => MplValue::default(mpl_type),
        };
        if !init.is(mpl_type) {
            return Err(RuntimeError::TypeMismatch { expected: *mpl_type, found: init.mpl_type() });
        }
        self.names.set(identifier, init);
        Ok(())
    }

    /// Executes an assignment.
    fn evaluate_assign(&mut self, identifier: &String, val_expr: &Expression) -> (result: Result<
        (),
        RuntimeError,
    >)
        requires
            old(self).wf(),
        ensures
            final(self).wf(),
            final(self).delivered() == old(self).delivered(),
            outcome(final(self)@, result) == run_assignment(identifier@, val_expr@, old(self)@),
    {
        match self.evaluate_expression(val_expr) {
            Ok(value) => self.assign(identifier, value),
            Err(e) => Err(e),
        }
    }

    /// Executes a read.
    fn evaluate_read(&mut self, identifier: &String) -> (result: Result<(), RuntimeError>)
        requires
            old(self).wf(),
        ensures
            final(self).wf(),
            final(self).delivered() == old(self).delivered(),
            outcome(final(self)@, result) == run_read(identifier@, old(self)@),
    {
        if self.consumed >= self.lines.len() {
            return Err(RuntimeError::InputExhausted);
        }
        let input = trim_text(self.lines[self.consumed].as_str());
        self.consumed += 1;
        let value = match self.get_type(identifier) {
            Ok(MplType::Int) => self.parse_int(input),
            Ok(MplType::String) => Ok(MplValue::String(input)),
            Ok(MplType::Bool) => self.parse_bool(input),
            Err(e) => Err(e),
        };
        match value {
            Ok(v) => {
                self.names.set(identifier, v);
                Ok(())
            },
            Err(e) => Err(e),
        }
    }

    /// Executes a print.
    fn evaluate_print(&mut self, print: &Expression) -> (result: Result<(), RuntimeError>)
        requires
            old(self).wf(),
        ensures
            final(self).wf(),
            final(self).delivered() == old(self).delivered(),
            outcome(final(self)@, result) == run_print(print@, old(self)@),
    {
        match self.evaluate_expression(print) {
            Ok(value) => {
                let text = value.display();
                self.pending.append(text.as_str());
                assert(self@.output =~= old(self)@.output + text@);
                Ok(())
            },
            Err(e) => Err(e),
        }
    }

    /// Executes an assertion.
    fn evaluate_assert(&self, assertion: &Expression) -> (result: Result<(), RuntimeError>)
        requires
            self.wf(),
        ensures
            outcome(self@, result) == run_assert(assertion@, self@),
    {
        match self.evaluate_expression(assertion) {
            Ok(MplValue::Bool(true)) => Ok(()),
            Ok(MplValue::Bool(false)) => Err(RuntimeError::AssertionFailed),
            Ok(value) => Err(
                RuntimeError::TypeMismatch { expected: MplType::Bool, found: value.mpl_type() },
            ),
            Err(e) => Err(e),
        }
    }

    /// The statements of a block in order, up to the first that fails.
    pub(crate) fn evaluate_block(&mut self, statements: &Vec<Statement>) -> (result: Result<(), RuntimeError>)
        requires
            old(self).wf(),
        ensures
            final(self).wf(),
            final(self).delivered() == old(self).delivered(),
            outcome(final(self)@, result) == run_block(statements_view(statements@), 0, old(self)@),
        decreases statements_view(statements@), 0nat,
    {
        let mut i: usize = 0;
        while i < statements.len()
            invariant
                self.wf(),
                self.delivered() == old(self).delivered(),
                i <= statements@.len(),
                run_block(statements_view(statements@), i as int, self@) == run_block(
                    statements_view(statements@),
                    0,
                    old(self)@,
                ),
            decreases statements@.len() - i,
        {
            assert(statements_view(statements@)[i as int] == statements@[i as int]@);
            match self.evaluate_statement(&statements[i]) {
                Ok(()) => {},
                Err(e) => {
                    return Err(e);
                },
            }
            i += 1;
        }
        Ok(())
    }

    /// Executes a loop whose bounds have been evaluated.
    pub(crate) fn evaluate_for(
        &mut self,
        identifier: &String,
        begin: i32,
        end: i32,
        statements: &Vec<Statement>,
    ) -> (result: Result<(), RuntimeError>)
        requires
            old(self).wf(),
        ensures
            final(self).wf(),
            final(self).delivered() == old(self).delivered(),
            outcome(final(self)@, result) == run_for(
                identifier@,
                statements_view(statements@),
                begin as int,
                end as int,
                old(self)@,
            ),
        decreases statements_view(statements@), 1nat,
    {
        match self.get_type(identifier) {
            Ok(_) => {},
            Err(e) => {
                return Err(e);
            },
        }
        let mut current: i64 = begin as i64;
        while current <= end as i64
            invariant
                self.wf(),
                self.delivered() == old(self).delivered(),
                begin <= current <= 2147483648,
                run_loop(
                    identifier@,
                    statements_view(statements@),
                    current as int,
                    end as int,
                    self@,
                ) == run_loop(
                    identifier@,
                    statements_view(statements@),
                    begin as int,
                    end as int,
                    old(self)@,
                ),
            decreases end - current + 1,
        {
            match self.assign(identifier, MplValue::Int(current as i32)) {
                Ok(()) => {},
                Err(e) => {
                    return Err(e);
                },
            }
            match self.evaluate_block(statements) {
                Ok(()) => {},
                Err(e) => {
                    return Err(e);
                },
            }
            current += 1;
        }
        Ok(())
    }

    /// Executes one statement.
    pub fn evaluate_statement(&mut self, statement: &Statement) -> (result: Result<(), RuntimeError>)
        requires
            old(self).wf(),
        ensures
            final(self).wf(),
            final(self).delivered() == old(self).delivered(),
            outcome(final(self)@, result) == run_statement(statement@, old(self)@),
        decreases statement@, 0nat,
    {
        match statement {
            Statement::Declaration { identifier, mpl_type, value } => self.evaluate_declaration(
                identifier,
                mpl_type,
                value,
            ),
            Statement::Assignment { identifier, expression } => self.evaluate_assign(
                identifier,
                expression,
            ),
            Statement::For { identifier, begin, end, statements } => {
                let first = match self.expect_int_expr(begin) {
                    Ok(i) => i,
                    Err(e) => {
                        return Err(e);
                    },
                };
                let last = match self.expect_int_expr(end) {
                    Ok(i) => i,
                    Err(e) => {
                        return Err(e);
                    },
                };
                self.evaluate_for(identifier, first, last, statements)
            },
            Statement::Read(identifier) => self.evaluate_read(identifier),
            Statement::Print(expr) => self.evaluate_print(expr),
            Statement::Assert(expr) => self.evaluate_assert(expr),
            Statement::Empty => Ok(()),
        }
    }
}

/// Runs a program from an empty name table on the given lines of input.
pub fn evaluate(ast: Ast, input: Vec<String>) -> (execution: Execution)
    ensures
        execution.output@ == run_program(ast@, lines_view(input@)).machine.output,
        match run_program(ast@, lines_view(input@)).failure {
            Some(e) => execution.result == Err::<(), RuntimeError>(e),
            None => execution.result is Ok,
        },
{
    let mut interpreter = Interpreter::new(input);
    let result = interpreter.evaluate_block(&ast.statements);
    let output = interpreter.into_output();
    assert(interpreter@.output =~= output@);
    Execution { output, result }
}

} // verus!
