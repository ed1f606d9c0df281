//! What holds of every program: laws of the operators and of the
//! evaluator, proved from their definitions.
use vstd::prelude::*;
use crate::ast::{ExpressionView, MplType, OperandView, StatementView};
use crate::error::RuntimeError;
use crate::functions::{apply_binary, truncated_quotient};
use crate::interpreter::{
    eval_expression, run_block, run_for, run_loop, run_print, run_statement, MachineView,
};
use crate::value::ValueView;

verus! {

/// Whether 32 bits hold the integer.
pub open spec fn fits(i: int) -> bool {
    -2147483648 <= i <= 2147483647
}

/// A declaration with an initializer, followed by a print of the declared
/// name, prints the display text of the initializer's value.
pub proof fn lemma_declared_value_is_printed(
    name: Seq<char>,
    mpl_type: MplType,
    initializer: ExpressionView,
    value: ValueView,
    machine: MachineView,
)
    requires
        eval_expression(initializer, machine.names) == Ok::<ValueView, RuntimeError>(value),
        value.mpl_type() == mpl_type,
    ensures
        run_block(
            seq![
                StatementView::Declaration { identifier: name, mpl_type, value: Some(initializer) },
                StatementView::Print(ExpressionView::Simple(OperandView::Identifier(name))),
            ],
            0,
            machine,
        ) == machine.bind(name, value).print(value.display()).done(),
{
    let program = seq![
        StatementView::Declaration { identifier: name, mpl_type, value: Some(initializer) },
        StatementView::Print(ExpressionView::Simple(OperandView::Identifier(name))),
    ];
    let declared = machine.bind(name, value);
    assert(run_statement(program[0], machine) == declared.done());
    assert(declared.names.contains_key(name));
    assert(run_statement(program[1], declared) == declared.print(value.display()).done());
    reveal_with_fuel(run_block, 3);
}

/// The quotient of two integers is rounded toward zero: what is left over
/// is smaller in size than the divisor and has the sign of the dividend.
pub proof fn lemma_quotient_is_truncated(a: int, b: int)
    requires
        b != 0,
    ensures
        ({
            let q = truncated_quotient(a, b);
            let r = a - q * b;
            &&& (a >= 0 ==> 0 <= r)
            &&& (a <= 0 ==> r <= 0)
            &&& (b > 0 ==> -b < r < b)
            &&& (b < 0 ==> b < r < -b)
        }),
{
    let ma = if a < 0 { -a } else { a };
    let mb = if b < 0 { -b } else { b };
    let m = ma / mb;
    assert(ma == mb * m + ma % mb && 0 <= ma % mb < mb) by {
        vstd::arithmetic::div_mod::lemma_fundamental_div_mod(ma, mb);
        vstd::arithmetic::div_mod::lemma_mod_bound(ma, mb);
    }
    let q = truncated_quotient(a, b);
    assert(q * b == (if a < 0 { -(mb * m) } else { mb * m })) by (nonlinear_arith)
        requires
            q == (if (a < 0) != (b < 0) { -m } else { m }),
            mb == (if b < 0 { -b } else { b }),
            a < 0 || m * mb >= 0,
            ma == (if a < 0 { -a } else { a }),
            ma == mb * m + ma % mb,
            0 <= ma % mb < mb,
            m == ma / mb,
    {
        if a == 0 {
            assert(m == 0);
        }
    }
}

/// `/` on two integers is the quotient rounded toward zero; a zero divisor
/// is an error. The one quotient that 32 bits do not hold, that of the
/// smallest integer by -1, is left out here: it is an overflow.
pub proof fn lemma_division(a: int, b: int)
    requires
        fits(a),
        fits(b),
        !(a == -2147483648 && b == -1),
    ensures
        b != 0 ==> apply_binary('/', ValueView::Int(a), ValueView::Int(b)) == Ok::<
            ValueView,
            RuntimeError,
        >(ValueView::Int(truncated_quotient(a, b))),
        b == 0 ==> apply_binary('/', ValueView::Int(a), ValueView::Int(b)) == Err::<
            ValueView,
            RuntimeError,
        >(RuntimeError::DivisionByZero),
{
    if b != 0 {
        lemma_quotient_is_truncated(a, b);
        let q = truncated_quotient(a, b);
        assert(fits(q)) by (nonlinear_arith)
            requires
                fits(a),
                fits(b),
                b != 0,
                !(a == -2147483648 && b == -1),
                ({
                    let r = a - q * b;
                    &&& (a >= 0 ==> 0 <= r)
                    &&& (a <= 0 ==> r <= 0)
                    &&& (b > 0 ==> -b < r < b)
                    &&& (b < 0 ==> b < r < -b)
                }),
        ;
    }
}

/// The text operand of `+`.
pub open spec fn text(s: Seq<char>) -> OperandView {
    OperandView::String(s)
}

/// `left + right` in parentheses, as an operand.
pub open spec fn sum(left: OperandView, right: OperandView) -> OperandView {
    OperandView::Expr(Box::new(ExpressionView::Binary { left, operator: '+', right }))
}

/// `+` on texts is associative: `(a + b) + c` and `a + (b + c)` print the
/// same, which is `a`, `b` and `c` in a row.
pub proof fn lemma_text_plus_is_associative(
    a: Seq<char>,
    b: Seq<char>,
    c: Seq<char>,
    machine: MachineView,
)
    ensures
        run_print(
            ExpressionView::Binary { left: sum(text(a), text(b)), operator: '+', right: text(c) },
            machine,
        ) == run_print(
            ExpressionView::Binary { left: text(a), operator: '+', right: sum(text(b), text(c)) },
            machine,
        ),
        run_print(
            ExpressionView::Binary { left: text(a), operator: '+', right: sum(text(b), text(c)) },
            machine,
        ) == machine.print(a + b + c).done(),
{
    reveal_with_fuel(eval_expression, 3);
    reveal_with_fuel(crate::interpreter::eval_operand, 3);
    assert((a + b) + c =~= a + (b + c));
}

/// An integer after a text is not joined to it: `+` with a text on the
/// left and an integer on the right is a type mismatch.
pub proof fn lemma_text_plus_integer_is_mismatch(s: Seq<char>, i: int)
    ensures
        apply_binary('+', ValueView::String(s), ValueView::Int(i)) == Err::<
            ValueView,
            RuntimeError,
        >(RuntimeError::TypeMismatch { expected: MplType::String, found: MplType::Int }),
{
}

/// A loop over a name that is not bound fails, whatever its bounds and its
/// body are.
pub proof fn lemma_loop_needs_declared_name(
    name: Seq<char>,
    body: Seq<StatementView>,
    begin: int,
    end: int,
    machine: MachineView,
)
    requires
        !machine.names.contains_key(name),
    ensures
        run_for(name, body, begin, end, machine) == machine.failed(
            RuntimeError::UndeclaredIdentifier,
        ),
{
}

/// The first statement that fails ends the run: no statement after it is
/// executed, and the state is the one it failed in.
pub proof fn lemma_failure_halts(statements: Seq<StatementView>, from: int, machine: MachineView)
    requires
        0 <= from < statements.len(),
        run_statement(statements[from], machine).failure is Some,
    ensures
        run_block(statements, from, machine) == run_statement(statements[from], machine),
{
}

/// Whether the statement holds no declaration, also not inside a loop.
pub open spec fn declaration_free(statement: StatementView) -> bool
    decreases statement,
{
    match statement {
        StatementView::Declaration { .. } => false,
        StatementView::For { statements, .. } => forall|i: int|
            0 <= i < statements.len() ==> declaration_free(#[trigger] statements[i]),
        _ => true,
    }
}

/// Whether no statement of the sequence holds a declaration.
pub open spec fn all_declaration_free(statements: Seq<StatementView>) -> bool {
    forall|i: int| 0 <= i < statements.len() ==> declaration_free(#[trigger] statements[i])
}

/// Every name bound in `before` is bound in `after`; with `typed`, to a
/// value of the same type.
pub open spec fn keeps_names(
    before: Map<Seq<char>, ValueView>,
    after: Map<Seq<char>, ValueView>,
    typed: bool,
) -> bool {
    forall|name: Seq<char>| #[trigger]
        before.contains_key(name) ==> after.contains_key(name) && (typed ==> after[name].mpl_type()
            == before[name].mpl_type())
}

/// No statement unbinds a name, and only a declaration changes the type of
/// the value that a name is bound to: assignments, reads and loops keep
/// the declared type.
pub proof fn lemma_statement_keeps_names(statement: StatementView, machine: MachineView, typed: bool)
    requires
        typed ==> declaration_free(statement),
    ensures
        keeps_names(machine.names, run_statement(statement, machine).machine.names, typed),
    decreases statement, 0nat, 0int,
{
    match statement {
        StatementView::For { identifier, begin, end, statements } => {
            match (
                crate::interpreter::eval_int(begin, machine.names),
                crate::interpreter::eval_int(end, machine.names),
            ) {
                (Ok(first), Ok(last)) => {
                    lemma_loop_keeps_names(identifier, statements, first, last, machine, typed);
                },
                _ => {},
            }
        },
        _ => {},
    }
}

/// The statements of a block keep the names as each of them does.
pub proof fn lemma_block_keeps_names(
    statements: Seq<StatementView>,
    from: int,
    machine: MachineView,
    typed: bool,
)
    requires
        typed ==> all_declaration_free(statements),
    ensures
        keeps_names(machine.names, run_block(statements, from, machine).machine.names, typed),
    decreases statements, 0nat, statements.len() - from,
{
    if 0 <= from < statements.len() {
        let first = run_statement(statements[from], machine);
        lemma_statement_keeps_names(statements[from], machine, typed);
        if first.failure is None {
            lemma_block_keeps_names(statements, from + 1, first.machine, typed);
        }
    }
}

/// The rounds of a loop keep the names as its body does.
pub proof fn lemma_loop_keeps_names(
    identifier: Seq<char>,
    body: Seq<StatementView>,
    current: int,
    last: int,
    machine: MachineView,
    typed: bool,
)
    requires
        typed ==> all_declaration_free(body),
    ensures
        keeps_names(
            machine.names,
            run_loop(identifier, body, current, last, machine).machine.names,
            typed,
        ),
    decreases body, 1nat, last - current + 1,
{
    if current <= last {
        let bound = machine.assign(identifier, ValueView::Int(current));
        assert(keeps_names(machine.names, bound.machine.names, typed));
        if bound.failure is None {
            let round = run_block(body, 0, bound.machine);
            lemma_block_keeps_names(body, 0, bound.machine, typed);
            if round.failure is None {
                lemma_loop_keeps_names(identifier, body, current + 1, last, round.machine, typed);
            }
        }
    }
}

} // verus!
