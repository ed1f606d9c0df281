use minipl::ast::{Ast, Expression, MplType, Operand, Statement};
use minipl::error::{LexError, RuntimeError, SyntaxError};
use minipl::functions::{compare, plus, MplFunction};
use minipl::interpreter::{evaluate, Interpreter};
use minipl::pipeline::{run, Failure};
use minipl::value::MplValue;

fn lines(input: &[&str]) -> Vec<String> {
    input.iter().map(|s| s.to_string()).collect()
}

fn output_of(source: &str) -> String {
    let report = run(source, vec![]);
    assert_eq!(report.failure, None);
    report.output
}

fn failure_of(source: &str) -> Failure {
    run(source, vec![]).failure.unwrap()
}

fn mismatch(expected: MplType, found: MplType) -> Failure {
    Failure::Runtime(RuntimeError::TypeMismatch { expected, found })
}

fn text(s: &str) -> MplValue {
    MplValue::String(s.to_string())
}

fn binary(sign: char, left: MplValue, right: MplValue) -> Result<MplValue, RuntimeError> {
    MplFunction { sign }.call(left, right)
}

#[test]
fn declared_value_is_printed() {
    assert_eq!(output_of("var x : int := 42; print x;"), "42");
    assert_eq!(output_of("var s : string := \"a b\"; print s;"), "a b");
    assert_eq!(output_of("var b : bool := 1 < 2; print b;"), "true");
    assert_eq!(output_of("var b : bool := 2 < 1; print b;"), "false");
    assert_eq!(output_of("var x : int := 0 - 7; print x;"), "-7");
}

#[test]
fn declaration_without_initializer_takes_the_default() {
    assert_eq!(output_of("var x : int; print x;"), "0");
    assert_eq!(output_of("var s : string; print \"[\" + s; print \"]\";"), "[]");
    assert_eq!(output_of("var b : bool; print b;"), "false");
}

#[test]
fn print_adds_no_separator() {
    assert_eq!(output_of("print 1; print 2; print \"a\\n\"; print 3;"), "12a\n3");
}

#[test]
fn division_truncates() {
    assert_eq!(output_of("print 7 / 2;"), "3");
    assert_eq!(output_of("print (0 - 7) / 2;"), "-3");
    assert_eq!(output_of("print 7 / (0 - 2);"), "-3");
    assert_eq!(output_of("print (0 - 7) / (0 - 2);"), "3");
    assert_eq!(output_of("print 0 / 5;"), "0");
    assert_eq!(binary('/', MplValue::Int(-2147483648), MplValue::Int(1)), Ok(MplValue::Int(-2147483648)));
    assert_eq!(binary('/', MplValue::Int(2147483647), MplValue::Int(-1)), Ok(MplValue::Int(-2147483647)));
}

#[test]
fn division_by_zero_is_an_error() {
    assert_eq!(failure_of("print 1 / 0;"), Failure::Runtime(RuntimeError::DivisionByZero));
    assert_eq!(binary('/', MplValue::Int(0), MplValue::Int(0)), Err(RuntimeError::DivisionByZero));
}

#[test]
fn results_out_of_range_are_errors() {
    assert_eq!(binary('/', MplValue::Int(-2147483648), MplValue::Int(-1)), Err(RuntimeError::Overflow));
    assert_eq!(binary('+', MplValue::Int(2147483647), MplValue::Int(1)), Err(RuntimeError::Overflow));
    assert_eq!(binary('-', MplValue::Int(-2147483648), MplValue::Int(1)), Err(RuntimeError::Overflow));
    assert_eq!(binary('*', MplValue::Int(65536), MplValue::Int(32768)), Err(RuntimeError::Overflow));
    assert_eq!(binary('*', MplValue::Int(65536), MplValue::Int(-32768)), Ok(MplValue::Int(-2147483648)));
    assert_eq!(failure_of("print 2147483647 + 1;"), Failure::Runtime(RuntimeError::Overflow));
}

#[test]
fn integer_arithmetic() {
    assert_eq!(binary('+', MplValue::Int(2), MplValue::Int(3)), Ok(MplValue::Int(5)));
    assert_eq!(binary('-', MplValue::Int(2), MplValue::Int(3)), Ok(MplValue::Int(-1)));
    assert_eq!(binary('*', MplValue::Int(-4), MplValue::Int(3)), Ok(MplValue::Int(-12)));
    assert_eq!(binary('/', MplValue::Int(9), MplValue::Int(3)), Ok(MplValue::Int(3)));
}

#[test]
fn string_plus_is_associative() {
    assert_eq!(output_of("print (\"a\"+\"b\")+\"c\";"), "abc");
    assert_eq!(output_of("print \"a\"+(\"b\"+\"c\");"), "abc");
    assert_eq!(plus(text("ab"), text("")), Ok(text("ab")));
}

#[test]
fn string_plus_integer_is_a_type_mismatch() {
    assert_eq!(failure_of("print \"a\" + 1;"), mismatch(MplType::String, MplType::Int));
    assert_eq!(plus(text("a"), MplValue::Bool(true)), Err(RuntimeError::TypeMismatch { expected: MplType::String, found: MplType::Bool }));
}

#[test]
fn plus_checks_the_left_operand_first() {
    assert_eq!(failure_of("print 1 + \"a\";"), mismatch(MplType::Int, MplType::String));
    assert_eq!(plus(MplValue::Bool(true), MplValue::Int(1)), Err(RuntimeError::TypeMismatch { expected: MplType::Int, found: MplType::Bool }));
    assert_eq!(binary('-', text("a"), MplValue::Bool(true)), Err(RuntimeError::TypeMismatch { expected: MplType::Int, found: MplType::String }));
    assert_eq!(binary('*', MplValue::Int(1), MplValue::Bool(true)), Err(RuntimeError::TypeMismatch { expected: MplType::Int, found: MplType::Bool }));
}

#[test]
fn logical_operators() {
    assert_eq!(binary('&', MplValue::Bool(true), MplValue::Bool(true)), Ok(MplValue::Bool(true)));
    assert_eq!(binary('&', MplValue::Bool(true), MplValue::Bool(false)), Ok(MplValue::Bool(false)));
    assert_eq!(binary('&', MplValue::Int(1), MplValue::Bool(false)), Err(RuntimeError::TypeMismatch { expected: MplType::Bool, found: MplType::Int }));
    assert_eq!(binary('&', MplValue::Bool(false), text("x")), Err(RuntimeError::TypeMismatch { expected: MplType::Bool, found: MplType::String }));
    let not = MplFunction { sign: '!' };
    assert_eq!(not.call_unary(MplValue::Bool(true)), Ok(MplValue::Bool(false)));
    assert_eq!(not.call_unary(MplValue::Bool(false)), Ok(MplValue::Bool(true)));
    assert_eq!(not.call_unary(MplValue::Int(0)), Err(RuntimeError::TypeMismatch { expected: MplType::Bool, found: MplType::Int }));
}

#[test]
fn equality_is_structural() {
    assert_eq!(binary('=', MplValue::Int(1), MplValue::Int(1)), Ok(MplValue::Bool(true)));
    assert_eq!(binary('=', MplValue::Int(1), MplValue::Int(2)), Ok(MplValue::Bool(false)));
    assert_eq!(binary('=', text("a"), text("a")), Ok(MplValue::Bool(true)));
    assert_eq!(binary('=', text("1"), MplValue::Int(1)), Ok(MplValue::Bool(false)));
    assert_eq!(binary('=', MplValue::Bool(false), MplValue::Int(0)), Ok(MplValue::Bool(false)));
    assert_eq!(binary('=', MplValue::Bool(true), MplValue::Bool(true)), Ok(MplValue::Bool(true)));
}

#[test]
fn ordering_needs_one_type() {
    assert_eq!(compare(MplValue::Int(1), MplValue::Int(2)), Ok(MplValue::Bool(true)));
    assert_eq!(compare(MplValue::Int(2), MplValue::Int(2)), Ok(MplValue::Bool(false)));
    assert_eq!(compare(text("abc"), text("abd")), Ok(MplValue::Bool(true)));
    assert_eq!(compare(text("b"), text("abd")), Ok(MplValue::Bool(false)));
    assert_eq!(compare(MplValue::Bool(false), MplValue::Bool(true)), Ok(MplValue::Bool(true)));
    assert_eq!(compare(MplValue::Bool(true), MplValue::Bool(false)), Ok(MplValue::Bool(false)));
    assert_eq!(compare(MplValue::Bool(true), MplValue::Bool(true)), Ok(MplValue::Bool(false)));
    assert_eq!(compare(MplValue::Int(1), text("2")), Err(RuntimeError::TypeMismatch { expected: MplType::Int, found: MplType::String }));
    assert_eq!(compare(text("1"), MplValue::Int(2)), Err(RuntimeError::TypeMismatch { expected: MplType::String, found: MplType::Int }));
    assert_eq!(compare(MplValue::Bool(true), MplValue::Int(2)), Err(RuntimeError::TypeMismatch { expected: MplType::Bool, found: MplType::Int }));
    assert_eq!(binary('<', MplValue::Int(-1), MplValue::Int(0)), Ok(MplValue::Bool(true)));
}

#[test]
fn operators_of_the_wrong_arity_or_unknown() {
    assert_eq!(binary('!', MplValue::Bool(true), MplValue::Bool(true)), Err(RuntimeError::WrongArity('!')));
    assert_eq!(binary('%', MplValue::Int(1), MplValue::Int(1)), Err(RuntimeError::UnknownOperator('%')));
    assert_eq!(MplFunction { sign: '-' }.call_unary(MplValue::Int(1)), Err(RuntimeError::WrongArity('-')));
    assert_eq!(failure_of("print -5;"), Failure::Runtime(RuntimeError::WrongArity('-')));
    assert_eq!(failure_of("print true ! false;"), Failure::Syntax(SyntaxError::UnexpectedToken { position: 1 }));
}

#[test]
fn loop_needs_a_declared_name() {
    assert_eq!(
        failure_of("for i in 1..3 do print i; end for;"),
        Failure::Runtime(RuntimeError::UndeclaredIdentifier)
    );
    assert_eq!(output_of("var i : int; for i in 1..3 do print i; end for;"), "123");
}

#[test]
fn loop_over_an_empty_range_still_needs_its_name() {
    assert_eq!(
        failure_of("for i in 3..1 do print i; end for;"),
        Failure::Runtime(RuntimeError::UndeclaredIdentifier)
    );
    assert_eq!(output_of("var i : int; for i in 3..1 do print i; end for; print i;"), "0");
}

#[test]
fn loop_bounds_are_inclusive_and_fixed() {
    assert_eq!(output_of("var i : int; for i in 5..5 do print i; end for;"), "5");
    assert_eq!(output_of("var i : int; var n : int := 2; for i in 0..n do n := 9; print i; end for; print i;"), "0122");
    assert_eq!(output_of("var i : int; for i in 1..3 do i := 7; print i; end for;"), "777");
    assert_eq!(output_of("var i : int; for i in (0-1)..1 do print i; end for;"), "-101");
}

#[test]
fn loop_reaches_the_largest_integer() {
    assert_eq!(
        output_of("var i : int; for i in 2147483646..2147483647 do print i; print \" \"; end for;"),
        "2147483646 2147483647 "
    );
}

#[test]
fn nested_loops() {
    assert_eq!(
        output_of("var i : int; var j : int; for i in 1..2 do for j in 1..2 do print i * j; end for; end for;"),
        "1224"
    );
}

#[test]
fn loop_bounds_must_be_integers() {
    assert_eq!(failure_of("var i : int; for i in \"a\"..3 do end for;"), mismatch(MplType::Int, MplType::String));
    assert_eq!(failure_of("var i : int; for i in 1..(1 < 2) do end for;"), mismatch(MplType::Int, MplType::Bool));
}

#[test]
fn loop_name_must_hold_integers() {
    assert_eq!(failure_of("var s : string; for s in 1..2 do end for;"), mismatch(MplType::String, MplType::Int));
}

#[test]
fn assertion_passes_or_halts() {
    assert_eq!(output_of("assert(1 < 2); print \"after\";"), "after");
    let report = run("print \"before\"; assert(2 < 1); print \"after\";", vec![]);
    assert_eq!(report.failure, Some(Failure::Runtime(RuntimeError::AssertionFailed)));
    assert_eq!(report.output, "before");
}

#[test]
fn assertion_needs_a_truth_value() {
    assert_eq!(failure_of("assert(1);"), mismatch(MplType::Bool, MplType::Int));
    assert_eq!(failure_of("assert(\"true\");"), mismatch(MplType::Bool, MplType::String));
}

#[test]
fn declared_type_is_enforced() {
    assert_eq!(failure_of("var x : int := \"a\";"), mismatch(MplType::Int, MplType::String));
    assert_eq!(failure_of("var x : string := 1;"), mismatch(MplType::String, MplType::Int));
    assert_eq!(failure_of("var x : bool := 1;"), mismatch(MplType::Bool, MplType::Int));
    assert_eq!(failure_of("var x : int; x := \"a\";"), mismatch(MplType::Int, MplType::String));
    assert_eq!(output_of("var x : int; x := 3; print x;"), "3");
}

#[test]
fn redeclaration_overwrites() {
    assert_eq!(output_of("var x : int := 1; var x : string := \"s\"; print x;"), "s");
}

#[test]
fn names_must_be_bound() {
    assert_eq!(failure_of("x := 1;"), Failure::Runtime(RuntimeError::UndeclaredIdentifier));
    assert_eq!(failure_of("print x;"), Failure::Runtime(RuntimeError::UnassignedIdentifier));
    assert_eq!(failure_of("var y : int := x;"), Failure::Runtime(RuntimeError::UnassignedIdentifier));
    let report = run("read x;", lines(&["1"]));
    assert_eq!(report.failure, Some(Failure::Runtime(RuntimeError::UndeclaredIdentifier)));
}

#[test]
fn assignment_evaluates_before_it_looks_up_the_name() {
    assert_eq!(failure_of("x := 1 / 0;"), Failure::Runtime(RuntimeError::DivisionByZero));
}

#[test]
fn read_follows_the_declared_type() {
    let source = "var i : int; var s : string; var b : bool; read i; read s; read b; print i + 1; print s; print b;";
    let report = run(source, lines(&["  41 \n", "\t hello world \r\n", " true"]));
    assert_eq!(report.failure, None);
    assert_eq!(report.output, "42hello worldtrue");
}

#[test]
fn read_rejects_malformed_lines() {
    let report = run("var i : int; read i;", lines(&["4x"]));
    assert_eq!(report.failure, Some(Failure::Runtime(RuntimeError::MalformedInput)));
    let report = run("var i : int; read i;", lines(&[""]));
    assert_eq!(report.failure, Some(Failure::Runtime(RuntimeError::MalformedInput)));
    let report = run("var b : bool; read b;", lines(&["yes"]));
    assert_eq!(report.failure, Some(Failure::Runtime(RuntimeError::MalformedInput)));
    let report = run("var i : int; read i; print i;", lines(&["-12"]));
    assert_eq!(report.output, "-12");
}

#[test]
fn read_needs_a_line() {
    let report = run("var i : int; read i; print i; read i; print i;", lines(&["1"]));
    assert_eq!(report.failure, Some(Failure::Runtime(RuntimeError::InputExhausted)));
    assert_eq!(report.output, "1");
}

#[test]
fn runs_are_repeatable() {
    let source = "var i : int; var s : string := \"n=\"; assert(0 < 1); for i in 1..3 do s := s + \"x\"; print s; end for; print i * 2;";
    let first = run(source, vec![]);
    let second = run(source, vec![]);
    assert_eq!(first.failure, None);
    assert_eq!(first.output, "n=xn=xxn=xxx6");
    assert_eq!(first.output, second.output);
    assert_eq!(first.failure, second.failure);
}

#[test]
fn earlier_stages_fail_first() {
    assert_eq!(failure_of("print 1; print \"abc"), Failure::Lexical(LexError::UnterminatedString));
    assert_eq!(failure_of("print 1; print ;"), Failure::Syntax(SyntaxError::UnexpectedToken { position: 4 }));
    assert_eq!(run("print 1; print ;", vec![]).output, "");
}

#[test]
fn report_holds_output_and_failure() {
    let report = run("print 1; print 1 / 0;", vec![]);
    assert_eq!(
        report,
        minipl::pipeline::Report {
            output: "1".to_string(),
            failure: Some(Failure::Runtime(RuntimeError::DivisionByZero)),
        }
    );
}

#[test]
fn empty_program_does_nothing() {
    let report = run("", vec![]);
    assert_eq!(report.failure, None);
    assert_eq!(report.output, "");
    assert_eq!(output_of(";;;"), "");
}

#[test]
fn evaluates_a_syntax_tree() {
    let ast = Ast {
        statements: vec![
            Statement::Declaration {
                identifier: "x".to_string(),
                mpl_type: MplType::Int,
                value: Some(Expression::Simple(Operand::Int(20))),
            },
            Statement::Print(Expression::Binary {
                left: Operand::Identifier("x".to_string()),
                operator: '+',
                right: Operand::Expr(Box::new(Expression::Simple(Operand::Int(1)))),
            }),
        ],
    };
    let execution = evaluate(ast, vec![]);
    assert_eq!(execution.result, Ok(()));
    assert_eq!(execution.output, "21");
}

#[test]
fn interpreter_executes_statement_by_statement() {
    let mut interpreter = Interpreter::new(lines(&["7"]));
    let declare = Statement::Declaration { identifier: "x".to_string(), mpl_type: MplType::Int, value: None };
    assert_eq!(interpreter.evaluate_statement(&declare), Ok(()));
    assert_eq!(interpreter.evaluate_statement(&Statement::Read("x".to_string())), Ok(()));
    assert_eq!(interpreter.evaluate_statement(&Statement::Empty), Ok(()));
    let print = Statement::Print(Expression::Simple(Operand::Identifier("x".to_string())));
    assert_eq!(interpreter.evaluate_statement(&print), Ok(()));
    assert_eq!(interpreter.evaluate_statement(&Statement::Read("x".to_string())), Err(RuntimeError::InputExhausted));
    assert_eq!(interpreter.into_output(), "7");
}

#[test]
fn values_convert_only_to_their_own_type() {
    assert_eq!(MplValue::Int(3).to_int(), Ok(3));
    assert_eq!(text("a").to_int(), Err(RuntimeError::TypeMismatch { expected: MplType::Int, found: MplType::String }));
    assert_eq!(MplValue::Bool(true).to_int(), Err(RuntimeError::TypeMismatch { expected: MplType::Int, found: MplType::Bool }));
    assert_eq!(text("a").to_string(), Ok("a".to_string()));
    assert_eq!(MplValue::Int(3).to_string(), Err(RuntimeError::TypeMismatch { expected: MplType::String, found: MplType::Int }));
    assert_eq!(MplValue::Bool(true).to_string(), Err(RuntimeError::TypeMismatch { expected: MplType::String, found: MplType::Bool }));
    assert_eq!(MplValue::Bool(true).to_bool(), Ok(true));
    assert_eq!(MplValue::Int(1).to_bool(), Err(RuntimeError::TypeMismatch { expected: MplType::Bool, found: MplType::Int }));
    assert_eq!(text("true").to_bool(), Err(RuntimeError::TypeMismatch { expected: MplType::Bool, found: MplType::String }));
}

#[test]
fn values_know_their_type() {
    assert_eq!(MplValue::Int(3).mpl_type(), MplType::Int);
    assert_eq!(text("").mpl_type(), MplType::String);
    assert_eq!(MplValue::Bool(false).mpl_type(), MplType::Bool);
    assert!(MplValue::Int(3).is(&MplType::Int));
    assert!(!MplValue::Int(3).is(&MplType::String));
    assert!(text("3").is(&MplType::String));
    assert!(!text("3").is(&MplType::Bool));
    assert!(MplValue::Bool(true).is(&MplType::Bool));
    assert!(!MplValue::Bool(true).is(&MplType::Int));
}

#[test]
fn default_values() {
    assert_eq!(MplValue::default(&MplType::Int), MplValue::Int(0));
    assert_eq!(MplValue::default(&MplType::String), text(""));
    assert_eq!(MplValue::default(&MplType::Bool), MplValue::Bool(false));
}

#[test]
fn display_texts() {
    assert_eq!(MplValue::Int(-12).display(), "-12");
    assert_eq!(text("a \"b\"").display(), "a \"b\"");
    assert_eq!(MplValue::Bool(true).display(), "true");
    assert_eq!(MplValue::Bool(false).display(), "false");
}

#[test]
fn values_are_copied_and_compared() {
    let value = text("abc");
    assert_eq!(value.clone(), value);
    assert!(value.same(&text("abc")));
    assert!(!value.same(&text("abd")));
    assert!(!MplValue::Int(1).same(&MplValue::Bool(true)));
}
