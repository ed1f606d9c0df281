use minipl::ast::Ast;
use minipl::error::RuntimeError;
use minipl::parser::parse;
use minipl::process::{Process, Status};
use minipl::scanner::scan;

fn ast_of(source: &str) -> Ast {
    parse(scan(source).unwrap()).unwrap()
}

/// Steps until the run asks for a line or ends; what it printed on the way.
fn drive(process: &mut Process) -> (Status, String) {
    let mut printed = String::new();
    loop {
        let status = process.step();
        printed.push_str(&process.take_output());
        if status != Status::Running {
            return (status, printed);
        }
    }
}

#[test]
fn stepwise_run_prints_as_the_whole_run() {
    let ast = ast_of("var i : int; for i in 1..3 do print i; end for; print \"!\";");
    let mut process = Process::new(&ast, vec![]);
    assert_eq!(drive(&mut process), (Status::Finished, "123!".to_string()));
    assert_eq!(process.step(), Status::Finished);
    assert_eq!(process.take_output(), "");
}

#[test]
fn stepwise_run_stops_where_a_read_finds_no_line() {
    let ast = ast_of("var n : int; print \"n? \"; read n; print n * 2; read n; print n;");
    let mut process = Process::new(&ast, vec![]);
    assert_eq!(drive(&mut process), (Status::NeedsLine, "n? ".to_string()));
    assert_eq!(process.step(), Status::NeedsLine);
    process.supply("21\n".to_string());
    assert_eq!(drive(&mut process), (Status::NeedsLine, "42".to_string()));
    process.supply("5".to_string());
    assert_eq!(drive(&mut process), (Status::Finished, "5".to_string()));
}

#[test]
fn stepwise_run_reads_inside_loops() {
    let ast = ast_of("var i : int; var s : string; for i in 1..2 do read s; print s + \";\"; end for;");
    let mut process = Process::new(&ast, vec!["a".to_string()]);
    assert_eq!(drive(&mut process), (Status::NeedsLine, "a;".to_string()));
    process.supply(" b ".to_string());
    assert_eq!(drive(&mut process), (Status::Finished, "b;".to_string()));
}

#[test]
fn stepwise_run_keeps_its_failure() {
    let ast = ast_of("print 1; assert(2 < 1); print 2;");
    let mut process = Process::new(&ast, vec![]);
    assert_eq!(drive(&mut process), (Status::Failed(RuntimeError::AssertionFailed), "1".to_string()));
    assert_eq!(process.step(), Status::Failed(RuntimeError::AssertionFailed));
}

#[test]
fn stepwise_loop_checks_its_bounds_and_its_name() {
    let ast = ast_of("for i in 1..3 do print i; end for;");
    let mut process = Process::new(&ast, vec![]);
    assert_eq!(drive(&mut process), (Status::Failed(RuntimeError::UndeclaredIdentifier), String::new()));
    let ast = ast_of("var i : int; for i in 1..(1 / 0) do print i; end for;");
    let mut process = Process::new(&ast, vec![]);
    assert_eq!(drive(&mut process), (Status::Failed(RuntimeError::DivisionByZero), String::new()));
    let ast = ast_of("var i : int; for i in 2147483647..2147483647 do print i; end for; print i;");
    let mut process = Process::new(&ast, vec![]);
    assert_eq!(drive(&mut process), (Status::Finished, "21474836472147483647".to_string()));
}
