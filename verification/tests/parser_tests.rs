use minipl::ast::{Ast, Expression, MplType, Operand, Statement};
use minipl::error::SyntaxError;
use minipl::parser::{parse, same_token, Parser};
use minipl::scanner::scan;
use minipl::token::{Keyword, Token};

fn program(source: &str) -> Result<Ast, SyntaxError> {
    parse(scan(source).unwrap())
}

fn statements(source: &str) -> Vec<Statement> {
    program(source).unwrap().statements
}

fn id(s: &str) -> Operand {
    Operand::Identifier(s.to_string())
}

#[test]
fn parses_nothing() {
    assert_eq!(parse(vec![]).unwrap().statements, vec![]);
}

#[test]
fn parses_declaration_without_initializer() {
    assert_eq!(
        statements("var x : int;"),
        vec![Statement::Declaration {
            identifier: "x".to_string(),
            mpl_type: MplType::Int,
            value: None,
        }]
    );
}

#[test]
fn parses_declaration_with_initializer() {
    assert_eq!(
        statements("var s : string := \"hi\";"),
        vec![Statement::Declaration {
            identifier: "s".to_string(),
            mpl_type: MplType::String,
            value: Some(Expression::Simple(Operand::String("hi".to_string()))),
        }]
    );
    assert_eq!(
        statements("var b : bool := 1 < 2;"),
        vec![Statement::Declaration {
            identifier: "b".to_string(),
            mpl_type: MplType::Bool,
            value: Some(Expression::Binary {
                left: Operand::Int(1),
                operator: '<',
                right: Operand::Int(2),
            }),
        }]
    );
}

#[test]
fn parses_assignment() {
    assert_eq!(
        statements("x := y + 1;"),
        vec![Statement::Assignment {
            identifier: "x".to_string(),
            expression: Expression::Binary { left: id("y"), operator: '+', right: Operand::Int(1) },
        }]
    );
}

#[test]
fn parses_read_print_assert_and_empty() {
    assert_eq!(
        statements("read x; print x; assert(!x); ;"),
        vec![
            Statement::Read("x".to_string()),
            Statement::Print(Expression::Simple(id("x"))),
            Statement::Assert(Expression::Unary { operator: '!', operand: id("x") }),
            Statement::Empty,
        ]
    );
}

#[test]
fn parses_for_loop() {
    assert_eq!(
        statements("for i in 1..n do print i; ; end for;"),
        vec![Statement::For {
            identifier: "i".to_string(),
            begin: Expression::Simple(Operand::Int(1)),
            end: Expression::Simple(id("n")),
            statements: vec![Statement::Print(Expression::Simple(id("i"))), Statement::Empty],
        }]
    );
}

#[test]
fn parses_nested_loops() {
    assert_eq!(
        statements("for i in 0..1 do for j in i..2 do end for; end for;"),
        vec![Statement::For {
            identifier: "i".to_string(),
            begin: Expression::Simple(Operand::Int(0)),
            end: Expression::Simple(Operand::Int(1)),
            statements: vec![Statement::For {
                identifier: "j".to_string(),
                begin: Expression::Simple(id("i")),
                end: Expression::Simple(Operand::Int(2)),
                statements: vec![],
            }],
        }]
    );
}

#[test]
fn parentheses_nest_expressions() {
    assert_eq!(
        statements("print (1 + 2) * (3);"),
        vec![Statement::Print(Expression::Binary {
            left: Operand::Expr(Box::new(Expression::Binary {
                left: Operand::Int(1),
                operator: '+',
                right: Operand::Int(2),
            })),
            operator: '*',
            right: Operand::Expr(Box::new(Expression::Simple(Operand::Int(3)))),
        })]
    );
}

#[test]
fn any_leading_operator_makes_a_unary_expression() {
    assert_eq!(
        statements("print -5;"),
        vec![Statement::Print(Expression::Unary { operator: '-', operand: Operand::Int(5) })]
    );
}

#[test]
fn one_operator_per_expression() {
    // tokens: print 1 + 2 + 3 ;   the second `+` stands at index 4
    assert_eq!(program("print 1 + 2 + 3;"), Err(SyntaxError::UnexpectedToken { position: 4 }));
}

#[test]
fn truth_value_is_no_operand() {
    assert_eq!(program("print true;"), Err(SyntaxError::UnexpectedToken { position: 1 }));
}

#[test]
fn statement_cannot_start_with_any_token() {
    assert_eq!(program("5;"), Err(SyntaxError::UnexpectedToken { position: 0 }));
    assert_eq!(program("print 1; end "), Err(SyntaxError::UnexpectedToken { position: 3 }));
    assert_eq!(program(") "), Err(SyntaxError::UnexpectedToken { position: 0 }));
}

#[test]
fn missing_tokens_are_reported_where_they_are_missed() {
    assert_eq!(program("var x int;"), Err(SyntaxError::UnexpectedToken { position: 2 }));
    assert_eq!(program("var x : number;"), Err(SyntaxError::UnexpectedToken { position: 3 }));
    assert_eq!(program("var x : for;"), Err(SyntaxError::UnexpectedToken { position: 3 }));
    assert_eq!(program("var 5 : int;"), Err(SyntaxError::UnexpectedToken { position: 1 }));
    assert_eq!(program("var x : int 5;"), Err(SyntaxError::UnexpectedToken { position: 4 }));
    assert_eq!(program("x 5;"), Err(SyntaxError::UnexpectedToken { position: 1 }));
    assert_eq!(program("read 5;"), Err(SyntaxError::UnexpectedToken { position: 1 }));
    assert_eq!(program("read x y;"), Err(SyntaxError::UnexpectedToken { position: 2 }));
    assert_eq!(program("assert 1;"), Err(SyntaxError::UnexpectedToken { position: 1 }));
    assert_eq!(program("assert(1;"), Err(SyntaxError::UnexpectedToken { position: 3 }));
    assert_eq!(program("print (1;"), Err(SyntaxError::UnexpectedToken { position: 3 }));
    assert_eq!(program("for 1 in 1..2 do end for;"), Err(SyntaxError::UnexpectedToken { position: 1 }));
    assert_eq!(program("for i 1..2 do end for;"), Err(SyntaxError::UnexpectedToken { position: 2 }));
    assert_eq!(program("for i in 1 2 do end for;"), Err(SyntaxError::UnexpectedToken { position: 4 }));
    assert_eq!(program("for i in 1..2 end for;"), Err(SyntaxError::UnexpectedToken { position: 6 }));
    assert_eq!(program("for i in 1..2 do end;"), Err(SyntaxError::UnexpectedToken { position: 8 }));
    assert_eq!(program("for i in 1..2 do end for "), Err(SyntaxError::UnexpectedEnd));
}

#[test]
fn premature_end_is_reported() {
    assert_eq!(program("var "), Err(SyntaxError::UnexpectedEnd));
    assert_eq!(program("var x "), Err(SyntaxError::UnexpectedEnd));
    assert_eq!(program("var x : "), Err(SyntaxError::UnexpectedEnd));
    assert_eq!(program("var x : int "), Err(SyntaxError::UnexpectedEnd));
    assert_eq!(program("var x : int := "), Err(SyntaxError::UnexpectedEnd));
    assert_eq!(program("x := 1 "), Err(SyntaxError::UnexpectedEnd));
    assert_eq!(program("x := 1 + "), Err(SyntaxError::UnexpectedEnd));
    assert_eq!(program("print "), Err(SyntaxError::UnexpectedEnd));
    assert_eq!(program("print ! "), Err(SyntaxError::UnexpectedEnd));
    assert_eq!(program("print ( "), Err(SyntaxError::UnexpectedEnd));
    assert_eq!(program("read "), Err(SyntaxError::UnexpectedEnd));
    assert_eq!(program("assert "), Err(SyntaxError::UnexpectedEnd));
    assert_eq!(program("for "), Err(SyntaxError::UnexpectedEnd));
    assert_eq!(program("for i in 1..2 do print i; "), Err(SyntaxError::UnexpectedEnd));
}

#[test]
fn error_in_a_loop_body_is_the_error_of_the_parse() {
    // tokens: for i in 1 .. 2 do print ; end for ;   `;` stands at index 8
    assert_eq!(
        program("for i in 1..2 do print ; end for;"),
        Err(SyntaxError::UnexpectedToken { position: 8 })
    );
}

#[test]
fn parser_is_made_from_tokens() {
    let parser = Parser::new(vec![Token::Reserved(Keyword::Read), Token::Identifier("x".to_string()), Token::EndStatement]);
    assert_eq!(parser.into_ast().unwrap().statements, vec![Statement::Read("x".to_string())]);
}

#[test]
fn tokens_are_compared_by_value() {
    assert!(same_token(&Token::Identifier("a".to_string()), &Token::Identifier("a".to_string())));
    assert!(!same_token(&Token::Identifier("a".to_string()), &Token::String("a".to_string())));
    assert!(!same_token(&Token::Int(1), &Token::Int(2)));
    assert!(same_token(&Token::Reserved(Keyword::Do), &Token::Reserved(Keyword::Do)));
    assert!(!same_token(&Token::Reserved(Keyword::Do), &Token::Reserved(Keyword::In)));
    assert!(same_token(&Token::Range, &Token::Range));
    assert!(!same_token(&Token::Range, &Token::Dot));
    assert!(same_token(&Token::Int(3).clone(), &Token::Int(3)));
}

#[test]
fn syntax_trees_are_copied_whole() {
    let source = "var i : int := (1 + 2); for i in 1..(i) do read i; print !i; assert(i = i); ; end for; i := 0;";
    let ast = program(source).unwrap();
    let copy = ast.clone();
    assert_eq!(copy, ast);
    assert_eq!(copy.statements[1].clone(), ast.statements[1]);
    assert_eq!(copy.statements.len(), 3);
}
