use process_monitor::error::ParseError;
use process_monitor::lexer::{Lexer, Token};
use process_monitor::parser::{Field, Operator, Parser, Value, AST};
use process_monitor::process::Process;

#[test]
fn test_parser() {
    let tokens = vec![
        Token::Ident("pid".to_string()),
        Token::Eq,
        Token::Number(10),
        Token::And,
        Token::Ident("cpu".to_string()),
        Token::Ge,
        Token::Number(20),
    ];

    let mut parser = Parser::new(tokens);

    let filter = parser.parse().unwrap();

    assert_eq!(
        AST::And(
            Box::new(AST::Compare { field: Field::Pid, op: Operator::Eq, value: Value::Pid(10) }),
            Box::new(AST::Compare {
                field: Field::Cpu,
                op: Operator::Ge,
                value: Value::Cpu((20 as f32).to_bits())
            })
        ),
        filter
    )
}

fn parse(line: &str) -> Result<AST, ParseError> {
    let mut lexer = Lexer::default();
    let tokens = lexer.process_line(line).unwrap();
    Parser::new(tokens).parse()
}

#[test]
fn and_binds_tighter_than_or() {
    let ast = parse("pid = 1 | pid = 2 & mem > 3").unwrap();
    assert_eq!(
        ast,
        AST::Or(
            Box::new(AST::Compare { field: Field::Pid, op: Operator::Eq, value: Value::Pid(1) }),
            Box::new(AST::And(
                Box::new(AST::Compare { field: Field::Pid, op: Operator::Eq, value: Value::Pid(2) }),
                Box::new(AST::Compare { field: Field::Mem, op: Operator::Gt, value: Value::Mem(3) }),
            )),
        )
    );
}

#[test]
fn parse_errors() {
    assert_eq!(parse("foo = 1"), Err(ParseError::UnknownField("foo".to_string())));
    assert_eq!(parse("= 1"), Err(ParseError::ExpectedField));
    assert_eq!(parse("pid 1"), Err(ParseError::ExpectedOperator));
    assert_eq!(parse("pid ="), Err(ParseError::ExpectedNumber));
    assert_eq!(parse("( pid = 1"), Err(ParseError::ExpectedRParen));
    assert_eq!(parse("pid = 1 pid"), Err(ParseError::UnexpectedToken));
}

#[test]
fn filters_match_processes() {
    let p = Process::new(7, (50.0f32).to_bits(), (12.5f32).to_bits(), 2048, "sh".to_string());
    assert!(parse("pid = 7").unwrap().matches(&p));
    assert!(!parse("pid != 7").unwrap().matches(&p));
    assert!(parse("cpu >= 50 & mem < 4096").unwrap().matches(&p));
    assert!(parse("cpu > 50 | mem = 2048").unwrap().matches(&p));
    assert!(!parse("( cpu > 50 | mem > 2048 )").unwrap().matches(&p));
}
