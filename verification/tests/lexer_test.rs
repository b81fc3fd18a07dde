use process_monitor::error::LexError;
use process_monitor::lexer::{Lexer, Token};

#[test]
fn test_valid_line() {
    let line = "pid = 10 & cpu > 20";
    let mut lexer = Lexer::default();
    let tokens = lexer.process_line(line).unwrap();

    assert!(!tokens.is_empty());
    assert_eq!(tokens[0], Token::Ident("pid".to_string()));
    assert_eq!(tokens[1], Token::Eq);
    assert_eq!(tokens[2], Token::Number(10));
    assert_eq!(tokens[3], Token::And);
    assert_eq!(tokens[4], Token::Ident("cpu".to_string()));
    assert_eq!(tokens[5], Token::Gt);
    assert_eq!(tokens[6], Token::Number(20));
}

#[test]
fn test_invalid_line() {
    let line = "pid != 10 | cpu < 20 & mem ! 0";
    let mut lexer = Lexer::default();
    let tokens = lexer.process_line(line);
    assert!(tokens.is_err());
    assert!(matches!(tokens, Err(LexError::UnexpectedChar('!'))))
}

#[test]
fn lexes_every_token_kind() {
    let mut lexer = Lexer::default();
    let tokens = lexer.process_line("( name <= 3 ) | mem >= 4 & x < 5 > 6").unwrap();
    assert_eq!(
        tokens,
        vec![
            Token::LParen,
            Token::Ident("name".to_string()),
            Token::Le,
            Token::Number(3),
            Token::RParen,
            Token::Or,
            Token::Ident("mem".to_string()),
            Token::Ge,
            Token::Number(4),
            Token::And,
            Token::Ident("x".to_string()),
            Token::Lt,
            Token::Number(5),
            Token::Gt,
            Token::Number(6),
        ]
    );
}

#[test]
fn empty_and_blank_lines_give_no_tokens() {
    let mut lexer = Lexer::default();
    assert!(lexer.process_line("").unwrap().is_empty());
    assert!(lexer.process_line("   \t ").unwrap().is_empty());
}

#[test]
fn lexer_is_reusable_after_an_error() {
    let mut lexer = Lexer::default();
    assert!(matches!(lexer.process_line("pid # 1"), Err(LexError::UnexpectedChar('#'))));
    assert_eq!(lexer.process_line("pid").unwrap(), vec![Token::Ident("pid".to_string())]);
}
