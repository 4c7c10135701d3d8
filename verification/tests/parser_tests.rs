use dodolang::Expr;
use dodolang::Lexer;
use dodolang::Parser;
use dodolang::Stmt;
use dodolang::Token;
use dodolang::TokenType;

fn lex_all(input: &str) -> Vec<Token> {
    let mut tokens = Vec::new();
    let mut lexer = Lexer::new(input.to_string());
    loop {
        let lexed_token = lexer.next_token();
        match lexed_token.token_type {
            TokenType::EOF => {
                tokens.push(lexed_token);
                break;
            }
            _ => tokens.push(lexed_token),
        }
    }
    tokens
}

#[test]
fn basic_statements() {
    let input = "scalar x
                           vector y[4]";
    let _ = input;
}

#[test]
fn basic_operations_statement() {
    let input = "print 1\n";

    let mut tokens = Vec::new();

    let mut lexer = Lexer::new(input.to_string());
    loop {
        let lexed_token = lexer.next_token();
        match lexed_token.token_type {
            TokenType::EOF => {
                tokens.push(lexed_token);
                break;
            }
            _ => tokens.push(lexed_token),
        }
    }
    let mut parser = Parser::new(tokens.clone());
    let stmts = parser.parse();
    assert_eq!(stmts, vec![Stmt::Print(Expr::Literal(1))]);
}

#[test]
fn declarations_parse() {
    let stmts = Parser::new(lex_all("scalar x\nvector y[4]\nmatrix z[2,3]\n")).parse();
    assert_eq!(
        stmts,
        vec![
            Stmt::Definition(
                Token::new(TokenType::SCALAR, "x".to_string()),
                "0".to_string(),
                "0".to_string()
            ),
            Stmt::Definition(
                Token::new(TokenType::VECTOR, "y".to_string()),
                "4".to_string(),
                "1".to_string()
            ),
            Stmt::Definition(
                Token::new(TokenType::MATRIX, "z".to_string()),
                "2".to_string(),
                "3".to_string()
            ),
        ]
    );
}

#[test]
fn precedence_and_grouping() {
    let stmts = Parser::new(lex_all("1+2*3\n")).parse();
    assert_eq!(stmts.len(), 1);
    match &stmts[0] {
        Stmt::Expression(Expr::Binary(l, op, r)) => {
            assert_eq!(**l, Expr::Literal(1));
            assert_eq!(op.token_type, TokenType::PLUS);
            match &**r {
                Expr::Binary(rl, rop, rr) => {
                    assert_eq!(**rl, Expr::Literal(2));
                    assert_eq!(rop.token_type, TokenType::ASTERISK);
                    assert_eq!(**rr, Expr::Literal(3));
                }
                other => panic!("expected a product on the right, got {:?}", other),
            }
        }
        other => panic!("expected a sum, got {:?}", other),
    }
}

#[test]
fn vector_literal_parses() {
    let stmts = Parser::new(lex_all("y = {1,2,3}\n")).parse();
    assert_eq!(stmts.len(), 1);
    match &stmts[0] {
        Stmt::Expression(Expr::Assign(name, value, _)) => {
            assert_eq!(name.val, "y");
            match &**value {
                Expr::Vector(_, items) => assert_eq!(items, &vec![1, 2, 3]),
                other => panic!("expected a vector literal, got {:?}", other),
            }
        }
        other => panic!("expected an assignment, got {:?}", other),
    }
}

#[test]
fn malformed_statement_is_dropped() {
    // The first line faults at the missing operand; parsing resumes after
    // the newline and the second statement survives.
    let stmts = Parser::new(lex_all("1+\nprint 2\n")).parse();
    assert_eq!(stmts, vec![Stmt::Print(Expr::Literal(2))]);
}

#[test]
fn missing_newline_is_a_fault() {
    let stmts = Parser::new(lex_all("print 1")).parse();
    assert_eq!(stmts, vec![]);
}

#[test]
fn assignment_to_non_variable_yields_error_placeholder() {
    let stmts = Parser::new(lex_all("1 = 2\n")).parse();
    assert_eq!(stmts, vec![Stmt::Expression(Expr::Error)]);
}

#[test]
fn program_wraps_statements() {
    let stmts = Parser::new(lex_all("print 1\n")).parse();
    let program = dodolang::Program::new(stmts);
    assert_eq!(program.statements, vec![Stmt::Print(Expr::Literal(1))]);
}

#[test]
fn vector_elements_need_no_commas() {
    let stmts = Parser::new(lex_all("y = { 1 1 0 0 }\n")).parse();
    assert_eq!(stmts.len(), 1);
    match &stmts[0] {
        Stmt::Expression(Expr::Assign(_, value, _)) => match &**value {
            Expr::Vector(_, items) => assert_eq!(items, &vec![1, 1, 0, 0]),
            other => panic!("expected a vector literal, got {:?}", other),
        },
        other => panic!("expected an assignment, got {:?}", other),
    }
}

#[test]
fn unary_chain_parses() {
    let stmts = Parser::new(lex_all("print --3\n")).parse();
    assert_eq!(stmts.len(), 1);
    match &stmts[0] {
        Stmt::Print(Expr::Unary(op, inner)) => {
            assert_eq!(op.token_type, TokenType::MINUS);
            match &**inner {
                Expr::Unary(_, innermost) => assert_eq!(**innermost, Expr::Literal(3)),
                other => panic!("expected a nested negation, got {:?}", other),
            }
        }
        other => panic!("expected a print of a negation, got {:?}", other),
    }
}

#[test]
fn missing_closing_parenthesis_is_a_fault() {
    let stmts = Parser::new(lex_all("print (1+2\n")).parse();
    assert_eq!(stmts, vec![]);
}

#[test]
fn nested_brace_is_a_fault() {
    let stmts = Parser::new(lex_all("y = {{1,2},{3,4}}\n")).parse();
    assert_eq!(stmts, vec![]);
}

#[test]
fn oversized_integer_literal_is_a_fault() {
    // One above the largest literal: the statement is dropped.
    let stmts = Parser::new(lex_all("print 170141183460469231731687303715884105728\n")).parse();
    assert_eq!(stmts, vec![]);
    let stmts = Parser::new(lex_all("print 170141183460469231731687303715884105727\n")).parse();
    assert_eq!(stmts, vec![Stmt::Print(Expr::Literal(i128::MAX))]);
}
