use dodolang::DodoRuntimeError;
use dodolang::Environment;
use dodolang::Expr;
use dodolang::Interpreter;
use dodolang::Lexer;
use dodolang::Parser;
use dodolang::Token;
use dodolang::TokenType;

fn lex_all(input: &str) -> Vec<Token> {
    let mut tokens = Vec::new();
    let mut lexer = Lexer::new(input.to_string());
    loop {
        let lexed_token = lexer.next_token();
        match lexed_token.token_type {
            TokenType::EOF => {
                tokens.push(lexed_token);
                break;
            }
            _ => tokens.push(lexed_token),
        }
    }
    tokens
}

fn run(input: &str) -> (Result<(), DodoRuntimeError>, Vec<String>) {
    let stmts = Parser::new(lex_all(input)).parse();
    let mut interpreter = Interpreter::new(Environment::new());
    let outcome = interpreter.interpret(stmts);
    (outcome, interpreter.output)
}

fn op(token_type: TokenType, text: &str) -> Token {
    Token::new(token_type, text.to_string())
}

fn eval(expr: Expr) -> Result<Expr, DodoRuntimeError> {
    let mut interpreter = Interpreter::new(Environment::new());
    interpreter.evaluate(expr)
}

#[test]
fn scalar_binary_matches_native_arithmetic() {
    let cases: Vec<(i128, TokenType, i128, i128)> = vec![
        (2, TokenType::PLUS, 3, 5),
        (-2, TokenType::PLUS, 3, 1),
        (2, TokenType::MINUS, 5, -3),
        (7, TokenType::ASTERISK, -6, -42),
        (7, TokenType::SLASH, 2, 3),
        (-7, TokenType::SLASH, 2, -3),
        (7, TokenType::SLASH, -2, -3),
        (-7, TokenType::SLASH, -2, 3),
    ];
    for (a, kind, b, want) in cases {
        let expr = Expr::Binary(
            Box::new(Expr::Literal(a)),
            op(kind, "?"),
            Box::new(Expr::Literal(b)),
        );
        assert_eq!(eval(expr), Ok(Expr::Literal(want)));
    }
}

#[test]
fn arithmetic_expression_evaluates() {
    let stmts = Parser::new(lex_all("(21*5)+3+(6*4)\n")).parse();
    assert_eq!(stmts.len(), 1);
    let expr = match stmts.into_iter().next().unwrap() {
        dodolang::Stmt::Expression(e) => e,
        other => panic!("expected an expression statement, got {:?}", other),
    };
    assert_eq!(eval(expr), Ok(Expr::Literal(132)));
}

#[test]
fn scalar_assignment_prints() {
    let (outcome, output) = run("scalar x\nx = 5\nprint x\n");
    assert_eq!(outcome, Ok(()));
    assert_eq!(output, vec!["5".to_string()]);
}

#[test]
fn vector_broadcast_and_dot_product() {
    let (outcome, output) = run("vector y[3]\ny = {1,2,3}\nprint y * 2\nprint y * y\n");
    assert_eq!(outcome, Ok(()));
    assert_eq!(output, vec!["{2, 4, 6}".to_string(), "14".to_string()]);
}

#[test]
fn vector_addition_gap_yields_zero() {
    let expr = Expr::Binary(
        Box::new(Expr::Vector(op(TokenType::LeftBrace, "{"), vec![1, 2])),
        op(TokenType::PLUS, "+"),
        Box::new(Expr::Vector(op(TokenType::LeftBrace, "{"), vec![3, 4])),
    );
    assert_eq!(eval(expr), Ok(Expr::Literal(0)));
}

#[test]
fn vector_scalar_plus_gap_yields_zero() {
    let (outcome, output) = run("vector y[2]\ny = {1,2}\nprint y + 1\nprint 1 + y\n");
    assert_eq!(outcome, Ok(()));
    assert_eq!(output, vec!["0".to_string(), "0".to_string()]);
}

#[test]
fn division_by_zero_is_a_fault() {
    let (outcome, output) = run("print 1/0\n");
    assert_eq!(outcome, Err(DodoRuntimeError::DivisionByZero));
    assert_eq!(output, Vec::<String>::new());
}

#[test]
fn unknown_variable_is_a_fault() {
    let (outcome, _) = run("print q\n");
    assert_eq!(outcome, Err(DodoRuntimeError::UnknownVariable));
}

#[test]
fn overflow_is_a_fault() {
    let expr = Expr::Binary(
        Box::new(Expr::Literal(i128::MAX)),
        op(TokenType::PLUS, "+"),
        Box::new(Expr::Literal(1)),
    );
    assert_eq!(eval(expr), Err(DodoRuntimeError::Overflow));
}

#[test]
fn negating_the_smallest_literal_overflows() {
    let mut interpreter = Interpreter::new(Environment::new());
    let r = interpreter.evaluate_unary(Expr::Literal(i128::MIN));
    assert_eq!(r, Err(DodoRuntimeError::Overflow));
    let r = interpreter.evaluate_unary(Expr::Literal(7));
    assert_eq!(r, Ok(Expr::Literal(-7)));
}

#[test]
fn longer_left_vector_is_a_shape_fault() {
    let expr = Expr::Binary(
        Box::new(Expr::Vector(op(TokenType::LeftBrace, "{"), vec![1, 2])),
        op(TokenType::ASTERISK, "*"),
        Box::new(Expr::Vector(op(TokenType::LeftBrace, "{"), vec![3])),
    );
    assert_eq!(eval(expr), Err(DodoRuntimeError::ShapeMismatch));
}

#[test]
fn shorter_left_vector_sums_its_own_length() {
    let expr = Expr::Binary(
        Box::new(Expr::Vector(op(TokenType::LeftBrace, "{"), vec![1, 2])),
        op(TokenType::ASTERISK, "*"),
        Box::new(Expr::Vector(op(TokenType::LeftBrace, "{"), vec![3, 4, 5])),
    );
    assert_eq!(eval(expr), Ok(Expr::Literal(11)));
}

#[test]
fn empty_vector_variable_is_a_fault() {
    let (outcome, _) = run("vector y[0]\nprint y\n");
    assert_eq!(outcome, Err(DodoRuntimeError::EmptyValue));
}

#[test]
fn unrepresentable_declaration_size_is_a_fault() {
    let (outcome, _) = run("vector y[18446744073709551616]\n");
    assert_eq!(outcome, Err(DodoRuntimeError::InvalidSize));
}

#[test]
fn assignment_to_undeclared_name_is_ignored() {
    let (outcome, output) = run("x = 5\nscalar x\nprint x\n");
    assert_eq!(outcome, Ok(()));
    assert_eq!(output, vec!["0".to_string()]);
}

#[test]
fn matrix_declaration_sizes_by_column_count() {
    let (outcome, output) = run("matrix z[5,2]\nprint z\n");
    assert_eq!(outcome, Ok(()));
    assert_eq!(output, vec!["{0, 0}".to_string()]);
}

#[test]
fn scalar_division_broadcast_divides_elements() {
    // The broadcast divides each element by the scalar, whichever side the
    // scalar stands on.
    let (outcome, output) = run("vector y[2]\ny = {4,6}\nprint y / 2\nprint 2 / y\n");
    assert_eq!(outcome, Ok(()));
    assert_eq!(output, vec!["{2, 3}".to_string(), "{2, 3}".to_string()]);
}

#[test]
fn negative_values_print_with_sign() {
    let (outcome, output) = run("print 0-5\n");
    assert_eq!(outcome, Ok(()));
    assert_eq!(output, vec!["-5".to_string()]);
}

#[test]
fn fault_keeps_earlier_effects() {
    let (outcome, output) = run("scalar x\nx = 2\nprint x\nprint 1/0\nprint x\n");
    assert_eq!(outcome, Err(DodoRuntimeError::DivisionByZero));
    assert_eq!(output, vec!["2".to_string()]);
}

#[test]
fn repeated_run_gives_identical_results() {
    let tokens = lex_all("scalar x\nx = 3\nprint x * x\n");

    let stmts1 = Parser::new(tokens.clone()).parse();
    let mut first = Interpreter::new(Environment::new());
    let outcome1 = first.interpret(stmts1);

    let stmts2 = Parser::new(tokens.clone()).parse();
    let stmts_again = Parser::new(tokens).parse();
    assert_eq!(stmts2, stmts_again);

    let mut second = Interpreter::new(Environment::new());
    let outcome2 = second.interpret(stmts2);

    assert_eq!(outcome1, outcome2);
    assert_eq!(first.output, second.output);
    assert_eq!(first.output, vec!["9".to_string()]);
}

#[test]
fn error_messages_name_the_fault() {
    assert_eq!(DodoRuntimeError::DivisionByZero.message(), "division by zero");
    assert_eq!(
        dodolang::DodoParseError.message(),
        "An Error Occurred, Please Try Again!"
    );
    assert_eq!(
        dodolang::error_types::error_message(&Token::new(TokenType::EOF, "\0".to_string())),
        "At end"
    );
    assert_eq!(
        dodolang::error_types::error_message(&Token::new(TokenType::PLUS, "+".to_string())),
        "An Error Occurred, Please Try Again!"
    );
}

#[test]
fn unary_negation_evaluates_through_programs() {
    let (outcome, output) = run("print --3\nprint 0-(2*4)\n");
    assert_eq!(outcome, Ok(()));
    // Negation reduces the inner negation's literal first: --3 is 3.
    assert_eq!(output, vec!["3".to_string(), "-8".to_string()]);
}

#[test]
fn variables_persist_across_interpret_calls() {
    let mut interpreter = Interpreter::new(Environment::new());
    assert_eq!(
        interpreter.interpret(Parser::new(lex_all("scalar x\nx = 41\n")).parse()),
        Ok(())
    );
    assert_eq!(
        interpreter.interpret(Parser::new(lex_all("print x + 1\n")).parse()),
        Ok(())
    );
    assert_eq!(interpreter.output, vec!["42".to_string()]);
}

#[test]
fn comments_and_hooks_are_no_ops() {
    let mut interpreter = Interpreter::new(Environment::new());
    let stmts = vec![
        dodolang::Stmt::Comment("a note".to_string()),
        dodolang::Stmt::Print(Expr::Literal(1)),
    ];
    assert_eq!(interpreter.interpret(stmts), Ok(()));
    assert_eq!(interpreter.output, vec!["1".to_string()]);
}

#[test]
fn matrix_value_prints_row_by_row() {
    let expr = Expr::Matrix(vec![vec![1, 2], vec![3]]);
    let mut interpreter = Interpreter::new(Environment::new());
    let reduced = interpreter.evaluate(expr).unwrap();
    assert_eq!(dodolang::interpreter::render_expr(&reduced), "{{1, 2}, {3}}");
}
