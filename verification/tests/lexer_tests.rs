use dodolang::Lexer;
use dodolang::Token;
use dodolang::TokenType;

#[test]
fn basic_delimiters() {
    let input = "=+(){}[],:\n";

    let expected = [
        Token::new(TokenType::ASSIGN, "=".to_string()),
        Token::new(TokenType::PLUS, "+".to_string()),
        Token::new(TokenType::LeftParenthesis, "(".to_string()),
        Token::new(TokenType::RightParenthesis, ")".to_string()),
        Token::new(TokenType::LeftBrace, "{".to_string()),
        Token::new(TokenType::RightBrace, "}".to_string()),
        Token::new(TokenType::LeftBracket, "[".to_string()),
        Token::new(TokenType::RightBracket, "]".to_string()),
        Token::new(TokenType::COMMA, ",".to_string()),
        Token::new(TokenType::COLON, ":".to_string()),
        Token::new(TokenType::NewLine, "\n".to_string()),
        Token::new(TokenType::EOF, "\0".to_string()),
    ];

    let mut lexer = Lexer::new(input.to_string());

    for token in expected.iter() {
        let lexed_token = lexer.next_token();

        assert_eq!(lexed_token, *token);
    }
}

#[test]
fn basic_assignment() {
    let input = "scalar x
            vector y[2]
             matrix z[2,2]
             z = { 1 1 0 0 }
             print x";

    let expected = [
        Token::new(TokenType::SCALAR, "scalar".to_string()),
        Token::new(TokenType::IDENT, "x".to_string()),
        Token::new(TokenType::NewLine, "\n".to_string()),
        Token::new(TokenType::VECTOR, "vector".to_string()),
        Token::new(TokenType::IDENT, "y".to_string()),
        Token::new(TokenType::LeftBracket, "[".to_string()),
        Token::new(TokenType::INT, "2".to_string()),
        Token::new(TokenType::RightBracket, "]".to_string()),
        Token::new(TokenType::NewLine, "\n".to_string()),
        Token::new(TokenType::MATRIX, "matrix".to_string()),
        Token::new(TokenType::IDENT, "z".to_string()),
        Token::new(TokenType::LeftBracket, "[".to_string()),
        Token::new(TokenType::INT, "2".to_string()),
        Token::new(TokenType::COMMA, ",".to_string()),
        Token::new(TokenType::INT, "2".to_string()),
        Token::new(TokenType::RightBracket, "]".to_string()),
        Token::new(TokenType::NewLine, "\n".to_string()),
        Token::new(TokenType::IDENT, "z".to_string()),
        Token::new(TokenType::ASSIGN, "=".to_string()),
        Token::new(TokenType::LeftBrace, "{".to_string()),
        Token::new(TokenType::INT, "1".to_string()),
        Token::new(TokenType::INT, "1".to_string()),
        Token::new(TokenType::INT, "0".to_string()),
        Token::new(TokenType::INT, "0".to_string()),
        Token::new(TokenType::RightBrace, "}".to_string()),
        Token::new(TokenType::NewLine, "\n".to_string()),
        Token::new(TokenType::PRINT, "print".to_string()),
        Token::new(TokenType::IDENT, "x".to_string()),
        Token::new(TokenType::EOF, "\0".to_string()),
    ];

    let mut lexer = Lexer::new(input.to_string());

    for token in expected.iter() {
        let lexed_token = lexer.next_token();
        println!("Lexed Token: {:?}", lexed_token);
        println!("Token: {:?}", token);
        assert_eq!(lexed_token, *token);
    }
}

#[test]
fn illegal_and_comment_tokens() {
    let input = "# ?";
    let mut lexer = Lexer::new(input.to_string());
    assert_eq!(lexer.next_token(), Token::new(TokenType::COMMENT, "#".to_string()));
    assert_eq!(lexer.next_token(), Token::new(TokenType::ILLEGAL, "?".to_string()));
    assert_eq!(lexer.next_token(), Token::new(TokenType::EOF, "\0".to_string()));
    assert_eq!(lexer.next_token(), Token::new(TokenType::EOF, "\0".to_string()));
}

#[test]
fn keyword_classification() {
    assert_eq!(dodolang::identifier("scalar"), TokenType::SCALAR);
    assert_eq!(dodolang::identifier("vector"), TokenType::VECTOR);
    assert_eq!(dodolang::identifier("matrix"), TokenType::MATRIX);
    assert_eq!(dodolang::identifier("for"), TokenType::FOR);
    assert_eq!(dodolang::identifier("print"), TokenType::PRINT);
    assert_eq!(dodolang::identifier("scalars"), TokenType::IDENT);
    assert_eq!(dodolang::identifier("x"), TokenType::IDENT);
}
