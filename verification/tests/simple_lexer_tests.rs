use dodolang::simple::lexer::Lexer;
use dodolang::simple::token::Token;

#[test]
fn lexer_basic_delimiters() {
    let input = "=+(){}[],:";

    let expected = [
        Token::ASSIGN,
        Token::PLUS,
        Token::LeftParenthesis,
        Token::RightParenthesis,
        Token::LeftBrace,
        Token::RightBrace,
        Token::LeftBracket,
        Token::RightBracket,
        Token::COMMA,
        Token::COLON,
        Token::EOF,
    ];

    let mut lexer = Lexer::new(input.to_string());

    for token in expected.iter() {
        let lexed_token = lexer.next_token();
        println!("Lexed Token: {:?}", lexed_token);
        println!("Token: {:?}", token);
        assert_eq!(lexed_token, *token);
    }
}

#[test]
fn complex_delimiters() {
    let input = "=+(){}[][2]";

    let expected = [
        Token::ASSIGN,
        Token::PLUS,
        Token::LeftParenthesis,
        Token::RightParenthesis,
        Token::LeftBrace,
        Token::RightBrace,
        Token::LeftBracket,
        Token::RightBracket,
        Token::LeftBracket,
        Token::INT,
        Token::RightBracket,
        Token::EOF,
    ];

    let mut lexer = Lexer::new(input.to_string());

    for token in expected.iter() {
        let lexed_token = lexer.next_token();
        println!("Lexed Token: {:?}", lexed_token);
        println!("Token: {:?}", token);
        assert_eq!(lexed_token, *token);
    }
}

#[test]
fn lexer_basic_assignment() {
    let input = "scalar x
             vector y[2]
             matrix z[2,2]
             z = { 1 1 0 0 } ";

    let expected = [
        Token::SCALAR,
        Token::IDENT,
        Token::VECTOR,
        Token::IDENT,
        Token::LeftBracket,
        Token::INT,
        Token::RightBracket,
        Token::MATRIX,
        Token::IDENT,
        Token::LeftBracket,
        Token::INT,
        Token::COMMA,
        Token::INT,
        Token::RightBracket,
        Token::IDENT,
        Token::ASSIGN,
        Token::LeftBrace,
        Token::INT,
        Token::INT,
        Token::INT,
        Token::INT,
        Token::RightBrace,
        Token::EOF,
    ];

    let mut lexer = Lexer::new(input.to_string());

    for token in expected.iter() {
        let lexed_token = lexer.next_token();
        println!("Lexed Token: {:?}", lexed_token);
        println!("Token: {:?}", token);
        assert_eq!(lexed_token, *token);
    }
}

#[test]
fn keyword_classification_simple() {
    assert_eq!(dodolang::simple::token::identifier("scalar"), Token::SCALAR);
    assert_eq!(dodolang::simple::token::identifier("vector"), Token::VECTOR);
    assert_eq!(dodolang::simple::token::identifier("matrix"), Token::MATRIX);
    assert_eq!(dodolang::simple::token::identifier("for"), Token::FOR);
    assert_eq!(dodolang::simple::token::identifier("print"), Token::IDENT);
}
