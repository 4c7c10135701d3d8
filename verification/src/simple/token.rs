//! Kind-only tokens: the lexical classes alone, with no attached text.

use vstd::prelude::*;

verus! {

/// A token kind; this lighter lexer keeps no text with it.
#[allow(non_camel_case_types)]
#[derive(Debug, PartialEq, Eq, Hash, Clone, Copy, Structural)]
pub enum Token {
    ILLEGAL,
    EOF,
    IDENT,
    STRING,
    INT,
    /// `=`
    ASSIGN,
    /// `*`
    ASTERISK,
    /// `+`
    PLUS,
    /// `-`
    MINUS,
    /// `{`
    LeftBrace,
    /// `}`
    RightBrace,
    /// `[`
    LeftBracket,
    /// `]`
    RightBracket,
    /// `(`
    LeftParenthesis,
    /// `)`
    RightParenthesis,
    /// `:`
    COLON,
    /// `,`
    COMMA,
    /// Scalar variable declaration keyword.
    SCALAR,
    /// Vector variable declaration keyword.
    VECTOR,
    /// Matrix variable declaration keyword.
    MATRIX,
    /// For loop keyword.
    FOR,
}

/// The kind an identifier's text denotes: one of the fixed keywords, or a
/// plain identifier.
pub open spec fn spec_keyword(s: Seq<char>) -> Token {
    if s == "scalar"@ {
        Token::SCALAR
    } else if s == "vector"@ {
        Token::VECTOR
    } else if s == "matrix"@ {
        Token::MATRIX
    } else if s == "for"@ {
        Token::FOR
    } else {
        Token::IDENT
    }
}

/// Maps the text of an identifier to its token kind, turning the fixed
/// keywords (`scalar`, `vector`, `matrix`, `for`) into their own kinds and
/// everything else into [`Token::IDENT`].
pub fn identifier(ident: &str) -> (t: Token)
    ensures
        t == spec_keyword(ident@),
{
    if crate::token::str_eq(ident, "scalar") {
        Token::SCALAR
    } else if crate::token::str_eq(ident, "vector") {
        Token::VECTOR
    } else if crate::token::str_eq(ident, "matrix") {
        Token::MATRIX
    } else if crate::token::str_eq(ident, "for") {
        Token::FOR
    } else {
        Token::IDENT
    }
}

} // verus!
