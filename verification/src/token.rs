//! Tokens of the language: a kind together with the literal text it was
//! lexed from.

use vstd::prelude::*;

verus! {

/// The closed set of token kinds the lexer can produce.
#[allow(non_camel_case_types)]
#[derive(Debug, PartialEq, Eq, Hash, Clone, Copy, Structural)]
pub enum TokenType {
    ILLEGAL,
    EOF,
    NewLine,
    /// `#`
    COMMENT,
    IDENT,
    STRING,
    INT,
    /// `>`
    GREATER,
    /// `<`
    LESS,
    /// `!=`
    BangEqual,
    /// `==`
    EqualEqual,
    /// `=`
    ASSIGN,
    /// `/`
    SLASH,
    /// `*`
    ASTERISK,
    /// `+`
    PLUS,
    /// `-`
    MINUS,
    /// `{`
    LeftBrace,
    /// `}`
    RightBrace,
    /// `[`
    LeftBracket,
    /// `]`
    RightBracket,
    /// `(`
    LeftParenthesis,
    /// `)`
    RightParenthesis,
    /// `:`
    COLON,
    /// `,`
    COMMA,
    /// `!`
    BANG,
    /// Scalar variable declaration keyword.
    SCALAR,
    /// Vector variable declaration keyword.
    VECTOR,
    /// Matrix variable declaration keyword.
    MATRIX,
    /// For loop keyword.
    FOR,
    /// Print statement keyword.
    PRINT,
}

/// The smallest lexical unit: a kind and the text it was read from.
#[derive(Debug, PartialEq, Eq, Hash)]
pub struct Token {
    pub token_type: TokenType,
    pub val: String,
}

impl Clone for Token {
    /// A clone carries the same kind and the same text.
    fn clone(&self) -> (t: Token)
        ensures
            t == *self,
    {
        Token { token_type: self.token_type, val: self.val.clone() }
    }
}

/// The mathematical model of a [`Token`]: its kind and its text as a
/// sequence of characters.
pub struct TokenView {
    pub token_type: TokenType,
    pub val: Seq<char>,
}

impl View for Token {
    type V = TokenView;

    open spec fn view(&self) -> TokenView {
        TokenView { token_type: self.token_type, val: self.val@ }
    }
}

impl Token {
    pub fn new(token_type: TokenType, val: String) -> (t: Token)
        ensures
            t@ == (TokenView { token_type, val: val@ }),
    {
        Token { token_type, val }
    }
}

/// The kind an identifier's text denotes: one of the fixed keywords, or a
/// plain identifier.
pub open spec fn spec_keyword(s: Seq<char>) -> TokenType {
    if s == "scalar"@ {
        TokenType::SCALAR
    } else if s == "vector"@ {
        TokenType::VECTOR
    } else if s == "matrix"@ {
        TokenType::MATRIX
    } else if s == "for"@ {
        TokenType::FOR
    } else if s == "print"@ {
        TokenType::PRINT
    } else {
        TokenType::IDENT
    }
}

/// Compares two string slices character by character.
pub(crate) fn str_eq(a: &str, b: &str) -> (r: bool)
    ensures
        r == (a@ == b@),
{
    let an = a.unicode_len();
    let bn = b.unicode_len();
    if an != bn {
        proof {
            assert(a@ != b@) by {
                if a@ == b@ {
                    assert(a@.len() == b@.len());
                }
            }
        }
        return false;
    }
    let mut i: usize = 0;
    while i < an
        invariant
            i <= an,
            an == a@.len(),
            an == b@.len(),
            forall|j: int| 0 <= j < i ==> a@[j] == b@[j],
        decreases an - i,
    {
        if a.get_char(i) != b.get_char(i) {
            proof {
                assert(a@ != b@) by {
                    if a@ == b@ {
                        assert(a@[i as int] == b@[i as int]);
                    }
                }
            }
            return false;
        }
        i = i + 1;
    }
    proof {
        assert(a@ =~= b@);
    }
    true
}

/// Maps the text of an identifier to its token kind, turning the fixed
/// keywords (`scalar`, `vector`, `matrix`, `for`, `print`) into their own
/// kinds and everything else into [`TokenType::IDENT`].
pub fn identifier(ident: &str) -> (t: TokenType)
    ensures
        t == spec_keyword(ident@),
{
    if str_eq(ident, "scalar") {
        TokenType::SCALAR
    } else if str_eq(ident, "vector") {
        TokenType::VECTOR
    } else if str_eq(ident, "matrix") {
        TokenType::MATRIX
    } else if str_eq(ident, "for") {
        TokenType::FOR
    } else if str_eq(ident, "print") {
        TokenType::PRINT
    } else {
        TokenType::IDENT
    }
}

} // verus!
