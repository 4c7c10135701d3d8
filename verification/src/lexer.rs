//! The lexer: turns a raw input string into tokens, one call of
//! [`Lexer::next_token`] at a time.
//!
//! Whitespace (spaces) is skipped before each token; a newline is itself a
//! token, since it terminates statements. Identifiers and keywords are runs
//! of letters, integer literals are runs of digits, a fixed set of
//! characters form one-character tokens, and any other character becomes an
//! [`TokenType::ILLEGAL`] token.

use vstd::prelude::*;

use crate::token::Token;
use crate::token::TokenType;
use crate::token::TokenView;
use crate::token::identifier;
use crate::token::spec_keyword;

verus! {

/// Whether `c` is a letter, the characters an identifier is made of.
pub open spec fn is_letter_spec(c: char) -> bool {
    (97 <= c as u32 && c as u32 <= 122) || (65 <= c as u32 && c as u32 <= 90)
}

/// Whether `c` is a decimal digit.
pub open spec fn is_digit_spec(c: char) -> bool {
    48 <= c as u32 && c as u32 <= 57
}

/// Whether `c` is an ASCII letter (`a`-`z` or `A`-`Z`).
pub fn is_letter(c: char) -> (r: bool)
    ensures
        r == is_letter_spec(c),
{
    let u = c as u32;
    (97 <= u && u <= 122) || (65 <= u && u <= 90)
}

/// Whether `c` is a decimal digit (`0`-`9`).
pub fn is_digit(c: char) -> (r: bool)
    ensures
        r == is_digit_spec(c),
{
    let u = c as u32;
    48 <= u && u <= 57
}

/// The character at index `i`, or the NUL character past the end: the
/// lexer's notion of "current character".
pub open spec fn char_at(s: Seq<char>, i: int) -> char {
    if 0 <= i < s.len() {
        s[i]
    } else {
        '\0'
    }
}

/// First index at or after `i` whose character is not a space.
pub open spec fn spec_skip_ws(s: Seq<char>, i: int) -> int
    decreases s.len() - i,
{
    if 0 <= i < s.len() && s[i] == ' ' {
        spec_skip_ws(s, i + 1)
    } else {
        i
    }
}

/// First index at or after `i` whose character is not a letter: the end of
/// an identifier that starts at `i`.
pub open spec fn spec_scan_letters(s: Seq<char>, i: int) -> int
    decreases s.len() - i,
{
    if 0 <= i < s.len() && is_letter_spec(s[i]) {
        spec_scan_letters(s, i + 1)
    } else {
        i
    }
}

/// First index at or after `i` whose character is not a digit: the end of
/// an integer literal that starts at `i`.
pub open spec fn spec_scan_digits(s: Seq<char>, i: int) -> int
    decreases s.len() - i,
{
    if 0 <= i < s.len() && is_digit_spec(s[i]) {
        spec_scan_digits(s, i + 1)
    } else {
        i
    }
}

/// Whether `c` forms a one-character token on its own.
pub open spec fn is_single_char_token(c: char) -> bool {
    c == '=' || c == '+' || c == '-' || c == '*' || c == '/' || c == '{' || c == '}' || c == '['
        || c == ']' || c == '(' || c == ')' || c == ':' || c == ',' || c == '\n' || c == '#'
        || c == '\0'
}

/// The kind of the one-character token `c` forms.
pub open spec fn single_char_kind(c: char) -> TokenType {
    if c == '=' {
        TokenType::ASSIGN
    } else if c == '+' {
        TokenType::PLUS
    } else if c == '-' {
        TokenType::MINUS
    } else if c == '*' {
        TokenType::ASTERISK
    } else if c == '/' {
        TokenType::SLASH
    } else if c == '{' {
        TokenType::LeftBrace
    } else if c == '}' {
        TokenType::RightBrace
    } else if c == '[' {
        TokenType::LeftBracket
    } else if c == ']' {
        TokenType::RightBracket
    } else if c == '(' {
        TokenType::LeftParenthesis
    } else if c == ')' {
        TokenType::RightParenthesis
    } else if c == ':' {
        TokenType::COLON
    } else if c == ',' {
        TokenType::COMMA
    } else if c == '\n' {
        TokenType::NewLine
    } else if c == '#' {
        TokenType::COMMENT
    } else {
        TokenType::EOF
    }
}

/// The token found at position `i` of `s` after skipping spaces, together
/// with the position of the first character after it.
pub open spec fn spec_next_token(s: Seq<char>, i: int) -> (TokenView, int) {
    let j = spec_skip_ws(s, i);
    if j >= s.len() {
        (TokenView { token_type: TokenType::EOF, val: seq!['\0'] }, j)
    } else {
        let c = s[j];
        if is_letter_spec(c) {
            let k = spec_scan_letters(s, j);
            (TokenView { token_type: spec_keyword(s.subrange(j, k)), val: s.subrange(j, k) }, k)
        } else if is_digit_spec(c) {
            let k = spec_scan_digits(s, j);
            (TokenView { token_type: TokenType::INT, val: s.subrange(j, k) }, k)
        } else if is_single_char_token(c) {
            (TokenView { token_type: single_char_kind(c), val: seq![c] }, j + 1)
        } else {
            (TokenView { token_type: TokenType::ILLEGAL, val: seq![c] }, j + 1)
        }
    }
}

/// The lexer's state: the input text and how far into it the next token
/// starts.
pub struct Lexer {
    input: String,
    length: usize,
    position: usize,
}

impl Lexer {
    /// The lexer's invariant: `length` caches the character count of the
    /// input and the position never runs past the end.
    pub closed spec fn wf(self) -> bool {
        self.length == self.input@.len() && self.position <= self.length
    }

    /// The characters of the input text.
    pub closed spec fn text(self) -> Seq<char> {
        self.input@
    }

    /// The index the next token is read from.
    pub closed spec fn pos(self) -> int {
        self.position as int
    }

    pub fn new(input: String) -> (lexer: Lexer)
        ensures
            lexer.wf(),
            lexer.text() == input@,
            lexer.pos() == 0,
    {
        let length = input.as_str().unicode_len();
        Lexer { input, length, position: 0 }
    }

    /// Advances past the current character, stopping at the end of the
    /// input.
    fn read_char(&mut self)
        requires
            old(self).wf(),
        ensures
            final(self).wf(),
            final(self).text() == old(self).text(),
            final(self).pos() == if old(self).pos() < old(self).text().len() as int {
                old(self).pos() + 1
            } else {
                old(self).pos()
            },
    {
        if self.position < self.length {
            self.position = self.position + 1;
        }
    }

    /// Consumes a run of letters and returns it as the text of an
    /// identifier or keyword.
    fn read_identifier(&mut self) -> (text: String)
        requires
            old(self).wf(),
        ensures
            final(self).wf(),
            final(self).text() == old(self).text(),
            final(self).pos() == spec_scan_letters(old(self).text(), old(self).pos()),
            text@ == old(self).text().subrange(old(self).pos(), final(self).pos()),
    {
        let start = self.position;
        while self.position < self.length && is_letter(self.input.as_str().get_char(self.position))
            invariant
                self.wf(),
                self.text() == old(self).text(),
                start <= self.position,
                spec_scan_letters(self.text(), self.pos()) == spec_scan_letters(
                    old(self).text(),
                    old(self).pos(),
                ),
            decreases self.length - self.position,
        {
            self.position = self.position + 1;
        }
        self.input.as_str().substring_char(start, self.position).to_owned()
    }

    /// Consumes a run of digits and returns it as the text of an integer
    /// literal.
    fn read_number(&mut self) -> (text: String)
        requires
            old(self).wf(),
        ensures
            final(self).wf(),
            final(self).text() == old(self).text(),
            final(self).pos() == spec_scan_digits(old(self).text(), old(self).pos()),
            text@ == old(self).text().subrange(old(self).pos(), final(self).pos()),
    {
        let start = self.position;
        while self.position < self.length && is_digit(self.input.as_str().get_char(self.position))
            invariant
                self.wf(),
                self.text() == old(self).text(),
                start <= self.position,
                spec_scan_digits(self.text(), self.pos()) == spec_scan_digits(
                    old(self).text(),
                    old(self).pos(),
                ),
            decreases self.length - self.position,
        {
            self.position = self.position + 1;
        }
        self.input.as_str().substring_char(start, self.position).to_owned()
    }

    /// Advances past any run of spaces.
    fn skip_whitespace(&mut self)
        requires
            old(self).wf(),
        ensures
            final(self).wf(),
            final(self).text() == old(self).text(),
            final(self).pos() == spec_skip_ws(old(self).text(), old(self).pos()),
    {
        while self.position < self.length && self.input.as_str().get_char(self.position) == ' '
            invariant
                self.wf(),
                self.text() == old(self).text(),
                spec_skip_ws(self.text(), self.pos()) == spec_skip_ws(
                    old(self).text(),
                    old(self).pos(),
                ),
            decreases self.length - self.position,
        {
            self.position = self.position + 1;
        }
    }

    /// Reads the next token: skips spaces, then consumes exactly one token
    /// and leaves the position on the first character after it. At the end
    /// of the input it returns an end-of-input token and stays there, so
    /// repeated calls keep returning it.
    pub fn next_token(&mut self) -> (t: Token)
        requires
            old(self).wf(),
        ensures
            final(self).wf(),
            final(self).text() == old(self).text(),
            t@ == spec_next_token(old(self).text(), old(self).pos()).0,
            final(self).pos() == spec_next_token(old(self).text(), old(self).pos()).1,
    {
        self.skip_whitespace();
        if self.position >= self.length {
            let val = String::from_str("\0");
            proof {
                reveal_strlit("\0");
                assert(val@ =~= seq!['\0']);
            }
            return Token { token_type: TokenType::EOF, val };
        }
        let c = self.input.as_str().get_char(self.position);
        if is_letter(c) {
            let val = self.read_identifier();
            let kind = identifier(val.as_str());
            return Token { token_type: kind, val };
        }
        if is_digit(c) {
            let val = self.read_number();
            return Token { token_type: TokenType::INT, val };
        }
        let p = self.position;
        let val = self.input.as_str().substring_char(p, p + 1).to_owned();
        proof {
            assert(val@ =~= seq![self.input@[p as int]]);
        }
        let kind = if c == '=' {
            TokenType::ASSIGN
        } else if c == '+' {
            TokenType::PLUS
        } else if c == '-' {
            TokenType::MINUS
        } else if c == '*' {
            TokenType::ASTERISK
        } else if c == '/' {
            TokenType::SLASH
        } else if c == '{' {
            TokenType::LeftBrace
        } else if c == '}' {
            TokenType::RightBrace
        } else if c == '[' {
            TokenType::LeftBracket
        } else if c == ']' {
            TokenType::RightBracket
        } else if c == '(' {
            TokenType::LeftParenthesis
        } else if c == ')' {
            TokenType::RightParenthesis
        } else if c == ':' {
            TokenType::COLON
        } else if c == ',' {
            TokenType::COMMA
        } else if c == '\n' {
            TokenType::NewLine
        } else if c == '#' {
            TokenType::COMMENT
        } else if c == '\0' {
            TokenType::EOF
        } else {
            TokenType::ILLEGAL
        };
        self.read_char();
        Token { token_type: kind, val }
    }
}

} // verus!
