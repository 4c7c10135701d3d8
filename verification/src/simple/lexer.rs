//! The kind-only lexer: classifies the input into bare [`Token`] kinds,
//! skipping every kind of ASCII whitespace (this variant has no newline
//! token).

use vstd::prelude::*;

use crate::lexer::is_digit;
use crate::lexer::is_digit_spec;
use crate::lexer::is_letter;
use crate::lexer::is_letter_spec;
use crate::simple::token::Token;
use crate::simple::token::identifier;
use crate::simple::token::spec_keyword;

verus! {

/// Whether `c` is ASCII whitespace: space, tab, newline, form feed or
/// carriage return.
pub open spec fn is_whitespace_spec(c: char) -> bool {
    c == ' ' || c == '\t' || c == '\n' || c == '\u{c}' || c == '\r'
}

/// Whether `c` is ASCII whitespace.
pub fn is_whitespace(c: char) -> (r: bool)
    ensures
        r == is_whitespace_spec(c),
{
    c == ' ' || c == '\t' || c == '\n' || c == '\u{c}' || c == '\r'
}

/// First index at or after `i` whose character is not whitespace.
pub open spec fn spec_skip_ws(s: Seq<char>, i: int) -> int
    decreases s.len() - i,
{
    if 0 <= i < s.len() && is_whitespace_spec(s[i]) {
        spec_skip_ws(s, i + 1)
    } else {
        i
    }
}

/// First index at or after `i` whose character is not a letter.
pub open spec fn spec_scan_letters(s: Seq<char>, i: int) -> int
    decreases s.len() - i,
{
    if 0 <= i < s.len() && is_letter_spec(s[i]) {
        spec_scan_letters(s, i + 1)
    } else {
        i
    }
}

/// First index at or after `i` whose character is not a digit.
pub open spec fn spec_scan_digits(s: Seq<char>, i: int) -> int
    decreases s.len() - i,
{
    if 0 <= i < s.len() && is_digit_spec(s[i]) {
        spec_scan_digits(s, i + 1)
    } else {
        i
    }
}

/// First index at or after `i` whose character is a double quote, or the
/// end of the input: where a string literal that started before `i` ends.
pub open spec fn spec_scan_to_quote(s: Seq<char>, i: int) -> int
    decreases s.len() - i,
{
    if 0 <= i < s.len() && s[i] != '"' {
        spec_scan_to_quote(s, i + 1)
    } else {
        i
    }
}

/// Whether `c` forms a one-character token of this lexer on its own.
pub open spec fn is_single_char_token(c: char) -> bool {
    c == '=' || c == '+' || c == '-' || c == '*' || c == '{' || c == '}' || c == '[' || c == ']'
        || c == '(' || c == ')' || c == ':' || c == ',' || c == '\0'
}

/// The kind of the one-character token `c` forms.
pub open spec fn single_char_kind(c: char) -> Token {
    if c == '=' {
        Token::ASSIGN
    } else if c == '+' {
        Token::PLUS
    } else if c == '-' {
        Token::MINUS
    } else if c == '*' {
        Token::ASTERISK
    } else if c == '{' {
        Token::LeftBrace
    } else if c == '}' {
        Token::RightBrace
    } else if c == '[' {
        Token::LeftBracket
    } else if c == ']' {
        Token::RightBracket
    } else if c == '(' {
        Token::LeftParenthesis
    } else if c == ')' {
        Token::RightParenthesis
    } else if c == ':' {
        Token::COLON
    } else if c == ',' {
        Token::COMMA
    } else {
        Token::EOF
    }
}

/// The token kind found at position `i` of `s` after skipping whitespace,
/// together with the position of the first character after it.
pub open spec fn spec_next_token(s: Seq<char>, i: int) -> (Token, int) {
    let j = spec_skip_ws(s, i);
    if j >= s.len() {
        (Token::EOF, j)
    } else {
        let c = s[j];
        if is_letter_spec(c) {
            let k = spec_scan_letters(s, j);
            (spec_keyword(s.subrange(j, k)), k)
        } else if is_digit_spec(c) {
            (Token::INT, spec_scan_digits(s, j))
        } else if is_single_char_token(c) {
            (single_char_kind(c), j + 1)
        } else {
            (Token::ILLEGAL, j + 1)
        }
    }
}

/// The kind-only lexer's state: the input text and how far into it the
/// next token starts.
pub struct Lexer {
    input: String,
    length: usize,
    position: usize,
}

impl Lexer {
    /// The lexer's invariant: `length` caches the character count of the
    /// input and the position never runs past the end.
    pub closed spec fn wf(self) -> bool {
        self.length == self.input@.len() && self.position <= self.length
    }

    /// The characters of the input text.
    pub closed spec fn text(self) -> Seq<char> {
        self.input@
    }

    /// The index the next token is read from.
    pub closed spec fn pos(self) -> int {
        self.position as int
    }

    pub fn new(input: String) -> (lexer: Lexer)
        ensures
            lexer.wf(),
            lexer.text() == input@,
            lexer.pos() == 0,
    {
        let length = input.as_str().unicode_len();
        Lexer { input, length, position: 0 }
    }

    /// The character after the current one, NUL at or past the end.
    #[allow(dead_code)]
    fn peek_char(&self) -> (c: char)
        requires
            self.wf(),
        ensures
            c == crate::lexer::char_at(self.text(), self.pos() + 1),
    {
        if self.length - self.position <= 1 {
            '\0'
        } else {
            self.input.as_str().get_char(self.position + 1)
        }
    }

    /// Advances past the current character, stopping at the end of the
    /// input.
    fn read_char(&mut self)
        requires
            old(self).wf(),
        ensures
            final(self).wf(),
            final(self).text() == old(self).text(),
            final(self).pos() == if old(self).pos() < old(self).text().len() as int {
                old(self).pos() + 1
            } else {
                old(self).pos()
            },
    {
        if self.position < self.length {
            self.position = self.position + 1;
        }
    }

    /// Consumes a run of letters and returns it as the text of an
    /// identifier or keyword.
    fn read_identifier(&mut self) -> (text: String)
        requires
            old(self).wf(),
        ensures
            final(self).wf(),
            final(self).text() == old(self).text(),
            final(self).pos() == spec_scan_letters(old(self).text(), old(self).pos()),
            text@ == old(self).text().subrange(old(self).pos(), final(self).pos()),
    {
        let start = self.position;
        while self.position < self.length && is_letter(self.input.as_str().get_char(self.position))
            invariant
                self.wf(),
                self.text() == old(self).text(),
                start <= self.position,
                spec_scan_letters(self.text(), self.pos()) == spec_scan_letters(
                    old(self).text(),
                    old(self).pos(),
                ),
            decreases self.length - self.position,
        {
            self.position = self.position + 1;
        }
        self.input.as_str().substring_char(start, self.position).to_owned()
    }

    /// Consumes a run of digits; this lexer keeps no text, so the token it
    /// feeds is the bare [`Token::INT`] kind.
    fn read_number(&mut self)
        requires
            old(self).wf(),
        ensures
            final(self).wf(),
            final(self).text() == old(self).text(),
            final(self).pos() == spec_scan_digits(old(self).text(), old(self).pos()),
    {
        while self.position < self.length && is_digit(self.input.as_str().get_char(self.position))
            invariant
                self.wf(),
                self.text() == old(self).text(),
                spec_scan_digits(self.text(), self.pos()) == spec_scan_digits(
                    old(self).text(),
                    old(self).pos(),
                ),
            decreases self.length - self.position,
        {
            self.position = self.position + 1;
        }
    }

    /// Advances past any run of ASCII whitespace.
    fn skip_whitespace(&mut self)
        requires
            old(self).wf(),
        ensures
            final(self).wf(),
            final(self).text() == old(self).text(),
            final(self).pos() == spec_skip_ws(old(self).text(), old(self).pos()),
    {
        while self.position < self.length && is_whitespace(
            self.input.as_str().get_char(self.position),
        )
            invariant
                self.wf(),
                self.text() == old(self).text(),
                spec_skip_ws(self.text(), self.pos()) == spec_skip_ws(
                    old(self).text(),
                    old(self).pos(),
                ),
            decreases self.length - self.position,
        {
            self.position = self.position + 1;
        }
    }

    /// Consumes a string literal's body: called on the opening quote, it
    /// advances to the closing quote (or the end of the input) and returns
    /// the characters in between.
    #[allow(dead_code)]
    fn read_string(&mut self) -> (text: String)
        requires
            old(self).wf(),
            old(self).pos() < old(self).text().len(),
        ensures
            final(self).wf(),
            final(self).text() == old(self).text(),
            final(self).pos() == spec_scan_to_quote(old(self).text(), old(self).pos() + 1),
            text@ == old(self).text().subrange(old(self).pos() + 1, final(self).pos()),
    {
        let start = self.position + 1;
        self.read_char();
        while self.position < self.length && self.input.as_str().get_char(self.position) != '"'
            invariant
                self.wf(),
                self.text() == old(self).text(),
                start <= self.position,
                spec_scan_to_quote(self.text(), self.pos()) == spec_scan_to_quote(
                    old(self).text(),
                    old(self).pos() + 1,
                ),
            decreases self.length - self.position,
        {
            self.position = self.position + 1;
        }
        self.input.as_str().substring_char(start, self.position).to_owned()
    }

    /// Reads the next token kind: skips whitespace, then consumes exactly
    /// one token. At the end of the input it returns [`Token::EOF`] and
    /// stays there, so repeated calls keep returning it.
    pub fn next_token(&mut self) -> (t: Token)
        requires
            old(self).wf(),
        ensures
            final(self).wf(),
            final(self).text() == old(self).text(),
            t == spec_next_token(old(self).text(), old(self).pos()).0,
            final(self).pos() == spec_next_token(old(self).text(), old(self).pos()).1,
    {
        self.skip_whitespace();
        if self.position >= self.length {
            return Token::EOF;
        }
        let c = self.input.as_str().get_char(self.position);
        if is_letter(c) {
            let literal = self.read_identifier();
            return identifier(literal.as_str());
        }
        if is_digit(c) {
            self.read_number();
            return Token::INT;
        }
        let kind = if c == '=' {
            Token::ASSIGN
        } else if c == '+' {
            Token::PLUS
        } else if c == '-' {
            Token::MINUS
        } else if c == '*' {
            Token::ASTERISK
        } else if c == '{' {
            Token::LeftBrace
        } else if c == '}' {
            Token::RightBrace
        } else if c == '[' {
            Token::LeftBracket
        } else if c == ']' {
            Token::RightBracket
        } else if c == '(' {
            Token::LeftParenthesis
        } else if c == ')' {
            Token::RightParenthesis
        } else if c == ':' {
            Token::COLON
        } else if c == ',' {
            Token::COMMA
        } else if c == '\0' {
            Token::EOF
        } else {
            Token::ILLEGAL
        };
        self.read_char();
        kind
    }
}

} // verus!
