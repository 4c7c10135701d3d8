//! The parser: a recursive-descent, precedence-climbing consumer of
//! tokens that produces statements.
//!
//! Grammar, precedence low to high:
//! `assignment -> addition ( '=' assignment )?`,
//! `addition -> multiplication ( ('+'|'-') multiplication )*`,
//! `multiplication -> unary ( ('*'|'/') unary )*`,
//! `unary -> ('-'|'!') unary | primary`,
//! `primary -> IDENT | INT | '(' expression ')' | '{' INT (',' INT)* '}'`.
//! Statement level: `scalar IDENT`, `vector IDENT '[' INT ']'` and
//! `matrix IDENT '[' INT ',' INT ']'` declarations, each terminated by an
//! end-of-line token; `print` followed by an expression; and a bare
//! expression statement. A parse fault aborts the construct; parsing then
//! skips to the next statement boundary and goes on, so one malformed
//! statement is dropped without corrupting the rest.

use vstd::prelude::*;

use crate::error_types::DodoParseError;
use crate::expr::Expr;
use crate::expr::ExprView;
use crate::numbers::digits_value;
use crate::numbers::is_digit_seq;
use crate::numbers::parse_i128;
use crate::stmt::Stmt;
use crate::stmt::StmtView;
use crate::stmt::stmts_view;
use crate::token::Token;
use crate::token::TokenType;
use crate::token::TokenView;

verus! {

/// The kind of the token at `i`, end-of-input past the end.
pub open spec fn tok_kind(toks: Seq<TokenView>, i: int) -> TokenType {
    if 0 <= i < toks.len() {
        toks[i].token_type
    } else {
        TokenType::EOF
    }
}

/// Whether an integer token's text denotes a value a literal can hold.
pub open spec fn int_text_ok(v: Seq<char>) -> bool {
    v.len() > 0 && is_digit_seq(v) && digits_value(v) <= i128::MAX
}

/// Parses a primary expression at `i`: an identifier, an integer literal,
/// a parenthesised expression, or a braced vector literal. `None` is a
/// parse fault, with the position it was noticed at.
pub open spec fn spec_primary(toks: Seq<TokenView>, i: int) -> (Option<ExprView>, int)
    decreases toks.len() - i, 0int,
{
    if tok_kind(toks, i) == TokenType::IDENT {
        (Some(ExprView::Variable(toks[i], "literal"@)), i + 1)
    } else if tok_kind(toks, i) == TokenType::INT {
        let v = toks[i].val;
        if int_text_ok(v) {
            (Some(ExprView::Literal(digits_value(v) as i128)), i + 1)
        } else {
            (None, i + 1)
        }
    } else if tok_kind(toks, i) == TokenType::LeftParenthesis {
        let (e, j) = spec_expression(toks, i + 1);
        match e {
            None => (None, j),
            Some(inner) => if tok_kind(toks, j) == TokenType::RightParenthesis {
                (Some(ExprView::Grouping(Box::new(inner))), j + 1)
            } else {
                (None, j)
            },
        }
    } else if tok_kind(toks, i) == TokenType::LeftBrace {
        if tok_kind(toks, i + 1) == TokenType::LeftBrace {
            (None, i + 1)
        } else if tok_kind(toks, i + 1) == TokenType::INT {
            let v = toks[i + 1].val;
            if int_text_ok(v) {
                let (elems, k) = spec_vector_rest(toks, i + 2, seq![digits_value(v) as i128]);
                match elems {
                    None => (None, k),
                    Some(items) => (Some(ExprView::Vector(toks[i], items)), k),
                }
            } else {
                (None, i + 2)
            }
        } else {
            (None, i + 1)
        }
    } else {
        (None, i)
    }
}

/// Parses the remainder of a vector literal's body after its first
/// element: commas are skipped, integers extend the elements, a closing
/// brace ends it, and anything else is a fault.
pub open spec fn spec_vector_rest(toks: Seq<TokenView>, i: int, acc: Seq<i128>) -> (Option<
    Seq<i128>,
>, int)
    decreases toks.len() - i,
{
    if tok_kind(toks, i) == TokenType::COMMA {
        spec_vector_rest(toks, i + 1, acc)
    } else if tok_kind(toks, i) == TokenType::INT {
        let v = toks[i].val;
        if int_text_ok(v) {
            spec_vector_rest(toks, i + 1, acc.push(digits_value(v) as i128))
        } else {
            (None, i + 1)
        }
    } else if tok_kind(toks, i) == TokenType::RightBrace {
        (Some(acc), i + 1)
    } else {
        (None, i)
    }
}

/// Parses a unary expression at `i`: any run of `-` or `!` operators
/// applied to a primary expression.
pub open spec fn spec_unary(toks: Seq<TokenView>, i: int) -> (Option<ExprView>, int)
    decreases toks.len() - i, 1int,
{
    if tok_kind(toks, i) == TokenType::MINUS || tok_kind(toks, i) == TokenType::BANG {
        let op = toks[i];
        let (e, j) = spec_unary(toks, i + 1);
        match e {
            None => (None, j),
            Some(inner) => (Some(ExprView::Unary(op, Box::new(inner))), j),
        }
    } else {
        spec_primary(toks, i)
    }
}

/// Folds further `*` and `/` operands onto `acc`, left-associatively.
pub open spec fn spec_multiplication_rest(toks: Seq<TokenView>, i: int, acc: ExprView) -> (Option<
    ExprView,
>, int)
    decreases toks.len() - i, 2int,
{
    if tok_kind(toks, i) == TokenType::ASTERISK || tok_kind(toks, i) == TokenType::SLASH {
        let op = toks[i];
        let (r, k) = spec_unary(toks, i + 1);
        match r {
            None => (None, k),
            Some(rhs) => {
                let acc2 = ExprView::Binary(Box::new(acc), op, Box::new(rhs));
                if i + 1 <= k <= toks.len() {
                    spec_multiplication_rest(toks, k, acc2)
                } else {
                    (Some(acc2), k)
                }
            },
        }
    } else {
        (Some(acc), i)
    }
}

/// Parses a multiplication at `i`: unary operands folded left under `*`
/// and `/`.
pub open spec fn spec_multiplication(toks: Seq<TokenView>, i: int) -> (Option<ExprView>, int)
    decreases toks.len() - i, 3int,
{
    let (e, j) = spec_unary(toks, i);
    match e {
        None => (None, j),
        Some(first) => if i <= j <= toks.len() {
            spec_multiplication_rest(toks, j, first)
        } else {
            (Some(first), j)
        },
    }
}

/// Folds further `+` and `-` operands onto `acc`, left-associatively.
pub open spec fn spec_addition_rest(toks: Seq<TokenView>, i: int, acc: ExprView) -> (Option<
    ExprView,
>, int)
    decreases toks.len() - i, 4int,
{
    if tok_kind(toks, i) == TokenType::MINUS || tok_kind(toks, i) == TokenType::PLUS {
        let op = toks[i];
        let (r, k) = spec_multiplication(toks, i + 1);
        match r {
            None => (None, k),
            Some(rhs) => {
                let acc2 = ExprView::Binary(Box::new(acc), op, Box::new(rhs));
                if i + 1 <= k <= toks.len() {
                    spec_addition_rest(toks, k, acc2)
                } else {
                    (Some(acc2), k)
                }
            },
        }
    } else {
        (Some(acc), i)
    }
}

/// Parses an addition at `i`: multiplications folded left under `+` and
/// `-`.
pub open spec fn spec_addition(toks: Seq<TokenView>, i: int) -> (Option<ExprView>, int)
    decreases toks.len() - i, 5int,
{
    let (e, j) = spec_multiplication(toks, i);
    match e {
        None => (None, j),
        Some(first) => if i <= j <= toks.len() {
            spec_addition_rest(toks, j, first)
        } else {
            (Some(first), j)
        },
    }
}

/// Parses an assignment at `i`. Assignment is right-recursive and only
/// legal when the left-hand side is a variable (giving an assignment) or
/// a member read (giving a member write); any other left-hand shape
/// yields the error placeholder, though the right-hand side is still
/// consumed.
pub open spec fn spec_assignment(toks: Seq<TokenView>, i: int) -> (Option<ExprView>, int)
    decreases toks.len() - i, 6int,
{
    let (e, j) = spec_addition(toks, i);
    match e {
        None => (None, j),
        Some(lhs) => if tok_kind(toks, j) == TokenType::ASSIGN && i <= j {
            let (r, k) = spec_assignment(toks, j + 1);
            match r {
                None => (None, k),
                Some(value) => match lhs {
                    ExprView::Variable(tok, ty) => (
                        Some(ExprView::Assign(tok, Box::new(value), ty)),
                        k,
                    ),
                    ExprView::Get(name, tok) => (
                        Some(
                            ExprView::SetMember(
                                Box::new(ExprView::Get(name, tok)),
                                tok,
                                Box::new(value),
                            ),
                        ),
                        k,
                    ),
                    _ => (Some(ExprView::Error), k),
                },
            }
        } else {
            (Some(lhs), j)
        },
    }
}

/// Parses an expression at `i`: the lowest-precedence level, assignment.
pub open spec fn spec_expression(toks: Seq<TokenView>, i: int) -> (Option<ExprView>, int)
    decreases toks.len() - i, 7int,
{
    spec_assignment(toks, i)
}

/// Parses `scalar IDENT` from the name at `i`: both size arguments are
/// unused and read `0`.
pub open spec fn spec_scalar_declaration(toks: Seq<TokenView>, i: int) -> (Option<StmtView>, int) {
    if tok_kind(toks, i) != TokenType::IDENT {
        (None, i)
    } else if tok_kind(toks, i + 1) != TokenType::NewLine {
        (None, i + 1)
    } else {
        (
            Some(
                StmtView::Definition(
                    TokenView { token_type: TokenType::SCALAR, val: toks[i].val },
                    "0"@,
                    "0"@,
                ),
            ),
            i + 2,
        )
    }
}

/// Parses `vector IDENT '[' INT ']'` from the name at `i`: the first size
/// argument is the length, the second reads `1`.
pub open spec fn spec_vector_declaration(toks: Seq<TokenView>, i: int) -> (Option<StmtView>, int) {
    if tok_kind(toks, i) != TokenType::IDENT {
        (None, i)
    } else if tok_kind(toks, i + 1) != TokenType::LeftBracket {
        (None, i + 1)
    } else if tok_kind(toks, i + 2) != TokenType::INT {
        (None, i + 2)
    } else if tok_kind(toks, i + 3) != TokenType::RightBracket {
        (None, i + 3)
    } else if tok_kind(toks, i + 4) != TokenType::NewLine {
        (None, i + 4)
    } else {
        (
            Some(
                StmtView::Definition(
                    TokenView { token_type: TokenType::VECTOR, val: toks[i].val },
                    toks[i + 2].val,
                    "1"@,
                ),
            ),
            i + 5,
        )
    }
}

/// Parses `matrix IDENT '[' INT ',' INT ']'` from the name at `i`: the
/// two size arguments are the row and column counts.
pub open spec fn spec_matrix_declaration(toks: Seq<TokenView>, i: int) -> (Option<StmtView>, int) {
    if tok_kind(toks, i) != TokenType::IDENT {
        (None, i)
    } else if tok_kind(toks, i + 1) != TokenType::LeftBracket {
        (None, i + 1)
    } else if tok_kind(toks, i + 2) != TokenType::INT {
        (None, i + 2)
    } else if tok_kind(toks, i + 3) != TokenType::COMMA {
        (None, i + 3)
    } else if tok_kind(toks, i + 4) != TokenType::INT {
        (None, i + 4)
    } else if tok_kind(toks, i + 5) != TokenType::RightBracket {
        (None, i + 5)
    } else if tok_kind(toks, i + 6) != TokenType::NewLine {
        (None, i + 6)
    } else {
        (
            Some(
                StmtView::Definition(
                    TokenView { token_type: TokenType::MATRIX, val: toks[i].val },
                    toks[i + 2].val,
                    toks[i + 4].val,
                ),
            ),
            i + 7,
        )
    }
}

/// Parses `print` followed by an expression and an end-of-line, from the
/// position after the keyword.
pub open spec fn spec_print_statement(toks: Seq<TokenView>, i: int) -> (Option<StmtView>, int) {
    let (e, j) = spec_expression(toks, i);
    match e {
        None => (None, j),
        Some(value) => if tok_kind(toks, j) == TokenType::NewLine {
            (Some(StmtView::Print(value)), j + 1)
        } else {
            (None, j)
        },
    }
}

/// Parses a bare expression statement terminated by an end-of-line.
pub open spec fn spec_expression_statement(toks: Seq<TokenView>, i: int) -> (Option<
    StmtView,
>, int) {
    let (e, j) = spec_expression(toks, i);
    match e {
        None => (None, j),
        Some(value) => if tok_kind(toks, j) == TokenType::NewLine {
            (Some(StmtView::Expression(value)), j + 1)
        } else {
            (None, j)
        },
    }
}

/// Parses a statement at `i`: a `print` statement, else a bare expression
/// statement.
pub open spec fn spec_statement(toks: Seq<TokenView>, i: int) -> (Option<StmtView>, int) {
    if tok_kind(toks, i) == TokenType::PRINT {
        spec_print_statement(toks, i + 1)
    } else {
        spec_expression_statement(toks, i)
    }
}

/// Parses a declaration at `i` when one of the declaration keywords
/// starts it, and falls through to a statement otherwise.
pub open spec fn spec_declaration(toks: Seq<TokenView>, i: int) -> (Option<StmtView>, int) {
    if tok_kind(toks, i) == TokenType::SCALAR {
        spec_scalar_declaration(toks, i + 1)
    } else if tok_kind(toks, i) == TokenType::VECTOR {
        spec_vector_declaration(toks, i + 1)
    } else if tok_kind(toks, i) == TokenType::MATRIX {
        spec_matrix_declaration(toks, i + 1)
    } else {
        spec_statement(toks, i)
    }
}

/// Where skipping from position `i` stops: at end-of-input, right after a
/// newline, or in front of a statement keyword.
pub open spec fn spec_sync_loop(toks: Seq<TokenView>, i: int) -> int
    decreases toks.len() - i,
{
    if i >= toks.len() || tok_kind(toks, i) == TokenType::EOF {
        i
    } else if tok_kind(toks, i - 1) == TokenType::NewLine {
        i
    } else if tok_kind(toks, i) == TokenType::SCALAR || tok_kind(toks, i) == TokenType::MATRIX
        || tok_kind(toks, i) == TokenType::FOR || tok_kind(toks, i) == TokenType::PRINT {
        i
    } else {
        spec_sync_loop(toks, i + 1)
    }
}

/// Error synchronisation: after a parse fault, skip to the next statement
/// boundary (the next end-of-line or the next statement keyword), so the
/// following statements still parse.
pub open spec fn spec_sync(toks: Seq<TokenView>, i: int) -> int {
    if i >= toks.len() || tok_kind(toks, i) == TokenType::EOF {
        i
    } else {
        spec_sync_loop(toks, i + 1)
    }
}

/// The statements parsing yields from position `i` to the end of the
/// input: declarations and statements in order, with a faulting statement
/// dropped and parsing resuming at the next boundary.
pub open spec fn spec_parse_from(toks: Seq<TokenView>, i: int) -> Seq<StmtView>
    decreases toks.len() - i,
{
    if i >= toks.len() || tok_kind(toks, i) == TokenType::EOF {
        Seq::empty()
    } else {
        let (s, j) = spec_declaration(toks, i);
        match s {
            Some(st) => if i < j <= toks.len() {
                seq![st] + spec_parse_from(toks, j)
            } else {
                seq![st]
            },
            None => {
                let k = spec_sync(toks, j);
                if i < k <= toks.len() {
                    spec_parse_from(toks, k)
                } else {
                    Seq::empty()
                }
            },
        }
    }
}

} // verus!

verus! {

/// The recursive-descent parser: the token sequence and the index of the
/// next unconsumed token.
pub struct Parser {
    tokens: Vec<Token>,
    current: usize,
}

impl Parser {
    /// The models of the tokens being parsed.
    pub closed spec fn toks(self) -> Seq<TokenView> {
        self.tokens@.map_values(|t: Token| t@)
    }

    /// The index of the next unconsumed token.
    pub closed spec fn pos(self) -> int {
        self.current as int
    }

    /// The parser's invariant: the token sequence is terminated by an
    /// end-of-input token, which is never consumed, so the position stays
    /// in range.
    pub open spec fn wf(self) -> bool {
        self.toks().len() >= 1 && self.toks().last().token_type == TokenType::EOF && self.pos()
            < self.toks().len()
    }

    /// Whether the parser stands on the end-of-input token.
    pub open spec fn spec_at_end(self) -> bool {
        self.toks()[self.pos()].token_type == TokenType::EOF
    }

    /// A parser over `tokens`, which must be terminated by an
    /// end-of-input token, as the lexer yields them.
    pub fn new(tokens: Vec<Token>) -> (p: Parser)
        requires
            tokens@.len() >= 1,
            tokens@[tokens@.len() - 1]@.token_type == TokenType::EOF,
        ensures
            p.wf(),
            p.toks() == tokens@.map_values(|t: Token| t@),
            p.pos() == 0,
    {
        Parser { tokens, current: 0 }
    }

    /// The token the parser stands on.
    fn peek(&mut self) -> (t: Token)
        requires
            old(self).wf(),
        ensures
            *final(self) == *old(self),
            t@ == old(self).toks()[old(self).pos()],
    {
        self.tokens[self.current].clone()
    }

    /// The token just consumed.
    fn previous(&mut self) -> (t: Token)
        requires
            old(self).wf(),
            old(self).pos() >= 1,
        ensures
            *final(self) == *old(self),
            t@ == old(self).toks()[old(self).pos() - 1],
    {
        let index = self.current;
        self.tokens[index - 1].clone()
    }

    /// Whether the parser stands on the end-of-input token.
    fn at_end(&mut self) -> (r: bool)
        requires
            old(self).wf(),
        ensures
            *final(self) == *old(self),
            r == old(self).spec_at_end(),
    {
        match self.peek().token_type {
            TokenType::EOF => true,
            _ => false,
        }
    }

    /// Whether the parser stands on a token of the given kind; never true
    /// at the end of the input.
    fn check(&mut self, token_type: TokenType) -> (r: bool)
        requires
            old(self).wf(),
        ensures
            *final(self) == *old(self),
            r == (!old(self).spec_at_end() && old(self).toks()[old(self).pos()].token_type
                == token_type),
    {
        match self.at_end() {
            true => false,
            _ => self.peek().token_type == token_type,
        }
    }

    /// Consumes the current token unless the parser is at the end, and
    /// returns the token just consumed (or, at the end, the one before
    /// the end-of-input token).
    fn advance(&mut self) -> (t: Token)
        requires
            old(self).wf(),
            old(self).spec_at_end() ==> old(self).pos() >= 1,
        ensures
            final(self).wf(),
            final(self).toks() == old(self).toks(),
            final(self).pos() == if !old(self).spec_at_end() {
                old(self).pos() + 1
            } else {
                old(self).pos()
            },
            t@ == old(self).toks()[final(self).pos() - 1],
    {
        let n = self.tokens.len();
        if !self.at_end() {
            proof {
                assert(old(self).toks().last() == old(self).toks()[old(self).toks().len() - 1]);
            }
            self.current = self.current + 1;
        }
        self.previous()
    }

    /// Consumes the current token when it matches one of the given kinds;
    /// reports whether it did.
    fn match_token(&mut self, token_types: Vec<TokenType>) -> (r: bool)
        requires
            old(self).wf(),
        ensures
            final(self).wf(),
            final(self).toks() == old(self).toks(),
            r == (!old(self).spec_at_end() && token_types@.contains(
                old(self).toks()[old(self).pos()].token_type,
            )),
            r ==> final(self).pos() == old(self).pos() + 1,
            !r ==> final(self).pos() == old(self).pos(),
    {
        let n = token_types.len();
        let mut i: usize = 0;
        while i < n
            invariant
                old(self).wf(),
                *self == *old(self),
                0 <= i <= n,
                n == token_types@.len(),
                !old(self).spec_at_end() ==> forall|j: int|
                    0 <= j < i ==> old(self).toks()[old(self).pos()].token_type != token_types@[j],
            decreases n - i,
        {
            if self.check(token_types[i]) {
                proof {
                    assert(token_types@.contains(old(self).toks()[old(self).pos()].token_type));
                }
                self.advance();
                return true;
            }
            i = i + 1;
        }
        proof {
            if !old(self).spec_at_end() && token_types@.contains(
                old(self).toks()[old(self).pos()].token_type,
            ) {
                let j = choose|j: int|
                    0 <= j < token_types@.len() && token_types@[j] == old(self).toks()[old(
                        self,
                    ).pos()].token_type;
                assert(false);
            }
        }
        false
    }

    /// Consumes a token of the expected kind, or reports a parse fault
    /// without advancing. The message accompanies the fault when the
    /// driver reports it.
    #[allow(unused_variables)]
    fn consume(&mut self, token_type: TokenType, message: String) -> (r: Result<
        Token,
        DodoParseError,
    >)
        requires
            old(self).wf(),
        ensures
            final(self).wf(),
            final(self).toks() == old(self).toks(),
            (match r {
                Ok(t) => !old(self).spec_at_end() && old(self).toks()[old(
                    self,
                ).pos()].token_type == token_type && t@ == old(self).toks()[old(self).pos()]
                    && final(self).pos() == old(self).pos() + 1,
                Err(_) => !(!old(self).spec_at_end() && old(self).toks()[old(
                    self,
                ).pos()].token_type == token_type) && *final(self) == *old(self),
            }),
    {
        match self.check(token_type) {
            true => Ok(self.advance()),
            _ => Err(DodoParseError),
        }
    }

    /// Wraps a fault at `token` for the driver to report.
    #[allow(dead_code)]
    #[allow(unused_variables)]
    fn error(&mut self, token: Token, message: String) -> (r: DodoParseError)
        ensures
            *final(self) == *old(self),
    {
        DodoParseError
    }
}

} // verus!

verus! {

impl Parser {
    /// Parses one expression, the lowest-precedence level.
    #[verifier::loop_isolation(false)]
    pub(crate) fn expression(&mut self) -> (r: Result<Expr, DodoParseError>)
        requires
            old(self).wf(),
        ensures
            final(self).wf(),
            final(self).toks() == old(self).toks(),
            final(self).pos() == spec_expression(old(self).toks(), old(self).pos()).1,
            final(self).pos() >= old(self).pos(),
            r is Ok ==> final(self).pos() > old(self).pos(),
            (match (r, spec_expression(old(self).toks(), old(self).pos()).0) {
                (Ok(e), Some(v)) => e@ == v,
                (Err(_), None) => true,
                _ => false,
            }),
        decreases old(self).toks().len() - old(self).pos(), 5int,
    {
        self.assignment()
    }

    /// Parses an assignment: an addition, optionally followed by `=` and a
    /// right-recursive assignment. Only a variable (or member read) may
    /// stand on the left; any other shape yields the error placeholder.
    #[verifier::loop_isolation(false)]
    fn assignment(&mut self) -> (r: Result<Expr, DodoParseError>)
        requires
            old(self).wf(),
        ensures
            final(self).wf(),
            final(self).toks() == old(self).toks(),
            final(self).pos() == spec_assignment(old(self).toks(), old(self).pos()).1,
            final(self).pos() >= old(self).pos(),
            r is Ok ==> final(self).pos() > old(self).pos(),
            (match (r, spec_assignment(old(self).toks(), old(self).pos()).0) {
                (Ok(e), Some(v)) => e@ == v,
                (Err(_), None) => true,
                _ => false,
            }),
        decreases old(self).toks().len() - old(self).pos(), 4int,
    {
        let expr = match self.addition() {
            Ok(e) => e,
            Err(e) => {
                return Err(e);
            },
        };
        if self.match_token(vec![TokenType::ASSIGN]) {
            let value = match self.assignment() {
                Ok(v) => v,
                Err(e) => {
                    return Err(e);
                },
            };
            return match expr {
                Expr::Variable(token, variable_type) => Ok(
                    Expr::Assign(token, Box::new(value), variable_type),
                ),
                Expr::Get(name, token) => Ok(
                    Expr::SetMember(
                        Box::new(Expr::Get(name, token.clone())),
                        token,
                        Box::new(value),
                    ),
                ),
                _ => Ok(Expr::Error),
            };
        }
        Ok(expr)
    }

    /// Parses an addition: multiplications folded left under `+` and `-`.
    #[verifier::loop_isolation(false)]
    #[verifier::rlimit(40)]
    fn addition(&mut self) -> (r: Result<Expr, DodoParseError>)
        requires
            old(self).wf(),
        ensures
            final(self).wf(),
            final(self).toks() == old(self).toks(),
            final(self).pos() == spec_addition(old(self).toks(), old(self).pos()).1,
            final(self).pos() >= old(self).pos(),
            r is Ok ==> final(self).pos() > old(self).pos(),
            (match (r, spec_addition(old(self).toks(), old(self).pos()).0) {
                (Ok(e), Some(v)) => e@ == v,
                (Err(_), None) => true,
                _ => false,
            }),
        decreases old(self).toks().len() - old(self).pos(), 3int,
    {
        let mut expr = match self.multiplication() {
            Ok(e) => e,
            Err(e) => {
                return Err(e);
            },
        };
        while self.match_token(vec![TokenType::MINUS, TokenType::PLUS])
            invariant
                self.wf(),
                self.toks() == old(self).toks(),
                self.pos() > old(self).pos(),
                spec_addition(old(self).toks(), old(self).pos()) == spec_addition_rest(
                    self.toks(),
                    self.pos(),
                    expr@,
                ),
            decreases self.toks().len() - self.pos(),
        {
            let operator = self.previous();
            let right = match self.multiplication() {
                Ok(e) => e,
                Err(e) => {
                    return Err(e);
                },
            };
            expr = Expr::Binary(Box::new(expr), operator, Box::new(right));
        }
        Ok(expr)
    }

    /// Parses a multiplication: unary operands folded left under `*` and
    /// `/`.
    #[verifier::loop_isolation(false)]
    fn multiplication(&mut self) -> (r: Result<Expr, DodoParseError>)
        requires
            old(self).wf(),
        ensures
            final(self).wf(),
            final(self).toks() == old(self).toks(),
            final(self).pos() == spec_multiplication(old(self).toks(), old(self).pos()).1,
            final(self).pos() >= old(self).pos(),
            r is Ok ==> final(self).pos() > old(self).pos(),
            (match (r, spec_multiplication(old(self).toks(), old(self).pos()).0) {
                (Ok(e), Some(v)) => e@ == v,
                (Err(_), None) => true,
                _ => false,
            }),
        decreases old(self).toks().len() - old(self).pos(), 2int,
    {
        let mut expr = match self.unary() {
            Ok(e) => e,
            Err(e) => {
                return Err(e);
            },
        };
        while self.match_token(vec![TokenType::ASTERISK, TokenType::SLASH])
            invariant
                self.wf(),
                self.toks() == old(self).toks(),
                self.pos() > old(self).pos(),
                spec_multiplication(old(self).toks(), old(self).pos()) == spec_multiplication_rest(
                    self.toks(),
                    self.pos(),
                    expr@,
                ),
            decreases self.toks().len() - self.pos(),
        {
            let operator = self.previous();
            let right = match self.unary() {
                Ok(e) => e,
                Err(e) => {
                    return Err(e);
                },
            };
            expr = Expr::Binary(Box::new(expr), operator, Box::new(right));
        }
        Ok(expr)
    }

    /// Parses a unary expression: a run of `-` or `!` operators applied to
    /// a primary expression.
    #[verifier::loop_isolation(false)]
    fn unary(&mut self) -> (r: Result<Expr, DodoParseError>)
        requires
            old(self).wf(),
        ensures
            final(self).wf(),
            final(self).toks() == old(self).toks(),
            final(self).pos() == spec_unary(old(self).toks(), old(self).pos()).1,
            final(self).pos() >= old(self).pos(),
            r is Ok ==> final(self).pos() > old(self).pos(),
            (match (r, spec_unary(old(self).toks(), old(self).pos()).0) {
                (Ok(e), Some(v)) => e@ == v,
                (Err(_), None) => true,
                _ => false,
            }),
        decreases old(self).toks().len() - old(self).pos(), 1int,
    {
        if self.match_token(vec![TokenType::MINUS, TokenType::BANG]) {
            let operator = self.previous();
            let right = match self.unary() {
                Ok(e) => e,
                Err(e) => {
                    return Err(e);
                },
            };
            return Ok(Expr::Unary(operator, Box::new(right)));
        }
        self.primary()
    }

    /// Parses a primary expression: an identifier, an integer literal, a
    /// parenthesised expression, or a braced vector literal such as
    /// `{1, 2, 3}`.
    #[verifier::loop_isolation(false)]
    fn primary(&mut self) -> (r: Result<Expr, DodoParseError>)
        requires
            old(self).wf(),
        ensures
            final(self).wf(),
            final(self).toks() == old(self).toks(),
            final(self).pos() == spec_primary(old(self).toks(), old(self).pos()).1,
            final(self).pos() >= old(self).pos(),
            r is Ok ==> final(self).pos() > old(self).pos(),
            (match (r, spec_primary(old(self).toks(), old(self).pos()).0) {
                (Ok(e), Some(v)) => e@ == v,
                (Err(_), None) => true,
                _ => false,
            }),
        decreases old(self).toks().len() - old(self).pos(), 0int,
    {
        if self.match_token(vec![TokenType::IDENT]) {
            return Ok(Expr::Variable(self.previous(), String::from_str("literal")));
        }
        if self.match_token(vec![TokenType::INT]) {
            let tok = self.previous();
            return match parse_i128(tok.val.as_str()) {
                Some(v) => Ok(Expr::Literal(v)),
                None => Err(DodoParseError),
            };
        }
        if self.match_token(vec![TokenType::LeftParenthesis]) {
            let expr = match self.expression() {
                Ok(e) => e,
                Err(e) => {
                    return Err(e);
                },
            };
            return match self.consume(
                TokenType::RightParenthesis,
                String::from_str("Expect )"),
            ) {
                Ok(_) => Ok(Expr::Grouping(Box::new(expr))),
                Err(e) => Err(e),
            };
        }
        if self.match_token(vec![TokenType::LeftBrace]) {
            if self.check(TokenType::LeftBrace) {
                return Err(DodoParseError);
            }
            let token = self.previous();
            let mut vector: Vec<i128> = Vec::new();
            let first = match self.consume(TokenType::INT, String::from_str("Expect )")) {
                Ok(t) => t,
                Err(e) => {
                    return Err(e);
                },
            };
            match parse_i128(first.val.as_str()) {
                Some(v) => vector.push(v),
                None => {
                    return Err(DodoParseError);
                },
            }
            let ghost start_elems = vector@;
            let ghost loop_start = self.pos();
            proof {
                assert(vector@ =~= seq![digits_value(first.val@) as i128]);
            }
            loop
                invariant
                    self.wf(),
                    self.toks() == old(self).toks(),
                    self.pos() > old(self).pos(),
                    spec_vector_rest(old(self).toks(), loop_start, start_elems)
                        == spec_vector_rest(self.toks(), self.pos(), vector@),
                    spec_primary(old(self).toks(), old(self).pos()) == (match spec_vector_rest(
                        old(self).toks(),
                        loop_start,
                        start_elems,
                    ) {
                        (None, k) => (None::<ExprView>, k),
                        (Some(items), k) => (
                            Some(ExprView::Vector(old(self).toks()[old(self).pos()], items)),
                            k,
                        ),
                    }),
                decreases self.toks().len() - self.pos(),
            {
                if self.match_token(vec![TokenType::COMMA]) {
                } else if self.match_token(vec![TokenType::INT]) {
                    let t = self.previous();
                    match parse_i128(t.val.as_str()) {
                        Some(v) => {
                            let ghost before = vector@;
                            vector.push(v);
                            proof {
                                assert(vector@ =~= before.push(digits_value(t.val@) as i128));
                            }
                        },
                        None => {
                            return Err(DodoParseError);
                        },
                    }
                } else if self.match_token(vec![TokenType::RightBrace]) {
                    return Ok(Expr::Vector(token, vector));
                } else {
                    return Err(DodoParseError);
                }
            }
        }
        Err(DodoParseError)
    }
}

} // verus!

verus! {

impl Parser {
    /// Parses `scalar IDENT`, from the name token; `var_type` is that
    /// token, already seen by the caller.
    fn scalar_declaration(&mut self, var_type: Token) -> (r: Result<Stmt, DodoParseError>)
        requires
            old(self).wf(),
            var_type@ == old(self).toks()[old(self).pos()],
        ensures
            final(self).wf(),
            final(self).toks() == old(self).toks(),
            final(self).pos() == spec_scalar_declaration(old(self).toks(), old(self).pos()).1,
            final(self).pos() >= old(self).pos(),
            r is Ok ==> final(self).pos() > old(self).pos(),
            (match (r, spec_scalar_declaration(old(self).toks(), old(self).pos()).0) {
                (Ok(s), Some(v)) => s@ == v,
                (Err(_), None) => true,
                _ => false,
            }),
    {
        let name = match self.consume(TokenType::IDENT, String::from_str("expect")) {
            Ok(t) => t,
            Err(e) => {
                return Err(e);
            },
        };
        match self.consume(TokenType::NewLine, String::from_str("Expect")) {
            Ok(_) => {},
            Err(e) => {
                return Err(e);
            },
        }
        Ok(
            Stmt::Definition(
                Token::new(TokenType::SCALAR, var_type.val),
                String::from_str("0"),
                String::from_str("0"),
            ),
        )
    }

    /// Parses `vector IDENT '[' INT ']'`, from the name token; the first
    /// size argument is the length and the second reads `1`.
    fn vector_declaration(&mut self, var_type: Token) -> (r: Result<Stmt, DodoParseError>)
        requires
            old(self).wf(),
            var_type@ == old(self).toks()[old(self).pos()],
        ensures
            final(self).wf(),
            final(self).toks() == old(self).toks(),
            final(self).pos() == spec_vector_declaration(old(self).toks(), old(self).pos()).1,
            final(self).pos() >= old(self).pos(),
            r is Ok ==> final(self).pos() > old(self).pos(),
            (match (r, spec_vector_declaration(old(self).toks(), old(self).pos()).0) {
                (Ok(s), Some(v)) => s@ == v,
                (Err(_), None) => true,
                _ => false,
            }),
    {
        match self.consume(TokenType::IDENT, String::from_str("expect")) {
            Ok(_) => {},
            Err(e) => {
                return Err(e);
            },
        }
        match self.consume(TokenType::LeftBracket, String::from_str("expect")) {
            Ok(_) => {},
            Err(e) => {
                return Err(e);
            },
        }
        let size = match self.consume(TokenType::INT, String::from_str("expect")) {
            Ok(t) => t,
            Err(e) => {
                return Err(e);
            },
        };
        match self.consume(TokenType::RightBracket, String::from_str("expect")) {
            Ok(_) => {},
            Err(e) => {
                return Err(e);
            },
        }
        match self.consume(TokenType::NewLine, String::from_str("Expect")) {
            Ok(_) => {},
            Err(e) => {
                return Err(e);
            },
        }
        Ok(
            Stmt::Definition(
                Token::new(TokenType::VECTOR, var_type.val),
                size.val,
                String::from_str("1"),
            ),
        )
    }

    /// Parses `matrix IDENT '[' INT ',' INT ']'`, from the name token; the
    /// size arguments are the row and column counts.
    fn matrix_declaration(&mut self, var_type: Token) -> (r: Result<Stmt, DodoParseError>)
        requires
            old(self).wf(),
            var_type@ == old(self).toks()[old(self).pos()],
        ensures
            final(self).wf(),
            final(self).toks() == old(self).toks(),
            final(self).pos() == spec_matrix_declaration(old(self).toks(), old(self).pos()).1,
            final(self).pos() >= old(self).pos(),
            r is Ok ==> final(self).pos() > old(self).pos(),
            (match (r, spec_matrix_declaration(old(self).toks(), old(self).pos()).0) {
                (Ok(s), Some(v)) => s@ == v,
                (Err(_), None) => true,
                _ => false,
            }),
    {
        match self.consume(TokenType::IDENT, String::from_str("expect")) {
            Ok(_) => {},
            Err(e) => {
                return Err(e);
            },
        }
        match self.consume(TokenType::LeftBracket, String::from_str("expect")) {
            Ok(_) => {},
            Err(e) => {
                return Err(e);
            },
        }
        let rows = match self.consume(TokenType::INT, String::from_str("expect")) {
            Ok(t) => t,
            Err(e) => {
                return Err(e);
            },
        };
        match self.consume(TokenType::COMMA, String::from_str("expect")) {
            Ok(_) => {},
            Err(e) => {
                return Err(e);
            },
        }
        let columns = match self.consume(TokenType::INT, String::from_str("expect")) {
            Ok(t) => t,
            Err(e) => {
                return Err(e);
            },
        };
        match self.consume(TokenType::RightBracket, String::from_str("expect")) {
            Ok(_) => {},
            Err(e) => {
                return Err(e);
            },
        }
        match self.consume(TokenType::NewLine, String::from_str("Expect")) {
            Ok(_) => {},
            Err(e) => {
                return Err(e);
            },
        }
        Ok(Stmt::Definition(Token::new(TokenType::MATRIX, var_type.val), rows.val, columns.val))
    }

    /// Parses a `print` statement from the position after the keyword.
    fn print_statement(&mut self) -> (r: Result<Stmt, DodoParseError>)
        requires
            old(self).wf(),
        ensures
            final(self).wf(),
            final(self).toks() == old(self).toks(),
            final(self).pos() == spec_print_statement(old(self).toks(), old(self).pos()).1,
            final(self).pos() >= old(self).pos(),
            r is Ok ==> final(self).pos() > old(self).pos(),
            (match (r, spec_print_statement(old(self).toks(), old(self).pos()).0) {
                (Ok(s), Some(v)) => s@ == v,
                (Err(_), None) => true,
                _ => false,
            }),
    {
        let value = match self.expression() {
            Ok(e) => e,
            Err(e) => {
                return Err(e);
            },
        };
        match self.consume(TokenType::NewLine, String::from_str("Expect ")) {
            Ok(_) => {},
            Err(e) => {
                return Err(e);
            },
        }
        Ok(Stmt::Print(value))
    }

    /// Parses a bare expression statement terminated by an end-of-line.
    fn expression_statement(&mut self) -> (r: Result<Stmt, DodoParseError>)
        requires
            old(self).wf(),
        ensures
            final(self).wf(),
            final(self).toks() == old(self).toks(),
            final(self).pos() == spec_expression_statement(old(self).toks(), old(self).pos()).1,
            final(self).pos() >= old(self).pos(),
            r is Ok ==> final(self).pos() > old(self).pos(),
            (match (r, spec_expression_statement(old(self).toks(), old(self).pos()).0) {
                (Ok(s), Some(v)) => s@ == v,
                (Err(_), None) => true,
                _ => false,
            }),
    {
        let expr = match self.expression() {
            Ok(e) => e,
            Err(e) => {
                return Err(e);
            },
        };
        match self.consume(TokenType::NewLine, String::from_str("Expect ")) {
            Ok(_) => {},
            Err(e) => {
                return Err(e);
            },
        }
        Ok(Stmt::Expression(expr))
    }

    /// Parses one statement: `print`, else a bare expression statement.
    fn statement(&mut self) -> (r: Result<Stmt, DodoParseError>)
        requires
            old(self).wf(),
        ensures
            final(self).wf(),
            final(self).toks() == old(self).toks(),
            final(self).pos() == spec_statement(old(self).toks(), old(self).pos()).1,
            final(self).pos() >= old(self).pos(),
            r is Ok ==> final(self).pos() > old(self).pos(),
            (match (r, spec_statement(old(self).toks(), old(self).pos()).0) {
                (Ok(s), Some(v)) => s@ == v,
                (Err(_), None) => true,
                _ => false,
            }),
    {
        let print_stmt = vec![TokenType::PRINT];
        if self.match_token(print_stmt) {
            return self.print_statement();
        }
        self.expression_statement()
    }

    /// Parses one declaration, falling through to a statement when no
    /// declaration keyword starts here.
    fn declaration(&mut self) -> (r: Result<Stmt, DodoParseError>)
        requires
            old(self).wf(),
        ensures
            final(self).wf(),
            final(self).toks() == old(self).toks(),
            final(self).pos() == spec_declaration(old(self).toks(), old(self).pos()).1,
            final(self).pos() >= old(self).pos(),
            r is Ok ==> final(self).pos() > old(self).pos(),
            (match (r, spec_declaration(old(self).toks(), old(self).pos()).0) {
                (Ok(s), Some(v)) => s@ == v,
                (Err(_), None) => true,
                _ => false,
            }),
    {
        if self.match_token(vec![TokenType::SCALAR]) {
            let var_type = self.peek();
            return self.scalar_declaration(var_type);
        }
        if self.match_token(vec![TokenType::VECTOR]) {
            let token = self.peek();
            return self.vector_declaration(token);
        }
        if self.match_token(vec![TokenType::MATRIX]) {
            let token = self.peek();
            return self.matrix_declaration(token);
        }
        self.statement()
    }

    /// Skips to the next statement boundary after a parse fault: to
    /// end-of-input, past a newline, or in front of a statement keyword.
    #[verifier::loop_isolation(false)]
    fn sync(&mut self)
        requires
            old(self).wf(),
        ensures
            final(self).wf(),
            final(self).toks() == old(self).toks(),
            final(self).pos() == spec_sync(old(self).toks(), old(self).pos()),
            final(self).pos() >= old(self).pos(),
            !old(self).spec_at_end() ==> final(self).pos() > old(self).pos(),
    {
        if self.at_end() {
            return;
        }
        self.advance();
        loop
            invariant
                self.wf(),
                self.toks() == old(self).toks(),
                self.pos() >= old(self).pos() + 1,
                spec_sync(old(self).toks(), old(self).pos()) == spec_sync_loop(
                    self.toks(),
                    self.pos(),
                ),
            decreases self.toks().len() - self.pos(),
        {
            if self.at_end() {
                return;
            }
            let prev = self.previous();
            if prev.token_type == TokenType::NewLine {
                return;
            }
            let next = self.peek();
            match next.token_type {
                TokenType::SCALAR => {
                    return;
                },
                TokenType::MATRIX => {
                    return;
                },
                TokenType::FOR => {
                    return;
                },
                TokenType::PRINT => {
                    return;
                },
                _ => {},
            }
            self.advance();
        }
    }

    /// Parses the whole token sequence into statements, stopping at
    /// end-of-input. A statement that faults is dropped and parsing
    /// resumes at the next statement boundary.
    #[verifier::loop_isolation(false)]
    #[verifier::rlimit(60)]
    pub fn parse(&mut self) -> (r: Vec<Stmt>)
        requires
            old(self).wf(),
        ensures
            final(self).wf(),
            final(self).toks() == old(self).toks(),
            stmts_view(r@) == spec_parse_from(old(self).toks(), old(self).pos()),
    {
        let mut statements: Vec<Stmt> = Vec::new();
        proof {
            assert(stmts_view(statements@) =~= Seq::<StmtView>::empty());
        }
        while !self.at_end()
            invariant
                self.wf(),
                self.toks() == old(self).toks(),
                self.pos() >= old(self).pos(),
                spec_parse_from(old(self).toks(), old(self).pos()) == stmts_view(statements@)
                    + spec_parse_from(self.toks(), self.pos()),
            decreases self.toks().len() - self.pos(),
        {
            let ghost head = self.pos();
            let ghost collected = statements@;
            match self.declaration() {
                Ok(st) => {
                    let ghost stv = st@;
                    statements.push(st);
                    proof {
                        crate::stmt::lemma_stmts_view_index(collected);
                        crate::stmt::lemma_stmts_view_index(statements@);
                        assert(stmts_view(statements@) =~= stmts_view(collected).push(stv));
                        assert(stmts_view(collected) + (seq![stv] + spec_parse_from(
                            self.toks(),
                            self.pos(),
                        )) =~= stmts_view(statements@) + spec_parse_from(self.toks(), self.pos()));
                    }
                },
                Err(_) => {
                    self.sync();
                },
            }
        }
        proof {
            assert(stmts_view(statements@) + spec_parse_from(self.toks(), self.pos())
                =~= stmts_view(statements@));
        }
        statements
    }
}

} // verus!
