//! Statements: the units the parser produces and the interpreter
//! executes in order.

use vstd::prelude::*;

use crate::expr::Expr;
use crate::expr::ExprView;
use crate::expr::expr_view;
use crate::token::Token;
use crate::token::TokenView;

verus! {

broadcast use vstd::seq::axiom_seq_index_decreases, vstd::std_specs::vec::axiom_vec_index_decreases;

/// A statement.
#[derive(Debug, PartialEq)]
pub enum Stmt {
    /// A declaration: a token whose kind says what is declared (scalar,
    /// vector or matrix) and whose text is the declared name, then two
    /// size arguments as raw digit text. A scalar uses neither, a vector
    /// uses the first as its length, a matrix is sized by the second (the
    /// column count; the row count is parsed but not used to shape
    /// storage).
    Definition(Token, String, String),
    /// A bare expression, evaluated for its effects.
    Expression(Expr),
    /// `print`: evaluate and emit the value as a line of text.
    Print(Expr),
    /// A for loop: grammar hook, not executed.
    FOR(Expr, Box<Stmt>),
    /// A function definition: grammar hook, not executed.
    Function(Token, Vec<Token>, Vec<Stmt>),
    /// A comment line, kept but not executed.
    Comment(String),
}

/// The mathematical model of a [`Stmt`].
pub enum StmtView {
    Definition(TokenView, Seq<char>, Seq<char>),
    Expression(ExprView),
    Print(ExprView),
    FOR(ExprView, Box<StmtView>),
    Function(TokenView, Seq<TokenView>, Seq<StmtView>),
    Comment(Seq<char>),
}

/// The model of a statement.
pub open spec fn stmt_view(s: Stmt) -> StmtView
    decreases s,
{
    match s {
        Stmt::Definition(t, a, b) => StmtView::Definition(t@, a@, b@),
        Stmt::Expression(e) => StmtView::Expression(expr_view(e)),
        Stmt::Print(e) => StmtView::Print(expr_view(e)),
        Stmt::FOR(c, body) => StmtView::FOR(expr_view(c), Box::new(stmt_view(*body))),
        Stmt::Function(name, params, body) => {
            proof {
                assert(decreases_to!(s => body));
                assert(decreases_to!(body => body@));
            }
            StmtView::Function(
                name@,
                params@.map_values(|p: Token| p@),
                stmts_view(body@),
            )
        },
        Stmt::Comment(text) => StmtView::Comment(text@),
    }
}

/// `stmts_view` is the element-wise model: same length, the model of the
/// statement at each index.
pub proof fn lemma_stmts_view_index(s: Seq<Stmt>)
    ensures
        stmts_view(s).len() == s.len(),
        forall|i: int| 0 <= i < s.len() ==> stmts_view(s)[i] == stmt_view(s[i]),
    decreases s.len(),
{
    if s.len() > 0 {
        lemma_stmts_view_index(s.drop_first());
    }
}

impl View for Stmt {
    type V = StmtView;

    open spec fn view(&self) -> StmtView {
        stmt_view(*self)
    }
}

/// The models of a sequence of statements.
pub open spec fn stmts_view(s: Seq<Stmt>) -> Seq<StmtView>
    decreases s,
{
    if s.len() == 0 {
        Seq::empty()
    } else {
        proof {
            broadcast use vstd::seq::axiom_seq_index_decreases, vstd::seq::axiom_seq_subrange_decreases;

            assert(decreases_to!(s => s[0]));
        }
        seq![stmt_view(s[0])] + stmts_view(s.drop_first())
    }
}

} // verus!
