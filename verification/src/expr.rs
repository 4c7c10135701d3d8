//! Expressions: the tagged union the parser produces and the evaluator
//! reduces.

use vstd::prelude::*;

use crate::token::Token;
use crate::token::TokenView;

verus! {

broadcast use vstd::seq::axiom_seq_index_decreases, vstd::std_specs::vec::axiom_vec_index_decreases;

/// An expression. The evaluator reduces every expression to a terminal
/// [`Expr::Literal`] or [`Expr::Vector`] (or returns [`Expr::Error`] for a
/// shape it cannot reduce); [`Expr::Error`] is also the placeholder a parse
/// failure leaves behind.
#[derive(Debug, PartialEq)]
pub enum Expr {
    /// Assignment to a named variable: the name token, the value, and the
    /// kind tag the parser attached to the variable.
    Assign(Token, Box<Expr>, String),
    /// A parenthesised expression.
    Grouping(Box<Expr>),
    /// An integer literal.
    Literal(i128),
    /// Member-style write, reserved for future structured values.
    SetMember(Box<Expr>, Token, Box<Expr>),
    /// A vector value: the token it was read at and its elements.
    Vector(Token, Vec<i128>),
    /// A matrix value, reserved: the parser never builds one today.
    Matrix(Vec<Vec<i128>>),
    /// A function call, reserved grammar hook.
    FunctionCall(Box<Expr>, Vec<Expr>),
    /// A binary operation: left operand, operator token, right operand.
    Binary(Box<Expr>, Token, Box<Expr>),
    /// A variable read: the name token and the parser's kind tag.
    Variable(Token, String),
    /// Member-style read, reserved for future structured values.
    Get(String, Token),
    /// A unary operation: operator token and operand.
    Unary(Token, Box<Expr>),
    /// Placeholder for an expression that failed to parse; never evaluated
    /// to a valid result.
    Error,
}

/// The mathematical model of an [`Expr`], with token text and kind tags as
/// character sequences.
pub enum ExprView {
    Assign(TokenView, Box<ExprView>, Seq<char>),
    Grouping(Box<ExprView>),
    Literal(i128),
    SetMember(Box<ExprView>, TokenView, Box<ExprView>),
    Vector(TokenView, Seq<i128>),
    Matrix(Seq<Seq<i128>>),
    FunctionCall(Box<ExprView>, Seq<ExprView>),
    Binary(Box<ExprView>, TokenView, Box<ExprView>),
    Variable(TokenView, Seq<char>),
    Get(Seq<char>, TokenView),
    Unary(TokenView, Box<ExprView>),
    Error,
}

/// The model of an expression.
pub open spec fn expr_view(e: Expr) -> ExprView
    decreases e,
{
    match e {
        Expr::Assign(t, v, tag) => ExprView::Assign(t@, Box::new(expr_view(*v)), tag@),
        Expr::Grouping(inner) => ExprView::Grouping(Box::new(expr_view(*inner))),
        Expr::Literal(n) => ExprView::Literal(n),
        Expr::SetMember(obj, t, v) => ExprView::SetMember(
            Box::new(expr_view(*obj)),
            t@,
            Box::new(expr_view(*v)),
        ),
        Expr::Vector(t, elems) => ExprView::Vector(t@, elems@),
        Expr::Matrix(rows) => ExprView::Matrix(rows@.map_values(|row: Vec<i128>| row@)),
        Expr::FunctionCall(callee, args) => {
            proof {
                assert(decreases_to!(e => args));
                assert(decreases_to!(args => args@));
            }
            ExprView::FunctionCall(Box::new(expr_view(*callee)), exprs_view(args@))
        },
        Expr::Binary(l, op, r) => ExprView::Binary(
            Box::new(expr_view(*l)),
            op@,
            Box::new(expr_view(*r)),
        ),
        Expr::Variable(t, tag) => ExprView::Variable(t@, tag@),
        Expr::Get(name, t) => ExprView::Get(name@, t@),
        Expr::Unary(op, inner) => ExprView::Unary(op@, Box::new(expr_view(*inner))),
        Expr::Error => ExprView::Error,
    }
}

/// The models of a sequence of expressions.
pub open spec fn exprs_view(es: Seq<Expr>) -> Seq<ExprView>
    decreases es,
{
    if es.len() == 0 {
        Seq::empty()
    } else {
        proof {
            broadcast use vstd::seq::axiom_seq_index_decreases, vstd::seq::axiom_seq_subrange_decreases;

            assert(decreases_to!(es => es[0]));
        }
        seq![expr_view(es[0])] + exprs_view(es.drop_first())
    }
}

impl View for Expr {
    type V = ExprView;

    open spec fn view(&self) -> ExprView {
        expr_view(*self)
    }
}

} // verus!
