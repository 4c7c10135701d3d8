//! The interpreter: a tree-walking evaluator that executes statements in
//! order against one [`Environment`] and collects the lines `print`
//! statements emit.
//!
//! Evaluation reduces an expression to a terminal [`Expr::Literal`] or
//! [`Expr::Vector`] (a hand-built [`Expr::Matrix`] also stands for
//! itself), and yields [`Expr::Error`] for any shape it cannot reduce.
//! Division by zero, reading an unknown variable and arithmetic overflow
//! are runtime faults that stop the run. Operand shape pairs the language
//! leaves unimplemented — vector plus vector, vector plus or minus scalar
//! — deliberately reduce to a zero literal instead of faulting.

use vstd::prelude::*;

use crate::environment::Environment;
use crate::error_types::DodoRuntimeError;
use crate::expr::Expr;
use crate::expr::ExprView;
use crate::numbers::digits_value;
use crate::numbers::is_digit_seq;
use crate::numbers::spec_int_chars;
use crate::numbers::to_decimal;
use crate::numbers::parse_usize;
use crate::stmt::Stmt;
use crate::stmt::StmtView;
use crate::stmt::stmt_view;
use crate::stmt::stmts_view;
use crate::token::Token;
use crate::token::TokenType;
use crate::token::TokenView;

verus! {

/// The state one run threads through statement execution: the variable
/// environment and the lines printed so far.
pub struct InterpState {
    pub env: Map<Seq<char>, Seq<i128>>,
    pub output: Seq<Seq<char>>,
}

/// The result of a scalar-by-scalar arithmetic operation; operators
/// outside `+ - * /` fall through to a zero literal.
pub open spec fn spec_binary_scalar(op: TokenType, a: i128, b: i128) -> Result<
    ExprView,
    DodoRuntimeError,
> {
    if op == TokenType::MINUS {
        match a.checked_sub(b) {
            Some(v) => Ok(ExprView::Literal(v)),
            None => Err(DodoRuntimeError::Overflow),
        }
    } else if op == TokenType::PLUS {
        match a.checked_add(b) {
            Some(v) => Ok(ExprView::Literal(v)),
            None => Err(DodoRuntimeError::Overflow),
        }
    } else if op == TokenType::ASTERISK {
        match a.checked_mul(b) {
            Some(v) => Ok(ExprView::Literal(v)),
            None => Err(DodoRuntimeError::Overflow),
        }
    } else if op == TokenType::SLASH {
        if b == 0 {
            Err(DodoRuntimeError::DivisionByZero)
        } else {
            match a.checked_div(b) {
                Some(v) => Ok(ExprView::Literal(v)),
                None => Err(DodoRuntimeError::Overflow),
            }
        }
    } else {
        Ok(ExprView::Literal(0))
    }
}

/// One element of a scalar broadcast: multiply the element by the scalar,
/// or divide the element by it.
pub open spec fn spec_elem_op(a: i128, s: i128, mul: bool) -> Result<i128, DodoRuntimeError> {
    if mul {
        match a.checked_mul(s) {
            Some(v) => Ok(v),
            None => Err(DodoRuntimeError::Overflow),
        }
    } else {
        if s == 0 {
            Err(DodoRuntimeError::DivisionByZero)
        } else {
            match a.checked_div(s) {
                Some(v) => Ok(v),
                None => Err(DodoRuntimeError::Overflow),
            }
        }
    }
}

/// Broadcasting a scalar over a vector, element by element from the
/// front: each element is multiplied by `s`, or divided by `s`, and the
/// first element that faults decides the fault.
pub open spec fn spec_scale(items: Seq<i128>, s: i128, mul: bool) -> Result<
    Seq<i128>,
    DodoRuntimeError,
>
    decreases items.len(),
{
    if items.len() == 0 {
        Ok(Seq::empty())
    } else {
        match spec_elem_op(items[0], s, mul) {
            Err(e) => Err(e),
            Ok(v) => match spec_scale(items.drop_first(), s, mul) {
                Err(e) => Err(e),
                Ok(rest) => Ok(seq![v] + rest),
            },
        }
    }
}

/// The dot-product-style reduction of two vectors, walking the left
/// operand from the front: each pair is multiplied (or the left element
/// divided by the right), the results are summed, and a left operand
/// longer than the right is a shape fault.
pub open spec fn spec_dot(l: Seq<i128>, r: Seq<i128>, acc: i128, mul: bool) -> Result<
    i128,
    DodoRuntimeError,
>
    decreases l.len(),
{
    if l.len() == 0 {
        Ok(acc)
    } else if r.len() == 0 {
        Err(DodoRuntimeError::ShapeMismatch)
    } else {
        match spec_elem_op(l[0], r[0], mul) {
            Err(e) => Err(e),
            Ok(p) => match acc.checked_add(p) {
                None => Err(DodoRuntimeError::Overflow),
                Some(acc2) => spec_dot(l.drop_first(), r.drop_first(), acc2, mul),
            },
        }
    }
}

/// What a binary operation reduces two already-reduced operands to,
/// dispatching on their shape pair. Shape pairs the language does not
/// implement reduce to a zero literal.
pub open spec fn spec_eval_binary(l: ExprView, r: ExprView, op: TokenType) -> Result<
    ExprView,
    DodoRuntimeError,
> {
    match l {
        ExprView::Literal(a) => match r {
            ExprView::Literal(b) => spec_binary_scalar(op, a, b),
            ExprView::Vector(t, items) => if op == TokenType::ASTERISK {
                match spec_scale(items, a, true) {
                    Ok(v) => Ok(ExprView::Vector(t, v)),
                    Err(e) => Err(e),
                }
            } else if op == TokenType::SLASH {
                match spec_scale(items, a, false) {
                    Ok(v) => Ok(ExprView::Vector(t, v)),
                    Err(e) => Err(e),
                }
            } else {
                Ok(ExprView::Literal(0))
            },
            _ => Ok(ExprView::Literal(0)),
        },
        _ => match r {
            ExprView::Literal(b) => match l {
                ExprView::Vector(t, items) => if op == TokenType::ASTERISK {
                    match spec_scale(items, b, true) {
                        Ok(v) => Ok(ExprView::Vector(t, v)),
                        Err(e) => Err(e),
                    }
                } else if op == TokenType::SLASH {
                    match spec_scale(items, b, false) {
                        Ok(v) => Ok(ExprView::Vector(t, v)),
                        Err(e) => Err(e),
                    }
                } else {
                    Ok(ExprView::Literal(0))
                },
                _ => Ok(ExprView::Literal(0)),
            },
            ExprView::Vector(rt, ritems) => match l {
                ExprView::Vector(lt, litems) => if op == TokenType::ASTERISK {
                    match spec_dot(litems, ritems, 0, true) {
                        Ok(v) => Ok(ExprView::Literal(v)),
                        Err(e) => Err(e),
                    }
                } else if op == TokenType::SLASH {
                    match spec_dot(litems, ritems, 0, false) {
                        Ok(v) => Ok(ExprView::Literal(v)),
                        Err(e) => Err(e),
                    }
                } else {
                    Ok(ExprView::Literal(0))
                },
                _ => Ok(ExprView::Literal(0)),
            },
            _ => Ok(ExprView::Literal(0)),
        },
    }
}

/// Rebinding in the environment: a write to a name that was never defined
/// is silently dropped.
pub open spec fn spec_assign_env(
    env: Map<Seq<char>, Seq<i128>>,
    name: Seq<char>,
    items: Seq<i128>,
) -> Map<Seq<char>, Seq<i128>> {
    if env.contains_key(name) {
        env.insert(name, items)
    } else {
        env
    }
}

/// What assigning an already-reduced vector value to `name` does: the
/// value is stored under the assignment target's name and returned,
/// re-tagged with the target token; any other shape falls back to a
/// one-element zero vector without touching the environment.
pub open spec fn spec_vector_assignment(
    t: TokenView,
    v: ExprView,
    env: Map<Seq<char>, Seq<i128>>,
) -> (ExprView, Map<Seq<char>, Seq<i128>>) {
    match v {
        ExprView::Vector(vt, items) => (
            ExprView::Vector(t, items),
            spec_assign_env(env, t.val, items),
        ),
        _ => (ExprView::Vector(t, seq![0i128]), env),
    }
}

/// What assigning an already-reduced scalar (or, still, vector) value to
/// `name` does: a literal is stored as a one-element sequence, a vector
/// as its elements; any other shape reduces to a zero literal without
/// touching the environment.
pub open spec fn spec_literal_assignment(
    t: TokenView,
    v: ExprView,
    env: Map<Seq<char>, Seq<i128>>,
) -> (ExprView, Map<Seq<char>, Seq<i128>>) {
    match v {
        ExprView::Literal(n) => (ExprView::Literal(n), spec_assign_env(env, t.val, seq![n])),
        ExprView::Vector(vt, items) => (
            ExprView::Vector(t, items),
            spec_assign_env(env, t.val, items),
        ),
        _ => (ExprView::Literal(0), env),
    }
}

/// What negating an already-reduced value gives: arithmetic negation of a
/// literal, a zero literal for every other shape.
pub open spec fn spec_unary_value(v: ExprView) -> Result<ExprView, DodoRuntimeError> {
    match v {
        ExprView::Literal(n) => if n == i128::MIN {
            Err(DodoRuntimeError::Overflow)
        } else {
            Ok(ExprView::Literal((0 - n) as i128))
        },
        _ => Ok(ExprView::Literal(0)),
    }
}

/// What reading the variable `t` names gives: its bound sequence as a
/// vector when it holds more than one element, its single element as a
/// literal otherwise. Reading a name that was never defined, or one bound
/// to an empty sequence, is a fault.
pub open spec fn spec_variable_value(t: TokenView, env: Map<Seq<char>, Seq<i128>>) -> Result<
    ExprView,
    DodoRuntimeError,
> {
    if env.contains_key(t.val) {
        let v = env[t.val];
        if v.len() > 1 {
            Ok(ExprView::Vector(t, v))
        } else if v.len() == 1 {
            Ok(ExprView::Literal(v[0]))
        } else {
            Err(DodoRuntimeError::EmptyValue)
        }
    } else {
        Err(DodoRuntimeError::UnknownVariable)
    }
}

/// Whether an expression is syntactically a vector literal: assignment
/// dispatches on this shape of its unevaluated right-hand side.
pub open spec fn is_vector_expr(e: ExprView) -> bool {
    match e {
        ExprView::Vector(_, _) => true,
        _ => false,
    }
}

/// The evaluation relation: what `e` reduces to and how the environment
/// changes. Operands are evaluated eagerly, left before right; the first
/// fault stops evaluation with the environment as it stands then.
pub open spec fn spec_eval(e: ExprView, env: Map<Seq<char>, Seq<i128>>) -> (Result<
    ExprView,
    DodoRuntimeError,
>, Map<Seq<char>, Seq<i128>>)
    decreases e,
{
    match e {
        ExprView::Literal(_) => (Ok(e), env),
        ExprView::Vector(_, _) => (Ok(e), env),
        ExprView::Matrix(_) => (Ok(e), env),
        ExprView::Grouping(inner) => spec_eval(*inner, env),
        ExprView::Binary(l, op, r) => {
            let (lr, env1) = spec_eval(*l, env);
            match lr {
                Err(err) => (Err(err), env1),
                Ok(lv) => {
                    let (rr, env2) = spec_eval(*r, env1);
                    match rr {
                        Err(err) => (Err(err), env2),
                        Ok(rv) => (spec_eval_binary(lv, rv, op.token_type), env2),
                    }
                },
            }
        },
        ExprView::Unary(op, inner) => {
            let (ir, env1) = spec_eval(*inner, env);
            match ir {
                Err(err) => (Err(err), env1),
                Ok(v) => (spec_unary_value(v), env1),
            }
        },
        ExprView::Assign(t, val, tag) => {
            let (vr, env1) = spec_eval(*val, env);
            match vr {
                Err(err) => (Err(err), env1),
                Ok(v) => if is_vector_expr(*val) {
                    let (res, env2) = spec_vector_assignment(t, v, env1);
                    (Ok(res), env2)
                } else {
                    let (res, env2) = spec_literal_assignment(t, v, env1);
                    (Ok(res), env2)
                },
            }
        },
        ExprView::Variable(t, tag) => (spec_variable_value(t, env), env),
        _ => (Ok(ExprView::Error), env),
    }
}

} // verus!

verus! {

/// Broadcasts the scalar `s` over `items` element by element, multiplying
/// or dividing as [`spec_scale`] says.
fn scale_vec(items: &Vec<i128>, s: i128, mul: bool) -> (r: Result<Vec<i128>, DodoRuntimeError>)
    ensures
        (match (r, spec_scale(items@, s, mul)) {
            (Ok(v), Ok(sv)) => v@ == sv,
            (Err(a), Err(b)) => a == b,
            _ => false,
        }),
{
    let n = items.len();
    let mut out: Vec<i128> = Vec::new();
    let mut i: usize = 0;
    proof {
        assert(items@.skip(0) =~= items@);
        assert(forall|rest: Seq<i128>| #[trigger] (Seq::<i128>::empty() + rest) =~= rest);
    }
    while i < n
        invariant
            0 <= i <= n,
            n == items@.len(),
            spec_scale(items@, s, mul) == (match spec_scale(items@.skip(i as int), s, mul) {
                Ok(rest) => Ok::<Seq<i128>, DodoRuntimeError>(out@ + rest),
                Err(e) => Err::<Seq<i128>, DodoRuntimeError>(e),
            }),
        decreases n - i,
    {
        let a = items[i];
        proof {
            assert(items@.skip(i as int)[0] == items@[i as int]);
            assert(items@.skip(i as int).drop_first() =~= items@.skip(i as int + 1));
        }
        let v = if mul {
            match a.checked_mul(s) {
                Some(v) => v,
                None => {
                    return Err(DodoRuntimeError::Overflow);
                },
            }
        } else {
            if s == 0 {
                return Err(DodoRuntimeError::DivisionByZero);
            }
            match a.checked_div(s) {
                Some(v) => v,
                None => {
                    return Err(DodoRuntimeError::Overflow);
                },
            }
        };
        let ghost out_before = out@;
        out.push(v);
        proof {
            assert(forall|rest: Seq<i128>|
                out_before + (seq![v] + rest) =~= (#[trigger] (out@ + rest)));
        }
        i = i + 1;
    }
    proof {
        assert(items@.skip(n as int) =~= Seq::<i128>::empty());
        assert(out@ + Seq::<i128>::empty() =~= out@);
    }
    Ok(out)
}

/// Reduces two vectors to one scalar: multiplies (or divides) the pairs
/// and sums, as [`spec_dot`] says, walking the left operand.
fn dot_vec(l: &Vec<i128>, r: &Vec<i128>, mul: bool) -> (res: Result<i128, DodoRuntimeError>)
    ensures
        (match (res, spec_dot(l@, r@, 0, mul)) {
            (Ok(v), Ok(sv)) => v == sv,
            (Err(a), Err(b)) => a == b,
            _ => false,
        }),
{
    let n = l.len();
    let mut acc: i128 = 0;
    let mut i: usize = 0;
    proof {
        assert(l@.skip(0) =~= l@);
        assert(r@.skip(0) =~= r@);
    }
    while i < n
        invariant
            0 <= i <= n,
            n == l@.len(),
            i <= r@.len() || i == 0,
            spec_dot(l@, r@, 0, mul) == spec_dot(l@.skip(i as int), r@.skip(i as int), acc, mul),
        decreases n - i,
    {
        proof {
            assert(l@.skip(i as int)[0] == l@[i as int]);
            assert(l@.skip(i as int).drop_first() =~= l@.skip(i as int + 1));
        }
        if i >= r.len() {
            proof {
                assert(r@.skip(i as int).len() == 0);
            }
            return Err(DodoRuntimeError::ShapeMismatch);
        }
        proof {
            assert(r@.skip(i as int)[0] == r@[i as int]);
            assert(r@.skip(i as int).drop_first() =~= r@.skip(i as int + 1));
        }
        let a = l[i];
        let b = r[i];
        let p = if mul {
            match a.checked_mul(b) {
                Some(v) => v,
                None => {
                    return Err(DodoRuntimeError::Overflow);
                },
            }
        } else {
            if b == 0 {
                return Err(DodoRuntimeError::DivisionByZero);
            }
            match a.checked_div(b) {
                Some(v) => v,
                None => {
                    return Err(DodoRuntimeError::Overflow);
                },
            }
        };
        acc = match acc.checked_add(p) {
            Some(v) => v,
            None => {
                return Err(DodoRuntimeError::Overflow);
            },
        };
        i = i + 1;
    }
    proof {
        assert(l@.skip(n as int).len() == 0);
    }
    Ok(acc)
}

} // verus!

verus! {

/// The tree-walking evaluator: owns the environment of one run and
/// collects the lines `print` emits into `output`.
pub struct Interpreter {
    env: Environment,
    /// The lines printed so far, in order.
    pub output: Vec<String>,
}

impl Interpreter {
    /// The interpreter's invariant: its environment is well formed.
    pub closed spec fn wf(self) -> bool {
        self.env.wf()
    }

    /// The mapping the environment currently denotes.
    pub closed spec fn env_view(self) -> Map<Seq<char>, Seq<i128>> {
        self.env@
    }

    /// The lines printed so far, as character sequences.
    pub closed spec fn output_view(self) -> Seq<Seq<char>> {
        self.output@.map_values(|s: String| s@)
    }

    /// An interpreter over the given environment, with nothing printed
    /// yet.
    pub fn new(env: Environment) -> (r: Interpreter)
        requires
            env.wf(),
        ensures
            r.wf(),
            r.env_view() == env@,
            r.output_view() == Seq::<Seq<char>>::empty(),
    {
        let r = Interpreter { env, output: Vec::new() };
        proof {
            assert(r.output_view() =~= Seq::<Seq<char>>::empty());
        }
        r
    }

    /// A literal evaluates to itself.
    pub fn evaluate_literal(&mut self, val: i128) -> (r: i128)
        ensures
            *final(self) == *old(self),
            r == val,
    {
        val
    }

    /// Reduces two already-reduced operands under `operator`, dispatching
    /// on their shape pair as [`spec_eval_binary`] says: scalar
    /// arithmetic, scalar broadcast over a vector, the dot-product-style
    /// vector reduction, and a zero literal for every unimplemented pair.
    pub fn evaluate_binary(&mut self, left: Expr, right: Expr, operator: Token) -> (r: Result<
        Expr,
        DodoRuntimeError,
    >)
        ensures
            *final(self) == *old(self),
            (match (r, spec_eval_binary(left@, right@, operator@.token_type)) {
                (Ok(e), Ok(v)) => e@ == v,
                (Err(a), Err(b)) => a == b,
                _ => false,
            }),
    {
        match left {
            Expr::Literal(a) => match right {
                Expr::Literal(b) => match operator.token_type {
                    TokenType::MINUS => match a.checked_sub(b) {
                        Some(v) => Ok(Expr::Literal(v)),
                        None => Err(DodoRuntimeError::Overflow),
                    },
                    TokenType::PLUS => match a.checked_add(b) {
                        Some(v) => Ok(Expr::Literal(v)),
                        None => Err(DodoRuntimeError::Overflow),
                    },
                    TokenType::ASTERISK => match a.checked_mul(b) {
                        Some(v) => Ok(Expr::Literal(v)),
                        None => Err(DodoRuntimeError::Overflow),
                    },
                    TokenType::SLASH => {
                        if b == 0 {
                            Err(DodoRuntimeError::DivisionByZero)
                        } else {
                            match a.checked_div(b) {
                                Some(v) => Ok(Expr::Literal(v)),
                                None => Err(DodoRuntimeError::Overflow),
                            }
                        }
                    },
                    _ => Ok(Expr::Literal(0)),
                },
                Expr::Vector(t, items) => {
                    if operator.token_type == TokenType::ASTERISK {
                        match scale_vec(&items, a, true) {
                            Ok(v) => Ok(Expr::Vector(t, v)),
                            Err(e) => Err(e),
                        }
                    } else if operator.token_type == TokenType::SLASH {
                        match scale_vec(&items, a, false) {
                            Ok(v) => Ok(Expr::Vector(t, v)),
                            Err(e) => Err(e),
                        }
                    } else {
                        Ok(Expr::Literal(0))
                    }
                },
                _ => Ok(Expr::Literal(0)),
            },
            lother => match right {
                Expr::Literal(b) => match lother {
                    Expr::Vector(t, items) => {
                        if operator.token_type == TokenType::ASTERISK {
                            match scale_vec(&items, b, true) {
                                Ok(v) => Ok(Expr::Vector(t, v)),
                                Err(e) => Err(e),
                            }
                        } else if operator.token_type == TokenType::SLASH {
                            match scale_vec(&items, b, false) {
                                Ok(v) => Ok(Expr::Vector(t, v)),
                                Err(e) => Err(e),
                            }
                        } else {
                            Ok(Expr::Literal(0))
                        }
                    },
                    _ => Ok(Expr::Literal(0)),
                },
                Expr::Vector(rt, ritems) => match lother {
                    Expr::Vector(lt, litems) => {
                        if operator.token_type == TokenType::ASTERISK {
                            match dot_vec(&litems, &ritems, true) {
                                Ok(v) => Ok(Expr::Literal(v)),
                                Err(e) => Err(e),
                            }
                        } else if operator.token_type == TokenType::SLASH {
                            match dot_vec(&litems, &ritems, false) {
                                Ok(v) => Ok(Expr::Literal(v)),
                                Err(e) => Err(e),
                            }
                        } else {
                            Ok(Expr::Literal(0))
                        }
                    },
                    _ => Ok(Expr::Literal(0)),
                },
                _ => Ok(Expr::Literal(0)),
            },
        }
    }

    /// Negates an already-reduced literal; any other shape reduces to a
    /// zero literal. The operator itself plays no part: negation is the
    /// only unary operation the evaluator implements.
    pub fn evaluate_unary(&mut self, expr: Expr) -> (r: Result<Expr, DodoRuntimeError>)
        ensures
            *final(self) == *old(self),
            (match (r, spec_unary_value(expr@)) {
                (Ok(e), Ok(v)) => e@ == v,
                (Err(a), Err(b)) => a == b,
                _ => false,
            }),
    {
        match expr {
            Expr::Literal(val) => {
                if val == i128::MIN {
                    Err(DodoRuntimeError::Overflow)
                } else {
                    Ok(Expr::Literal(-val))
                }
            },
            _ => Ok(Expr::Literal(0)),
        }
    }

    /// Reads the variable `token` names: its bound sequence as a vector
    /// when it holds more than one element, its single element as a
    /// literal otherwise. A name never defined, or one bound to an empty
    /// sequence, is a fault.
    pub fn evaluate_variable(&mut self, token: Token) -> (r: Result<Expr, DodoRuntimeError>)
        requires
            old(self).wf(),
        ensures
            final(self).wf(),
            final(self).env_view() == old(self).env_view(),
            final(self).output_view() == old(self).output_view(),
            (match (r, spec_variable_value(token@, old(self).env_view())) {
                (Ok(e), Ok(v)) => e@ == v,
                (Err(a), Err(b)) => a == b,
                _ => false,
            }),
    {
        let looked = self.env.get(token.clone());
        match looked {
            None => Err(DodoRuntimeError::UnknownVariable),
            Some(vals) => {
                if vals.len() > 1 {
                    let copy = vals.clone();
                    proof {
                        assert(copy@ =~= old(self).env_view()[token@.val]);
                    }
                    Ok(Expr::Vector(token, copy))
                } else if vals.len() == 1 {
                    Ok(Expr::Literal(vals[0]))
                } else {
                    Err(DodoRuntimeError::EmptyValue)
                }
            },
        }
    }

    /// Stores an already-reduced vector value under the assignment
    /// target's name and returns it re-tagged with that token; any other
    /// shape falls back to a one-element zero vector without touching the
    /// environment. Writing to a name never defined is silently dropped.
    pub fn evaluate_vector_assignment(&mut self, token: Token, expr: Expr) -> (r: Expr)
        requires
            old(self).wf(),
        ensures
            final(self).wf(),
            final(self).output_view() == old(self).output_view(),
            r@ == spec_vector_assignment(token@, expr@, old(self).env_view()).0,
            final(self).env_view() == spec_vector_assignment(
                token@,
                expr@,
                old(self).env_view(),
            ).1,
    {
        match expr {
            Expr::Vector(token1, val) => {
                let copy = val.clone();
                proof {
                    assert(copy@ =~= val@);
                }
                self.env.assign(token.clone(), copy);
                Expr::Vector(token, val)
            },
            _ => {
                let mut one = Vec::new();
                one.push(0i128);
                proof {
                    assert(one@ =~= seq![0i128]);
                }
                Expr::Vector(token, one)
            },
        }
    }

    /// Stores an already-reduced literal as a one-element sequence (or a
    /// vector as its elements) under the assignment target's name and
    /// returns the value; any other shape reduces to a zero literal
    /// without touching the environment. Writing to a name never defined
    /// is silently dropped.
    pub fn evaluate_literal_assignment(&mut self, token: Token, expr: Expr) -> (r: Expr)
        requires
            old(self).wf(),
        ensures
            final(self).wf(),
            final(self).output_view() == old(self).output_view(),
            r@ == spec_literal_assignment(token@, expr@, old(self).env_view()).0,
            final(self).env_view() == spec_literal_assignment(
                token@,
                expr@,
                old(self).env_view(),
            ).1,
    {
        match expr {
            Expr::Literal(val) => {
                let mut one = Vec::new();
                one.push(val);
                proof {
                    assert(one@ =~= seq![val]);
                }
                self.env.assign(token, one);
                Expr::Literal(val)
            },
            Expr::Vector(token1, val) => {
                let copy = val.clone();
                proof {
                    assert(copy@ =~= val@);
                }
                self.env.assign(token.clone(), copy);
                Expr::Vector(token, val)
            },
            _ => Expr::Literal(0),
        }
    }

    /// Reduces `expr` to a terminal expression, evaluating operands
    /// eagerly, left before right, exactly as [`spec_eval`] says; the
    /// first fault stops evaluation with the environment as it stands.
    pub fn evaluate(&mut self, expr: Expr) -> (r: Result<Expr, DodoRuntimeError>)
        requires
            old(self).wf(),
        ensures
            final(self).wf(),
            final(self).output_view() == old(self).output_view(),
            final(self).env_view() == spec_eval(expr@, old(self).env_view()).1,
            (match (r, spec_eval(expr@, old(self).env_view()).0) {
                (Ok(e), Ok(v)) => e@ == v,
                (Err(a), Err(b)) => a == b,
                _ => false,
            }),
        decreases expr,
    {
        match expr {
            Expr::Literal(v) => Ok(Expr::Literal(v)),
            Expr::Vector(t, items) => Ok(Expr::Vector(t, items)),
            Expr::Matrix(rows) => Ok(Expr::Matrix(rows)),
            Expr::Grouping(inner) => self.evaluate(*inner),
            Expr::Binary(l, op, r) => {
                let lv = match self.evaluate(*l) {
                    Ok(v) => v,
                    Err(e) => {
                        return Err(e);
                    },
                };
                let rv = match self.evaluate(*r) {
                    Ok(v) => v,
                    Err(e) => {
                        return Err(e);
                    },
                };
                self.evaluate_binary(lv, rv, op)
            },
            Expr::Unary(tok, inner) => {
                let v = match self.evaluate(*inner) {
                    Ok(v) => v,
                    Err(e) => {
                        return Err(e);
                    },
                };
                self.evaluate_unary(v)
            },
            Expr::Assign(tok, val, tag) => {
                let is_vec = match &*val {
                    Expr::Vector(_, _) => true,
                    _ => false,
                };
                let v = match self.evaluate(*val) {
                    Ok(v) => v,
                    Err(e) => {
                        return Err(e);
                    },
                };
                if is_vec {
                    Ok(self.evaluate_vector_assignment(tok, v))
                } else {
                    Ok(self.evaluate_literal_assignment(tok, v))
                }
            },
            Expr::Variable(tok, tag) => self.evaluate_variable(tok),
            _ => Ok(Expr::Error),
        }
    }
}

} // verus!

verus! {

/// The printed text of a vector's elements: decimal values joined by a
/// comma and a space.
pub open spec fn spec_render_elems(items: Seq<i128>) -> Seq<char>
    decreases items.len(),
{
    if items.len() == 0 {
        Seq::empty()
    } else if items.len() == 1 {
        spec_int_chars(items[0] as int)
    } else {
        spec_int_chars(items[0] as int) + ", "@ + spec_render_elems(items.drop_first())
    }
}

/// The printed text of a matrix's rows: each row braced like a vector,
/// joined by a comma and a space.
pub open spec fn spec_render_rows(rows: Seq<Seq<i128>>) -> Seq<char>
    decreases rows.len(),
{
    if rows.len() == 0 {
        Seq::empty()
    } else if rows.len() == 1 {
        seq!['{'] + spec_render_elems(rows[0]) + seq!['}']
    } else {
        seq!['{'] + spec_render_elems(rows[0]) + seq!['}'] + ", "@ + spec_render_rows(
            rows.drop_first(),
        )
    }
}

/// The line a `print` statement emits for a reduced value: decimal text
/// for a literal, braced elements for a vector or matrix, and `Err` for
/// anything evaluation could not reduce.
pub open spec fn spec_render(v: ExprView) -> Seq<char> {
    match v {
        ExprView::Literal(n) => spec_int_chars(n as int),
        ExprView::Vector(t, items) => seq!['{'] + spec_render_elems(items) + seq!['}'],
        ExprView::Matrix(rows) => seq!['{'] + spec_render_rows(rows) + seq!['}'],
        _ => "Err"@,
    }
}

/// Renders a vector's elements as [`spec_render_elems`] says.
fn render_elems(items: &Vec<i128>) -> (r: String)
    ensures
        r@ == spec_render_elems(items@),
{
    let n = items.len();
    let mut out = String::new();
    let mut i: usize = 0;
    proof {
        assert(items@.skip(0) =~= items@);
    }
    while i < n
        invariant
            0 <= i <= n,
            n == items@.len(),
            spec_render_elems(items@) == out@ + spec_render_elems(items@.skip(i as int)),
        decreases n - i,
    {
        proof {
            assert(items@.skip(i as int)[0] == items@[i as int]);
            assert(items@.skip(i as int).drop_first() =~= items@.skip(i as int + 1));
        }
        let piece = to_decimal(items[i]);
        out.append(piece.as_str());
        if i + 1 < n {
            out.append(", ");
            proof {
                assert(spec_render_elems(items@) =~= out@ + spec_render_elems(
                    items@.skip(i as int + 1),
                ));
            }
        } else {
            proof {
                assert(items@.skip(i as int).len() == 1);
                assert(spec_render_elems(items@) =~= out@ + spec_render_elems(
                    items@.skip(i as int + 1),
                ));
            }
        }
        i = i + 1;
    }
    proof {
        assert(out@ + spec_render_elems(items@.skip(n as int)) =~= out@);
    }
    out
}

/// Renders one reduced value as the line `print` emits for it.
pub fn render_expr(e: &Expr) -> (r: String)
    ensures
        r@ == spec_render(e@),
{
    match e {
        Expr::Literal(n) => to_decimal(*n),
        Expr::Vector(t, items) => {
            let mut out = String::from_str("{");
            let body = render_elems(items);
            out.append(body.as_str());
            out.append("}");
            proof {
                reveal_strlit("{");
                reveal_strlit("}");
                assert("{"@ =~= seq!['{']);
                assert("}"@ =~= seq!['}']);
                assert(out@ =~= spec_render(e@));
            }
            out
        },
        Expr::Matrix(rows) => {
            let n = rows.len();
            let ghost rows_view = e@->Matrix_0;
            proof {
                assert(rows_view =~= rows@.map_values(|row: Vec<i128>| row@));
                assert(rows_view.skip(0) =~= rows_view);
            }
            let mut body = String::new();
            let mut i: usize = 0;
            while i < n
                invariant
                    0 <= i <= n,
                    n == rows@.len(),
                    rows_view == rows@.map_values(|row: Vec<i128>| row@),
                    spec_render_rows(rows_view) == body@ + spec_render_rows(
                        rows_view.skip(i as int),
                    ),
                decreases n - i,
            {
                proof {
                    assert(rows_view.skip(i as int)[0] == rows_view[i as int]);
                    assert(rows_view[i as int] == rows@[i as int]@);
                    assert(rows_view.skip(i as int).drop_first() =~= rows_view.skip(i as int + 1));
                }
                body.append("{");
                let elems = render_elems(&rows[i]);
                body.append(elems.as_str());
                body.append("}");
                if i + 1 < n {
                    body.append(", ");
                    proof {
                        reveal_strlit("{");
                        reveal_strlit("}");
                        assert(spec_render_rows(rows_view) =~= body@ + spec_render_rows(
                            rows_view.skip(i as int + 1),
                        ));
                    }
                } else {
                    proof {
                        reveal_strlit("{");
                        reveal_strlit("}");
                        assert(rows_view.skip(i as int).len() == 1);
                        assert(spec_render_rows(rows_view) =~= body@ + spec_render_rows(
                            rows_view.skip(i as int + 1),
                        ));
                    }
                }
                i = i + 1;
            }
            let mut out = String::from_str("{");
            out.append(body.as_str());
            out.append("}");
            proof {
                reveal_strlit("{");
                reveal_strlit("}");
                assert(body@ + spec_render_rows(rows_view.skip(n as int)) =~= body@);
                assert(out@ =~= spec_render(e@));
            }
            out
        },
        _ => String::from_str("Err"),
    }
}

/// A sequence of `n` zeroes: the storage a declaration allocates.
pub open spec fn zero_seq(n: nat) -> Seq<i128> {
    Seq::new(n, |i: int| 0i128)
}

/// A vector of `n` zeroes.
fn zero_vec(n: usize) -> (v: Vec<i128>)
    ensures
        v@ == zero_seq(n as nat),
{
    let mut v: Vec<i128> = Vec::new();
    let mut i: usize = 0;
    while i < n
        invariant
            0 <= i <= n,
            v@ =~= zero_seq(i as nat),
        decreases n - i,
    {
        v.push(0);
        proof {
            assert(v@ =~= zero_seq(i as nat + 1));
        }
        i = i + 1;
    }
    proof {
        assert(v@ =~= zero_seq(n as nat));
    }
    v
}

/// What executing one statement does to the run's state, and the fault it
/// stops at, if any.
pub open spec fn spec_statement(s: StmtView, st: InterpState) -> (Result<(), DodoRuntimeError>, InterpState) {
    match s {
        StmtView::Expression(e) => {
            let (r, env2) = spec_eval(e, st.env);
            let st2 = InterpState { env: env2, output: st.output };
            match r {
                Ok(_) => (Ok(()), st2),
                Err(err) => (Err(err), st2),
            }
        },
        StmtView::Print(e) => {
            let (r, env2) = spec_eval(e, st.env);
            match r {
                Ok(v) => (
                    Ok(()),
                    InterpState { env: env2, output: st.output.push(spec_render(v)) },
                ),
                Err(err) => (Err(err), InterpState { env: env2, output: st.output }),
            }
        },
        StmtView::Definition(t, rows, columns) => {
            if t.token_type == TokenType::SCALAR {
                (Ok(()), InterpState { env: st.env.insert(t.val, seq![0i128]), output: st.output })
            } else if t.token_type == TokenType::VECTOR {
                if rows.len() > 0 && is_digit_seq(rows) && digits_value(rows) <= usize::MAX {
                    (
                        Ok(()),
                        InterpState {
                            env: st.env.insert(t.val, zero_seq(digits_value(rows) as nat)),
                            output: st.output,
                        },
                    )
                } else {
                    (Err(DodoRuntimeError::InvalidSize), st)
                }
            } else if t.token_type == TokenType::MATRIX {
                if columns.len() > 0 && is_digit_seq(columns) && digits_value(columns)
                    <= usize::MAX {
                    (
                        Ok(()),
                        InterpState {
                            env: st.env.insert(t.val, zero_seq(digits_value(columns) as nat)),
                            output: st.output,
                        },
                    )
                } else {
                    (Err(DodoRuntimeError::InvalidSize), st)
                }
            } else {
                (Ok(()), st)
            }
        },
        _ => (Ok(()), st),
    }
}

/// What executing statements in order does: the state threads through
/// them and the first fault stops the run.
pub open spec fn spec_interpret(stmts: Seq<StmtView>, st: InterpState) -> (Result<
    (),
    DodoRuntimeError,
>, InterpState)
    decreases stmts.len(),
{
    if stmts.len() == 0 {
        (Ok(()), st)
    } else {
        let (r, st2) = spec_statement(stmts[0], st);
        match r {
            Err(e) => (Err(e), st2),
            Ok(_) => spec_interpret(stmts.drop_first(), st2),
        }
    }
}

impl Interpreter {
    /// The run's whole observable state: environment and printed lines.
    pub closed spec fn istate(self) -> InterpState {
        InterpState { env: self.env@, output: self.output@.map_values(|s: String| s@) }
    }

    /// Executes one statement: evaluates an expression statement for its
    /// effects, evaluates and prints for `print`, sizes and binds fresh
    /// zeroed storage for a declaration, and leaves the grammar hooks
    /// (`for`, functions, comments) as no-ops.
    pub fn statement(&mut self, stmt: Stmt) -> (r: Result<(), DodoRuntimeError>)
        requires
            old(self).wf(),
        ensures
            final(self).wf(),
            final(self).istate() == spec_statement(stmt@, old(self).istate()).1,
            (match (r, spec_statement(stmt@, old(self).istate()).0) {
                (Ok(()), Ok(())) => true,
                (Err(a), Err(b)) => a == b,
                _ => false,
            }),
    {
        let ghost pre = self.istate();
        match stmt {
            Stmt::Expression(e) => match self.evaluate(e) {
                Ok(_) => {
                    proof {
                        assert(self.istate().env =~= spec_statement(stmt@, pre).1.env);
                        assert(self.istate().output =~= spec_statement(stmt@, pre).1.output);
                    }
                    Ok(())
                },
                Err(err) => Err(err),
            },
            Stmt::Print(e) => match self.evaluate(e) {
                Ok(v) => {
                    let line = render_expr(&v);
                    let ghost mid_output = self.output@;
                    self.output.push(line);
                    proof {
                        assert(self.output@.map_values(|s: String| s@) =~= mid_output.map_values(
                            |s: String| s@,
                        ).push(line@));
                    }
                    Ok(())
                },
                Err(err) => Err(err),
            },
            Stmt::Definition(token, rows, columns) => match token.token_type {
                TokenType::SCALAR => {
                    let mut one: Vec<i128> = Vec::new();
                    one.push(0);
                    proof {
                        assert(one@ =~= seq![0i128]);
                    }
                    self.env.define(token.val, one);
                    Ok(())
                },
                TokenType::VECTOR => match parse_usize(rows.as_str()) {
                    Some(n) => {
                        let storage = zero_vec(n);
                        self.env.define(token.val, storage);
                        Ok(())
                    },
                    None => Err(DodoRuntimeError::InvalidSize),
                },
                TokenType::MATRIX => match parse_usize(columns.as_str()) {
                    Some(n) => {
                        let storage = zero_vec(n);
                        self.env.define(token.val, storage);
                        Ok(())
                    },
                    None => Err(DodoRuntimeError::InvalidSize),
                },
                _ => Ok(()),
            },
            _ => Ok(()),
        }
    }

    /// Executes the statements in order against this interpreter's
    /// environment, collecting printed lines into `output`; the first
    /// fault stops the run and leaves the state as it stood at the fault.
    #[verifier::loop_isolation(false)]
    pub fn interpret(&mut self, stmts: Vec<Stmt>) -> (r: Result<(), DodoRuntimeError>)
        requires
            old(self).wf(),
        ensures
            final(self).wf(),
            final(self).istate() == spec_interpret(stmts_view(stmts@), old(self).istate()).1,
            (match (r, spec_interpret(stmts_view(stmts@), old(self).istate()).0) {
                (Ok(()), Ok(())) => true,
                (Err(a), Err(b)) => a == b,
                _ => false,
            }),
    {
        let ghost all = stmts@;
        let mut rest = stmts;
        while rest.len() > 0
            invariant
                self.wf(),
                spec_interpret(stmts_view(all), old(self).istate()) == spec_interpret(
                    stmts_view(rest@),
                    self.istate(),
                ),
            decreases rest.len(),
        {
            let ghost rest_before = rest@;
            let st = rest.remove(0);
            proof {
                assert(rest@ =~= rest_before.drop_first());
                crate::stmt::lemma_stmts_view_index(rest_before);
                crate::stmt::lemma_stmts_view_index(rest_before.drop_first());
                assert(stmts_view(rest_before)[0] == stmt_view(rest_before[0]));
                assert(stmts_view(rest_before).drop_first() =~= stmts_view(
                    rest_before.drop_first(),
                ));
            }
            match self.statement(st) {
                Ok(_) => {},
                Err(e) => {
                    return Err(e);
                },
            }
        }
        proof {
            assert(stmts_view(rest@).len() == 0);
        }
        Ok(())
    }
}

} // verus!
