use vstd::prelude::*;
use vstd::arithmetic::div_mod::{
    lemma_div_basics, lemma_div_is_ordered, lemma_div_is_ordered_by_denominator,
    lemma_div_nonincreasing, lemma_div_pos_is_pos,
};
use vstd::wrapping::i64_specs;
use crate::ast::{ArithCmpOp, ArithExpr, BinArithOp, BinLogicOp, BoolExpr, EvalError, Expr, Value};

verus! {

/// The quotient of `x` by `d`, rounded toward zero (mathematical
/// truncating division, defined for any nonzero `d`).
pub open spec fn quot_toward_zero(x: int, d: int) -> int
    recommends
        d != 0,
{
    if x >= 0 && d > 0 {
        x / d
    } else if x < 0 && d < 0 {
        (-x) / (-d)
    } else if x < 0 {
        -((-x) / d)
    } else {
        -(x / (-d))
    }
}

/// Truncating division on `i64`. The one quotient that does not fit,
/// `i64::MIN / -1`, wraps around to `i64::MIN`, consistent with the
/// wrapping semantics chosen for the other arithmetic operators.
pub open spec fn trunc_div(a: i64, b: i64) -> i64
    recommends
        b != 0,
{
    if a == i64::MIN && b == -1 {
        i64::MIN
    } else {
        quot_toward_zero(a as int, b as int) as i64
    }
}

/// The meaning of an arithmetic tree: its integer value, or
/// `DivisionByZero` if an `IntDivOp` node anywhere in the tree has a
/// right-hand operand that evaluates to zero. Addition, subtraction and
/// multiplication wrap around on 64-bit overflow.
pub open spec fn eval_arith_spec(e: ArithExpr) -> Result<i64, EvalError>
    decreases e,
{
    match e {
        ArithExpr::IntLit(n) => Ok(n),
        ArithExpr::BinArithExpr { left, right, op } => {
            match (eval_arith_spec(*left), eval_arith_spec(*right)) {
                (Ok(l), Ok(r)) => match op {
                    BinArithOp::AddOp => Ok(i64_specs::wrapping_add(l, r)),
                    BinArithOp::SubOp => Ok(i64_specs::wrapping_sub(l, r)),
                    BinArithOp::MulOp => Ok(i64_specs::wrapping_mul(l, r)),
                    BinArithOp::IntDivOp => {
                        if r == 0 {
                            Err(EvalError::DivisionByZero)
                        } else {
                            Ok(trunc_div(l, r))
                        }
                    },
                },
                (Err(err), _) => Err(err),
                (_, Err(err)) => Err(err),
            }
        },
    }
}

/// The meaning of a boolean tree: its truth value, or `DivisionByZero`
/// if an arithmetic subtree fails. Both operands of a connective are
/// always evaluated (no short-circuiting), so an error in either side
/// surfaces.
pub open spec fn eval_bool_spec(e: BoolExpr) -> Result<bool, EvalError>
    decreases e,
{
    match e {
        BoolExpr::BoolLit(b) => Ok(b),
        BoolExpr::NotExpr(inner) => match eval_bool_spec(*inner) {
            Ok(b) => Ok(!b),
            Err(err) => Err(err),
        },
        BoolExpr::ArithCmpExpr { left, right, op } => {
            match (eval_arith_spec(*left), eval_arith_spec(*right)) {
                (Ok(l), Ok(r)) => Ok(
                    match op {
                        ArithCmpOp::LtOp => l < r,
                        ArithCmpOp::LteOp => l <= r,
                        ArithCmpOp::GtOp => l > r,
                        ArithCmpOp::GteOp => l >= r,
                        ArithCmpOp::ArithEqOp => l == r,
                        ArithCmpOp::ArithNeqOp => l != r,
                    },
                ),
                (Err(err), _) => Err(err),
                (_, Err(err)) => Err(err),
            }
        },
        BoolExpr::BinBoolExpr { left, right, op } => {
            match (eval_bool_spec(*left), eval_bool_spec(*right)) {
                (Ok(l), Ok(r)) => Ok(
                    match op {
                        BinLogicOp::AndOp => l && r,
                        BinLogicOp::OrOp => l || r,
                        BinLogicOp::BoolEqOp => l == r,
                        BinLogicOp::BoolNeqOp => l != r,
                    },
                ),
                (Err(err), _) => Err(err),
                (_, Err(err)) => Err(err),
            }
        },
    }
}

/// The meaning of a top-level expression: an arithmetic tree yields
/// `IntValue`, a boolean tree yields `BoolValue`, and a division by zero
/// anywhere aborts the whole evaluation.
pub open spec fn eval_spec(e: Expr) -> Result<Value, EvalError> {
    match e {
        Expr::ArithExpr(a) => match eval_arith_spec(a) {
            Ok(n) => Ok(Value::IntValue(n)),
            Err(err) => Err(err),
        },
        Expr::BoolExpr(b) => match eval_bool_spec(b) {
            Ok(v) => Ok(Value::BoolValue(v)),
            Err(err) => Err(err),
        },
    }
}

/// `i64::checked_div` computes exactly the truncating quotient, returning
/// `None` precisely on the one overflowing case `i64::MIN / -1`.
proof fn lemma_checked_div_is_trunc_div(a: i64, b: i64)
    requires
        b != 0,
    ensures
        a.checked_div(b) == (if a == i64::MIN && b == -1 {
            None::<i64>
        } else {
            Some(trunc_div(a, b))
        }),
{
    let x = a as int;
    let d = b as int;
    if x >= 0 && d > 0 {
        lemma_div_pos_is_pos(x, d);
        lemma_div_nonincreasing(x, d);
    } else if x < 0 && d < 0 {
        lemma_div_pos_is_pos(-x, -d);
        lemma_div_nonincreasing(-x, -d);
        if -d >= 2 {
            lemma_div_is_ordered_by_denominator(-x, 2, -d);
            lemma_div_is_ordered(-x, 0x8000_0000_0000_0000, 2);
            assert(0x8000_0000_0000_0000int / 2 == 0x4000_0000_0000_0000int);
        } else {
            lemma_div_basics(-x);
        }
    } else if x < 0 {
        lemma_div_pos_is_pos(-x, d);
        lemma_div_nonincreasing(-x, d);
    } else {
        lemma_div_pos_is_pos(x, -d);
        lemma_div_nonincreasing(x, -d);
    }
}

/// Truncating `i64` division for a nonzero divisor; `i64::MIN / -1`
/// wraps to `i64::MIN`.
fn div_i64(a: i64, b: i64) -> (q: i64)
    requires
        b != 0,
    ensures
        q == trunc_div(a, b),
{
    proof {
        lemma_checked_div_is_trunc_div(a, b);
    }
    match a.checked_div(b) {
        Some(q) => q,
        None => i64::MIN,
    }
}

/// Evaluate an arithmetic tree to its integer value. Addition,
/// subtraction, multiplication and the single overflowing division case
/// wrap around on 64-bit overflow; an `IntDivOp` node whose right-hand
/// operand evaluates to zero aborts with `DivisionByZero`.
pub fn eval_arith_expr(arith_expr: ArithExpr) -> (res: Result<i64, EvalError>)
    ensures
        res == eval_arith_spec(arith_expr),
    decreases arith_expr,
{
    match arith_expr {
        ArithExpr::IntLit(num) => Ok(num),
        ArithExpr::BinArithExpr { left, right, op } => {
            let lres = eval_arith_expr(*left);
            let rres = eval_arith_expr(*right);
            match (lres, rres) {
                (Ok(l), Ok(r)) => match op {
                    BinArithOp::AddOp => Ok(l.wrapping_add(r)),
                    BinArithOp::SubOp => Ok(l.wrapping_sub(r)),
                    BinArithOp::MulOp => Ok(l.wrapping_mul(r)),
                    BinArithOp::IntDivOp => {
                        if r == 0 {
                            Err(EvalError::DivisionByZero)
                        } else {
                            Ok(div_i64(l, r))
                        }
                    },
                },
                (Err(err), _) => Err(err),
                (_, Err(err)) => Err(err),
            }
        },
    }
}

/// Evaluate a boolean tree to its truth value. Both operands of every
/// binary node are evaluated (strict, no short-circuiting); a division
/// by zero in an arithmetic subtree aborts with `DivisionByZero`.
pub fn eval_bool_expr(bool_expr: BoolExpr) -> (res: Result<bool, EvalError>)
    ensures
        res == eval_bool_spec(bool_expr),
    decreases bool_expr,
{
    match bool_expr {
        BoolExpr::BoolLit(b) => Ok(b),
        BoolExpr::NotExpr(inner) => match eval_bool_expr(*inner) {
            Ok(b) => Ok(!b),
            Err(err) => Err(err),
        },
        BoolExpr::ArithCmpExpr { left, right, op } => {
            let lres = eval_arith_expr(*left);
            let rres = eval_arith_expr(*right);
            match (lres, rres) {
                (Ok(l), Ok(r)) => Ok(
                    match op {
                        ArithCmpOp::LtOp => l < r,
                        ArithCmpOp::LteOp => l <= r,
                        ArithCmpOp::GtOp => l > r,
                        ArithCmpOp::GteOp => l >= r,
                        ArithCmpOp::ArithEqOp => l == r,
                        ArithCmpOp::ArithNeqOp => l != r,
                    },
                ),
                (Err(err), _) => Err(err),
                (_, Err(err)) => Err(err),
            }
        },
        BoolExpr::BinBoolExpr { left, right, op } => {
            let lres = eval_bool_expr(*left);
            let rres = eval_bool_expr(*right);
            match (lres, rres) {
                (Ok(l), Ok(r)) => Ok(
                    match op {
                        BinLogicOp::AndOp => l && r,
                        BinLogicOp::OrOp => l || r,
                        BinLogicOp::BoolEqOp => l == r,
                        BinLogicOp::BoolNeqOp => l != r,
                    },
                ),
                (Err(err), _) => Err(err),
                (_, Err(err)) => Err(err),
            }
        },
    }
}

/// Evaluate a top-level expression. The result kind is fixed by the
/// tree's top-level variant: an arithmetic tree yields `IntValue`, a
/// boolean tree yields `BoolValue`. The only possible failure is
/// `DivisionByZero`, which aborts the whole evaluation.
pub fn eval(expr: Expr) -> (res: Result<Value, EvalError>)
    ensures
        res == eval_spec(expr),
{
    match expr {
        Expr::ArithExpr(e) => match eval_arith_expr(e) {
            Ok(n) => Ok(Value::IntValue(n)),
            Err(err) => Err(err),
        },
        Expr::BoolExpr(e) => match eval_bool_expr(e) {
            Ok(v) => Ok(Value::BoolValue(v)),
            Err(err) => Err(err),
        },
    }
}

} // verus!
