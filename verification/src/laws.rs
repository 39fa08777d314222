use vstd::prelude::*;
use crate::ast::{ArithCmpOp, ArithExpr, BinArithOp, BoolExpr, EvalError, Expr, Value};
use crate::semantics::{eval_arith_spec, eval_bool_spec, eval_spec};

verus! {

/// Purity: evaluation is a function of the tree alone, so any two
/// results that satisfy the evaluator's contract for the same tree are
/// identical. Evaluating a tree twice therefore yields identical
/// results.
pub proof fn lemma_eval_pure(e: Expr, r1: Result<Value, EvalError>, r2: Result<Value, EvalError>)
    requires
        r1 == eval_spec(e),
        r2 == eval_spec(e),
    ensures
        r1 == r2,
{
}

/// Type consistency: an arithmetic tree can only yield an integer, a
/// boolean tree can only yield a boolean, and the only possible failure
/// of either is `DivisionByZero`.
pub proof fn lemma_eval_type_consistency(e: Expr)
    ensures
        e matches Expr::ArithExpr(_) ==> (eval_spec(e) matches Ok(v) ==> v is IntValue),
        e matches Expr::BoolExpr(_) ==> (eval_spec(e) matches Ok(v) ==> v is BoolValue),
        eval_spec(e) matches Err(err) ==> err == EvalError::DivisionByZero,
{
}

/// Division by zero: dividing any integer literal by the literal zero
/// fails with `DivisionByZero`.
pub proof fn lemma_division_by_zero(n: i64)
    ensures
        eval_arith_spec(
            ArithExpr::BinArithExpr {
                left: Box::new(ArithExpr::IntLit(n)),
                right: Box::new(ArithExpr::IntLit(0)),
                op: BinArithOp::IntDivOp,
            },
        ) == Err::<i64, EvalError>(EvalError::DivisionByZero),
{
    assert(eval_arith_spec(ArithExpr::IntLit(n)) == Ok::<i64, EvalError>(n));
    assert(eval_arith_spec(ArithExpr::IntLit(0)) == Ok::<i64, EvalError>(0));
}

/// Negation involution: evaluating a doubly negated tree is the same as
/// evaluating the tree itself, errors included.
pub proof fn lemma_not_involution(b: BoolExpr)
    ensures
        eval_bool_spec(BoolExpr::NotExpr(Box::new(BoolExpr::NotExpr(Box::new(b)))))
            == eval_bool_spec(b),
{
    let inner = BoolExpr::NotExpr(Box::new(b));
    match eval_bool_spec(b) {
        Ok(v) => {
            assert(eval_bool_spec(inner) == Ok::<bool, EvalError>(!v));
        },
        Err(err) => {
            assert(eval_bool_spec(inner) == Err::<bool, EvalError>(err));
        },
    }
}

/// The comparison of two integer leaves under `op`.
pub open spec fn cmp_leaves(a: i64, b: i64, op: ArithCmpOp) -> Result<bool, EvalError> {
    eval_bool_spec(
        BoolExpr::ArithCmpExpr {
            left: Box::new(ArithExpr::IntLit(a)),
            right: Box::new(ArithExpr::IntLit(b)),
            op,
        },
    )
}

/// Whether the comparison of two integer leaves under `op` evaluates to
/// true.
pub open spec fn cmp_holds(a: i64, b: i64, op: ArithCmpOp) -> bool {
    cmp_leaves(a, b, op) == Ok::<bool, EvalError>(true)
}

/// Comparison consistency on integer leaves: exactly one of `LtOp`,
/// `ArithEqOp`, `GtOp` holds, `LteOp` holds exactly when `LtOp` or
/// `ArithEqOp` does, `GteOp` exactly when `GtOp` or `ArithEqOp` does,
/// and `ArithNeqOp` exactly when `ArithEqOp` does not.
pub proof fn lemma_cmp_consistency(a: i64, b: i64)
    ensures
        cmp_holds(a, b, ArithCmpOp::LtOp) || cmp_holds(a, b, ArithCmpOp::ArithEqOp) || cmp_holds(
            a,
            b,
            ArithCmpOp::GtOp,
        ),
        !(cmp_holds(a, b, ArithCmpOp::LtOp) && cmp_holds(a, b, ArithCmpOp::ArithEqOp)),
        !(cmp_holds(a, b, ArithCmpOp::LtOp) && cmp_holds(a, b, ArithCmpOp::GtOp)),
        !(cmp_holds(a, b, ArithCmpOp::ArithEqOp) && cmp_holds(a, b, ArithCmpOp::GtOp)),
        cmp_holds(a, b, ArithCmpOp::LteOp) <==> (cmp_holds(a, b, ArithCmpOp::LtOp) || cmp_holds(
            a,
            b,
            ArithCmpOp::ArithEqOp,
        )),
        cmp_holds(a, b, ArithCmpOp::GteOp) <==> (cmp_holds(a, b, ArithCmpOp::GtOp) || cmp_holds(
            a,
            b,
            ArithCmpOp::ArithEqOp,
        )),
        cmp_holds(a, b, ArithCmpOp::ArithNeqOp) <==> !cmp_holds(a, b, ArithCmpOp::ArithEqOp),
{
    assert(eval_arith_spec(ArithExpr::IntLit(a)) == Ok::<i64, EvalError>(a));
    assert(eval_arith_spec(ArithExpr::IntLit(b)) == Ok::<i64, EvalError>(b));
}

} // verus!
