pub mod ast;
pub mod laws;
pub mod semantics;

pub use ast::{ArithCmpOp, ArithExpr, BinArithOp, BinLogicOp, BoolExpr, EvalError, Expr, Value};
pub use semantics::{eval, eval_arith_expr, eval_arith_spec, eval_bool_expr, eval_bool_spec, eval_spec, quot_toward_zero, trunc_div};
