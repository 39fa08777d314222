use vstd::prelude::*;

verus! {

/// A top-level expression: either an arithmetic or a boolean tree.
#[derive(Debug)]
pub enum Expr {
    ArithExpr(ArithExpr),
    BoolExpr(BoolExpr),
}

/// An arithmetic expression: a binary operator node or an integer leaf.
#[derive(Debug)]
pub enum ArithExpr {
    BinArithExpr { left: Box<ArithExpr>, right: Box<ArithExpr>, op: BinArithOp },
    IntLit(i64),
}

/// A boolean expression: a comparison of two arithmetic subtrees (the only
/// bridge between the two sub-languages), a binary connective, a negation,
/// or a boolean leaf.
#[derive(Debug)]
pub enum BoolExpr {
    ArithCmpExpr { left: Box<ArithExpr>, right: Box<ArithExpr>, op: ArithCmpOp },
    BinBoolExpr { left: Box<BoolExpr>, right: Box<BoolExpr>, op: BinLogicOp },
    NotExpr(Box<BoolExpr>),
    BoolLit(bool),
}

/// The binary operators of the arithmetic sub-language.
#[derive(Clone, Copy, Debug, PartialEq, Eq, Structural)]
pub enum BinArithOp {
    AddOp,
    SubOp,
    MulOp,
    IntDivOp,
}

/// The comparison operators bridging integers to booleans.
#[derive(Clone, Copy, Debug, PartialEq, Eq, Structural)]
pub enum ArithCmpOp {
    LtOp,
    LteOp,
    GtOp,
    GteOp,
    ArithEqOp,
    ArithNeqOp,
}

/// The binary connectives of the boolean sub-language.
#[derive(Clone, Copy, Debug, PartialEq, Eq, Structural)]
pub enum BinLogicOp {
    AndOp,
    OrOp,
    BoolEqOp,
    BoolNeqOp,
}

/// The result of evaluating an expression: an arithmetic tree always yields
/// `IntValue`, a boolean tree always yields `BoolValue`.
#[derive(Clone, Copy, Debug, PartialEq, Eq, Structural)]
pub enum Value {
    BoolValue(bool),
    IntValue(i64),
}

/// The single failure evaluation can report: an `IntDivOp` node whose
/// right-hand operand evaluated to zero.
#[derive(Clone, Copy, Debug, PartialEq, Eq, Structural)]
pub enum EvalError {
    DivisionByZero,
}

} // verus!
