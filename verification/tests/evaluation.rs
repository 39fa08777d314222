use expr_eval::eval;
use expr_eval::ArithCmpOp::{ArithEqOp, ArithNeqOp, GtOp, GteOp, LtOp, LteOp};
use expr_eval::ArithExpr::{BinArithExpr, IntLit};
use expr_eval::BinArithOp::{AddOp, IntDivOp, MulOp, SubOp};
use expr_eval::BinLogicOp::{AndOp, BoolEqOp, BoolNeqOp, OrOp};
use expr_eval::BoolExpr::{ArithCmpExpr, BinBoolExpr, BoolLit, NotExpr};
use expr_eval::Expr;
use expr_eval::Expr::BoolExpr;
use expr_eval::Value::{BoolValue, IntValue};

#[test]
fn test_1() {
    let expr = Expr::ArithExpr(BinArithExpr {
        left: Box::new(IntLit(51)),
        right: Box::new(IntLit(17)),
        op: IntDivOp,
    });
    let answer = Ok(IntValue(3));

    assert_eq!(eval(expr), answer);
}

#[test]
fn test_2() {
    let expr = Expr::BoolExpr(BinBoolExpr {
        left: Box::new(BoolLit(false)),
        right: Box::new(BoolLit(false)),
        op: BoolEqOp,
    });
    let answer = Ok(BoolValue(true));

    assert_eq!(eval(expr), answer);
}

#[test]
fn test_3() {
    let expr = Expr::BoolExpr(ArithCmpExpr {
        left: Box::new(BinArithExpr {
            left: Box::new(IntLit(12)),
            right: Box::new(IntLit(155)),
            op: AddOp,
        }),
        right: Box::new(IntLit(167)),
        op: LteOp,
    });
    let answer = Ok(BoolValue(true));

    assert_eq!(eval(expr), answer);
}

#[test]
fn test_4() {
    let expr = Expr::ArithExpr(BinArithExpr {
        left: Box::new(IntLit(51)),
        right: Box::new(IntLit(17)),
        op: SubOp,
    });
    let answer = Ok(IntValue(34));

    assert_eq!(eval(expr), answer);
}

#[test]
fn test_5() {
    let expr = Expr::BoolExpr(ArithCmpExpr {
        left: Box::new(BinArithExpr {
            left: Box::new(IntLit(12)),
            right: Box::new(IntLit(5)),
            op: MulOp,
        }),
        right: Box::new(IntLit(167)),
        op: LtOp,
    });
    let answer = Ok(BoolValue(true));

    assert_eq!(eval(expr), answer);
}

#[test]
fn test_6() {
    let expr = Expr::BoolExpr(ArithCmpExpr {
        left: Box::new(BinArithExpr {
            left: Box::new(IntLit(12)),
            right: Box::new(IntLit(5)),
            op: MulOp,
        }),
        right: Box::new(IntLit(10)),
        op: GtOp,
    });
    let answer = Ok(BoolValue(true));

    assert_eq!(eval(expr), answer);
}

#[test]
fn test_7() {
    let expr = Expr::BoolExpr(ArithCmpExpr {
        left: Box::new(IntLit(60)),
        right: Box::new(IntLit(60)),
        op: ArithEqOp,
    });
    let answer = Ok(BoolValue(true));

    assert_eq!(eval(expr), answer);
}

#[test]
fn test_8() {
    let expr = Expr::BoolExpr(ArithCmpExpr {
        left: Box::new(IntLit(10)),
        right: Box::new(IntLit(60)),
        op: GteOp,
    });
    let answer = Ok(BoolValue(false));

    assert_eq!(eval(expr), answer);
}

#[test]
fn test_9() {
    let expr = Expr::BoolExpr(ArithCmpExpr {
        left: Box::new(IntLit(10)),
        right: Box::new(IntLit(60)),
        op: ArithNeqOp,
    });
    let answer = Ok(BoolValue(true));

    assert_eq!(eval(expr), answer);
}

#[test]
fn test_10() {
    let expr = Expr::BoolExpr(BinBoolExpr {
        left: Box::new(NotExpr(Box::new(BoolLit(true)))),
        right: Box::new(BoolLit(true)),
        op: BoolNeqOp,
    });
    let answer = Ok(BoolValue(true));

    assert_eq!(eval(expr), answer);
}

#[test]
fn test_11() {
    let expr = Expr::BoolExpr(BinBoolExpr {
        left: Box::new(NotExpr(Box::new(BoolLit(true)))),
        right: Box::new(BoolLit(true)),
        op: AndOp,
    });
    let answer = Ok(BoolValue(false));

    assert_eq!(eval(expr), answer);
}

#[test]
fn test_12() {
    let expr = Expr::BoolExpr(BinBoolExpr {
        left: Box::new(NotExpr(Box::new(BoolLit(false)))),
        right: Box::new(BoolLit(true)),
        op: OrOp,
    });
    let answer = Ok(BoolValue(true));

    assert_eq!(eval(expr), answer);
}

#[test]
fn test_sample() {
    let expr = BoolExpr(BoolLit(true));
    let answer = Ok(BoolValue(true));

    assert_eq!(eval(expr), answer);
}

#[test]
fn test_others() {
    println!("{:?}", BoolValue(true));
}
