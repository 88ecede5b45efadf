use crate::expression::{
    binary, num_expr, render, unary, AstOperand, BinaryOperator, Expression, UnaryOperator,
};
use crate::smart_num::{
    num_add, num_div, num_mul, num_neg, num_sub, spec_num_add, spec_num_div, spec_num_mul,
    spec_num_neg, spec_num_sub, wrap, SmartNum,
};
use vstd::prelude::*;

verus! {

/// The number of a number operand.
pub open spec fn num_of(e: Expression) -> SmartNum {
    e->Operand_0->Num_0
}

/// `-a`: folds a number, cancels a double negation, else rebuilds.
pub open spec fn neg_rule(a: Expression) -> Expression {
    if a.spec_is_num() && spec_num_neg(num_of(a)) is Ok {
        num_expr(spec_num_neg(num_of(a))->Ok_0)
    } else if a is Unary && a->Unary_0 == UnaryOperator::Neg {
        *a->Unary_1
    } else {
        unary(UnaryOperator::Neg, a)
    }
}

/// `sin a`: zero at 0 and at pi.
pub open spec fn sin_rule(a: Expression) -> Expression {
    if a.spec_is_zero() || a.spec_is_pi() {
        num_expr(SmartNum::Integer(0))
    } else {
        unary(UnaryOperator::Sin, a)
    }
}

/// `cos a`: 1 at 0 and -1 at pi.
pub open spec fn cos_rule(a: Expression) -> Expression {
    if a.spec_is_zero() {
        num_expr(SmartNum::Integer(1))
    } else if a.spec_is_pi() {
        num_expr(SmartNum::Integer(-1i64))
    } else {
        unary(UnaryOperator::Cos, a)
    }
}

/// `exp a`: undoes a logarithm; 1 at 0 and e at 1.
pub open spec fn exp_rule(a: Expression) -> Expression {
    if a is Unary && a->Unary_0 == UnaryOperator::Ln {
        *a->Unary_1
    } else if a.spec_is_zero() {
        num_expr(SmartNum::Integer(1))
    } else if a.spec_is_one() {
        num_expr(SmartNum::E)
    } else {
        unary(UnaryOperator::Exp, a)
    }
}

/// `ln a`: undoes an exponential; 0 at 1 and 1 at e.
pub open spec fn ln_rule(a: Expression) -> Expression {
    if a is Unary && a->Unary_0 == UnaryOperator::Exp {
        *a->Unary_1
    } else if a.spec_is_one() {
        num_expr(SmartNum::Integer(0))
    } else if a.spec_is_e() {
        num_expr(SmartNum::Integer(1))
    } else {
        unary(UnaryOperator::Ln, a)
    }
}

pub open spec fn unary_rule(op: UnaryOperator, a: Expression) -> Expression {
    match op {
        UnaryOperator::Neg => neg_rule(a),
        UnaryOperator::Sin => sin_rule(a),
        UnaryOperator::Cos => cos_rule(a),
        UnaryOperator::Exp => exp_rule(a),
        UnaryOperator::Ln => ln_rule(a),
    }
}

/// `l + r`: folds two numbers, drops a zero side, else rebuilds.
pub open spec fn add_rule(l: Expression, r: Expression) -> Expression {
    if l.spec_is_num() && r.spec_is_num() && spec_num_add(num_of(l), num_of(r)) is Ok {
        num_expr(spec_num_add(num_of(l), num_of(r))->Ok_0)
    } else if l.spec_is_zero() {
        r
    } else if r.spec_is_zero() {
        l
    } else {
        binary(BinaryOperator::Add, l, r)
    }
}

/// `l - r`: folds two numbers; `0 - r` is `-r` and `l - 0` is `l`.
pub open spec fn sub_rule(l: Expression, r: Expression) -> Expression {
    if l.spec_is_num() && r.spec_is_num() && spec_num_sub(num_of(l), num_of(r)) is Ok {
        num_expr(spec_num_sub(num_of(l), num_of(r))->Ok_0)
    } else if l.spec_is_zero() {
        neg_rule(r)
    } else if r.spec_is_zero() {
        l
    } else {
        binary(BinaryOperator::Sub, l, r)
    }
}

/// `l * r`: folds two numbers; a zero side gives 0, a one side gives the other.
pub open spec fn mul_rule(l: Expression, r: Expression) -> Expression {
    if l.spec_is_num() && r.spec_is_num() && spec_num_mul(num_of(l), num_of(r)) is Ok {
        num_expr(spec_num_mul(num_of(l), num_of(r))->Ok_0)
    } else if l.spec_is_zero() || r.spec_is_zero() {
        num_expr(SmartNum::Integer(0))
    } else if l.spec_is_one() {
        r
    } else if r.spec_is_one() {
        l
    } else {
        binary(BinaryOperator::Mul, l, r)
    }
}

/// `l / r`: folds two numbers when the quotient is exact, else rebuilds.
pub open spec fn div_rule(l: Expression, r: Expression) -> Expression {
    if l.spec_is_num() && r.spec_is_num() && spec_num_div(num_of(l), num_of(r)) is Ok {
        num_expr(spec_num_div(num_of(l), num_of(r))->Ok_0)
    } else {
        binary(BinaryOperator::Div, l, r)
    }
}

/// `b ^ x`: 1 for a zero exponent, `b` for an exponent of one.
pub open spec fn pow_rule(b: Expression, x: Expression) -> Expression {
    if x.spec_is_zero() {
        num_expr(SmartNum::Integer(1))
    } else if x.spec_is_one() {
        b
    } else {
        binary(BinaryOperator::Pow, b, x)
    }
}

pub open spec fn binary_rule(op: BinaryOperator, l: Expression, r: Expression) -> Expression {
    match op {
        BinaryOperator::Add => add_rule(l, r),
        BinaryOperator::Sub => sub_rule(l, r),
        BinaryOperator::Mul => mul_rule(l, r),
        BinaryOperator::Div => div_rule(l, r),
        BinaryOperator::Pow => pow_rule(l, r),
    }
}

/// Numeric aggregation: children first, then the rule of the node's operator.
pub open spec fn agg(e: Expression) -> Expression
    decreases e,
{
    match e {
        Expression::Operand(_) => e,
        Expression::Unary(op, a) => unary_rule(op, agg(*a)),
        Expression::Binary(op, a, b) => binary_rule(op, agg(*a), agg(*b)),
    }
}

/// An expression that aggregation leaves as it is: every node is what its
/// rule makes of its own children.
pub open spec fn is_aggregated(e: Expression) -> bool
    decreases e,
{
    match e {
        Expression::Operand(_) => true,
        Expression::Unary(op, a) => is_aggregated(*a) && unary_rule(op, *a) == e,
        Expression::Binary(op, a, b) => is_aggregated(*a) && is_aggregated(*b) && binary_rule(
            op,
            *a,
            *b,
        ) == e,
    }
}

proof fn lemma_neg_rule_aggregated(a: Expression)
    requires
        is_aggregated(a),
    ensures
        is_aggregated(neg_rule(a)),
{
    if a.spec_is_num() && spec_num_neg(num_of(a)) is Ok {
    } else if a is Unary && a->Unary_0 == UnaryOperator::Neg {
    } else {
        assert(unary_rule(UnaryOperator::Neg, a) == unary(UnaryOperator::Neg, a));
    }
}

proof fn lemma_unary_rule_aggregated(op: UnaryOperator, a: Expression)
    requires
        is_aggregated(a),
    ensures
        is_aggregated(unary_rule(op, a)),
{
    let r = unary_rule(op, a);
    match op {
        UnaryOperator::Neg => lemma_neg_rule_aggregated(a),
        _ => {
            if r == unary(op, a) {
                assert(is_aggregated(r));
            }
        },
    }
}

proof fn lemma_binary_rule_aggregated(op: BinaryOperator, l: Expression, r: Expression)
    requires
        is_aggregated(l),
        is_aggregated(r),
    ensures
        is_aggregated(binary_rule(op, l, r)),
{
    let res = binary_rule(op, l, r);
    if op == BinaryOperator::Sub {
        lemma_neg_rule_aggregated(r);
    }
    if res == binary(op, l, r) {
        assert(is_aggregated(res));
    }
}

/// Aggregation always yields an expression it leaves alone.
pub proof fn lemma_agg_is_aggregated(e: Expression)
    ensures
        is_aggregated(agg(e)),
    decreases e,
{
    match e {
        Expression::Operand(_) => {},
        Expression::Unary(op, a) => {
            lemma_agg_is_aggregated(*a);
            lemma_unary_rule_aggregated(op, agg(*a));
        },
        Expression::Binary(op, a, b) => {
            lemma_agg_is_aggregated(*a);
            lemma_agg_is_aggregated(*b);
            lemma_binary_rule_aggregated(op, agg(*a), agg(*b));
        },
    }
}

/// Aggregation leaves an aggregated expression unchanged.
pub proof fn lemma_aggregated_fixed(e: Expression)
    requires
        is_aggregated(e),
    ensures
        agg(e) == e,
    decreases e,
{
    match e {
        Expression::Operand(_) => {},
        Expression::Unary(op, a) => {
            lemma_aggregated_fixed(*a);
        },
        Expression::Binary(op, a, b) => {
            lemma_aggregated_fixed(*a);
            lemma_aggregated_fixed(*b);
        },
    }
}

/// Aggregation is idempotent: aggregating twice gives the same tree, and so
/// the same text, as aggregating once.
pub proof fn lemma_aggregate_idempotent(e: Expression)
    ensures
        agg(agg(e)) == agg(e),
        render(agg(agg(e)), 0) == render(agg(e), 0),
{
    lemma_agg_is_aggregated(e);
    lemma_aggregated_fixed(agg(e));
}

/// Adding zero to an aggregated expression gives the expression back. A number
/// must be in its stored form (zero and one as the integers 0 and 1), since
/// arithmetic stores its results in that form.
pub proof fn lemma_add_zero(x: Expression)
    requires
        is_aggregated(x),
        x.spec_is_num() ==> wrap(num_of(x)) == num_of(x),
    ensures
        agg(binary(BinaryOperator::Add, x, num_expr(SmartNum::Integer(0)))) == x,
{
    lemma_aggregated_fixed(x);
    let z = num_expr(SmartNum::Integer(0));
    assert(agg(z) == z);
    assert(agg(binary(BinaryOperator::Add, x, z)) == add_rule(x, z));
    if x.spec_is_num() {
        assert(spec_num_add(num_of(x), SmartNum::Integer(0)) == Ok::<
            SmartNum,
            crate::smart_num::ArithmeticError,
        >(num_of(x)));
        assert(num_expr(num_of(x)) == x);
    }
}

/// Multiplying an aggregated expression by one gives the expression back, a
/// number again being in its stored form.
pub proof fn lemma_mul_one(x: Expression)
    requires
        is_aggregated(x),
        x.spec_is_num() ==> wrap(num_of(x)) == num_of(x),
    ensures
        agg(binary(BinaryOperator::Mul, x, num_expr(SmartNum::Integer(1)))) == x,
{
    lemma_aggregated_fixed(x);
    let one = num_expr(SmartNum::Integer(1));
    assert(agg(one) == one);
    assert(agg(binary(BinaryOperator::Mul, x, one)) == mul_rule(x, one));
    if x.spec_is_num() {
        assert(spec_num_mul(num_of(x), SmartNum::Integer(1)) == Ok::<
            SmartNum,
            crate::smart_num::ArithmeticError,
        >(num_of(x)));
        assert(num_expr(num_of(x)) == x);
    }
}

/// Multiplying any expression by zero aggregates to the exact zero.
pub proof fn lemma_mul_zero(x: Expression)
    ensures
        agg(binary(BinaryOperator::Mul, x, num_expr(SmartNum::Integer(0)))) == num_expr(
            SmartNum::Integer(0),
        ),
{
    let z = num_expr(SmartNum::Integer(0));
    assert(agg(z) == z);
    let ax = agg(x);
    assert(agg(binary(BinaryOperator::Mul, x, z)) == mul_rule(ax, z));
    if ax.spec_is_num() {
        assert(spec_num_mul(num_of(ax), SmartNum::Integer(0)) == Ok::<
            SmartNum,
            crate::smart_num::ArithmeticError,
        >(SmartNum::Integer(0)));
    }
}

/// `ln(exp(x))` aggregates to `x` for an aggregated expression that is not a number.
pub proof fn lemma_ln_exp(x: Expression)
    requires
        is_aggregated(x),
        !x.spec_is_num(),
    ensures
        agg(unary(UnaryOperator::Ln, unary(UnaryOperator::Exp, x))) == x,
{
    lemma_aggregated_fixed(x);
    let ex = unary(UnaryOperator::Exp, x);
    assert(agg(ex) == exp_rule(x));
    assert(agg(unary(UnaryOperator::Ln, ex)) == ln_rule(exp_rule(x)));
    if x is Unary && x->Unary_0 == UnaryOperator::Ln {
        let u = *x->Unary_1;
        assert(x == unary(UnaryOperator::Ln, u));
        assert(ln_rule(u) == x);
    } else {
        assert(exp_rule(x) == ex);
    }
}

/// `exp(ln(x))` aggregates to `x` for an aggregated expression that is not a number.
pub proof fn lemma_exp_ln(x: Expression)
    requires
        is_aggregated(x),
        !x.spec_is_num(),
    ensures
        agg(unary(UnaryOperator::Exp, unary(UnaryOperator::Ln, x))) == x,
{
    lemma_aggregated_fixed(x);
    let lx = unary(UnaryOperator::Ln, x);
    assert(agg(lx) == ln_rule(x));
    assert(agg(unary(UnaryOperator::Exp, lx)) == exp_rule(ln_rule(x)));
    if x is Unary && x->Unary_0 == UnaryOperator::Exp {
        let u = *x->Unary_1;
        assert(x == unary(UnaryOperator::Exp, u));
        assert(exp_rule(u) == x);
    } else {
        assert(ln_rule(x) == lx);
    }
}

fn num_value(e: &Expression) -> (n: SmartNum)
    requires
        e.spec_is_num(),
    ensures
        n == num_of(*e),
{
    match e {
        Expression::Operand(AstOperand::Num(n)) => *n,
        _ => SmartNum::Integer(0),
    }
}

fn apply_neg(a: Expression) -> (r: Expression)
    ensures
        r == neg_rule(a),
{
    if a.is_num() {
        match num_neg(&num_value(&a)) {
            Ok(m) => {
                return Expression::from_num(m);
            },
            Err(_) => {},
        }
    }
    match a {
        Expression::Unary(UnaryOperator::Neg, g) => *g,
        other => Expression::make_unary(UnaryOperator::Neg, other),
    }
}

fn apply_unary(op: UnaryOperator, a: Expression) -> (r: Expression)
    ensures
        r == unary_rule(op, a),
{
    match op {
        UnaryOperator::Neg => apply_neg(a),
        UnaryOperator::Sin => {
            if a.is_zero() || a.is_pi() {
                Expression::zero()
            } else {
                Expression::make_unary(UnaryOperator::Sin, a)
            }
        },
        UnaryOperator::Cos => {
            if a.is_zero() {
                Expression::one()
            } else if a.is_pi() {
                Expression::from_num(SmartNum::Integer(-1))
            } else {
                Expression::make_unary(UnaryOperator::Cos, a)
            }
        },
        UnaryOperator::Exp => {
            match a {
                Expression::Unary(UnaryOperator::Ln, u) => *u,
                other => {
                    if other.is_zero() {
                        Expression::one()
                    } else if other.is_one() {
                        Expression::e()
                    } else {
                        Expression::make_unary(UnaryOperator::Exp, other)
                    }
                },
            }
        },
        UnaryOperator::Ln => {
            match a {
                Expression::Unary(UnaryOperator::Exp, u) => *u,
                other => {
                    if other.is_one() {
                        Expression::zero()
                    } else if other.is_e() {
                        Expression::one()
                    } else {
                        Expression::make_unary(UnaryOperator::Ln, other)
                    }
                },
            }
        },
    }
}

fn apply_binary(op: BinaryOperator, l: Expression, r: Expression) -> (res: Expression)
    ensures
        res == binary_rule(op, l, r),
{
    if l.is_num() && r.is_num() {
        let a = num_value(&l);
        let b = num_value(&r);
        let folded = match op {
            BinaryOperator::Add => num_add(&a, &b),
            BinaryOperator::Sub => num_sub(&a, &b),
            BinaryOperator::Mul => num_mul(&a, &b),
            BinaryOperator::Div => num_div(&a, &b),
            BinaryOperator::Pow => Err(crate::smart_num::ArithmeticError::Inexact),
        };
        if op != BinaryOperator::Pow {
            match folded {
                Ok(m) => {
                    return Expression::from_num(m);
                },
                Err(_) => {},
            }
        }
    }
    match op {
        BinaryOperator::Add => {
            if l.is_zero() {
                r
            } else if r.is_zero() {
                l
            } else {
                Expression::make_binary(op, l, r)
            }
        },
        BinaryOperator::Sub => {
            if l.is_zero() {
                apply_neg(r)
            } else if r.is_zero() {
                l
            } else {
                Expression::make_binary(op, l, r)
            }
        },
        BinaryOperator::Mul => {
            if l.is_zero() || r.is_zero() {
                Expression::zero()
            } else if l.is_one() {
                r
            } else if r.is_one() {
                l
            } else {
                Expression::make_binary(op, l, r)
            }
        },
        BinaryOperator::Div => Expression::make_binary(op, l, r),
        BinaryOperator::Pow => {
            if r.is_zero() {
                Expression::one()
            } else if r.is_one() {
                l
            } else {
                Expression::make_binary(op, l, r)
            }
        },
    }
}

/// Folds constant subtrees and applies the identity rules, bottom up.
pub fn aggregate(e: Expression) -> (r: Expression)
    ensures
        r == agg(e),
        is_aggregated(r),
    decreases e,
{
    proof {
        lemma_agg_is_aggregated(e);
    }
    match e {
        Expression::Operand(o) => Expression::Operand(o),
        Expression::Unary(op, a) => {
            let x = aggregate(*a);
            apply_unary(op, x)
        },
        Expression::Binary(op, a, b) => {
            let x = aggregate(*a);
            let y = aggregate(*b);
            apply_binary(op, x, y)
        },
    }
}

/// Numeric aggregation of an expression.
pub trait NumAggregate {
    fn num_aggregate(self) -> Self;
}

impl NumAggregate for Expression {
    fn num_aggregate(self) -> (r: Expression)
        ensures
            r == agg(self),
    {
        aggregate(self)
    }
}

/// Simplification of an expression, which here is its numeric aggregation.
pub trait Simplify: Sized {
    fn simplify(&self) -> Self;
}

impl Simplify for Expression {
    fn simplify(&self) -> (r: Expression)
        ensures
            r == agg(*self),
    {
        aggregate(self.duplicate())
    }
}

} // verus!
