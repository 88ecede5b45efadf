use crate::aggregate::{agg, aggregate, is_aggregated, lemma_agg_is_aggregated};
use crate::expression::{
    binary, num_expr, render, unary, AstOperand, BinaryOperator, Expression, UnaryOperator,
    Variable,
};
use crate::text::push_str;
use crate::smart_num::SmartNum;
use crate::substitute::as_variable;
use vstd::prelude::*;

verus! {

/// Asked to differentiate with respect to an expression that is not a variable.
#[derive(Debug, Clone)]
pub struct DerivativeError {
    pub err_src: Expression,
}

impl DerivativeError {
    /// `<expression> cannot be used as a variable`.
    pub fn to_string(&self) -> (r: String)
        ensures
            r@ == render(self.err_src, 0) + " cannot be used as a variable"@,
    {
        let mut out = self.err_src.to_string();
        push_str(&mut out, " cannot be used as a variable");
        out
    }
}

/// The calculus rule of the root of `e`, over the derivatives `du` and `dv`
/// of its arguments (for a leaf, `du` is the leaf's own derivative).
pub open spec fn derivative_rule(e: Expression, du: Expression, dv: Expression) -> Expression {
    match e {
        Expression::Operand(_) => du,
        Expression::Unary(op, u) => match op {
            UnaryOperator::Neg => unary(UnaryOperator::Neg, du),
            UnaryOperator::Sin => binary(BinaryOperator::Mul, unary(UnaryOperator::Cos, *u), du),
            UnaryOperator::Cos => binary(
                BinaryOperator::Mul,
                unary(UnaryOperator::Neg, unary(UnaryOperator::Sin, *u)),
                du,
            ),
            UnaryOperator::Exp => binary(BinaryOperator::Mul, du, unary(UnaryOperator::Exp, *u)),
            UnaryOperator::Ln => binary(BinaryOperator::Div, du, *u),
        },
        Expression::Binary(op, u, v) => match op {
            BinaryOperator::Add => binary(BinaryOperator::Add, du, dv),
            BinaryOperator::Sub => binary(BinaryOperator::Sub, du, dv),
            BinaryOperator::Mul => binary(
                BinaryOperator::Add,
                binary(BinaryOperator::Mul, du, *v),
                binary(BinaryOperator::Mul, *u, dv),
            ),
            BinaryOperator::Div => binary(
                BinaryOperator::Div,
                binary(
                    BinaryOperator::Sub,
                    binary(BinaryOperator::Mul, du, *v),
                    binary(BinaryOperator::Mul, *u, dv),
                ),
                binary(BinaryOperator::Mul, *v, *v),
            ),
            BinaryOperator::Pow => binary(
                BinaryOperator::Mul,
                binary(BinaryOperator::Pow, *u, *v),
                binary(
                    BinaryOperator::Add,
                    binary(BinaryOperator::Mul, dv, unary(UnaryOperator::Ln, *u)),
                    binary(BinaryOperator::Div, binary(BinaryOperator::Mul, *v, du), *u),
                ),
            ),
        },
    }
}

/// The derivative of `e` with respect to the variable named `name`, aggregated.
pub open spec fn deriv(e: Expression, name: Seq<char>) -> Expression
    decreases e,
{
    match e {
        Expression::Operand(o) => match o {
            AstOperand::Variable(x) => if x.name@ == name {
                num_expr(SmartNum::Integer(1))
            } else {
                num_expr(SmartNum::Integer(0))
            },
            AstOperand::Num(_) => num_expr(SmartNum::Integer(0)),
        },
        Expression::Unary(_, u) => agg(derivative_rule(e, deriv(*u, name), deriv(*u, name))),
        Expression::Binary(_, u, v) => agg(derivative_rule(e, deriv(*u, name), deriv(*v, name))),
    }
}

/// Every derivative comes out aggregated, so differentiating again starts
/// from a compact tree.
pub proof fn lemma_deriv_is_aggregated(e: Expression, name: Seq<char>)
    ensures
        is_aggregated(deriv(e, name)),
{
    match e {
        Expression::Operand(_) => {},
        Expression::Unary(_, u) => {
            lemma_agg_is_aggregated(derivative_rule(e, deriv(*u, name), deriv(*u, name)));
        },
        Expression::Binary(_, u, v) => {
            lemma_agg_is_aggregated(derivative_rule(e, deriv(*u, name), deriv(*v, name)));
        },
    }
}

/// The `n`-th derivative.
pub open spec fn deriv_n(e: Expression, name: Seq<char>, n: nat) -> Expression
    decreases n,
{
    if n == 0 {
        e
    } else {
        deriv(deriv_n(e, name, (n - 1) as nat), name)
    }
}

impl Expression {
    /// The derivative with respect to `of`, by the rules of calculus applied to
    /// the derivatives of the arguments, then aggregated.
    pub fn derivative_of(&self, of: &Variable) -> (r: Expression)
        ensures
            r == deriv(*self, of.name@),
        decreases self,
    {
        match self {
            Expression::Operand(AstOperand::Variable(x)) => {
                if x.name == of.name {
                    Expression::one()
                } else {
                    Expression::zero()
                }
            },
            Expression::Operand(AstOperand::Num(_)) => Expression::zero(),
            Expression::Unary(op, u) => {
                let du = u.derivative_of(of);
                let a = u.duplicate();
                let raw = match op {
                    UnaryOperator::Neg => Expression::make_unary(UnaryOperator::Neg, du),
                    UnaryOperator::Sin => Expression::make_binary(
                        BinaryOperator::Mul,
                        Expression::make_unary(UnaryOperator::Cos, a),
                        du,
                    ),
                    UnaryOperator::Cos => Expression::make_binary(
                        BinaryOperator::Mul,
                        Expression::make_unary(
                            UnaryOperator::Neg,
                            Expression::make_unary(UnaryOperator::Sin, a),
                        ),
                        du,
                    ),
                    UnaryOperator::Exp => Expression::make_binary(
                        BinaryOperator::Mul,
                        du,
                        Expression::make_unary(UnaryOperator::Exp, a),
                    ),
                    UnaryOperator::Ln => Expression::make_binary(BinaryOperator::Div, du, a),
                };
                aggregate(raw)
            },
            Expression::Binary(op, u, v) => {
                let du = u.derivative_of(of);
                let dv = v.derivative_of(of);
                let raw = match op {
                    BinaryOperator::Add => Expression::make_binary(BinaryOperator::Add, du, dv),
                    BinaryOperator::Sub => Expression::make_binary(BinaryOperator::Sub, du, dv),
                    BinaryOperator::Mul => Expression::make_binary(
                        BinaryOperator::Add,
                        Expression::make_binary(BinaryOperator::Mul, du, v.duplicate()),
                        Expression::make_binary(BinaryOperator::Mul, u.duplicate(), dv),
                    ),
                    BinaryOperator::Div => Expression::make_binary(
                        BinaryOperator::Div,
                        Expression::make_binary(
                            BinaryOperator::Sub,
                            Expression::make_binary(BinaryOperator::Mul, du, v.duplicate()),
                            Expression::make_binary(BinaryOperator::Mul, u.duplicate(), dv),
                        ),
                        Expression::make_binary(BinaryOperator::Mul, v.duplicate(), v.duplicate()),
                    ),
                    BinaryOperator::Pow => Expression::make_binary(
                        BinaryOperator::Mul,
                        Expression::make_binary(BinaryOperator::Pow, u.duplicate(), v.duplicate()),
                        Expression::make_binary(
                            BinaryOperator::Add,
                            Expression::make_binary(
                                BinaryOperator::Mul,
                                dv,
                                Expression::make_unary(UnaryOperator::Ln, u.duplicate()),
                            ),
                            Expression::make_binary(
                                BinaryOperator::Div,
                                Expression::make_binary(BinaryOperator::Mul, v.duplicate(), du),
                                u.duplicate(),
                            ),
                        ),
                    ),
                };
                aggregate(raw)
            },
        }
    }

    /// The derivative with respect to `of`; fails when `of` is not a variable.
    pub fn derivative(&self, of: &Expression) -> (r: Result<Expression, DerivativeError>)
        ensures
            as_variable(*of) is Some ==> r is Ok && r->Ok_0 == deriv(
                *self,
                as_variable(*of)->0.name@,
            ),
            as_variable(*of) is None ==> r is Err && r->Err_0.err_src == *of,
    {
        match of {
            Expression::Operand(AstOperand::Variable(x)) => Ok(self.derivative_of(x)),
            _ => Err(DerivativeError { err_src: of.duplicate() }),
        }
    }
}

} // verus!
