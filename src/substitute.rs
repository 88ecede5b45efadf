use crate::expression::{binary, unary, AstOperand, Expression, Variable};
use vstd::prelude::*;

verus! {

/// Asked to substitute for an expression that is not a variable.
#[derive(Debug, Clone, Copy, PartialEq, Eq, Structural)]
pub struct SubstituteError {}

/// `e` with every occurrence of the variable named `name` replaced by `v`.
pub open spec fn subst(e: Expression, name: Seq<char>, v: Expression) -> Expression
    decreases e,
{
    match e {
        Expression::Operand(o) => match o {
            AstOperand::Variable(x) => if x.name@ == name {
                v
            } else {
                e
            },
            AstOperand::Num(_) => e,
        },
        Expression::Unary(op, a) => unary(op, subst(*a, name, v)),
        Expression::Binary(op, a, b) => binary(op, subst(*a, name, v), subst(*b, name, v)),
    }
}

/// The variable of a variable operand, which substitution and differentiation
/// are taken with respect to.
pub open spec fn as_variable(e: Expression) -> Option<Variable> {
    match e {
        Expression::Operand(AstOperand::Variable(x)) => Some(x),
        _ => None,
    }
}

impl Expression {
    /// Replaces every occurrence of `of` by a copy of `v`.
    pub fn substitute_variable(&self, of: &Variable, v: &Expression) -> (r: Expression)
        ensures
            r == subst(*self, of.name@, *v),
        decreases self,
    {
        match self {
            Expression::Operand(AstOperand::Variable(x)) => {
                if x.name == of.name {
                    v.duplicate()
                } else {
                    self.duplicate()
                }
            },
            Expression::Operand(AstOperand::Num(_)) => self.duplicate(),
            Expression::Unary(op, a) => Expression::make_unary(
                *op,
                a.substitute_variable(of, v),
            ),
            Expression::Binary(op, a, b) => Expression::make_binary(
                *op,
                a.substitute_variable(of, v),
                b.substitute_variable(of, v),
            ),
        }
    }

    /// Replaces every occurrence of the variable `of` by `v`; fails when `of`
    /// is not a variable.
    pub fn substitute(&self, of: &Expression, v: &Expression) -> (r: Result<
        Expression,
        SubstituteError,
    >)
        ensures
            as_variable(*of) is Some ==> r == Ok::<Expression, SubstituteError>(
                subst(*self, as_variable(*of)->0.name@, *v),
            ),
            as_variable(*of) is None ==> r == Err::<Expression, SubstituteError>(
                SubstituteError {  },
            ),
    {
        match of {
            Expression::Operand(AstOperand::Variable(x)) => Ok(self.substitute_variable(x, v)),
            _ => Err(SubstituteError {  }),
        }
    }
}

} // verus!
