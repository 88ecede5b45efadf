use crate::expression::{
    binary, num_expr, unary, AstOperand, BinaryOperator, Expression, UnaryOperator, Variable,
};
use crate::smart_num::SmartNum;
use vstd::prelude::*;

verus! {

impl core::ops::Add for Expression {
    type Output = Expression;

    fn add(self, rhs: Expression) -> (r: Expression)
        ensures
            r == binary(BinaryOperator::Add, self, rhs),
    {
        Expression::make_binary(BinaryOperator::Add, self, rhs)
    }
}

impl vstd::std_specs::ops::AddSpecImpl for Expression {
    open spec fn obeys_add_spec() -> bool {
        true
    }

    open spec fn add_req(self, rhs: Expression) -> bool {
        true
    }

    open spec fn add_spec(self, rhs: Expression) -> Expression {
        binary(BinaryOperator::Add, self, rhs)
    }
}
impl core::ops::Sub for Expression {
    type Output = Expression;

    fn sub(self, rhs: Expression) -> (r: Expression)
        ensures
            r == binary(BinaryOperator::Sub, self, rhs),
    {
        Expression::make_binary(BinaryOperator::Sub, self, rhs)
    }
}

impl vstd::std_specs::ops::SubSpecImpl for Expression {
    open spec fn obeys_sub_spec() -> bool {
        true
    }

    open spec fn sub_req(self, rhs: Expression) -> bool {
        true
    }

    open spec fn sub_spec(self, rhs: Expression) -> Expression {
        binary(BinaryOperator::Sub, self, rhs)
    }
}
impl core::ops::Mul for Expression {
    type Output = Expression;

    fn mul(self, rhs: Expression) -> (r: Expression)
        ensures
            r == binary(BinaryOperator::Mul, self, rhs),
    {
        Expression::make_binary(BinaryOperator::Mul, self, rhs)
    }
}

impl vstd::std_specs::ops::MulSpecImpl for Expression {
    open spec fn obeys_mul_spec() -> bool {
        true
    }

    open spec fn mul_req(self, rhs: Expression) -> bool {
        true
    }

    open spec fn mul_spec(self, rhs: Expression) -> Expression {
        binary(BinaryOperator::Mul, self, rhs)
    }
}
impl core::ops::Div for Expression {
    type Output = Expression;

    fn div(self, rhs: Expression) -> (r: Expression)
        ensures
            r == binary(BinaryOperator::Div, self, rhs),
    {
        Expression::make_binary(BinaryOperator::Div, self, rhs)
    }
}

impl vstd::std_specs::ops::DivSpecImpl for Expression {
    open spec fn obeys_div_spec() -> bool {
        true
    }

    open spec fn div_req(self, rhs: Expression) -> bool {
        true
    }

    open spec fn div_spec(self, rhs: Expression) -> Expression {
        binary(BinaryOperator::Div, self, rhs)
    }
}
impl core::ops::Neg for Expression {
    type Output = Expression;

    fn neg(self) -> (r: Expression)
        ensures
            r == unary(UnaryOperator::Neg, self),
    {
        Expression::make_unary(UnaryOperator::Neg, self)
    }
}

impl vstd::std_specs::ops::NegSpecImpl for Expression {
    open spec fn obeys_neg_spec() -> bool {
        true
    }

    open spec fn neg_req(self) -> bool {
        true
    }

    open spec fn neg_spec(self) -> Expression {
        unary(UnaryOperator::Neg, self)
    }
}

/// Builds the `sin` node over an expression.
pub trait Sin {
    fn sin(self) -> Self;
}

impl Sin for Expression {
    fn sin(self) -> (r: Expression)
        ensures
            r == unary(UnaryOperator::Sin, self),
    {
        Expression::make_unary(UnaryOperator::Sin, self)
    }
}

/// `sin(x)`.
pub fn sin(x: Expression) -> (r: Expression)
    ensures
        r == unary(UnaryOperator::Sin, x),
{
    Expression::make_unary(UnaryOperator::Sin, x)
}

/// Builds the `cos` node over an expression.
pub trait Cos {
    fn cos(self) -> Self;
}

impl Cos for Expression {
    fn cos(self) -> (r: Expression)
        ensures
            r == unary(UnaryOperator::Cos, self),
    {
        Expression::make_unary(UnaryOperator::Cos, self)
    }
}

/// `cos(x)`.
pub fn cos(x: Expression) -> (r: Expression)
    ensures
        r == unary(UnaryOperator::Cos, x),
{
    Expression::make_unary(UnaryOperator::Cos, x)
}

/// Builds the `exp` node over an expression.
pub trait Exp {
    fn exp(self) -> Self;
}

impl Exp for Expression {
    fn exp(self) -> (r: Expression)
        ensures
            r == unary(UnaryOperator::Exp, self),
    {
        Expression::make_unary(UnaryOperator::Exp, self)
    }
}

/// `exp(x)`.
pub fn exp(x: Expression) -> (r: Expression)
    ensures
        r == unary(UnaryOperator::Exp, x),
{
    Expression::make_unary(UnaryOperator::Exp, x)
}

/// Builds the `ln` node over an expression.
pub trait Ln {
    fn ln(self) -> Self;
}

impl Ln for Expression {
    fn ln(self) -> (r: Expression)
        ensures
            r == unary(UnaryOperator::Ln, self),
    {
        Expression::make_unary(UnaryOperator::Ln, self)
    }
}

/// `ln(x)`.
pub fn ln(x: Expression) -> (r: Expression)
    ensures
        r == unary(UnaryOperator::Ln, x),
{
    Expression::make_unary(UnaryOperator::Ln, x)
}

/// Builds the power node `self ^ exponent`.
pub trait Pow {
    fn pow(self, exponent: Self) -> Self;
}

impl Pow for Expression {
    fn pow(self, exponent: Expression) -> (r: Expression)
        ensures
            r == binary(BinaryOperator::Pow, self, exponent),
    {
        Expression::make_binary(BinaryOperator::Pow, self, exponent)
    }
}
impl From<i64> for SmartNum {
    fn from(v: i64) -> (r: SmartNum)
        ensures
            r == SmartNum::Integer(v as i64),
    {
        SmartNum::Integer(v as i64)
    }
}

impl vstd::std_specs::convert::FromSpecImpl<i64> for SmartNum {
    open spec fn obeys_from_spec() -> bool {
        true
    }

    open spec fn from_spec(v: i64) -> SmartNum {
        SmartNum::Integer(v as i64)
    }
}

impl From<i64> for Expression {
    fn from(v: i64) -> (r: Expression)
        ensures
            r == num_expr(SmartNum::Integer(v as i64)),
    {
        Expression::from_num(SmartNum::Integer(v as i64))
    }
}

impl vstd::std_specs::convert::FromSpecImpl<i64> for Expression {
    open spec fn obeys_from_spec() -> bool {
        true
    }

    open spec fn from_spec(v: i64) -> Expression {
        num_expr(SmartNum::Integer(v as i64))
    }
}

impl From<i64> for AstOperand {
    fn from(v: i64) -> (r: AstOperand)
        ensures
            r == AstOperand::Num(SmartNum::Integer(v as i64)),
    {
        AstOperand::Num(SmartNum::Integer(v as i64))
    }
}

impl vstd::std_specs::convert::FromSpecImpl<i64> for AstOperand {
    open spec fn obeys_from_spec() -> bool {
        true
    }

    open spec fn from_spec(v: i64) -> AstOperand {
        AstOperand::Num(SmartNum::Integer(v as i64))
    }
}

impl From<i32> for SmartNum {
    fn from(v: i32) -> (r: SmartNum)
        ensures
            r == SmartNum::Integer(v as i64),
    {
        SmartNum::Integer(v as i64)
    }
}

impl vstd::std_specs::convert::FromSpecImpl<i32> for SmartNum {
    open spec fn obeys_from_spec() -> bool {
        true
    }

    open spec fn from_spec(v: i32) -> SmartNum {
        SmartNum::Integer(v as i64)
    }
}

impl From<i32> for Expression {
    fn from(v: i32) -> (r: Expression)
        ensures
            r == num_expr(SmartNum::Integer(v as i64)),
    {
        Expression::from_num(SmartNum::Integer(v as i64))
    }
}

impl vstd::std_specs::convert::FromSpecImpl<i32> for Expression {
    open spec fn obeys_from_spec() -> bool {
        true
    }

    open spec fn from_spec(v: i32) -> Expression {
        num_expr(SmartNum::Integer(v as i64))
    }
}

impl From<i32> for AstOperand {
    fn from(v: i32) -> (r: AstOperand)
        ensures
            r == AstOperand::Num(SmartNum::Integer(v as i64)),
    {
        AstOperand::Num(SmartNum::Integer(v as i64))
    }
}

impl vstd::std_specs::convert::FromSpecImpl<i32> for AstOperand {
    open spec fn obeys_from_spec() -> bool {
        true
    }

    open spec fn from_spec(v: i32) -> AstOperand {
        AstOperand::Num(SmartNum::Integer(v as i64))
    }
}

impl From<u32> for SmartNum {
    fn from(v: u32) -> (r: SmartNum)
        ensures
            r == SmartNum::Integer(v as i64),
    {
        SmartNum::Integer(v as i64)
    }
}

impl vstd::std_specs::convert::FromSpecImpl<u32> for SmartNum {
    open spec fn obeys_from_spec() -> bool {
        true
    }

    open spec fn from_spec(v: u32) -> SmartNum {
        SmartNum::Integer(v as i64)
    }
}

impl From<u32> for Expression {
    fn from(v: u32) -> (r: Expression)
        ensures
            r == num_expr(SmartNum::Integer(v as i64)),
    {
        Expression::from_num(SmartNum::Integer(v as i64))
    }
}

impl vstd::std_specs::convert::FromSpecImpl<u32> for Expression {
    open spec fn obeys_from_spec() -> bool {
        true
    }

    open spec fn from_spec(v: u32) -> Expression {
        num_expr(SmartNum::Integer(v as i64))
    }
}

impl From<u32> for AstOperand {
    fn from(v: u32) -> (r: AstOperand)
        ensures
            r == AstOperand::Num(SmartNum::Integer(v as i64)),
    {
        AstOperand::Num(SmartNum::Integer(v as i64))
    }
}

impl vstd::std_specs::convert::FromSpecImpl<u32> for AstOperand {
    open spec fn obeys_from_spec() -> bool {
        true
    }

    open spec fn from_spec(v: u32) -> AstOperand {
        AstOperand::Num(SmartNum::Integer(v as i64))
    }
}

impl From<SmartNum> for Expression {
    fn from(v: SmartNum) -> (r: Expression)
        ensures
            r == num_expr(v),
    {
        Expression::from_num(v)
    }
}

impl vstd::std_specs::convert::FromSpecImpl<SmartNum> for Expression {
    open spec fn obeys_from_spec() -> bool {
        true
    }

    open spec fn from_spec(v: SmartNum) -> Expression {
        num_expr(v)
    }
}

impl From<Variable> for Expression {
    fn from(v: Variable) -> (r: Expression)
        ensures
            r == Expression::Operand(AstOperand::Variable(v)),
    {
        Expression::from_variable(v)
    }
}

impl vstd::std_specs::convert::FromSpecImpl<Variable> for Expression {
    open spec fn obeys_from_spec() -> bool {
        true
    }

    open spec fn from_spec(v: Variable) -> Expression {
        Expression::Operand(AstOperand::Variable(v))
    }
}

impl From<SmartNum> for AstOperand {
    fn from(v: SmartNum) -> (r: AstOperand)
        ensures
            r == AstOperand::Num(v),
    {
        AstOperand::Num(v)
    }
}

impl vstd::std_specs::convert::FromSpecImpl<SmartNum> for AstOperand {
    open spec fn obeys_from_spec() -> bool {
        true
    }

    open spec fn from_spec(v: SmartNum) -> AstOperand {
        AstOperand::Num(v)
    }
}

impl From<i8> for SmartNum {
    fn from(v: i8) -> (r: SmartNum)
        ensures
            r == SmartNum::Integer(v as i64),
    {
        SmartNum::Integer(v as i64)
    }
}

impl vstd::std_specs::convert::FromSpecImpl<i8> for SmartNum {
    open spec fn obeys_from_spec() -> bool {
        true
    }

    open spec fn from_spec(v: i8) -> SmartNum {
        SmartNum::Integer(v as i64)
    }
}

impl From<i8> for Expression {
    fn from(v: i8) -> (r: Expression)
        ensures
            r == num_expr(SmartNum::Integer(v as i64)),
    {
        Expression::from_num(SmartNum::Integer(v as i64))
    }
}

impl vstd::std_specs::convert::FromSpecImpl<i8> for Expression {
    open spec fn obeys_from_spec() -> bool {
        true
    }

    open spec fn from_spec(v: i8) -> Expression {
        num_expr(SmartNum::Integer(v as i64))
    }
}

impl From<i16> for SmartNum {
    fn from(v: i16) -> (r: SmartNum)
        ensures
            r == SmartNum::Integer(v as i64),
    {
        SmartNum::Integer(v as i64)
    }
}

impl vstd::std_specs::convert::FromSpecImpl<i16> for SmartNum {
    open spec fn obeys_from_spec() -> bool {
        true
    }

    open spec fn from_spec(v: i16) -> SmartNum {
        SmartNum::Integer(v as i64)
    }
}

impl From<i16> for Expression {
    fn from(v: i16) -> (r: Expression)
        ensures
            r == num_expr(SmartNum::Integer(v as i64)),
    {
        Expression::from_num(SmartNum::Integer(v as i64))
    }
}

impl vstd::std_specs::convert::FromSpecImpl<i16> for Expression {
    open spec fn obeys_from_spec() -> bool {
        true
    }

    open spec fn from_spec(v: i16) -> Expression {
        num_expr(SmartNum::Integer(v as i64))
    }
}

impl From<u8> for SmartNum {
    fn from(v: u8) -> (r: SmartNum)
        ensures
            r == SmartNum::Integer(v as i64),
    {
        SmartNum::Integer(v as i64)
    }
}

impl vstd::std_specs::convert::FromSpecImpl<u8> for SmartNum {
    open spec fn obeys_from_spec() -> bool {
        true
    }

    open spec fn from_spec(v: u8) -> SmartNum {
        SmartNum::Integer(v as i64)
    }
}

impl From<u8> for Expression {
    fn from(v: u8) -> (r: Expression)
        ensures
            r == num_expr(SmartNum::Integer(v as i64)),
    {
        Expression::from_num(SmartNum::Integer(v as i64))
    }
}

impl vstd::std_specs::convert::FromSpecImpl<u8> for Expression {
    open spec fn obeys_from_spec() -> bool {
        true
    }

    open spec fn from_spec(v: u8) -> Expression {
        num_expr(SmartNum::Integer(v as i64))
    }
}

impl From<u16> for SmartNum {
    fn from(v: u16) -> (r: SmartNum)
        ensures
            r == SmartNum::Integer(v as i64),
    {
        SmartNum::Integer(v as i64)
    }
}

impl vstd::std_specs::convert::FromSpecImpl<u16> for SmartNum {
    open spec fn obeys_from_spec() -> bool {
        true
    }

    open spec fn from_spec(v: u16) -> SmartNum {
        SmartNum::Integer(v as i64)
    }
}

impl From<u16> for Expression {
    fn from(v: u16) -> (r: Expression)
        ensures
            r == num_expr(SmartNum::Integer(v as i64)),
    {
        Expression::from_num(SmartNum::Integer(v as i64))
    }
}

impl vstd::std_specs::convert::FromSpecImpl<u16> for Expression {
    open spec fn obeys_from_spec() -> bool {
        true
    }

    open spec fn from_spec(v: u16) -> Expression {
        num_expr(SmartNum::Integer(v as i64))
    }
}

} // verus!
