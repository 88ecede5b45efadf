use crate::aggregate::{agg, aggregate, is_aggregated, lemma_agg_is_aggregated};
use crate::derivative::deriv;
use crate::expression::{
    binary, num_expr, render, size, unary, AstOperand, BinaryOperator, Expression,
    UnaryOperator, Variable,
};
use crate::smart_num::SmartNum;
use crate::substitute::{as_variable, subst};
use crate::text::push_str;
use vstd::prelude::*;

verus! {

/// How deeply the limit evaluator may nest its rewrites and derivative
/// retries inside one another before it gives up; plain subterms, quotients
/// among them, do not count.
pub const LIMIT_REWRITE_DEPTH: u64 = 32;

/// The behaviour of an expression as its variable approaches the target.
/// The engine does not track the sign of an infinity or an infinitesimal.
#[derive(Debug, Clone)]
pub enum LimitExpression {
    Infinitesimal,
    Infinity,
    BoundedFluctuation,
    /// A finite, nonzero limit, aggregated.
    Normal(Expression),
}

/// No rule of the class algebra, nor the derivative fallback within its
/// budget, resolves the limit.
#[derive(Debug, Clone, Copy, PartialEq, Eq, Structural)]
pub struct NoValidLimitFound {}

pub open spec fn no_limit() -> Result<LimitExpression, NoValidLimitFound> {
    Err(NoValidLimitFound {  })
}

pub open spec fn class_neg(a: LimitExpression) -> LimitExpression {
    match a {
        LimitExpression::Normal(x) => LimitExpression::Normal(unary(UnaryOperator::Neg, x)),
        _ => a,
    }
}

pub open spec fn class_add(a: LimitExpression, b: LimitExpression) -> Result<
    LimitExpression,
    NoValidLimitFound,
> {
    match a {
        LimitExpression::Infinitesimal => match b {
            LimitExpression::Infinity => no_limit(),
            _ => Ok(b),
        },
        LimitExpression::Infinity => match b {
            LimitExpression::Infinity => no_limit(),
            _ => Ok(LimitExpression::Infinity),
        },
        LimitExpression::BoundedFluctuation => match b {
            LimitExpression::Infinity => Ok(LimitExpression::Infinity),
            _ => Ok(LimitExpression::BoundedFluctuation),
        },
        LimitExpression::Normal(x) => match b {
            LimitExpression::Infinitesimal => Ok(a),
            LimitExpression::Normal(y) => Ok(
                LimitExpression::Normal(binary(BinaryOperator::Add, x, y)),
            ),
            _ => Ok(b),
        },
    }
}

pub open spec fn class_sub(a: LimitExpression, b: LimitExpression) -> Result<
    LimitExpression,
    NoValidLimitFound,
> {
    class_add(a, class_neg(b))
}

pub open spec fn class_mul(a: LimitExpression, b: LimitExpression) -> Result<
    LimitExpression,
    NoValidLimitFound,
> {
    match a {
        LimitExpression::Infinitesimal => match b {
            LimitExpression::Infinity => no_limit(),
            _ => Ok(LimitExpression::Infinitesimal),
        },
        LimitExpression::Infinity => match b {
            LimitExpression::Infinity => Ok(LimitExpression::Infinity),
            LimitExpression::Normal(_) => Ok(LimitExpression::Infinity),
            _ => no_limit(),
        },
        LimitExpression::BoundedFluctuation => match b {
            LimitExpression::Infinitesimal => Ok(LimitExpression::Infinitesimal),
            LimitExpression::Infinity => no_limit(),
            _ => Ok(LimitExpression::BoundedFluctuation),
        },
        LimitExpression::Normal(x) => match b {
            LimitExpression::Normal(y) => Ok(
                LimitExpression::Normal(binary(BinaryOperator::Mul, x, y)),
            ),
            _ => Ok(b),
        },
    }
}

pub open spec fn class_div(a: LimitExpression, b: LimitExpression) -> Result<
    LimitExpression,
    NoValidLimitFound,
> {
    match a {
        LimitExpression::Infinitesimal => match b {
            LimitExpression::Infinity => Ok(LimitExpression::Infinitesimal),
            LimitExpression::Normal(y) => if y.spec_is_zero() {
                no_limit()
            } else {
                Ok(LimitExpression::Infinitesimal)
            },
            _ => no_limit(),
        },
        LimitExpression::Infinity => match b {
            LimitExpression::Infinitesimal => Ok(LimitExpression::Infinity),
            LimitExpression::Normal(_) => Ok(LimitExpression::Infinity),
            _ => no_limit(),
        },
        LimitExpression::BoundedFluctuation => match b {
            LimitExpression::Infinity => Ok(LimitExpression::Infinitesimal),
            LimitExpression::Normal(y) => if y.spec_is_zero() {
                no_limit()
            } else {
                Ok(LimitExpression::BoundedFluctuation)
            },
            _ => no_limit(),
        },
        LimitExpression::Normal(x) => match b {
            LimitExpression::Infinitesimal => if x.spec_is_zero() {
                no_limit()
            } else {
                Ok(LimitExpression::Infinity)
            },
            LimitExpression::Infinity => Ok(LimitExpression::Infinitesimal),
            LimitExpression::BoundedFluctuation => no_limit(),
            LimitExpression::Normal(y) => Ok(
                LimitExpression::Normal(binary(BinaryOperator::Div, x, y)),
            ),
        },
    }
}

/// The class of a finite limit `x`: aggregated, and infinitesimal when it is zero.
pub open spec fn normal_class(x: Expression) -> LimitExpression {
    if agg(x).spec_is_zero() {
        LimitExpression::Infinitesimal
    } else {
        LimitExpression::Normal(agg(x))
    }
}

/// Passes a finite limit back through aggregation.
pub open spec fn settle(c: LimitExpression) -> LimitExpression {
    match c {
        LimitExpression::Normal(x) => normal_class(x),
        _ => c,
    }
}

pub open spec fn settle_result(r: Result<LimitExpression, NoValidLimitFound>) -> Result<
    LimitExpression,
    NoValidLimitFound,
> {
    match r {
        Ok(c) => Ok(settle(c)),
        Err(e) => Err(e),
    }
}

/// Is the class one that tends to zero.
pub open spec fn tends_to_zero(c: LimitExpression) -> bool {
    match c {
        LimitExpression::Infinitesimal => true,
        LimitExpression::Normal(x) => x.spec_is_zero(),
        _ => false,
    }
}

pub open spec fn one_expr() -> Expression {
    num_expr(SmartNum::Integer(1))
}

/// `l + r` rewritten as `(l / r + 1) / (1 / r)`.
pub open spec fn add_rewrite(l: Expression, r: Expression) -> Expression {
    binary(
        BinaryOperator::Div,
        binary(BinaryOperator::Add, binary(BinaryOperator::Div, l, r), one_expr()),
        binary(BinaryOperator::Div, one_expr(), r),
    )
}

/// `l * r` rewritten as `l / (1 / r)`.
pub open spec fn mul_rewrite(l: Expression, r: Expression) -> Expression {
    binary(BinaryOperator::Div, l, binary(BinaryOperator::Div, one_expr(), r))
}

/// The limit of `e` as the variable named `name` approaches `to`: the class
/// that `limit_raw` finds, with a finite limit passed back through aggregation.
pub open spec fn limit_spec(
    e: Expression,
    name: Seq<char>,
    to: Expression,
    order: u64,
    fuel: nat,
) -> Result<LimitExpression, NoValidLimitFound>
    decreases fuel, 1nat, size(e), 1nat,
{
    settle_result(limit_raw(e, name, to, order, fuel))
}

/// Numbers and other variables are finite; the variable is infinitesimal when
/// `to` is zero. Sums, differences and products compose the classes of their
/// arguments and, where that is undefined, are rewritten as a quotient; a
/// quotient retries on the derivatives of its two sides, up to `order` times
/// (L'Hopital's rule). sin and cos are evaluated at `to`; exp, ln and powers
/// have no rule. Limits of subterms keep the whole `fuel`; a rewrite, and the
/// derivative retries of a quotient, run one unit deeper, so `fuel` bounds how
/// deeply rewrites and retries nest inside one another.
pub open spec fn limit_raw(
    e: Expression,
    name: Seq<char>,
    to: Expression,
    order: u64,
    fuel: nat,
) -> Result<LimitExpression, NoValidLimitFound>
    decreases fuel, 1nat, size(e), 0nat,
{
    match e {
        Expression::Operand(o) => match o {
            AstOperand::Variable(x) => if x.name@ == name {
                if to.spec_is_zero() {
                    Ok(LimitExpression::Infinitesimal)
                } else {
                    Ok(LimitExpression::Normal(to))
                }
            } else {
                Ok(LimitExpression::Normal(e))
            },
            AstOperand::Num(_) => Ok(LimitExpression::Normal(e)),
        },
        Expression::Unary(op, u) => match op {
            UnaryOperator::Neg => match limit_spec(*u, name, to, order, fuel) {
                Ok(c) => Ok(class_neg(c)),
                Err(x) => Err(x),
            },
            UnaryOperator::Sin => Ok(normal_class(subst(e, name, to))),
            UnaryOperator::Cos => Ok(normal_class(subst(e, name, to))),
            _ => no_limit(),
        },
        Expression::Binary(op, l, r) => match op {
            BinaryOperator::Div => match limit_spec(*l, name, to, order, fuel) {
                Ok(a) => match limit_spec(*r, name, to, order, fuel) {
                    Ok(b) => match class_div(a, b) {
                        Ok(c) => Ok(c),
                        Err(x) => if order == 0 || fuel == 0 {
                            no_limit()
                        } else {
                            quotient_limit(
                                deriv(*l, name),
                                deriv(*r, name),
                                name,
                                to,
                                order,
                                (order - 1) as nat,
                                (fuel - 1) as nat,
                            )
                        },
                    },
                    Err(x) => Err(x),
                },
                Err(x) => Err(x),
            },
            BinaryOperator::Pow => no_limit(),
            _ => match limit_spec(*l, name, to, order, fuel) {
                Ok(a) => match limit_spec(*r, name, to, order, fuel) {
                    Ok(b) => match combine(op, a, b) {
                        Ok(c) => Ok(c),
                        Err(x) => if fuel == 0 {
                            no_limit()
                        } else {
                            limit_spec(rewrite(op, *l, *r, b), name, to, order, (fuel - 1) as nat)
                        },
                    },
                    Err(x) => Err(x),
                },
                Err(x) => Err(x),
            },
        },
    }
}

/// The class algebra of a sum, a difference (as the sum with the negated
/// right side) and a product.
pub open spec fn combine(op: BinaryOperator, a: LimitExpression, b: LimitExpression) -> Result<
    LimitExpression,
    NoValidLimitFound,
> {
    match op {
        BinaryOperator::Add => class_add(a, b),
        BinaryOperator::Sub => class_add(a, settle(class_neg(b))),
        _ => class_mul(a, b),
    }
}

/// The quotient that a sum, difference or product is rewritten to when its
/// classes do not compose; `b` is the class of the right side. A product is
/// divided by the reciprocal of the side that does not tend to zero.
pub open spec fn rewrite(op: BinaryOperator, l: Expression, r: Expression, b: LimitExpression) -> Expression {
    match op {
        BinaryOperator::Add => add_rewrite(l, r),
        BinaryOperator::Sub => add_rewrite(l, unary(UnaryOperator::Neg, r)),
        _ => if tends_to_zero(b) {
            mul_rewrite(r, l)
        } else {
            mul_rewrite(l, r)
        },
    }
}

/// The derivative retries of a quotient: the quotient of the classes of `l`
/// and `r`, else the same on their derivatives, `left` more times.
pub open spec fn quotient_limit(
    l: Expression,
    r: Expression,
    name: Seq<char>,
    to: Expression,
    order: u64,
    left: nat,
    fuel: nat,
) -> Result<LimitExpression, NoValidLimitFound>
    decreases fuel + 1, 0nat, left, 0nat,
{
    match limit_spec(l, name, to, order, fuel) {
        Ok(a) => match limit_spec(r, name, to, order, fuel) {
            Ok(b) => match class_div(a, b) {
                Ok(c) => Ok(c),
                Err(x) => if left == 0 {
                    no_limit()
                } else {
                    quotient_limit(
                        deriv(l, name),
                        deriv(r, name),
                        name,
                        to,
                        order,
                        (left - 1) as nat,
                        fuel,
                    )
                },
            },
            Err(x) => Err(x),
        },
        Err(x) => Err(x),
    }
}

proof fn lemma_settle_normal(c: LimitExpression)
    ensures
        settle(c) matches LimitExpression::Normal(x) ==> is_aggregated(x) && !x.spec_is_zero(),
{
    match c {
        LimitExpression::Normal(y) => lemma_agg_is_aggregated(y),
        _ => {},
    }
}

/// A finite limit that the evaluator reports is aggregated and nonzero: zero
/// limits are always reported as infinitesimal.
pub proof fn lemma_limit_normal_form(
    e: Expression,
    name: Seq<char>,
    to: Expression,
    order: u64,
    fuel: nat,
)
    ensures
        limit_spec(e, name, to, order, fuel) matches Ok(LimitExpression::Normal(x))
            ==> is_aggregated(x) && !x.spec_is_zero(),
{
    match limit_raw(e, name, to, order, fuel) {
        Ok(c) => lemma_settle_normal(c),
        Err(_) => {},
    }
}

impl LimitExpression {
    pub fn negated(self) -> (r: LimitExpression)
        ensures
            r == class_neg(self),
    {
        match self {
            LimitExpression::Normal(x) => LimitExpression::Normal(
                Expression::make_unary(UnaryOperator::Neg, x),
            ),
            other => other,
        }
    }

    /// The class of a sum.
    pub fn sum(self, rhs: LimitExpression) -> (r: Result<LimitExpression, NoValidLimitFound>)
        ensures
            r == class_add(self, rhs),
    {
        match self {
            LimitExpression::Infinitesimal => match rhs {
                LimitExpression::Infinity => Err(NoValidLimitFound {  }),
                other => Ok(other),
            },
            LimitExpression::Infinity => match rhs {
                LimitExpression::Infinity => Err(NoValidLimitFound {  }),
                _ => Ok(LimitExpression::Infinity),
            },
            LimitExpression::BoundedFluctuation => match rhs {
                LimitExpression::Infinity => Ok(LimitExpression::Infinity),
                _ => Ok(LimitExpression::BoundedFluctuation),
            },
            LimitExpression::Normal(x) => match rhs {
                LimitExpression::Infinitesimal => Ok(LimitExpression::Normal(x)),
                LimitExpression::Normal(y) => Ok(
                    LimitExpression::Normal(Expression::make_binary(BinaryOperator::Add, x, y)),
                ),
                other => Ok(other),
            },
        }
    }

    /// The class of a difference: the sum with the negated right side.
    pub fn difference(self, rhs: LimitExpression) -> (r: Result<LimitExpression, NoValidLimitFound>)
        ensures
            r == class_sub(self, rhs),
    {
        self.sum(rhs.negated())
    }

    /// The class of a product.
    pub fn product(self, rhs: LimitExpression) -> (r: Result<LimitExpression, NoValidLimitFound>)
        ensures
            r == class_mul(self, rhs),
    {
        match self {
            LimitExpression::Infinitesimal => match rhs {
                LimitExpression::Infinity => Err(NoValidLimitFound {  }),
                _ => Ok(LimitExpression::Infinitesimal),
            },
            LimitExpression::Infinity => match rhs {
                LimitExpression::Infinity => Ok(LimitExpression::Infinity),
                LimitExpression::Normal(_) => Ok(LimitExpression::Infinity),
                _ => Err(NoValidLimitFound {  }),
            },
            LimitExpression::BoundedFluctuation => match rhs {
                LimitExpression::Infinitesimal => Ok(LimitExpression::Infinitesimal),
                LimitExpression::Infinity => Err(NoValidLimitFound {  }),
                _ => Ok(LimitExpression::BoundedFluctuation),
            },
            LimitExpression::Normal(x) => match rhs {
                LimitExpression::Normal(y) => Ok(
                    LimitExpression::Normal(Expression::make_binary(BinaryOperator::Mul, x, y)),
                ),
                other => Ok(other),
            },
        }
    }

    /// The class of a quotient.
    pub fn quotient(self, rhs: LimitExpression) -> (r: Result<LimitExpression, NoValidLimitFound>)
        ensures
            r == class_div(self, rhs),
    {
        match self {
            LimitExpression::Infinitesimal => match rhs {
                LimitExpression::Infinity => Ok(LimitExpression::Infinitesimal),
                LimitExpression::Normal(y) => if y.is_zero() {
                    Err(NoValidLimitFound {  })
                } else {
                    Ok(LimitExpression::Infinitesimal)
                },
                _ => Err(NoValidLimitFound {  }),
            },
            LimitExpression::Infinity => match rhs {
                LimitExpression::Infinitesimal => Ok(LimitExpression::Infinity),
                LimitExpression::Normal(_) => Ok(LimitExpression::Infinity),
                _ => Err(NoValidLimitFound {  }),
            },
            LimitExpression::BoundedFluctuation => match rhs {
                LimitExpression::Infinity => Ok(LimitExpression::Infinitesimal),
                LimitExpression::Normal(y) => if y.is_zero() {
                    Err(NoValidLimitFound {  })
                } else {
                    Ok(LimitExpression::BoundedFluctuation)
                },
                _ => Err(NoValidLimitFound {  }),
            },
            LimitExpression::Normal(x) => match rhs {
                LimitExpression::Infinitesimal => if x.is_zero() {
                    Err(NoValidLimitFound {  })
                } else {
                    Ok(LimitExpression::Infinity)
                },
                LimitExpression::Infinity => Ok(LimitExpression::Infinitesimal),
                LimitExpression::BoundedFluctuation => Err(NoValidLimitFound {  }),
                LimitExpression::Normal(y) => Ok(
                    LimitExpression::Normal(Expression::make_binary(BinaryOperator::Div, x, y)),
                ),
            },
        }
    }

    pub open spec fn spec_text(&self) -> Seq<char> {
        match *self {
            LimitExpression::Infinitesimal => seq!['0'],
            LimitExpression::Infinity => seq!['i', 'n', 'f', 'i', 'n', 'i', 't', 'y'],
            LimitExpression::BoundedFluctuation => seq!['~'],
            LimitExpression::Normal(x) => render(x, 0),
        }
    }

    /// `0`, `infinity`, `~`, or the text of the finite limit.
    pub fn to_string(&self) -> (r: String)
        ensures
            r@ == self.spec_text(),
    {
        proof {
            reveal_strlit("0");
            reveal_strlit("infinity");
            reveal_strlit("~");
        }
        let mut out = String::new();
        match self {
            LimitExpression::Infinitesimal => push_str(&mut out, "0"),
            LimitExpression::Infinity => push_str(&mut out, "infinity"),
            LimitExpression::BoundedFluctuation => push_str(&mut out, "~"),
            LimitExpression::Normal(x) => {
                return x.to_string();
            },
        }
        assert(out@ =~= self.spec_text());
        out
    }
}

fn normal_class_exec(x: Expression) -> (r: LimitExpression)
    ensures
        r == normal_class(x),
{
    let a = aggregate(x);
    if a.is_zero() {
        LimitExpression::Infinitesimal
    } else {
        LimitExpression::Normal(a)
    }
}

fn settle_exec(c: LimitExpression) -> (r: LimitExpression)
    ensures
        r == settle(c),
{
    match c {
        LimitExpression::Normal(x) => normal_class_exec(x),
        other => other,
    }
}

fn tends_to_zero_exec(c: &LimitExpression) -> (r: bool)
    ensures
        r == tends_to_zero(*c),
{
    match c {
        LimitExpression::Infinitesimal => true,
        LimitExpression::Normal(x) => x.is_zero(),
        _ => false,
    }
}

fn add_rewrite_exec(l: Expression, r: Expression) -> (z: Expression)
    ensures
        z == add_rewrite(l, r),
{
    let r2 = r.duplicate();
    Expression::make_binary(
        BinaryOperator::Div,
        Expression::make_binary(
            BinaryOperator::Add,
            Expression::make_binary(BinaryOperator::Div, l, r),
            Expression::one(),
        ),
        Expression::make_binary(BinaryOperator::Div, Expression::one(), r2),
    )
}

fn mul_rewrite_exec(l: Expression, r: Expression) -> (z: Expression)
    ensures
        z == mul_rewrite(l, r),
{
    Expression::make_binary(
        BinaryOperator::Div,
        l,
        Expression::make_binary(BinaryOperator::Div, Expression::one(), r),
    )
}

fn limit_rec(e: &Expression, of: &Variable, to: &Expression, order: u64, fuel: u64) -> (r: Result<
    LimitExpression,
    NoValidLimitFound,
>)
    ensures
        r == limit_spec(*e, of.name@, *to, order, fuel as nat),
    decreases fuel, 1nat, size(*e), 1nat,
{
    match limit_raw_exec(e, of, to, order, fuel) {
        Ok(c) => Ok(settle_exec(c)),
        Err(x) => Err(x),
    }
}

fn limit_raw_exec(e: &Expression, of: &Variable, to: &Expression, order: u64, fuel: u64) -> (r:
    Result<LimitExpression, NoValidLimitFound>)
    ensures
        r == limit_raw(*e, of.name@, *to, order, fuel as nat),
    decreases fuel, 1nat, size(*e), 0nat,
{
    match e {
        Expression::Operand(AstOperand::Variable(x)) => {
            if x.name == of.name {
                if to.is_zero() {
                    Ok(LimitExpression::Infinitesimal)
                } else {
                    Ok(LimitExpression::Normal(to.duplicate()))
                }
            } else {
                Ok(LimitExpression::Normal(e.duplicate()))
            }
        },
        Expression::Operand(AstOperand::Num(_)) => Ok(LimitExpression::Normal(e.duplicate())),
        Expression::Unary(op, u) => match op {
            UnaryOperator::Neg => match limit_rec(u, of, to, order, fuel) {
                Ok(c) => Ok(c.negated()),
                Err(x) => Err(x),
            },
            UnaryOperator::Sin => Ok(normal_class_exec(e.substitute_variable(of, to))),
            UnaryOperator::Cos => Ok(normal_class_exec(e.substitute_variable(of, to))),
            _ => Err(NoValidLimitFound {  }),
        },
        Expression::Binary(op, l, r) => match op {
            BinaryOperator::Div => {
                let a = match limit_rec(l, of, to, order, fuel) {
                    Ok(a) => a,
                    Err(x) => {
                        return Err(x);
                    },
                };
                let b = match limit_rec(r, of, to, order, fuel) {
                    Ok(b) => b,
                    Err(x) => {
                        return Err(x);
                    },
                };
                match a.quotient(b) {
                    Ok(c) => Ok(c),
                    Err(_) => {
                        if order == 0 || fuel == 0 {
                            Err(NoValidLimitFound {  })
                        } else {
                            quotient_exec(
                                l.derivative_of(of),
                                r.derivative_of(of),
                                of,
                                to,
                                order,
                                order - 1,
                                fuel - 1,
                            )
                        }
                    },
                }
            },
            BinaryOperator::Pow => Err(NoValidLimitFound {  }),
            _ => {
                let a = match limit_rec(l, of, to, order, fuel) {
                    Ok(a) => a,
                    Err(x) => {
                        return Err(x);
                    },
                };
                let b = match limit_rec(r, of, to, order, fuel) {
                    Ok(b) => b,
                    Err(x) => {
                        return Err(x);
                    },
                };
                let zero_right = tends_to_zero_exec(&b);
                let ghost gb = b;
                let combined = match op {
                    BinaryOperator::Add => a.sum(b),
                    BinaryOperator::Sub => a.sum(settle_exec(b.negated())),
                    _ => a.product(b),
                };
                match combined {
                    Ok(c) => Ok(c),
                    Err(_) => {
                        if fuel == 0 {
                            Err(NoValidLimitFound {  })
                        } else {
                            let z = match op {
                                BinaryOperator::Add => add_rewrite_exec(
                                    l.duplicate(),
                                    r.duplicate(),
                                ),
                                BinaryOperator::Sub => add_rewrite_exec(
                                    l.duplicate(),
                                    Expression::make_unary(UnaryOperator::Neg, r.duplicate()),
                                ),
                                _ => if zero_right {
                                    mul_rewrite_exec(r.duplicate(), l.duplicate())
                                } else {
                                    mul_rewrite_exec(l.duplicate(), r.duplicate())
                                },
                            };
                            assert(z == rewrite(*op, **l, **r, gb));
                            limit_rec(&z, of, to, order, fuel - 1)
                        }
                    },
                }
            },
        },
    }
}

fn quotient_exec(
    l: Expression,
    r: Expression,
    of: &Variable,
    to: &Expression,
    order: u64,
    left: u64,
    fuel: u64,
) -> (res: Result<LimitExpression, NoValidLimitFound>)
    ensures
        res == quotient_limit(l, r, of.name@, *to, order, left as nat, fuel as nat),
    decreases fuel + 1, 0nat, left, 0nat,
{
    let a = match limit_rec(&l, of, to, order, fuel) {
        Ok(a) => a,
        Err(x) => {
            return Err(x);
        },
    };
    let b = match limit_rec(&r, of, to, order, fuel) {
        Ok(b) => b,
        Err(x) => {
            return Err(x);
        },
    };
    match a.quotient(b) {
        Ok(c) => Ok(c),
        Err(_) => {
            if left == 0 {
                Err(NoValidLimitFound {  })
            } else {
                let dl = l.derivative_of(of);
                let dr = r.derivative_of(of);
                quotient_exec(dl, dr, of, to, order, left - 1, fuel)
            }
        },
    }
}

impl Expression {
    /// The limit as `of` approaches `to`, with up to `order_try` derivative
    /// retries for each quotient. Subterms, nested quotients included, cost
    /// nothing; rewrites and derivative retries may nest `LIMIT_REWRITE_DEPTH`
    /// deep, and no limit is found beyond that.
    pub fn limit_of(&self, of: &Variable, to: &Expression, order_try: u64) -> (r: Result<
        LimitExpression,
        NoValidLimitFound,
    >)
        ensures
            r == limit_spec(*self, of.name@, *to, order_try, LIMIT_REWRITE_DEPTH as nat),
    {
        limit_rec(self, of, to, order_try, LIMIT_REWRITE_DEPTH)
    }

    /// The limit as the variable `of` approaches `to`; no limit is found when
    /// `of` is not a variable.
    pub fn limit(&self, of: &Expression, to: &Expression, order_try: u64) -> (r: Result<
        LimitExpression,
        NoValidLimitFound,
    >)
        ensures
            as_variable(*of) is Some ==> r == limit_spec(
                *self,
                as_variable(*of)->0.name@,
                *to,
                order_try,
                LIMIT_REWRITE_DEPTH as nat,
            ),
            as_variable(*of) is None ==> r == no_limit(),
    {
        match of {
            Expression::Operand(AstOperand::Variable(x)) => self.limit_of(x, to, order_try),
            _ => Err(NoValidLimitFound {  }),
        }
    }
}

} // verus!
