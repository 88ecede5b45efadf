use crate::aggregate::{agg, aggregate};
use crate::derivative::deriv_n;
use crate::expression::{
    binary, num_expr, render, AstOperand, BinaryOperator, Expression, Variable,
};
use crate::rational::RationalNum;
use crate::text::push_str;
use crate::smart_num::SmartNum;
use crate::substitute::{as_variable, subst};
use vstd::prelude::*;

verus! {

/// The first `order + 1` Taylor coefficients of an expression, with the
/// remainder term.
#[derive(Debug, Clone)]
pub struct PartialExpansion {
    pub order: u64,
    /// The variable of the expansion.
    pub of: Expression,
    /// The expansion point.
    pub at: Expression,
    /// `coefficient[k]` is the `k`-th derivative at the point, divided by `k!`.
    pub coefficient: Vec<Expression>,
    /// The `(order + 1)`-th derivative, neither evaluated nor divided.
    pub residual: Expression,
}

/// Why an expansion failed, and of what.
#[derive(Debug, Clone)]
pub struct TaylorExpansionError {
    pub err_expr: Expression,
    pub reason: String,
}

impl TaylorExpansionError {
    /// `Cannot expand <expression> due to <reason>`.
    pub fn to_string(&self) -> (r: String)
        ensures
            r@ == "Cannot expand "@ + render(self.err_expr, 0) + " due to "@ + self.reason@,
    {
        let mut out = String::from_str("Cannot expand ");
        push_str(&mut out, self.err_expr.to_string().as_str());
        push_str(&mut out, " due to ");
        push_str(&mut out, self.reason.as_str());
        out
    }
}

pub open spec fn factorial(n: nat) -> nat
    decreases n,
{
    if n == 0 {
        1
    } else {
        n * factorial((n - 1) as nat)
    }
}

proof fn lemma_factorial_grows(n: nat)
    ensures
        factorial(n) >= n,
        factorial(n) >= 1,
    decreases n,
{
    if n > 0 {
        lemma_factorial_grows((n - 1) as nat);
        assert(n * factorial((n - 1) as nat) >= n) by (nonlinear_arith)
            requires
                factorial((n - 1) as nat) >= 1,
                n > 0,
        ;
    }
}

proof fn lemma_factorial_monotone(m: nat, n: nat)
    requires
        m <= n,
    ensures
        factorial(m) <= factorial(n),
    decreases n,
{
    if m < n {
        lemma_factorial_monotone(m, (n - 1) as nat);
        lemma_factorial_grows((n - 1) as nat);
        assert(factorial((n - 1) as nat) <= n * factorial((n - 1) as nat)) by (nonlinear_arith)
            requires
                n >= 1,
                factorial((n - 1) as nat) >= 1,
        ;
    }
}

/// The `k`-th coefficient: the `k`-th derivative with `at` put for the
/// variable, aggregated, divided by `k!`, aggregated again.
pub open spec fn taylor_coefficient(e: Expression, name: Seq<char>, at: Expression, k: nat) -> Expression {
    agg(
        binary(
            BinaryOperator::Div,
            agg(subst(deriv_n(e, name, k), name, at)),
            num_expr(SmartNum::Integer(factorial(k) as i64)),
        ),
    )
}

/// The expansion of `e` in the variable `of` about `at` to `order`.
pub open spec fn is_expansion(p: PartialExpansion, e: Expression, of: Variable, at: Expression, order: u64) -> bool {
    &&& p.order == order
    &&& p.of == Expression::Operand(AstOperand::Variable(of))
    &&& p.at == at
    &&& p.coefficient@.len() == order + 1
    &&& forall|k: int|
        0 <= k <= order ==> #[trigger] p.coefficient@[k] == taylor_coefficient(
            e,
            of.name@,
            at,
            k as nat,
        )
    &&& p.residual == deriv_n(e, of.name@, (order + 1) as nat)
}

/// `k!` from `(k - 1)!` (from 1 when `k` is 0), or `None` when it does not fit.
fn next_factorial(fact: i64, k: u64) -> (r: Option<i64>)
    requires
        fact as int == factorial(
            if k == 0 {
                0nat
            } else {
                (k - 1) as nat
            },
        ),
    ensures
        r is Some <==> factorial(k as nat) <= i64::MAX,
        r is Some ==> r->0 as int == factorial(k as nat),
{
    proof {
        lemma_factorial_grows(k as nat);
    }
    if k == 0 {
        return Some(fact);
    }
    if k > i64::MAX as u64 {
        return None;
    }
    assert(factorial(k as nat) == k * factorial((k - 1) as nat));
    assert(fact as int * k as int == factorial(k as nat)) by (nonlinear_arith)
        requires
            factorial(k as nat) == k * factorial((k - 1) as nat),
            fact as int == factorial((k - 1) as nat),
    ;
    fact.checked_mul(k as i64)
}

/// The coefficient of the derivative `d` with `k!` given as `fact`.
fn coefficient_of(d: &Expression, of: &Variable, at: &Expression, fact: i64) -> (r: Expression)
    ensures
        r == agg(
            binary(
                BinaryOperator::Div,
                agg(subst(*d, of.name@, *at)),
                num_expr(SmartNum::Integer(fact)),
            ),
        ),
{
    let value = aggregate(d.substitute_variable(of, at));
    aggregate(
        Expression::make_binary(
            BinaryOperator::Div,
            value,
            Expression::from_num(SmartNum::Integer(fact)),
        ),
    )
}

impl Expression {
    /// Expands about `at` in the variable `of`: for each order `k` up to `order`,
    /// the current derivative is evaluated at `at` and divided by `k!`, then
    /// differentiated once more. Fails when `order!` does not fit in 64 bits.
    pub fn taylor_expansion_of(&self, of: &Variable, at: &Expression, order: u64) -> (r: Result<
        PartialExpansion,
        TaylorExpansionError,
    >)
        ensures
            r is Ok <==> factorial(order as nat) <= i64::MAX,
            r is Ok ==> is_expansion(r->Ok_0, *self, *of, *at, order),
            r is Err ==> r->Err_0.err_expr == *self && r->Err_0.reason@ == "factorial overflow"@,
    {
        let ghost name = of.name@;
        let mut coefficient: Vec<Expression> = Vec::new();
        let mut residual = self.duplicate();
        let mut fact: i64 = 1;
        let mut k: u64 = 0;
        loop
            invariant_except_break
                k <= order,
                coefficient@.len() == k,
                residual == deriv_n(*self, name, k as nat),
                fact as int == factorial(
                    if k == 0 {
                        0nat
                    } else {
                        (k - 1) as nat
                    },
                ),
            invariant
                name == of.name@,
                forall|i: int|
                    0 <= i < coefficient@.len() ==> #[trigger] coefficient@[i] == taylor_coefficient(
                        *self,
                        name,
                        *at,
                        i as nat,
                    ),
            ensures
                coefficient@.len() == order + 1,
                residual == deriv_n(*self, name, (order + 1) as nat),
                fact as int == factorial(order as nat),
            decreases order - k,
        {
            fact = match next_factorial(fact, k) {
                Some(f) => f,
                None => {
                    proof {
                        lemma_factorial_monotone(k as nat, order as nat);
                    }
                    return Err(
                        TaylorExpansionError {
                            err_expr: self.duplicate(),
                            reason: String::from_str("factorial overflow"),
                        },
                    );
                },
            };
            let c = coefficient_of(&residual, of, at, fact);
            coefficient.push(c);
            residual = residual.derivative_of(of);
            if k == order {
                break;
            }
            k = k + 1;
        }
        let p = PartialExpansion {
            order,
            of: Expression::from_variable(of.duplicate()),
            at: at.duplicate(),
            coefficient,
            residual,
        };
        assert(is_expansion(p, *self, *of, *at, order));
        Ok(p)
    }

    /// Expands about `at` in the variable `of`; fails when `of` is not a
    /// variable, or when `order!` does not fit in 64 bits.
    pub fn taylor_expansion(&self, of: &Expression, at: &Expression, order: u64) -> (r: Result<
        PartialExpansion,
        TaylorExpansionError,
    >)
        ensures
            r is Ok <==> as_variable(*of) is Some && factorial(order as nat) <= i64::MAX,
            r is Ok ==> is_expansion(r->Ok_0, *self, as_variable(*of)->0, *at, order),
            as_variable(*of) is None ==> r is Err && r->Err_0.err_expr == *of
                && r->Err_0.reason@ == "not a variable"@,
            as_variable(*of) is Some && r is Err ==> r->Err_0.err_expr == *self
                && r->Err_0.reason@ == "factorial overflow"@,
    {
        match of {
            Expression::Operand(AstOperand::Variable(x)) => self.taylor_expansion_of(x, at, order),
            _ => Err(
                TaylorExpansionError {
                    err_expr: of.duplicate(),
                    reason: String::from_str("not a variable"),
                },
            ),
        }
    }
}

/// The number `n` as an expression: an integer when it fits in `i64`.
pub open spec fn count_expr(n: u64) -> Expression {
    if n <= i64::MAX {
        num_expr(SmartNum::Integer(n as i64))
    } else {
        num_expr(SmartNum::Rational(RationalNum { sign: 1, nominator: n, denominator: 1 }))
    }
}

fn count_expr_exec(n: u64) -> (r: Expression)
    ensures
        r == count_expr(n),
{
    if n <= i64::MAX as u64 {
        Expression::from_num(SmartNum::Integer(n as i64))
    } else {
        Expression::from_num(SmartNum::Rational(RationalNum { sign: 1, nominator: n, denominator: 1 }))
    }
}

/// `c * b ^ k + ` for each nonzero coefficient `c` among the first `n`.
pub open spec fn terms_text(c: Seq<Expression>, b: Expression, n: nat) -> Seq<char>
    decreases n,
{
    if n == 0 {
        Seq::<char>::empty()
    } else {
        let k = (n - 1) as nat;
        terms_text(c, b, k) + if c[k as int].spec_is_zero() {
            Seq::<char>::empty()
        } else {
            render(c[k as int], 0) + seq![' ', '*', ' '] + render(
                binary(BinaryOperator::Pow, b, count_expr(k as u64)),
                0,
            ) + seq![' ', '+', ' ']
        }
    }
}

impl PartialExpansion {
    /// The displacement `of - at`, aggregated, that the terms are powers of.
    pub open spec fn base(&self) -> Expression {
        agg(binary(BinaryOperator::Sub, self.of, self.at))
    }

    /// The series as text: `c0 * b ^ 0 + c1 * b ^ 1 + ... + O(b ^ (order + 1))`,
    /// skipping zero coefficients, where `b` is `of - at`.
    pub open spec fn spec_text(&self) -> Seq<char> {
        terms_text(self.coefficient@, self.base(), self.coefficient@.len()) + seq!['O', '(']
            + render(
            binary(
                BinaryOperator::Pow,
                self.base(),
                count_expr(
                    if self.order < u64::MAX {
                        (self.order + 1) as u64
                    } else {
                        self.order
                    },
                ),
            ),
            0,
        ) + seq![')']
    }

    pub fn to_string(&self) -> (r: String)
        ensures
            r@ == self.spec_text(),
    {
        proof {
            reveal_strlit(" * ");
            reveal_strlit(" + ");
            reveal_strlit("O(");
            reveal_strlit(")");
        }
        let b = aggregate(
            Expression::make_binary(BinaryOperator::Sub, self.of.duplicate(), self.at.duplicate()),
        );
        let mut out = String::new();
        let mut k: usize = 0;
        while k < self.coefficient.len()
            invariant
                k <= self.coefficient@.len(),
                b == self.base(),
                out@ == terms_text(self.coefficient@, b, k as nat),
            decreases self.coefficient@.len() - k,
        {
            let c = &self.coefficient[k];
            let ghost before = out@;
            assert(*c == self.coefficient@[k as int]);
            if !c.is_zero() {
                let ct = c.to_string();
                assert(ct@ == render(self.coefficient@[k as int], 0));
                push_str(&mut out, ct.as_str());
                proof {
                    reveal_strlit(" * ");
                    reveal_strlit(" + ");
                }
                push_str(&mut out, " * ");
                let p = Expression::make_binary(
                    BinaryOperator::Pow,
                    b.duplicate(),
                    count_expr_exec(k as u64),
                );
                let pt = p.to_string();
                assert(pt@ == render(binary(BinaryOperator::Pow, b, count_expr(k as u64)), 0));
                push_str(&mut out, pt.as_str());
                push_str(&mut out, " + ");
                assert(out@ =~= before + (render(self.coefficient@[k as int], 0) + seq![
                    ' ',
                    '*',
                    ' ',
                ] + render(binary(BinaryOperator::Pow, b, count_expr(k as u64)), 0) + seq![
                    ' ',
                    '+',
                    ' ',
                ]));
            } else {
                assert(out@ =~= before + Seq::<char>::empty());
            }
            assert(terms_text(self.coefficient@, b, (k + 1) as nat) == terms_text(
                self.coefficient@,
                b,
                k as nat,
            ) + if self.coefficient@[k as int].spec_is_zero() {
                Seq::<char>::empty()
            } else {
                render(self.coefficient@[k as int], 0) + seq![' ', '*', ' '] + render(
                    binary(BinaryOperator::Pow, b, count_expr(k as u64)),
                    0,
                ) + seq![' ', '+', ' ']
            });
            assert(out@ =~= terms_text(self.coefficient@, b, (k + 1) as nat));
            k = k + 1;
        }
        let next = if self.order < u64::MAX {
            self.order + 1
        } else {
            self.order
        };
        push_str(&mut out, "O(");
        let tail = Expression::make_binary(BinaryOperator::Pow, b, count_expr_exec(next));
        push_str(&mut out, tail.to_string().as_str());
        push_str(&mut out, ")");
        assert(out@ =~= self.spec_text());
        out
    }
}

} // verus!
