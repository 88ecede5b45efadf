use crate::rational::{
    abs_int, canonical, lemma_canonical_value, lemma_gcd_divides, lemma_gcd_positive,
    rational_add, rational_div, rational_mul, rational_sub, spec_gcd, RationalNum,
};
use crate::text::{push_signed_decimal, push_str, signed_decimal};
use vstd::prelude::*;

verus! {

/// The identity of a number that the simplification rules recognise.
#[derive(Debug, Clone, Copy, PartialEq, Eq, Structural)]
pub enum ConstType {
    Zero,
    One,
    Pi,
    E,
    Nothing,
}

impl ConstType {
    pub open spec fn spec_symbol(&self) -> Seq<char> {
        match *self {
            ConstType::Zero => seq!['0'],
            ConstType::One => seq!['1'],
            ConstType::Pi => seq!['p', 'i'],
            ConstType::E => seq!['e'],
            ConstType::Nothing => Seq::<char>::empty(),
        }
    }

    /// The symbol of a recognised constant; empty for `Nothing`.
    pub fn symbol(&self) -> (r: &'static str)
        ensures
            r@ == self.spec_symbol(),
    {
        proof {
            reveal_strlit("0");
            reveal_strlit("1");
            reveal_strlit("pi");
            reveal_strlit("e");
            reveal_strlit("");
        }
        match self {
            ConstType::Zero => "0",
            ConstType::One => "1",
            ConstType::Pi => "pi",
            ConstType::E => "e",
            ConstType::Nothing => "",
        }
    }
}

/// Why two numbers could not be combined exactly.
#[derive(Debug, Clone, Copy, PartialEq, Eq, Structural)]
pub enum ArithmeticError {
    /// The divisor is an exact zero.
    DivisionByZero,
    /// The exact result does not fit in 64 bits.
    Overflow,
    /// An operand is an irrational constant, whose combination has no exact value.
    Inexact,
}

/// An exact number: a 64-bit integer, a fraction, or one of the constants pi and e.
#[derive(Debug, Clone, Copy)]
pub enum SmartNum {
    Integer(i64),
    Rational(RationalNum),
    Pi,
    E,
}

/// The exact fraction of a number, when it has one.
pub open spec fn exact_fraction(v: SmartNum) -> Option<RationalNum> {
    match v {
        SmartNum::Integer(i) => Some(RationalNum::spec_from_integer(i)),
        SmartNum::Rational(r) => Some(r),
        _ => None,
    }
}

/// Zero and one are stored as the integers 0 and 1, whatever produced them.
pub open spec fn wrap(v: SmartNum) -> SmartNum {
    if v.is_zero() {
        SmartNum::Integer(0)
    } else if v.is_one() {
        SmartNum::Integer(1)
    } else {
        v
    }
}

/// Lifts the result of an operation on fractions.
pub open spec fn lift_fraction(r: Option<RationalNum>) -> Result<SmartNum, ArithmeticError> {
    match r {
        Some(v) => Ok(wrap(SmartNum::Rational(v))),
        None => Err(ArithmeticError::Overflow),
    }
}

pub open spec fn spec_num_neg(a: SmartNum) -> Result<SmartNum, ArithmeticError> {
    match a {
        SmartNum::Integer(i) => if i == i64::MIN {
            Err(ArithmeticError::Overflow)
        } else {
            Ok(SmartNum::Integer((-i) as i64))
        },
        SmartNum::Rational(r) => Ok(wrap(SmartNum::Rational(r.spec_neg()))),
        _ => Err(ArithmeticError::Inexact),
    }
}

pub open spec fn spec_num_add(a: SmartNum, b: SmartNum) -> Result<SmartNum, ArithmeticError> {
    if b.is_zero() {
        Ok(wrap(a))
    } else if a.is_zero() {
        Ok(wrap(b))
    } else if a is Integer && b is Integer {
        let s = a->Integer_0 + b->Integer_0;
        if i64::MIN <= s <= i64::MAX {
            Ok(SmartNum::Integer(s as i64))
        } else {
            Err(ArithmeticError::Overflow)
        }
    } else if exact_fraction(a) is Some && exact_fraction(b) is Some {
        lift_fraction(rational_add(exact_fraction(a)->0, exact_fraction(b)->0))
    } else {
        Err(ArithmeticError::Inexact)
    }
}

pub open spec fn spec_num_sub(a: SmartNum, b: SmartNum) -> Result<SmartNum, ArithmeticError> {
    if a.is_zero() {
        spec_num_neg(b)
    } else if b.is_zero() {
        Ok(wrap(a))
    } else if a is Integer && b is Integer {
        let s = a->Integer_0 - b->Integer_0;
        if i64::MIN <= s <= i64::MAX {
            Ok(SmartNum::Integer(s as i64))
        } else {
            Err(ArithmeticError::Overflow)
        }
    } else if exact_fraction(a) is Some && exact_fraction(b) is Some {
        lift_fraction(rational_sub(exact_fraction(a)->0, exact_fraction(b)->0))
    } else {
        Err(ArithmeticError::Inexact)
    }
}

pub open spec fn spec_num_mul(a: SmartNum, b: SmartNum) -> Result<SmartNum, ArithmeticError> {
    if a.is_zero() || b.is_zero() {
        Ok(SmartNum::Integer(0))
    } else if b.is_one() {
        Ok(wrap(a))
    } else if a.is_one() {
        Ok(wrap(b))
    } else if a is Integer && b is Integer {
        let s = a->Integer_0 * b->Integer_0;
        if i64::MIN <= s <= i64::MAX {
            Ok(SmartNum::Integer(s as i64))
        } else {
            Err(ArithmeticError::Overflow)
        }
    } else if exact_fraction(a) is Some && exact_fraction(b) is Some {
        lift_fraction(rational_mul(exact_fraction(a)->0, exact_fraction(b)->0))
    } else {
        Err(ArithmeticError::Inexact)
    }
}

/// Division; the quotient of two integers is a fraction, never truncated.
pub open spec fn spec_num_div(a: SmartNum, b: SmartNum) -> Result<SmartNum, ArithmeticError> {
    if b.is_zero() {
        Err(ArithmeticError::DivisionByZero)
    } else if a.is_zero() {
        Ok(SmartNum::Integer(0))
    } else if exact_fraction(a) is Some && exact_fraction(b) is Some {
        lift_fraction(rational_div(exact_fraction(a)->0, exact_fraction(b)->0))
    } else {
        Err(ArithmeticError::Inexact)
    }
}

/// Integer sums are exact: when `i + j` fits in 64 bits, the sum of the two
/// integers is the integer `i + j`.
pub proof fn lemma_integer_sum_exact(i: i64, j: i64)
    requires
        i64::MIN <= i + j <= i64::MAX,
    ensures
        spec_num_add(SmartNum::Integer(i), SmartNum::Integer(j)) == Ok::<SmartNum, ArithmeticError>(
            SmartNum::Integer((i + j) as i64),
        ),
{
}

/// Integer quotients are exact: dividing `i` by a nonzero `j` succeeds, and
/// its fraction `p / q` satisfies `p * j == i * q`, with nothing truncated.
pub proof fn lemma_integer_quotient_exact(i: i64, j: i64)
    requires
        j != 0,
    ensures
        spec_num_div(SmartNum::Integer(i), SmartNum::Integer(j)) is Ok,
        exact_fraction(spec_num_div(SmartNum::Integer(i), SmartNum::Integer(j))->Ok_0) is Some,
        ({
            let q = exact_fraction(
                spec_num_div(SmartNum::Integer(i), SmartNum::Integer(j))->Ok_0,
            )->0;
            q.den() > 0 && q.num() * j == i * q.den()
        }),
{
    if i == 0 {
        let z = RationalNum::spec_from_integer(0);
        assert(z.num() == 0 && z.den() == 1);
        assert(exact_fraction(SmartNum::Integer(0)) == Some(z));
        assert(z.num() * j == 0);
        return;
    }
    let a = RationalNum::spec_from_integer(i);
    let b = RationalNum::spec_from_integer(j);
    let sj: int = if j < 0 {
        -1
    } else {
        1
    };
    let n = a.num() * b.den() * b.sign_factor();
    let d = a.den() * b.nominator;
    assert(b.sign_factor() == sj);
    assert(n == i * sj);
    assert(d == abs_int(j as int));
    let m = abs_int(n);
    assert(m == abs_int(i as int));
    let dn = d as nat;
    lemma_gcd_positive(m, dn);
    lemma_gcd_divides(m, dn);
    let g = spec_gcd(m, dn);
    assert(m / g <= m) by (nonlinear_arith)
        requires
            g >= 1,
    ;
    assert(dn / g <= dn) by (nonlinear_arith)
        requires
            g >= 1,
    ;
    assert(canonical(n, d) is Some);
    assert(rational_div(a, b) == canonical(n, d));
    lemma_canonical_value(n, d);
    let q0 = canonical(n, d)->0;
    let qn = q0.num();
    let qd = q0.den();
    assert(qn * d == n * qd);
    assert(qd > 0);
    assert(qn * j == i * qd) by (nonlinear_arith)
        requires
            qn * d == n * qd,
            n == i * sj,
            d == j * sj,
            sj * sj == 1,
    ;
    let r = spec_num_div(SmartNum::Integer(i), SmartNum::Integer(j));
    assert(r == Ok::<SmartNum, ArithmeticError>(wrap(SmartNum::Rational(q0))));
    if SmartNum::Rational(q0).spec_is_zero() {
        assert(q0.nominator == 0);
        assert(qn == 0);
        assert(i == 0) by (nonlinear_arith)
            requires
                qn * j == i * qd,
                qn == 0,
                qd > 0,
        ;
    } else if SmartNum::Rational(q0).spec_is_one() {
        assert(qn == qd);
        assert(j == i) by (nonlinear_arith)
            requires
                qn * j == i * qd,
                qn == qd,
                qd > 0,
        ;
        let one = RationalNum::spec_from_integer(1);
        assert(one.num() == 1 && one.den() == 1);
        assert(exact_fraction(SmartNum::Integer(1)) == Some(one));
    } else {
        assert(wrap(SmartNum::Rational(q0)) == SmartNum::Rational(q0));
        assert(exact_fraction(SmartNum::Rational(q0)) == Some(q0));
    }
}

impl SmartNum {
    pub open spec fn spec_tag(&self) -> ConstType {
        match *self {
            SmartNum::Integer(v) => if v == 0 {
                ConstType::Zero
            } else if v == 1 {
                ConstType::One
            } else {
                ConstType::Nothing
            },
            SmartNum::Rational(r) => if r.nominator == 0 && r.denominator != 0 {
                ConstType::Zero
            } else if r.sign == 1 && r.nominator == r.denominator && r.denominator != 0 {
                ConstType::One
            } else {
                ConstType::Nothing
            },
            SmartNum::Pi => ConstType::Pi,
            SmartNum::E => ConstType::E,
        }
    }

    /// The constant this number is recognised as, derived from its value.
    #[verifier::when_used_as_spec(spec_tag)]
    pub fn tag(&self) -> (r: ConstType)
        ensures
            r == self.spec_tag(),
    {
        match self {
            SmartNum::Integer(v) => if *v == 0 {
                ConstType::Zero
            } else if *v == 1 {
                ConstType::One
            } else {
                ConstType::Nothing
            },
            SmartNum::Rational(r) => if r.nominator == 0 && r.denominator != 0 {
                ConstType::Zero
            } else if r.sign == 1 && r.nominator == r.denominator && r.denominator != 0 {
                ConstType::One
            } else {
                ConstType::Nothing
            },
            SmartNum::Pi => ConstType::Pi,
            SmartNum::E => ConstType::E,
        }
    }

    pub open spec fn spec_is_zero(&self) -> bool {
        self.spec_tag() == ConstType::Zero
    }

    pub open spec fn spec_is_one(&self) -> bool {
        self.spec_tag() == ConstType::One
    }

    pub open spec fn spec_is_pi(&self) -> bool {
        self.spec_tag() == ConstType::Pi
    }

    pub open spec fn spec_is_e(&self) -> bool {
        self.spec_tag() == ConstType::E
    }

    #[verifier::when_used_as_spec(spec_is_zero)]
    pub fn is_zero(&self) -> (r: bool)
        ensures
            r == self.spec_is_zero(),
    {
        self.tag() == ConstType::Zero
    }

    #[verifier::when_used_as_spec(spec_is_one)]
    pub fn is_one(&self) -> (r: bool)
        ensures
            r == self.spec_is_one(),
    {
        self.tag() == ConstType::One
    }

    #[verifier::when_used_as_spec(spec_is_pi)]
    pub fn is_pi(&self) -> (r: bool)
        ensures
            r == self.spec_is_pi(),
    {
        self.tag() == ConstType::Pi
    }

    #[verifier::when_used_as_spec(spec_is_e)]
    pub fn is_e(&self) -> (r: bool)
        ensures
            r == self.spec_is_e(),
    {
        self.tag() == ConstType::E
    }

    pub fn zero() -> (r: SmartNum)
        ensures
            r == SmartNum::Integer(0),
    {
        SmartNum::Integer(0)
    }

    pub fn one() -> (r: SmartNum)
        ensures
            r == SmartNum::Integer(1),
    {
        SmartNum::Integer(1)
    }

    pub fn pi() -> (r: SmartNum)
        ensures
            r == SmartNum::Pi,
    {
        SmartNum::Pi
    }

    pub fn e() -> (r: SmartNum)
        ensures
            r == SmartNum::E,
    {
        SmartNum::E
    }

    /// A fraction with sign 1 or -1 and a nonzero denominator.
    pub fn new_rational(sign: i64, nominator: u64, denominator: u64) -> (r: Option<SmartNum>)
        ensures
            r == (if (sign == 1 || sign == -1) && denominator != 0 {
                Some(SmartNum::Rational(RationalNum { sign, nominator, denominator }))
            } else {
                None
            }),
    {
        match RationalNum::new(sign, nominator, denominator) {
            Some(v) => Some(SmartNum::Rational(v)),
            None => None,
        }
    }

    /// The value of an integer.
    pub fn to_i64(&self) -> (r: Option<i64>)
        ensures
            r == (match *self {
                SmartNum::Integer(v) => Some(v),
                _ => None,
            }),
    {
        match self {
            SmartNum::Integer(v) => Some(*v),
            _ => None,
        }
    }

    /// The exact fraction of an integer or a fraction; none for pi and e.
    pub fn to_rational(&self) -> (r: Option<RationalNum>)
        ensures
            r == exact_fraction(*self),
    {
        match self {
            SmartNum::Integer(v) => Some(RationalNum::from_integer(*v)),
            SmartNum::Rational(v) => Some(*v),
            _ => None,
        }
    }

    /// The text of the number: the constant's symbol when it is recognised as one,
    /// else the integer, or the fraction as `[-]nominator/denominator`.
    pub open spec fn spec_text(&self) -> Seq<char> {
        match self.spec_tag() {
            ConstType::Zero => seq!['0'],
            ConstType::One => seq!['1'],
            ConstType::Pi => seq!['p', 'i'],
            ConstType::E => seq!['e'],
            ConstType::Nothing => match *self {
                SmartNum::Integer(v) => signed_decimal(v as int),
                SmartNum::Rational(r) => r.spec_text(),
                _ => Seq::<char>::empty(),
            },
        }
    }

    pub fn to_string(&self) -> (r: String)
        ensures
            r@ == self.spec_text(),
    {
        let mut out = String::new();
        proof {
            reveal_strlit("0");
            reveal_strlit("1");
            reveal_strlit("pi");
            reveal_strlit("e");
            reveal_strlit("-");
            reveal_strlit("/");
        }
        match self.tag() {
            ConstType::Zero => push_str(&mut out, "0"),
            ConstType::One => push_str(&mut out, "1"),
            ConstType::Pi => push_str(&mut out, "pi"),
            ConstType::E => push_str(&mut out, "e"),
            ConstType::Nothing => match self {
                SmartNum::Integer(v) => push_signed_decimal(&mut out, *v),
                SmartNum::Rational(r) => {
                    let t = r.to_string();
                    push_str(&mut out, t.as_str());
                },
                _ => {},
            },
        }
        assert(out@ =~= self.spec_text());
        out
    }
}

fn wrap_exec(v: SmartNum) -> (r: SmartNum)
    ensures
        r == wrap(v),
{
    if v.is_zero() {
        SmartNum::Integer(0)
    } else if v.is_one() {
        SmartNum::Integer(1)
    } else {
        v
    }
}

fn lift_fraction_exec(r: Option<RationalNum>) -> (s: Result<SmartNum, ArithmeticError>)
    ensures
        s == lift_fraction(r),
{
    match r {
        Some(v) => Ok(wrap_exec(SmartNum::Rational(v))),
        None => Err(ArithmeticError::Overflow),
    }
}

/// Exact negation.
pub fn num_neg(a: &SmartNum) -> (r: Result<SmartNum, ArithmeticError>)
    ensures
        r == spec_num_neg(*a),
{
    match a {
        SmartNum::Integer(i) => if *i == i64::MIN {
            Err(ArithmeticError::Overflow)
        } else {
            Ok(SmartNum::Integer(-*i))
        },
        SmartNum::Rational(r) => Ok(wrap_exec(SmartNum::Rational(r.negate()))),
        _ => Err(ArithmeticError::Inexact),
    }
}

/// Exact sum; zero is the identity whatever the other operand.
pub fn num_add(a: &SmartNum, b: &SmartNum) -> (r: Result<SmartNum, ArithmeticError>)
    ensures
        r == spec_num_add(*a, *b),
{
    if b.is_zero() {
        Ok(wrap_exec(*a))
    } else if a.is_zero() {
        Ok(wrap_exec(*b))
    } else {
        match (a, b) {
            (SmartNum::Integer(i), SmartNum::Integer(j)) => match i.checked_add(*j) {
                Some(s) => Ok(SmartNum::Integer(s)),
                None => Err(ArithmeticError::Overflow),
            },
            _ => match (a.to_rational(), b.to_rational()) {
                (Some(x), Some(y)) => lift_fraction_exec(x.checked_add(&y)),
                _ => Err(ArithmeticError::Inexact),
            },
        }
    }
}

/// Exact difference; `0 - b` is the negation of `b`.
pub fn num_sub(a: &SmartNum, b: &SmartNum) -> (r: Result<SmartNum, ArithmeticError>)
    ensures
        r == spec_num_sub(*a, *b),
{
    if a.is_zero() {
        num_neg(b)
    } else if b.is_zero() {
        Ok(wrap_exec(*a))
    } else {
        match (a, b) {
            (SmartNum::Integer(i), SmartNum::Integer(j)) => match i.checked_sub(*j) {
                Some(s) => Ok(SmartNum::Integer(s)),
                None => Err(ArithmeticError::Overflow),
            },
            _ => match (a.to_rational(), b.to_rational()) {
                (Some(x), Some(y)) => lift_fraction_exec(x.checked_sub(&y)),
                _ => Err(ArithmeticError::Inexact),
            },
        }
    }
}

/// Exact product; a zero operand gives the exact integer zero, and one is the identity.
pub fn num_mul(a: &SmartNum, b: &SmartNum) -> (r: Result<SmartNum, ArithmeticError>)
    ensures
        r == spec_num_mul(*a, *b),
{
    if a.is_zero() || b.is_zero() {
        Ok(SmartNum::Integer(0))
    } else if b.is_one() {
        Ok(wrap_exec(*a))
    } else if a.is_one() {
        Ok(wrap_exec(*b))
    } else {
        match (a, b) {
            (SmartNum::Integer(i), SmartNum::Integer(j)) => match i.checked_mul(*j) {
                Some(s) => Ok(SmartNum::Integer(s)),
                None => Err(ArithmeticError::Overflow),
            },
            _ => match (a.to_rational(), b.to_rational()) {
                (Some(x), Some(y)) => lift_fraction_exec(x.checked_mul(&y)),
                _ => Err(ArithmeticError::Inexact),
            },
        }
    }
}

/// Exact quotient; dividing by an exact zero is an error.
pub fn num_div(a: &SmartNum, b: &SmartNum) -> (r: Result<SmartNum, ArithmeticError>)
    ensures
        r == spec_num_div(*a, *b),
{
    if b.is_zero() {
        Err(ArithmeticError::DivisionByZero)
    } else if a.is_zero() {
        Ok(SmartNum::Integer(0))
    } else {
        match (a.to_rational(), b.to_rational()) {
            (Some(x), Some(y)) => lift_fraction_exec(x.checked_div(&y)),
            _ => Err(ArithmeticError::Inexact),
        }
    }
}

/// Each operator returns the exact result, or the reason it has none.
impl core::ops::Add for SmartNum {
    type Output = Result<SmartNum, ArithmeticError>;

    fn add(self, rhs: SmartNum) -> (r: Result<SmartNum, ArithmeticError>)
        ensures
            r == spec_num_add(self, rhs),
    {
        num_add(&self, &rhs)
    }
}

impl vstd::std_specs::ops::AddSpecImpl for SmartNum {
    open spec fn obeys_add_spec() -> bool {
        true
    }

    open spec fn add_req(self, rhs: SmartNum) -> bool {
        true
    }

    open spec fn add_spec(self, rhs: SmartNum) -> Result<SmartNum, ArithmeticError> {
        spec_num_add(self, rhs)
    }
}

impl core::ops::Sub for SmartNum {
    type Output = Result<SmartNum, ArithmeticError>;

    fn sub(self, rhs: SmartNum) -> (r: Result<SmartNum, ArithmeticError>)
        ensures
            r == spec_num_sub(self, rhs),
    {
        num_sub(&self, &rhs)
    }
}

impl vstd::std_specs::ops::SubSpecImpl for SmartNum {
    open spec fn obeys_sub_spec() -> bool {
        true
    }

    open spec fn sub_req(self, rhs: SmartNum) -> bool {
        true
    }

    open spec fn sub_spec(self, rhs: SmartNum) -> Result<SmartNum, ArithmeticError> {
        spec_num_sub(self, rhs)
    }
}

impl core::ops::Mul for SmartNum {
    type Output = Result<SmartNum, ArithmeticError>;

    fn mul(self, rhs: SmartNum) -> (r: Result<SmartNum, ArithmeticError>)
        ensures
            r == spec_num_mul(self, rhs),
    {
        num_mul(&self, &rhs)
    }
}

impl vstd::std_specs::ops::MulSpecImpl for SmartNum {
    open spec fn obeys_mul_spec() -> bool {
        true
    }

    open spec fn mul_req(self, rhs: SmartNum) -> bool {
        true
    }

    open spec fn mul_spec(self, rhs: SmartNum) -> Result<SmartNum, ArithmeticError> {
        spec_num_mul(self, rhs)
    }
}

impl core::ops::Div for SmartNum {
    type Output = Result<SmartNum, ArithmeticError>;

    fn div(self, rhs: SmartNum) -> (r: Result<SmartNum, ArithmeticError>)
        ensures
            r == spec_num_div(self, rhs),
    {
        num_div(&self, &rhs)
    }
}

impl vstd::std_specs::ops::DivSpecImpl for SmartNum {
    open spec fn obeys_div_spec() -> bool {
        true
    }

    open spec fn div_req(self, rhs: SmartNum) -> bool {
        true
    }

    open spec fn div_spec(self, rhs: SmartNum) -> Result<SmartNum, ArithmeticError> {
        spec_num_div(self, rhs)
    }
}

impl core::ops::Neg for SmartNum {
    type Output = Result<SmartNum, ArithmeticError>;

    fn neg(self) -> (r: Result<SmartNum, ArithmeticError>)
        ensures
            r == spec_num_neg(self),
    {
        num_neg(&self)
    }
}

impl vstd::std_specs::ops::NegSpecImpl for SmartNum {
    open spec fn obeys_neg_spec() -> bool {
        true
    }

    open spec fn neg_req(self) -> bool {
        true
    }

    open spec fn neg_spec(self) -> Result<SmartNum, ArithmeticError> {
        spec_num_neg(self)
    }
}

} // verus!
