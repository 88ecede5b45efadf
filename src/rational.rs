use vstd::arithmetic::div_mod::{lemma_fundamental_div_mod, lemma_mod_multiples_basic};
use crate::text::{decimal, push_decimal, push_str};
use vstd::prelude::*;

verus! {

/// Greatest common divisor, by Euclid's recursion.
pub open spec fn spec_gcd(a: nat, b: nat) -> nat
    decreases b,
{
    if b == 0 {
        a
    } else {
        spec_gcd(b, a % b)
    }
}

pub open spec fn abs_int(x: int) -> nat {
    if x < 0 {
        (-x) as nat
    } else {
        x as nat
    }
}

/// The gcd of two values that are not both zero is positive.
pub proof fn lemma_gcd_positive(a: nat, b: nat)
    requires
        a > 0 || b > 0,
    ensures
        spec_gcd(a, b) > 0,
    decreases b,
{
    if b > 0 {
        lemma_gcd_positive(b, a % b);
    }
}

/// The gcd divides both of its arguments.
pub proof fn lemma_gcd_divides(a: nat, b: nat)
    requires
        a > 0 || b > 0,
    ensures
        a % spec_gcd(a, b) == 0,
        b % spec_gcd(a, b) == 0,
    decreases b,
{
    lemma_gcd_positive(a, b);
    if b > 0 {
        lemma_gcd_divides(b, a % b);
        let g = spec_gcd(a, b) as int;
        let q = a as int / b as int;
        let rem = a as int % b as int;
        lemma_fundamental_div_mod(a as int, b as int);
        lemma_fundamental_div_mod(b as int, g);
        lemma_fundamental_div_mod(rem, g);
        let k1 = b as int / g;
        let k2 = rem / g;
        assert(a as int == (q * k1 + k2) * g) by (nonlinear_arith)
            requires
                a as int == b as int * q + rem,
                b as int == g * k1,
                rem == g * k2,
        ;
        lemma_mod_multiples_basic(q * k1 + k2, g);
    }
}

/// Euclid's algorithm on 128-bit values.
fn gcd_wide(a: u128, b: u128) -> (r: u128)
    ensures
        r == spec_gcd(a as nat, b as nat),
    decreases b,
{
    if b == 0 {
        a
    } else {
        gcd_wide(b, a % b)
    }
}

/// Greatest common divisor of two 64-bit values.
pub fn gcd(a: u64, b: u64) -> (r: u64)
    ensures
        r == spec_gcd(a as nat, b as nat),
    decreases b,
{
    if b == 0 {
        a
    } else {
        gcd(b, a % b)
    }
}

/// Product of two 64-bit values, which always fits in 128 bits.
fn mul_wide(a: u64, b: u64) -> (r: u128)
    ensures
        r == a as int * b as int,
{
    assert(a as int * b as int <= u64::MAX as int * u64::MAX as int) by (nonlinear_arith)
        requires
            a <= u64::MAX,
            b <= u64::MAX,
            0 <= a,
            0 <= b,
    ;
    assert(u64::MAX as int * u64::MAX as int <= u128::MAX);
    (a as u128) * (b as u128)
}

/// A fraction `sign * nominator / denominator`.
///
/// A well-formed value has `sign` equal to 1 or -1 and a nonzero denominator;
/// the fraction need not be in lowest terms.
#[derive(Debug, Clone, Copy)]
pub struct RationalNum {
    pub sign: i64,
    pub nominator: u64,
    pub denominator: u64,
}

/// The fraction `n / d` in lowest terms, with sign 1 for zero, or `None` when
/// `d` is not positive or a reduced part does not fit in 64 bits.
pub open spec fn canonical(n: int, d: int) -> Option<RationalNum> {
    let m = abs_int(n);
    if d <= 0 {
        None
    } else {
        let g = spec_gcd(m, d as nat);
        let dn = d as nat;
        if m / g <= u64::MAX && dn / g <= u64::MAX {
            Some(
                RationalNum {
                    sign: if n < 0 {
                        -1i64
                    } else {
                        1i64
                    },
                    nominator: (m / g) as u64,
                    denominator: (dn / g) as u64,
                },
            )
        } else {
            None
        }
    }
}

/// A canonical fraction is well formed and denotes `n / d`.
pub proof fn lemma_canonical_value(n: int, d: int)
    requires
        canonical(n, d) is Some,
    ensures
        canonical(n, d)->0.wf(),
        canonical(n, d)->0.num() * d == n * canonical(n, d)->0.den(),
{
    let m = abs_int(n);
    let dn = d as nat;
    lemma_gcd_positive(m, dn);
    lemma_gcd_divides(m, dn);
    let g = spec_gcd(m, dn) as int;
    let q = canonical(n, d)->0;
    lemma_fundamental_div_mod(m as int, g);
    lemma_fundamental_div_mod(d, g);
    let a = m as int / g;
    let b = d / g;
    assert(m as int == g * a);
    assert(d == g * b);
    assert(b > 0) by (nonlinear_arith)
        requires
            d == g * b,
            d > 0,
            g > 0,
    ;
    assert(q.nominator as int == a);
    assert(q.denominator as int == b);
    assert(a * d == m * b) by (nonlinear_arith)
        requires
            m as int == g * a,
            d == g * b,
    ;
    if n < 0 {
        assert(q.num() == -a);
        assert((-a) * d == n * b) by (nonlinear_arith)
            requires
                a * d == m * b,
                m == -n,
        ;
    } else {
        assert(q.num() == a);
    }
}

/// Exact sum; `None` when the cross-multiplied numerator exceeds 128 bits
/// or the reduced result does not fit.
pub open spec fn rational_add(a: RationalNum, b: RationalNum) -> Option<RationalNum> {
    let n = a.num() * b.den() + b.num() * a.den();
    if abs_int(n) > u128::MAX {
        None
    } else {
        canonical(n, a.den() * b.den())
    }
}

/// Exact difference, with the same limits as `rational_add`.
pub open spec fn rational_sub(a: RationalNum, b: RationalNum) -> Option<RationalNum> {
    let n = a.num() * b.den() - b.num() * a.den();
    if abs_int(n) > u128::MAX {
        None
    } else {
        canonical(n, a.den() * b.den())
    }
}

/// Exact product; `None` when the reduced result does not fit.
pub open spec fn rational_mul(a: RationalNum, b: RationalNum) -> Option<RationalNum> {
    canonical(a.num() * b.num(), a.den() * b.den())
}

/// Exact quotient; `None` when `b` is zero or the reduced result does not fit.
pub open spec fn rational_div(a: RationalNum, b: RationalNum) -> Option<RationalNum> {
    if b.nominator == 0 {
        None
    } else {
        canonical(a.num() * b.den() * b.sign_factor(), a.den() * b.nominator)
    }
}

/// Builds the canonical fraction of `(negative ? -m : m) / d`.
fn make_canonical(negative: bool, m: u128, d: u128) -> (r: Option<RationalNum>)
    ensures
        r == canonical(
            if negative {
                -(m as int)
            } else {
                m as int
            },
            d as int,
        ),
{
    let ghost n: int = if negative {
        -(m as int)
    } else {
        m as int
    };
    assert(abs_int(n) == m);
    if d == 0 {
        return None;
    }
    proof {
        lemma_gcd_positive(m as nat, d as nat);
    }
    let g = gcd_wide(m, d);
    let mm = m / g;
    let dd = d / g;
    if mm <= u64::MAX as u128 && dd <= u64::MAX as u128 {
        let sign: i64 = if negative && m != 0 {
            -1
        } else {
            1
        };
        Some(RationalNum { sign, nominator: mm as u64, denominator: dd as u64 })
    } else {
        None
    }
}

impl RationalNum {
    pub open spec fn wf(&self) -> bool {
        (self.sign == 1 || self.sign == -1) && self.denominator > 0
    }

    /// 1 for a positive sign, -1 otherwise.
    pub open spec fn sign_factor(&self) -> int {
        if self.sign == 1 {
            1
        } else {
            -1
        }
    }

    /// The signed numerator.
    pub open spec fn num(&self) -> int {
        if self.sign == 1 {
            self.nominator as int
        } else {
            -(self.nominator as int)
        }
    }

    pub open spec fn den(&self) -> int {
        self.denominator as int
    }

    /// Both fractions denote the same number.
    pub open spec fn same_value(&self, other: &RationalNum) -> bool {
        self.num() * other.den() == other.num() * self.den()
    }

    pub open spec fn spec_reduce(&self) -> RationalNum {
        let g = spec_gcd(self.nominator as nat, self.denominator as nat);
        let d: nat = if g == 0 {
            1
        } else {
            g
        };
        RationalNum {
            sign: self.sign,
            nominator: (self.nominator as nat / d) as u64,
            denominator: (self.denominator as nat / d) as u64,
        }
    }

    pub open spec fn spec_neg(&self) -> RationalNum {
        RationalNum {
            sign: if self.sign == 1 {
                -1i64
            } else {
                1i64
            },
            nominator: self.nominator,
            denominator: self.denominator,
        }
    }

    /// The fraction of an integer, over 1.
    pub open spec fn spec_from_integer(v: i64) -> RationalNum {
        RationalNum {
            sign: if v < 0 {
                -1i64
            } else {
                1i64
            },
            nominator: abs_int(v as int) as u64,
            denominator: 1,
        }
    }

    /// Divides numerator and denominator by their gcd.
    pub fn reduce(&self) -> (r: RationalNum)
        ensures
            r == self.spec_reduce(),
            self.wf() ==> r.wf() && r.same_value(self),
    {
        let mut d = gcd(self.nominator, self.denominator);
        if d == 0 {
            d = 1;
        }
        let r = RationalNum {
            sign: self.sign,
            nominator: self.nominator / d,
            denominator: self.denominator / d,
        };
        proof {
            if self.wf() {
                lemma_gcd_divides(self.nominator as nat, self.denominator as nat);
                lemma_gcd_positive(self.nominator as nat, self.denominator as nat);
                let g = d as int;
                lemma_fundamental_div_mod(self.nominator as int, g);
                lemma_fundamental_div_mod(self.denominator as int, g);
                let a = r.nominator as int;
                let b = r.denominator as int;
                assert(b > 0) by (nonlinear_arith)
                    requires
                        self.denominator as int == g * b,
                        self.denominator > 0,
                        g > 0,
                        b >= 0,
                ;
                assert(a * (g * b) == (g * a) * b) by (nonlinear_arith);
                assert(self.nominator as int == g * a);
                assert(self.denominator as int == g * b);
                assert(a * self.den() == self.nominator * b) by (nonlinear_arith)
                    requires
                        self.nominator as int == g * a,
                        self.den() == g * b,
                ;
                assert(r.num() * self.den() == self.num() * r.den()) by (nonlinear_arith)
                    requires
                        a * self.den() == self.nominator * b,
                        r.num() == (if self.sign == 1 { a } else { -a }),
                        self.num() == (if self.sign == 1 { self.nominator as int } else { -(
                        self.nominator as int) }),
                        r.den() == b,
                ;
            }
        }
        r
    }

    /// A fraction with the given sign (1 or -1) and a nonzero denominator.
    pub fn new(sign: i64, nominator: u64, denominator: u64) -> (r: Option<RationalNum>)
        ensures
            r == (if (sign == 1 || sign == -1) && denominator != 0 {
                Some(RationalNum { sign, nominator, denominator })
            } else {
                None
            }),
    {
        if (sign == 1 || sign == -1) && denominator != 0 {
            Some(RationalNum { sign, nominator, denominator })
        } else {
            None
        }
    }

    pub fn new_positive(nominator: u64, denominator: u64) -> (r: Option<RationalNum>)
        ensures
            r == (if denominator != 0 {
                Some(RationalNum { sign: 1, nominator, denominator })
            } else {
                None
            }),
    {
        RationalNum::new(1, nominator, denominator)
    }

    pub fn new_negative(nominator: u64, denominator: u64) -> (r: Option<RationalNum>)
        ensures
            r == (if denominator != 0 {
                Some(RationalNum { sign: -1i64, nominator, denominator })
            } else {
                None
            }),
    {
        RationalNum::new(-1, nominator, denominator)
    }

    pub fn from_integer(v: i64) -> (r: RationalNum)
        ensures
            r == RationalNum::spec_from_integer(v),
            r.wf(),
            r.num() == v,
    {
        let m: u64 = if v < 0 {
            (0 - (v as i128)) as u64
        } else {
            v as u64
        };
        let sign: i64 = if v < 0 {
            -1
        } else {
            1
        };
        RationalNum { sign, nominator: m, denominator: 1 }
    }

    pub fn negate(&self) -> (r: RationalNum)
        ensures
            r == self.spec_neg(),
            self.wf() ==> r.wf() && r.num() == -self.num() && r.den() == self.den(),
    {
        let sign: i64 = if self.sign == 1 {
            -1
        } else {
            1
        };
        RationalNum { sign, nominator: self.nominator, denominator: self.denominator }
    }

    pub fn checked_add(&self, rhs: &RationalNum) -> (r: Option<RationalNum>)
        ensures
            r == rational_add(*self, *rhs),
    {
        self.add_signed(rhs, rhs.sign != 1)
    }

    pub fn checked_sub(&self, rhs: &RationalNum) -> (r: Option<RationalNum>)
        ensures
            r == rational_sub(*self, *rhs),
    {
        self.add_signed(rhs, rhs.sign == 1)
    }

    /// `self + rhs` when `rhs_negative` says `rhs` is negative, and
    /// `self - rhs` otherwise, over the magnitude of `rhs`.
    fn add_signed(&self, rhs: &RationalNum, rhs_negative: bool) -> (r: Option<RationalNum>)
        ensures
            rhs_negative == (rhs.sign != 1) ==> r == rational_add(*self, *rhs),
            rhs_negative == (rhs.sign == 1) ==> r == rational_sub(*self, *rhs),
    {
        let p = mul_wide(self.nominator, rhs.denominator);
        let q = mul_wide(rhs.nominator, self.denominator);
        let d = mul_wide(self.denominator, rhs.denominator);
        let self_negative = self.sign != 1;
        let ghost sp: int = if self_negative {
            -(p as int)
        } else {
            p as int
        };
        let ghost sq: int = if rhs_negative {
            -(q as int)
        } else {
            q as int
        };
        proof {
            let na = self.nominator as int;
            let nb = rhs.nominator as int;
            assert(self.num() * rhs.den() == sp) by (nonlinear_arith)
                requires
                    self.num() == (if self_negative {
                        -na
                    } else {
                        na
                    }),
                    p == na * rhs.den(),
                    sp == (if self_negative {
                        -(p as int)
                    } else {
                        p as int
                    }),
            ;
            let rn = rhs.sign != 1;
            let tq: int = if rn {
                -(q as int)
            } else {
                q as int
            };
            assert(rhs.num() * self.den() == tq) by (nonlinear_arith)
                requires
                    rhs.num() == (if rn {
                        -nb
                    } else {
                        nb
                    }),
                    q == nb * self.den(),
                    tq == (if rn {
                        -(q as int)
                    } else {
                        q as int
                    }),
            ;
            assert(self.den() * rhs.den() == d);
        }
        if self_negative == rhs_negative {
            if p > u128::MAX - q {
                return None;
            }
            make_canonical(self_negative, p + q, d)
        } else if p >= q {
            make_canonical(self_negative, p - q, d)
        } else {
            make_canonical(rhs_negative, q - p, d)
        }
    }

    pub fn checked_mul(&self, rhs: &RationalNum) -> (r: Option<RationalNum>)
        ensures
            r == rational_mul(*self, *rhs),
    {
        let m = mul_wide(self.nominator, rhs.nominator);
        let d = mul_wide(self.denominator, rhs.denominator);
        let negative = (self.sign != 1) != (rhs.sign != 1);
        proof {
            assert(self.num() * rhs.num() == (if negative {
                -(m as int)
            } else {
                m as int
            })) by (nonlinear_arith)
                requires
                    self.num() == self.sign_factor() * self.nominator,
                    rhs.num() == rhs.sign_factor() * rhs.nominator,
                    self.sign_factor() == (if self.sign != 1 {
                        -1int
                    } else {
                        1int
                    }),
                    rhs.sign_factor() == (if rhs.sign != 1 {
                        -1int
                    } else {
                        1int
                    }),
                    m == self.nominator * rhs.nominator,
                    negative == ((self.sign != 1) != (rhs.sign != 1)),
            ;
        }
        make_canonical(negative, m, d)
    }

    pub fn checked_div(&self, rhs: &RationalNum) -> (r: Option<RationalNum>)
        ensures
            r == rational_div(*self, *rhs),
    {
        if rhs.nominator == 0 {
            return None;
        }
        let m = mul_wide(self.nominator, rhs.denominator);
        let d = mul_wide(self.denominator, rhs.nominator);
        let negative = (self.sign != 1) != (rhs.sign != 1);
        proof {
            assert(self.num() * rhs.den() * rhs.sign_factor() == (if negative {
                -(m as int)
            } else {
                m as int
            })) by (nonlinear_arith)
                requires
                    self.num() == self.sign_factor() * self.nominator,
                    self.sign_factor() == (if self.sign != 1 {
                        -1int
                    } else {
                        1int
                    }),
                    rhs.sign_factor() == (if rhs.sign != 1 {
                        -1int
                    } else {
                        1int
                    }),
                    m == self.nominator * rhs.den(),
                    negative == ((self.sign != 1) != (rhs.sign != 1)),
            ;
        }
        make_canonical(negative, m, d)
    }
}

impl RationalNum {
    /// `nominator/denominator`, with a leading `-` unless the sign is 1.
    pub open spec fn spec_text(&self) -> Seq<char> {
        (if self.sign == 1 {
            Seq::<char>::empty()
        } else {
            seq!['-']
        }) + decimal(self.nominator as nat) + seq!['/'] + decimal(self.denominator as nat)
    }

    pub fn to_string(&self) -> (r: String)
        ensures
            r@ == self.spec_text(),
    {
        proof {
            reveal_strlit("-");
            reveal_strlit("/");
        }
        let mut out = String::new();
        if self.sign != 1 {
            push_str(&mut out, "-");
        }
        push_decimal(&mut out, self.nominator);
        push_str(&mut out, "/");
        push_decimal(&mut out, self.denominator);
        assert(out@ =~= self.spec_text());
        out
    }
}

/// Two fractions are equal when both are zero, or when they have the same sign
/// and their cross products agree.
pub open spec fn rational_eq(a: RationalNum, b: RationalNum) -> bool {
    (a.nominator == 0 && b.nominator == 0) || (a.sign == b.sign && a.nominator as int
        * b.denominator as int == b.nominator as int * a.denominator as int)
}

impl PartialEq for RationalNum {
    fn eq(&self, other: &RationalNum) -> (r: bool) {
        (self.nominator == 0 && other.nominator == 0) || (self.sign == other.sign && mul_wide(
            self.nominator,
            other.denominator,
        ) == mul_wide(other.nominator, self.denominator))
    }
}

impl vstd::std_specs::cmp::PartialEqSpecImpl for RationalNum {
    open spec fn obeys_eq_spec() -> bool {
        true
    }

    open spec fn eq_spec(&self, other: &RationalNum) -> bool {
        rational_eq(*self, *other)
    }
}

impl core::ops::Neg for RationalNum {
    type Output = RationalNum;

    fn neg(self) -> (r: RationalNum) {
        self.negate()
    }
}

impl vstd::std_specs::ops::NegSpecImpl for RationalNum {
    open spec fn obeys_neg_spec() -> bool {
        true
    }

    open spec fn neg_req(self) -> bool {
        true
    }

    open spec fn neg_spec(self) -> RationalNum {
        self.spec_neg()
    }
}

impl core::ops::Add for RationalNum {
    type Output = RationalNum;

    fn add(self, rhs: RationalNum) -> (r: RationalNum) {
        match self.checked_add(&rhs) {
            Some(v) => v,
            None => self,
        }
    }
}

impl vstd::std_specs::ops::AddSpecImpl for RationalNum {
    open spec fn obeys_add_spec() -> bool {
        true
    }

    open spec fn add_req(self, rhs: RationalNum) -> bool {
        rational_add(self, rhs) is Some
    }

    open spec fn add_spec(self, rhs: RationalNum) -> RationalNum {
        rational_add(self, rhs)->0
    }
}

impl core::ops::Sub for RationalNum {
    type Output = RationalNum;

    fn sub(self, rhs: RationalNum) -> (r: RationalNum) {
        match self.checked_sub(&rhs) {
            Some(v) => v,
            None => self,
        }
    }
}

impl vstd::std_specs::ops::SubSpecImpl for RationalNum {
    open spec fn obeys_sub_spec() -> bool {
        true
    }

    open spec fn sub_req(self, rhs: RationalNum) -> bool {
        rational_sub(self, rhs) is Some
    }

    open spec fn sub_spec(self, rhs: RationalNum) -> RationalNum {
        rational_sub(self, rhs)->0
    }
}

impl core::ops::Mul for RationalNum {
    type Output = RationalNum;

    fn mul(self, rhs: RationalNum) -> (r: RationalNum) {
        match self.checked_mul(&rhs) {
            Some(v) => v,
            None => self,
        }
    }
}

impl vstd::std_specs::ops::MulSpecImpl for RationalNum {
    open spec fn obeys_mul_spec() -> bool {
        true
    }

    open spec fn mul_req(self, rhs: RationalNum) -> bool {
        rational_mul(self, rhs) is Some
    }

    open spec fn mul_spec(self, rhs: RationalNum) -> RationalNum {
        rational_mul(self, rhs)->0
    }
}

impl core::ops::Div for RationalNum {
    type Output = RationalNum;

    fn div(self, rhs: RationalNum) -> (r: RationalNum) {
        match self.checked_div(&rhs) {
            Some(v) => v,
            None => self,
        }
    }
}

impl vstd::std_specs::ops::DivSpecImpl for RationalNum {
    open spec fn obeys_div_spec() -> bool {
        true
    }

    open spec fn div_req(self, rhs: RationalNum) -> bool {
        rational_div(self, rhs) is Some
    }

    open spec fn div_spec(self, rhs: RationalNum) -> RationalNum {
        rational_div(self, rhs)->0
    }
}

} // verus!
