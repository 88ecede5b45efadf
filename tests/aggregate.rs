use symcalc::aggregate::{aggregate, NumAggregate, Simplify};
use symcalc::expression::Expression;
use symcalc::ops::{cos, exp, ln, sin, Pow};
use symcalc::rational::RationalNum;
use symcalc::smart_num::SmartNum;

fn expected_three_fifths() -> RationalNum {
    SmartNum::new_rational(1, 3, 5).unwrap().to_rational().unwrap()
}

#[test]
fn evaluate_eval() {
    let a = Expression::from(1_u32);
    let b = Expression::from(2_u32);
    let c = Expression::from(3_u32);
    let d = Expression::from(4_u32);
    let e = Expression::from(5_u32);
    let x = -(a + b) * (c - d) / e; // -(1+2)*(3-4)/5 == 3/5
    let ans = x.num_aggregate().to_smart_num().unwrap();
    assert_eq!(ans.to_rational().unwrap(), expected_three_fifths());
}

#[test]
fn mod_eval() {
    let a = Expression::from(1_u32);
    let b = Expression::from(2_u32);
    let c = Expression::from(3_u32);
    let d = Expression::from(4_u32);
    let e = Expression::from(5_u32);
    let x = -(a + b) * (c - d) / e; // -(1+2)*(3-4)/5 == 3/5
    let ans = x.num_aggregate().to_smart_num().unwrap();
    assert_eq!(ans.to_rational().unwrap(), expected_three_fifths());
    assert_eq!(ans.to_string(), "3/5");
}

#[test]
fn exp_0() {
    let zero = Expression::zero();
    let v = exp(zero);
    assert!(v.num_aggregate().is_one());
}

#[test]
fn exp_1() {
    let one = Expression::one();
    let v = exp(one);
    assert!(v.num_aggregate().is_e());
}

#[test]
fn exp_ln() {
    let x = Expression::pi();
    let exp_ln_x = exp(ln(x));
    assert!(exp_ln_x.num_aggregate().is_pi());
}

#[test]
fn ln_1() {
    let one = Expression::one();
    let ln_one = ln(one);
    assert!(ln_one.num_aggregate().is_zero());
}

#[test]
fn ln_e() {
    let e = Expression::e();
    let ln_e = ln(e);
    assert!(ln_e.num_aggregate().is_one());
}

#[test]
fn ln_exp() {
    let x = Expression::pi();
    let ln_exp_x = ln(exp(x));
    assert!(ln_exp_x.num_aggregate().is_pi());
}

#[test]
fn aggregation_is_idempotent_on_examples() {
    let x = Expression::new_variable("x");
    let samples = vec![
        x.clone() * Expression::one() + Expression::zero() * sin(x.clone()),
        -(-(x.clone())),
        Expression::zero() - x.clone(),
        exp(ln(x.clone() + Expression::from(2_i32))),
        (Expression::from(1_i32) + Expression::from(2_i32)) / (x.clone() - Expression::zero()),
        x.clone().pow(Expression::one()) * cos(Expression::pi()),
    ];
    for e in samples {
        let once = aggregate(e);
        let twice = aggregate(once.clone());
        assert_eq!(once.to_string(), twice.to_string());
    }
}

#[test]
fn zero_and_one_are_eliminated() {
    let x = Expression::new_variable("x");
    assert_eq!((x.clone() + Expression::zero()).num_aggregate().to_string(), "x");
    assert_eq!((x.clone() * Expression::one()).num_aggregate().to_string(), "x");
    let z = (x.clone() * Expression::zero()).num_aggregate();
    assert!(z.is_zero());
    assert_eq!(z.to_smart_num().unwrap().to_i64(), Some(0));
}

#[test]
fn exp_and_ln_cancel_on_symbols() {
    let x = Expression::new_variable("x") * Expression::new_variable("y");
    assert_eq!(ln(exp(x.clone())).num_aggregate().to_string(), "x * y");
    assert_eq!(exp(ln(x.clone())).num_aggregate().to_string(), "x * y");
}

#[test]
fn double_negation_and_left_zero_subtraction() {
    let x = Expression::new_variable("x");
    assert_eq!((-(-(x.clone()))).num_aggregate().to_string(), "x");
    assert_eq!((Expression::zero() - x.clone()).num_aggregate().to_string(), "-x");
    assert_eq!((Expression::zero() - (-(x.clone()))).num_aggregate().to_string(), "x");
}

#[test]
fn trigonometric_constants() {
    assert_eq!(sin(Expression::zero()).num_aggregate().to_string(), "0");
    assert_eq!(sin(Expression::pi()).num_aggregate().to_string(), "0");
    assert_eq!(cos(Expression::zero()).num_aggregate().to_string(), "1");
    assert_eq!(cos(Expression::pi()).num_aggregate().to_string(), "-1");
    assert_eq!(sin(Expression::one()).num_aggregate().to_string(), "sin1");
}

#[test]
fn powers() {
    let x = Expression::new_variable("x");
    assert_eq!(x.clone().pow(Expression::zero()).num_aggregate().to_string(), "1");
    assert_eq!(x.clone().pow(Expression::one()).num_aggregate().to_string(), "x");
    assert_eq!(x.clone().pow(Expression::from(3_i32)).num_aggregate().to_string(), "x ^ 3");
}

#[test]
fn division_by_zero_is_left_unfolded() {
    let e = (Expression::one() / Expression::zero()).num_aggregate();
    assert_eq!(e.to_string(), "1 / 0");
    let x = Expression::new_variable("x");
    assert_eq!((x.clone() / Expression::one()).num_aggregate().to_string(), "x / 1");
}

#[test]
fn integer_quotient_is_a_fraction() {
    let e = (Expression::from(4_i32) / Expression::from(6_i32)).num_aggregate();
    assert_eq!(e.to_string(), "2/3");
    let f = (Expression::from(4_i32) / Expression::from(2_i32)).num_aggregate();
    assert_eq!(f.to_string(), "2/1");
}

#[test]
fn arithmetic_exactness_over_a_range() {
    for i in -30_i64..30_i64 {
        for j in -30_i64..30_i64 {
            let s = (Expression::from(i) + Expression::from(j)).num_aggregate();
            assert_eq!(s.to_smart_num().unwrap().to_i64(), Some(i + j));
        }
    }
}

#[test]
fn simplify_is_aggregation() {
    let x = Expression::new_variable("x");
    let e = x.clone() * Expression::one() + Expression::zero();
    assert_eq!(e.simplify().to_string(), "x");
    assert_eq!(e.to_string(), "x * 1 + 0");
}

#[test]
fn zero_fraction_times_one_aggregates_to_integer_zero() {
    let zero_fraction = Expression::from(SmartNum::new_rational(1, 0, 5).unwrap());
    let e = (zero_fraction * Expression::one()).num_aggregate();
    assert_eq!(e.to_smart_num().unwrap().to_i64(), Some(0));
}
