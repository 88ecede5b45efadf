use symcalc::expression::Expression;
use symcalc::ops::{cos, exp, sin};

#[test]
fn sinx_by_x() {
    let x = Expression::new_variable("x");
    let y = sin(x.clone()) / x.clone();
    let expr_str = y.to_string();
    let limit = y.limit(&x, &Expression::zero(), 1).unwrap();
    println!("limit of {}, when x -> 0: {}", expr_str, limit.to_string());
    assert_eq!(limit.to_string(), "1");
}

#[test]
fn sinx_by_x2() {
    let x = Expression::new_variable("x");
    let y = sin(x.clone()) / (x.clone() * x.clone());
    let expr_str = y.to_string();
    let limit = y.limit(&x, &Expression::zero(), 1).unwrap();
    println!("limit of {}, when x -> 0: {}", expr_str, limit.to_string());
    assert_eq!(limit.to_string(), "infinity");
}

#[test]
fn sinx2_by_x() {
    let x = Expression::new_variable("x");
    let y = sin(x.clone()) * sin(x.clone()) / x.clone();
    let expr_str = y.to_string();
    let limit = y.limit(&x, &Expression::zero(), 1).unwrap();
    println!("limit of {}, when x -> 0: {}", expr_str, limit.to_string());
    assert_eq!(limit.to_string(), "0");
}

#[test]
fn limit_needs_enough_derivatives() {
    let x = Expression::new_variable("x");
    let y = sin(x.clone()) / x.clone();
    assert!(y.limit(&x, &Expression::zero(), 0).is_err());
}

#[test]
fn limit_of_plain_terms() {
    let x = Expression::new_variable("x");
    let a = Expression::new_variable("a");
    let two = Expression::from(2_i32);
    assert_eq!(x.limit(&x, &two, 0).unwrap().to_string(), "2");
    assert_eq!(a.limit(&x, &two, 0).unwrap().to_string(), "a");
    assert_eq!((x.clone() + two.clone()).limit(&x, &two, 0).unwrap().to_string(), "4");
    assert_eq!(cos(x.clone()).limit(&x, &Expression::zero(), 0).unwrap().to_string(), "1");
    assert_eq!(
        (Expression::one() / x.clone()).limit(&x, &Expression::zero(), 0).unwrap().to_string(),
        "infinity"
    );
}

#[test]
fn limit_without_a_rule_fails() {
    let x = Expression::new_variable("x");
    assert!(exp(x.clone()).limit(&x, &Expression::zero(), 3).is_err());
    let not_a_variable = x.clone() + Expression::one();
    assert!(x.limit(&not_a_variable, &Expression::zero(), 3).is_err());
}

#[test]
fn limit_of_a_product_of_finite_terms() {
    let x = Expression::new_variable("x");
    let y = (x.clone() + Expression::one()) * cos(x.clone());
    assert_eq!(y.limit(&x, &Expression::zero(), 0).unwrap().to_string(), "1");
}


#[test]
fn deeply_nested_quotients_have_limits() {
    let x = Expression::new_variable("x");
    let mut y = x.clone();
    for _ in 0..40 {
        y = y / Expression::from(2_i32);
    }
    let limit = y.limit(&x, &Expression::one(), 1).unwrap();
    assert_eq!(limit.to_string(), "1/1099511627776");
}
