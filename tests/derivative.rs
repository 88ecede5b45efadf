use symcalc::expression::{Expression, Variable};
use symcalc::ops::{cos, exp, ln, sin, Pow};

#[test]
fn d() {
    {
        let x = Expression::new_variable("x");
        let y = sin(x.clone());
        let y_d_x = y.derivative(&x).unwrap();
        println!("{}", y_d_x.to_string());
        assert_eq!(y_d_x.to_string(), "cosx");
    }
    {
        let x = Expression::new_variable("x");
        let u = Expression::new_variable("u");
        let sin_x = sin(x.clone());
        let cos_u = cos(u.clone());
        let y = sin_x * cos_u;
        let y_d_x = y.derivative(&x).unwrap();
        println!("{}", y_d_x.to_string());
        assert_eq!(y_d_x.to_string(), "cosx * cosu");
    }
    {
        {
            let x = Expression::new_variable("x");
            let u = Expression::new_variable("u");
            let sin_x = sin(x.clone());
            let cos_u = cos(u.clone());
            let y = sin_x * cos_u;
            let y_d_u = y.derivative(&u).unwrap();
            println!("{}", y_d_u.to_string());
            assert_eq!(y_d_u.to_string(), "sinx * (-sinu)");
        }
    }
    {
        let x = Expression::new_variable("x");
        let y = sin(x.clone()) * sin(x.clone()) * x.clone();
        println!("{}", y.derivative(&x).unwrap().to_string());
    }
    {
        let x = Expression::new_variable("x");
        let exp_x = exp(x.clone());
        let d = exp_x.derivative(&x).unwrap();
        assert_eq!(d.to_string(), "expx");
    }
    {
        let x = Expression::new_variable("x");
        let ln_x = ln(x.clone());
        let d = ln_x.derivative(&x).unwrap();
        assert_eq!(d.to_string(), "1 / x");
    }
}

#[test]
fn derivative_of_constants_and_variables() {
    let x = Variable::new_variable("x");
    assert_eq!(Expression::from(7_i32).derivative_of(&x).to_string(), "0");
    assert_eq!(Expression::new_variable("x").derivative_of(&x).to_string(), "1");
    assert_eq!(Expression::new_variable("y").derivative_of(&x).to_string(), "0");
}

#[test]
fn derivative_rules() {
    let x = Expression::new_variable("x");
    let two = Expression::from(2_i32);
    assert_eq!((x.clone() * x.clone()).derivative(&x).unwrap().to_string(), "x + x");
    assert_eq!((two.clone() * x.clone()).derivative(&x).unwrap().to_string(), "2");
    assert_eq!((x.clone() - two.clone()).derivative(&x).unwrap().to_string(), "1");
    assert_eq!((-(x.clone())).derivative(&x).unwrap().to_string(), "-1");
    assert_eq!(cos(x.clone()).derivative(&x).unwrap().to_string(), "-sinx");
    assert_eq!(
        (Expression::one() / x.clone()).derivative(&x).unwrap().to_string(),
        "-1 / x * x"
    );
    assert_eq!(
        x.clone().pow(two.clone()).derivative(&x).unwrap().to_string(),
        "x ^ 2 * 2 / x"
    );
}

#[test]
fn derivative_needs_a_variable() {
    let x = Expression::new_variable("x");
    let target = x.clone() + Expression::one();
    let err = sin(x).derivative(&target).unwrap_err();
    assert_eq!(err.err_src.to_string(), "x + 1");
}

#[test]
fn derivative_error_text() {
    let x = Expression::new_variable("x");
    let err = sin(x.clone()).derivative(&Expression::from(2_i32)).unwrap_err();
    assert_eq!(err.to_string(), "2 cannot be used as a variable");
}
