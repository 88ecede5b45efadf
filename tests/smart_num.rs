use symcalc::rational::RationalNum;
use symcalc::smart_num::{
    num_add, num_div, num_mul, num_neg, num_sub, ArithmeticError, ConstType, SmartNum,
};

fn gen_range() -> Vec<i64> {
    let mut rg = Vec::<i64>::new();
    for i in -100_i64..100_i64 {
        rg.push(i);
    }
    rg
}

fn gen_double_range() -> Vec<(i64, i64)> {
    let mut rg = Vec::<(i64, i64)>::new();
    for i in gen_range() {
        for j in gen_range() {
            rg.push((i, j));
        }
    }
    rg
}

#[test]
fn neg_i() {
    for i in gen_range() {
        let x = SmartNum::from(i);
        let y = SmartNum::from(-i);
        assert_eq!(x.to_i64(), (-y).unwrap().to_i64())
    }
}

#[test]
fn smart_num_add_ii() {
    for (i, j) in gen_double_range() {
        let x = i as i64;
        let y = j as i64;
        let ans = (SmartNum::from(x) + SmartNum::from(y)).unwrap();
        let check = SmartNum::from(x + y);
        assert_eq!(ans.to_i64(), check.to_i64());
    }
}

#[test]
fn smart_num_mul_ii() {
    for (i, j) in gen_double_range() {
        let x = i as i64;
        let y = j as i64;
        let ans = (SmartNum::from(x) * SmartNum::from(y)).unwrap();
        let check = SmartNum::from(x * y);
        assert_eq!(ans.to_i64(), check.to_i64());
    }
}

#[test]
fn integer_division_is_exact() {
    for (i, j) in gen_double_range() {
        if j == 0 {
            continue;
        }
        let q = (SmartNum::from(i) / SmartNum::from(j)).unwrap().to_rational().unwrap();
        let signed = if q.sign == 1 { q.nominator as i64 } else { -(q.nominator as i64) };
        assert_eq!(signed * j, i * q.denominator as i64);
    }
}

#[test]
fn division_by_zero_is_an_error() {
    assert_eq!(
        num_div(&SmartNum::from(3_i64), &SmartNum::from(0_i64)).unwrap_err(),
        ArithmeticError::DivisionByZero
    );
    let zero_fraction = SmartNum::new_rational(-1, 0, 4).unwrap();
    assert_eq!(
        num_div(&SmartNum::from(3_i64), &zero_fraction).unwrap_err(),
        ArithmeticError::DivisionByZero
    );
}

#[test]
fn integer_overflow_is_an_error() {
    assert_eq!(
        num_add(&SmartNum::from(i64::MAX), &SmartNum::from(1_i64)).unwrap_err(),
        ArithmeticError::Overflow
    );
    assert_eq!(
        num_mul(&SmartNum::from(i64::MAX), &SmartNum::from(2_i64)).unwrap_err(),
        ArithmeticError::Overflow
    );
    assert_eq!(num_neg(&SmartNum::from(i64::MIN)).unwrap_err(), ArithmeticError::Overflow);
}

#[test]
fn constants_do_not_fold() {
    assert_eq!(num_add(&SmartNum::pi(), &SmartNum::from(1_i64)).unwrap_err(), ArithmeticError::Inexact);
    assert_eq!(num_mul(&SmartNum::e(), &SmartNum::from(0_i64)).unwrap().to_i64(), Some(0));
    assert!(num_mul(&SmartNum::pi(), &SmartNum::from(1_i64)).unwrap().is_pi());
}

#[test]
fn tags_follow_values() {
    assert_eq!((SmartNum::from(1_i64) - SmartNum::from(1_i64)).unwrap().tag(), ConstType::Zero);
    let half = SmartNum::new_rational(1, 1, 2).unwrap();
    let one = num_add(&half, &half).unwrap();
    assert!(one.is_one());
    assert_eq!(one.to_i64(), Some(1));
    assert_eq!(SmartNum::pi().tag(), ConstType::Pi);
    assert_eq!(SmartNum::e().tag(), ConstType::E);
    assert_eq!(SmartNum::from(5_i64).tag(), ConstType::Nothing);
}

#[test]
fn mixed_integer_and_fraction() {
    let third = SmartNum::new_rational(1, 1, 3).unwrap();
    let r = num_sub(&SmartNum::from(1_i64), &third).unwrap().to_rational().unwrap();
    assert_eq!(r, RationalNum::new_positive(2, 3).unwrap());
    assert_eq!(num_sub(&SmartNum::from(1_i64), &third).unwrap().to_string(), "2/3");
    assert_eq!(num_neg(&third).unwrap().to_string(), "-1/3");
}

#[test]
fn text_of_numbers() {
    for i in gen_range() {
        assert_eq!(SmartNum::from(i).to_string(), format!("{}", i));
    }
    assert_eq!(SmartNum::pi().to_string(), "pi");
    assert_eq!(SmartNum::e().to_string(), "e");
    assert_eq!(SmartNum::from(i64::MIN).to_string(), format!("{}", i64::MIN));
}

#[test]
fn constant_symbols() {
    assert_eq!(ConstType::Zero.symbol(), "0");
    assert_eq!(ConstType::One.symbol(), "1");
    assert_eq!(ConstType::Pi.symbol(), "pi");
    assert_eq!(ConstType::E.symbol(), "e");
    assert_eq!(ConstType::Nothing.symbol(), "");
}

#[test]
fn fraction_text() {
    assert_eq!(RationalNum::new_negative(3, 9).unwrap().to_string(), "-3/9");
    assert_eq!(RationalNum::new_positive(1, 2).unwrap().to_string(), "1/2");
}

#[test]
fn zero_and_one_results_are_stored_as_integers() {
    let zero_fraction = SmartNum::new_rational(1, 0, 5).unwrap();
    let product = (zero_fraction * SmartNum::one()).unwrap();
    assert!(product.is_zero());
    assert_eq!(product.to_i64(), Some(0));
    let product = (SmartNum::one() * zero_fraction).unwrap();
    assert_eq!(product.to_i64(), Some(0));
    let whole = SmartNum::new_rational(1, 2, 2).unwrap();
    assert_eq!((whole + SmartNum::zero()).unwrap().to_i64(), Some(1));
    assert_eq!((SmartNum::zero() + whole).unwrap().to_i64(), Some(1));
    assert_eq!((whole - SmartNum::zero()).unwrap().to_i64(), Some(1));
    assert_eq!((whole * SmartNum::one()).unwrap().to_i64(), Some(1));
    assert_eq!((zero_fraction + SmartNum::zero()).unwrap().to_i64(), Some(0));
}

#[test]
fn operators_report_typed_errors() {
    assert_eq!(
        (SmartNum::from(3_i64) / SmartNum::zero()).unwrap_err(),
        ArithmeticError::DivisionByZero
    );
    assert_eq!(
        (SmartNum::from(i64::MAX) + SmartNum::one()).unwrap_err(),
        ArithmeticError::Overflow
    );
    assert_eq!((-SmartNum::from(i64::MIN)).unwrap_err(), ArithmeticError::Overflow);
    assert_eq!((SmartNum::pi() - SmartNum::e()).unwrap_err(), ArithmeticError::Inexact);
}
