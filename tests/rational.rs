use symcalc::rational::RationalNum;

#[test]
fn rational_eq() {
    {
        let x = RationalNum::new_positive(0_u64, 3_u64).unwrap();
        let y = RationalNum::new_negative(0_u64, 5_u64).unwrap();
        assert_eq!(x, y);
    }
    {
        let x = RationalNum::new_positive(1_u64, 2_u64).unwrap();
        let y = RationalNum::new_positive(1_u64, 2_u64).unwrap();
        assert_eq!(x, y);
    }
    {
        let x = RationalNum::new_positive(3_u64, 9_u64).unwrap();
        let y = RationalNum::new_positive(1_u64, 3_u64).unwrap();
        assert_eq!(x, y);
    }
}

#[test]
fn rational_neg() {
    {
        let x = RationalNum::new_positive(1_u64, 2_u64).unwrap();
        let y = RationalNum::new_negative(1_u64, 2_u64).unwrap();
        assert_eq!(x, -y);
    }
    {
        let x = RationalNum::new_positive(1_u64, 3_u64).unwrap();
        let y = RationalNum::new_negative(1_u64, 3_u64).unwrap();
        assert_eq!(x, -y);
    }
}

#[test]
fn rational_add() {
    {
        let x = RationalNum::new_positive(1_u64, 4_u64).unwrap();
        let y = RationalNum::new_positive(1_u64, 4_u64).unwrap();
        let z = RationalNum::new_positive(1_u64, 2_u64).unwrap();
        assert_eq!(x + y, z);
    }
    {
        let x = RationalNum::new_negative(1_u64, 2_u64).unwrap();
        let y = RationalNum::new_positive(1_u64, 4_u64).unwrap();
        let z = RationalNum::new_negative(1_u64, 4_u64).unwrap();
        assert_eq!(x + y, z);
    }
    {
        let x = RationalNum::new_negative(1_u64, 4_u64).unwrap();
        let y = RationalNum::new_positive(1_u64, 2_u64).unwrap();
        let z = RationalNum::new_positive(1_u64, 4_u64).unwrap();
        assert_eq!(x + y, z);
    }
    {
        let x = RationalNum::new_negative(1_u64, 4_u64).unwrap();
        let y = RationalNum::new_negative(1_u64, 4_u64).unwrap();
        let z = RationalNum::new_negative(1_u64, 2_u64).unwrap();
        assert_eq!(x + y, z);
    }
}

#[test]
fn rational_sub() {
    {
        let x = RationalNum::new_positive(1_u64, 2_u64).unwrap();
        let y = RationalNum::new_positive(1_u64, 4_u64).unwrap();
        let z = RationalNum::new_positive(1_u64, 4_u64).unwrap();
        assert_eq!(x - y, z);
    }
    {
        let x = RationalNum::new_negative(1_u64, 2_u64).unwrap();
        let y = RationalNum::new_positive(1_u64, 3_u64).unwrap();
        let z = RationalNum::new_negative(5_u64, 6_u64).unwrap();
        assert_eq!(x - y, z);
    }
    {
        let x = RationalNum::new_positive(1_u64, 2_u64).unwrap();
        let y = RationalNum::new_negative(1_u64, 3_u64).unwrap();
        let z = RationalNum::new_positive(5_u64, 6_u64).unwrap();
        assert_eq!(x - y, z);
    }
    {
        let x = RationalNum::new_negative(1_u64, 2_u64).unwrap();
        let y = RationalNum::new_negative(1_u64, 4_u64).unwrap();
        let z = RationalNum::new_negative(1_u64, 4_u64).unwrap();
        assert_eq!(x - y, z);
    }
}

#[test]
fn rational_mul() {
    {
        let x = RationalNum::new_positive(1_u64, 2_u64).unwrap();
        let y = RationalNum::new_positive(1_u64, 4_u64).unwrap();
        let z = RationalNum::new_positive(1_u64, 8_u64).unwrap();
        assert_eq!(x * y, z);
    }
    {
        let x = RationalNum::new_negative(1_u64, 2_u64).unwrap();
        let y = RationalNum::new_positive(1_u64, 3_u64).unwrap();
        let z = RationalNum::new_negative(1_u64, 6_u64).unwrap();
        assert_eq!(x * y, z);
    }
    {
        let x = RationalNum::new_positive(1_u64, 2_u64).unwrap();
        let y = RationalNum::new_negative(1_u64, 3_u64).unwrap();
        let z = RationalNum::new_negative(1_u64, 6_u64).unwrap();
        assert_eq!(x * y, z);
    }
    {
        let x = RationalNum::new_negative(1_u64, 2_u64).unwrap();
        let y = RationalNum::new_negative(1_u64, 4_u64).unwrap();
        let z = RationalNum::new_positive(1_u64, 8_u64).unwrap();
        assert_eq!(x * y, z);
    }
}

#[test]
fn rational_div() {
    {
        let x = RationalNum::new_positive(1_u64, 2_u64).unwrap();
        let y = RationalNum::new_positive(1_u64, 4_u64).unwrap();
        let z = RationalNum::new_positive(2_u64, 1_u64).unwrap();
        assert_eq!(x / y, z);
    }
    {
        let x = RationalNum::new_negative(1_u64, 2_u64).unwrap();
        let y = RationalNum::new_positive(1_u64, 3_u64).unwrap();
        let z = RationalNum::new_negative(3_u64, 2_u64).unwrap();
        assert_eq!(x / y, z);
    }
    {
        let x = RationalNum::new_positive(1_u64, 2_u64).unwrap();
        let y = RationalNum::new_negative(1_u64, 3_u64).unwrap();
        let z = RationalNum::new_negative(3_u64, 2_u64).unwrap();
        assert_eq!(x / y, z);
    }
    {
        let x = RationalNum::new_negative(1_u64, 2_u64).unwrap();
        let y = RationalNum::new_negative(1_u64, 4_u64).unwrap();
        let z = RationalNum::new_positive(2_u64, 1_u64).unwrap();
        assert_eq!(x / y, z);
    }
}

#[test]
fn tests_eq() {
    {
        let x = RationalNum::new_positive(0_u64, 3_u64).unwrap();
        let y = RationalNum::new_negative(0_u64, 5_u64).unwrap();
        assert_eq!(x, y);
    }
    {
        let x = RationalNum::new_positive(1_u64, 2_u64).unwrap();
        let y = RationalNum::new_positive(1_u64, 2_u64).unwrap();
        assert_eq!(x, y);
    }
    {
        let x = RationalNum::new_positive(3_u64, 9_u64).unwrap();
        let y = RationalNum::new_positive(1_u64, 3_u64).unwrap();
        assert_eq!(x, y);
    }
}

#[test]
fn tests_neg() {
    {
        let x = RationalNum::new_positive(1_u64, 2_u64).unwrap();
        let y = RationalNum::new_negative(1_u64, 2_u64).unwrap();
        assert_eq!(x, -y);
    }
    {
        let x = RationalNum::new_positive(1_u64, 3_u64).unwrap();
        let y = RationalNum::new_negative(1_u64, 3_u64).unwrap();
        assert_eq!(x, -y);
    }
}

#[test]
fn tests_add() {
    {
        let x = RationalNum::new_positive(1_u64, 4_u64).unwrap();
        let y = RationalNum::new_positive(1_u64, 4_u64).unwrap();
        let z = RationalNum::new_positive(1_u64, 2_u64).unwrap();
        assert_eq!(x + y, z);
    }
    {
        let x = RationalNum::new_negative(1_u64, 2_u64).unwrap();
        let y = RationalNum::new_positive(1_u64, 4_u64).unwrap();
        let z = RationalNum::new_negative(1_u64, 4_u64).unwrap();
        assert_eq!(x + y, z);
    }
    {
        let x = RationalNum::new_negative(1_u64, 4_u64).unwrap();
        let y = RationalNum::new_positive(1_u64, 2_u64).unwrap();
        let z = RationalNum::new_positive(1_u64, 4_u64).unwrap();
        assert_eq!(x + y, z);
    }
    {
        let x = RationalNum::new_negative(1_u64, 4_u64).unwrap();
        let y = RationalNum::new_negative(1_u64, 4_u64).unwrap();
        let z = RationalNum::new_negative(1_u64, 2_u64).unwrap();
        assert_eq!(x + y, z);
    }
}

#[test]
fn tests_sub() {
    {
        let x = RationalNum::new_positive(1_u64, 2_u64).unwrap();
        let y = RationalNum::new_positive(1_u64, 4_u64).unwrap();
        let z = RationalNum::new_positive(1_u64, 4_u64).unwrap();
        assert_eq!(x - y, z);
    }
    {
        let x = RationalNum::new_negative(1_u64, 2_u64).unwrap();
        let y = RationalNum::new_positive(1_u64, 3_u64).unwrap();
        let z = RationalNum::new_negative(5_u64, 6_u64).unwrap();
        assert_eq!(x - y, z);
    }
    {
        let x = RationalNum::new_positive(1_u64, 2_u64).unwrap();
        let y = RationalNum::new_negative(1_u64, 3_u64).unwrap();
        let z = RationalNum::new_positive(5_u64, 6_u64).unwrap();
        assert_eq!(x - y, z);
    }
    {
        let x = RationalNum::new_negative(1_u64, 2_u64).unwrap();
        let y = RationalNum::new_negative(1_u64, 4_u64).unwrap();
        let z = RationalNum::new_negative(1_u64, 4_u64).unwrap();
        assert_eq!(x - y, z);
    }
}

#[test]
fn tests_mul() {
    {
        let x = RationalNum::new_positive(1_u64, 2_u64).unwrap();
        let y = RationalNum::new_positive(1_u64, 4_u64).unwrap();
        let z = RationalNum::new_positive(1_u64, 8_u64).unwrap();
        assert_eq!(x * y, z);
    }
    {
        let x = RationalNum::new_negative(1_u64, 2_u64).unwrap();
        let y = RationalNum::new_positive(1_u64, 3_u64).unwrap();
        let z = RationalNum::new_negative(1_u64, 6_u64).unwrap();
        assert_eq!(x * y, z);
    }
    {
        let x = RationalNum::new_positive(1_u64, 2_u64).unwrap();
        let y = RationalNum::new_negative(1_u64, 3_u64).unwrap();
        let z = RationalNum::new_negative(1_u64, 6_u64).unwrap();
        assert_eq!(x * y, z);
    }
    {
        let x = RationalNum::new_negative(1_u64, 2_u64).unwrap();
        let y = RationalNum::new_negative(1_u64, 4_u64).unwrap();
        let z = RationalNum::new_positive(1_u64, 8_u64).unwrap();
        assert_eq!(x * y, z);
    }
}

#[test]
fn tests_div() {
    {
        let x = RationalNum::new_positive(1_u64, 2_u64).unwrap();
        let y = RationalNum::new_positive(1_u64, 4_u64).unwrap();
        let z = RationalNum::new_positive(2_u64, 1_u64).unwrap();
        assert_eq!(x / y, z);
    }
    {
        let x = RationalNum::new_negative(1_u64, 2_u64).unwrap();
        let y = RationalNum::new_positive(1_u64, 3_u64).unwrap();
        let z = RationalNum::new_negative(3_u64, 2_u64).unwrap();
        assert_eq!(x / y, z);
    }
    {
        let x = RationalNum::new_positive(1_u64, 2_u64).unwrap();
        let y = RationalNum::new_negative(1_u64, 3_u64).unwrap();
        let z = RationalNum::new_negative(3_u64, 2_u64).unwrap();
        assert_eq!(x / y, z);
    }
    {
        let x = RationalNum::new_negative(1_u64, 2_u64).unwrap();
        let y = RationalNum::new_negative(1_u64, 4_u64).unwrap();
        let z = RationalNum::new_positive(2_u64, 1_u64).unwrap();
        assert_eq!(x / y, z);
    }
}

#[test]
fn rational_reduce_lowest_terms() {
    let x = RationalNum::new_negative(6_u64, 8_u64).unwrap().reduce();
    assert_eq!(x.sign, -1);
    assert_eq!(x.nominator, 3);
    assert_eq!(x.denominator, 4);
}

#[test]
fn rational_new_rejects_bad_parts() {
    assert!(RationalNum::new(2, 1, 2).is_none());
    assert!(RationalNum::new(1, 1, 0).is_none());
    assert!(RationalNum::new_positive(1, 0).is_none());
}

#[test]
fn rational_results_are_reduced() {
    let x = RationalNum::new_positive(1_u64, 6_u64).unwrap();
    let y = RationalNum::new_positive(1_u64, 3_u64).unwrap();
    let z = x.checked_add(&y).unwrap();
    assert_eq!((z.sign, z.nominator, z.denominator), (1, 1, 2));
    let w = x.checked_sub(&x).unwrap();
    assert_eq!((w.sign, w.nominator, w.denominator), (1, 0, 1));
}

#[test]
fn rational_division_by_zero_is_none() {
    let x = RationalNum::new_positive(1_u64, 2_u64).unwrap();
    let zero = RationalNum::new_negative(0_u64, 7_u64).unwrap();
    assert!(x.checked_div(&zero).is_none());
}

#[test]
fn rational_overflow_is_none() {
    let big = RationalNum::new_positive(u64::MAX, 1_u64).unwrap();
    assert!(big.checked_add(&big).is_none());
    assert!(big.checked_mul(&big).is_none());
    let tiny = RationalNum::new_positive(1_u64, u64::MAX).unwrap();
    assert!(tiny.checked_mul(&tiny).is_none());
}

#[test]
fn gcd_values() {
    assert_eq!(symcalc::rational::gcd(12, 18), 6);
    assert_eq!(symcalc::rational::gcd(0, 5), 5);
    assert_eq!(symcalc::rational::gcd(7, 0), 7);
}
