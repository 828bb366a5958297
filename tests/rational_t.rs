use num::FromPrimitive;
use rational::rational_t::{abs, Rational, RationalError};

/// The tolerance `0.0001` in the `i32` kind, converted as a float tolerance is.
fn tolerance() -> i32 {
    i32::from_f32(0.0001).unwrap()
}

#[test]
fn create_rational() {
    let rat = Rational::new(4, 0);
    assert!(rat.is_err());
}

#[test]
fn test_operations() {
    let a = Rational::new(3, 2);
    let b = Rational::new(5, 4);

    let a = match a {
        Ok(rational) => rational,
        Err(error) => panic!("Error: {:?}", error),
    };

    let b = match b {
        Ok(rational) => rational,
        Err(error) => panic!("Error: {:?}", error),
    };

    let mut rat = Rational::default_i();
    rat.set_num(15);
    rat.set_den(8).unwrap();
    assert_eq!(a * b, rat);

    rat.set_num(12);
    rat.set_den(10).unwrap();
    assert_eq!(a / b, Ok(rat));

    rat.set_num(22);
    rat.set_den(8).unwrap();
    assert_eq!(a + b, rat);

    rat.set_num(2);
    rat.set_den(8).unwrap();
    assert_eq!(a - b, rat);
}

#[test]
fn test_comparations() {
    let a = Rational::new(1, 2);
    let b = Rational::new(6, 4);

    let a = match a {
        Ok(rational) => rational,
        Err(error) => panic!("Error: {:?}", error),
    };
    let b = match b {
        Ok(rational) => rational,
        Err(error) => panic!("Error: {:?}", error),
    };

    assert!(a.less(&b, tolerance()));
    assert_ne!(a.greater(&b, tolerance()), true);
    assert_eq!(a.equal(&b, tolerance()), false);
}

#[test]
fn new_keeps_parts_unreduced() {
    let r = Rational::new(4, 2).unwrap();
    assert_eq!(*r.num(), 4);
    assert_eq!(*r.den(), 2);
    assert_ne!(r, Rational::new(2, 1).unwrap());
    let n = Rational::new(-7, -3).unwrap();
    assert_eq!((*n.num(), *n.den()), (-7, -3));
}

#[test]
fn new_zero_denominator_error() {
    assert_eq!(Rational::new(7, 0), Err(RationalError::ZeroDenominator));
    assert_eq!(Rational::new(0, 0), Err(RationalError::ZeroDenominator));
    assert!(Rational::new(0, 1).is_ok());
    assert!(Rational::new(i32::MIN, -1).is_ok());
}

#[test]
fn default_is_zero_over_one() {
    let r = Rational::default_i();
    assert_eq!((*r.num(), *r.den()), (0, 1));
}

#[test]
fn add_shared_denominator_keeps_it() {
    let a = Rational::new(3, 7).unwrap();
    let b = Rational::new(-5, 7).unwrap();
    let s = a + b;
    assert_eq!((*s.num(), *s.den()), (-2, 7));
    let d = a - b;
    assert_eq!((*d.num(), *d.den()), (8, 7));
}

#[test]
fn add_sub_cross_multiply() {
    let a = Rational::new(1, 3).unwrap();
    let b = Rational::new(2, -5).unwrap();
    let s = a + b;
    assert_eq!((*s.num(), *s.den()), (1 * -5 + 2 * 3, -15));
    let d = a - b;
    assert_eq!((*d.num(), *d.den()), (1 * -5 - 2 * 3, -15));
}

#[test]
fn divide_by_zero_numerator_fails() {
    let a = Rational::new(3, 2).unwrap();
    let z = Rational::new(0, 9).unwrap();
    assert_eq!(a / z, Err(RationalError::ZeroDenominator));
    let q = (z / a).unwrap();
    assert_eq!((*q.num(), *q.den()), (0, 27));
}

#[test]
fn set_den_zero_leaves_value() {
    let mut a = Rational::new(32, 23).unwrap();
    assert_eq!(a.set_den(0), Err(RationalError::InvalidDenominatorMutation));
    assert_eq!((*a.num(), *a.den()), (32, 23));
    assert_eq!(a.set_den(-4), Ok(()));
    assert_eq!((*a.num(), *a.den()), (32, -4));
}

#[test]
fn opposite_twice_is_identity() {
    let a = Rational::new(-9, 4).unwrap();
    let o = a.opposite();
    assert_eq!((*o.num(), *o.den()), (9, 4));
    assert_eq!(o.opposite(), a);
    assert_eq!(-a, o);
}

#[test]
fn reciprocal_twice_is_identity() {
    let a = Rational::new(-9, 4).unwrap();
    let r = a.reciprocal().unwrap();
    assert_eq!((*r.num(), *r.den()), (4, -9));
    assert_eq!(r.reciprocal(), Ok(a));
}

#[test]
fn reciprocal_of_zero_fails() {
    let z = Rational::new(0, 3).unwrap();
    assert_eq!(z.reciprocal(), Err(RationalError::ZeroDenominator));
}

#[test]
fn product_of_whole_values() {
    let a = Rational::new(6, 3).unwrap();
    let b = Rational::new(-10, 2).unwrap();
    assert_eq!((a * b).get_value(), a.get_value() * b.get_value());
    assert_eq!((a * b).get_value(), -10);
}

#[test]
fn get_value_truncates_toward_zero() {
    assert_eq!(Rational::new(7, 2).unwrap().get_value(), 3);
    assert_eq!(Rational::new(-7, 2).unwrap().get_value(), -3);
    assert_eq!(Rational::new(7, -2).unwrap().get_value(), -3);
    assert_eq!(Rational::new(-7, -2).unwrap().get_value(), 3);
    assert_eq!(Rational::new(i32::MIN, 1).unwrap().get_value(), i32::MIN);
}

#[test]
fn cero_within_precision() {
    let a = Rational::new(0, 5).unwrap();
    assert!(a.cero(1));
    assert!(!a.cero(tolerance()));
    let b = Rational::new(-5, 2).unwrap();
    assert!(!b.cero(2));
    assert!(b.cero(3));
}

#[test]
fn less_and_greater_are_not_complements() {
    let a = Rational::new(5, 1).unwrap();
    let b = Rational::new(4, 1).unwrap();
    assert!(a.less(&b, 2));
    assert!(!a.greater(&b, 2));
    assert!(a.greater(&b, 0));
    assert!(a.equal(&b, 2));
    assert!(!a.equal(&b, 1));
    assert!(a.less(&a, 1));
}

#[test]
fn comparisons_far_apart_values() {
    let a = Rational::new(i32::MIN, -1).unwrap();
    let b = Rational::new(i32::MIN, 1).unwrap();
    assert!(a.greater(&b, i32::MAX));
    assert!(!a.equal(&b, i32::MAX));
    assert!(!b.cero(i32::MAX));
}

#[test]
fn abs_of_wide_values() {
    assert_eq!(abs(-5), 5);
    assert_eq!(abs(5), 5);
    assert_eq!(abs(0), 0);
    assert_eq!(abs(i64::MAX), i64::MAX);
}

#[test]
fn text_form_numerator_slash_denominator() {
    assert_eq!(Rational::new(15, 8).unwrap().to_string(), "15/8");
    assert_eq!(Rational::new(-3, 40).unwrap().to_string(), "-3/40");
    assert_eq!(Rational::new(0, -1).unwrap().to_string(), "0/-1");
    assert_eq!(Rational::new(i32::MIN, i32::MAX).unwrap().to_string(), "-2147483648/2147483647");
}
