use pid_control::fixed::{Fixed, SCALE};
use pid_control::scalar::Scalar;

fn raw(v: i64) -> Fixed {
    Fixed { raw: v }
}

#[test]
fn from_int_scales() {
    assert_eq!(SCALE, 65536);
    assert_eq!(Fixed::from_int(3).raw, 196608);
    assert_eq!(Fixed::from_int(-1).raw, -65536);
    assert_eq!(Fixed::from_int(i32::MIN).raw, -140737488355328);
    assert_eq!(Fixed::zero(), Fixed::from_int(0));
}

#[test]
fn plus_and_minus_are_exact_in_range() {
    assert_eq!(raw(5).plus(raw(7)), raw(12));
    assert_eq!(raw(5).minus(raw(7)), raw(-2));
    assert_eq!(raw(-5).plus(raw(5)), raw(0));
}

#[test]
fn plus_and_minus_saturate() {
    assert_eq!(raw(i64::MAX).plus(raw(1)), raw(i64::MAX));
    assert_eq!(raw(i64::MIN).plus(raw(-1)), raw(i64::MIN));
    assert_eq!(raw(i64::MIN).minus(raw(1)), raw(i64::MIN));
    assert_eq!(raw(i64::MAX).minus(raw(-1)), raw(i64::MAX));
    assert_eq!(raw(i64::MAX).minus(raw(i64::MIN)), raw(i64::MAX));
    assert_eq!(raw(i64::MIN).minus(raw(i64::MIN)), raw(0));
}

#[test]
fn negated_saturates_at_the_lowest_value() {
    assert_eq!(raw(7).negated(), raw(-7));
    assert_eq!(raw(0).negated(), raw(0));
    assert_eq!(raw(i64::MAX).negated(), raw(-i64::MAX));
    assert_eq!(raw(i64::MIN).negated(), raw(i64::MAX));
}

#[test]
fn times_scales_and_rounds_towards_zero() {
    assert_eq!(Fixed::from_int(3).times(Fixed::from_int(4)), Fixed::from_int(12));
    assert_eq!(Fixed::from_int(-3).times(Fixed::from_int(4)), Fixed::from_int(-12));
    // a half times a half is a quarter
    assert_eq!(raw(32768).times(raw(32768)), raw(16384));
    // the smallest step times a half rounds to zero from either side
    assert_eq!(raw(1).times(raw(32768)), raw(0));
    assert_eq!(raw(-1).times(raw(32768)), raw(0));
    assert_eq!(raw(3).times(raw(32768)), raw(1));
    assert_eq!(raw(-3).times(raw(32768)), raw(-1));
}

#[test]
fn times_saturates() {
    assert_eq!(raw(i64::MAX).times(Fixed::from_int(2)), raw(i64::MAX));
    assert_eq!(raw(i64::MAX).times(Fixed::from_int(-2)), raw(i64::MIN));
    assert_eq!(raw(i64::MIN).times(raw(i64::MIN)), raw(i64::MAX));
    assert_eq!(raw(i64::MIN).times(Fixed::from_int(1)), raw(i64::MIN));
    assert_eq!(raw(i64::MAX).times(raw(0)), raw(0));
}

#[test]
fn divided_by_scales_and_rounds_towards_zero() {
    assert_eq!(Fixed::from_int(12).divided_by(Fixed::from_int(4)), Fixed::from_int(3));
    assert_eq!(Fixed::from_int(1).divided_by(Fixed::from_int(2)), raw(32768));
    assert_eq!(Fixed::from_int(1).divided_by(Fixed::from_int(3)), raw(21845));
    assert_eq!(Fixed::from_int(-1).divided_by(Fixed::from_int(3)), raw(-21845));
    assert_eq!(Fixed::from_int(1).divided_by(Fixed::from_int(-3)), raw(-21845));
    assert_eq!(Fixed::from_int(-1).divided_by(Fixed::from_int(-3)), raw(21845));
    assert_eq!(raw(0).divided_by(Fixed::from_int(-3)), raw(0));
}

#[test]
fn divided_by_saturates() {
    assert_eq!(raw(i64::MAX).divided_by(raw(1)), raw(i64::MAX));
    assert_eq!(raw(i64::MIN).divided_by(raw(1)), raw(i64::MIN));
    assert_eq!(raw(i64::MIN).divided_by(raw(-1)), raw(i64::MAX));
    assert_eq!(raw(i64::MIN).divided_by(raw(i64::MIN)), Fixed::from_int(1));
}

#[test]
fn divided_by_zero_goes_to_the_end_of_the_range() {
    assert_eq!(raw(5).divided_by(raw(0)), raw(i64::MAX));
    assert_eq!(raw(-5).divided_by(raw(0)), raw(i64::MIN));
    assert_eq!(raw(0).divided_by(raw(0)), raw(0));
}

#[test]
fn less_than_is_strict() {
    assert!(raw(1).less_than(raw(2)));
    assert!(!raw(2).less_than(raw(2)));
    assert!(!raw(3).less_than(raw(2)));
    assert!(raw(i64::MIN).less_than(raw(i64::MAX)));
}

#[test]
fn zero_behaves_as_zero() {
    for v in [0, 1, -1, 65536, -65536, i64::MAX, i64::MIN] {
        let x = raw(v);
        assert_eq!(x.minus(x), Fixed::zero());
        assert_eq!(x.plus(Fixed::zero()), x);
        assert_eq!(Fixed::zero().plus(x), x);
        assert_eq!(x.times(Fixed::zero()), Fixed::zero());
        assert_eq!(Fixed::zero().times(x), Fixed::zero());
        if v != 0 {
            assert_eq!(Fixed::zero().divided_by(x), Fixed::zero());
        }
    }
    assert_eq!(Fixed::zero().negated(), Fixed::zero());
}
