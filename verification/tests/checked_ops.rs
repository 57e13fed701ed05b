use wrapnum::{WrapError, WrapNum};

#[test]
fn try_new_accepts_value_below_bound() {
    let n = WrapNum::try_new(4u32, 6u32).unwrap();
    assert_eq!(n.get_value(), 4);
    assert_eq!(n.get_bound(), 6);
    assert!(n.get_value() < n.get_bound());
}

#[test]
fn try_new_accepts_largest_value() {
    let n = WrapNum::try_new(u64::MAX - 1, u64::MAX).unwrap();
    assert_eq!(n.get_value(), u64::MAX - 1);
    assert_eq!(n.get_bound(), u64::MAX);
}

#[test]
fn try_new_refuses_value_equal_to_bound() {
    assert_eq!(WrapNum::try_new(6u32, 6u32), Err(WrapError::OutOfBound));
}

#[test]
fn try_new_refuses_value_above_bound() {
    assert_eq!(WrapNum::try_new(7u8, 6u8), Err(WrapError::OutOfBound));
    assert_eq!(WrapNum::try_new(u64::MAX, 1u64), Err(WrapError::OutOfBound));
}

#[test]
fn try_new_refuses_zero_bound() {
    assert_eq!(WrapNum::try_new(0u16, 0u16), Err(WrapError::OutOfBound));
}

#[test]
fn new_agrees_with_try_new() {
    assert_eq!(WrapNum::try_new(3u16, 9u16), Ok(WrapNum::new(3u16, 9u16)));
}

#[test]
fn checked_add_wraps_at_bound() {
    let r = WrapNum::new(3u32, 6u32).checked_add(WrapNum::new(4u32, 5u32)).unwrap();
    assert_eq!(r.get_value(), 1);
    assert_eq!(r.get_bound(), 6);
}

#[test]
fn checked_add_reduces_large_operand() {
    let r = WrapNum::new(3u32, 6u32).checked_add(1_000_003u32).unwrap();
    assert_eq!(r.get_value(), (3 + 1_000_003) % 6);
    assert_eq!(r.get_bound(), 6);
}

#[test]
fn checked_add_keeps_carry_out_of_64_bits() {
    let m = u64::MAX;
    let r = WrapNum::new(m - 1, m).checked_add(m - 1).unwrap();
    assert_eq!(r.get_value(), m - 2);
    assert_eq!(r.get_bound(), m);
}

#[test]
fn checked_add_keeps_carry_out_of_8_bits() {
    let r = WrapNum::new(200u8, 251u8).checked_add(250u8).unwrap();
    assert_eq!(r.get_value(), ((200u32 + 250) % 251) as u8);
    assert_eq!(r.get_value(), 199);
}

#[test]
fn checked_add_refuses_operand_too_wide() {
    let r = WrapNum::new(3u8, 6u8).checked_add(256u32);
    assert_eq!(r, Err(WrapError::CastOverflow));
}

#[test]
fn checked_add_takes_widest_fitting_operand() {
    let r = WrapNum::new(3u8, 6u8).checked_add(255u64).unwrap();
    assert_eq!(r.get_value(), ((3 + 255) % 6) as u8);
}

#[test]
fn checked_mul_wraps_at_bound() {
    let r = WrapNum::new(4u32, 6u32).checked_mul(WrapNum::new(4u16, 5u16)).unwrap();
    assert_eq!(r.get_value(), 4);
    assert_eq!(r.get_bound(), 6);
}

#[test]
fn checked_mul_keeps_high_half_of_product() {
    let m = u64::MAX;
    let r = WrapNum::new(m - 1, m).checked_mul(m - 1).unwrap();
    assert_eq!(r.get_value(), 1);
    let s = WrapNum::new(1u64 << 63, m).checked_mul(4u8).unwrap();
    assert_eq!(s.get_value(), 2);
}

#[test]
fn checked_mul_by_zero_is_zero() {
    let r = WrapNum::new(5u16, 7u16).checked_mul(0u8).unwrap();
    assert_eq!(r.get_value(), 0);
    assert_eq!(r.get_bound(), 7);
}

#[test]
fn checked_mul_refuses_operand_too_wide() {
    let r = WrapNum::new(3u16, 6u16).checked_mul(65_536u64);
    assert_eq!(r, Err(WrapError::CastOverflow));
}

#[test]
fn checked_sub_gives_plain_difference() {
    let r = WrapNum::new(5u32, 6u32).checked_sub(2u32).unwrap();
    assert_eq!(r.get_value(), 3);
    assert_eq!(r.get_bound(), 6);
}

#[test]
fn checked_sub_down_to_zero() {
    let r = WrapNum::new(5u32, 6u32).checked_sub(WrapNum::new(5u64, 100u64)).unwrap();
    assert_eq!(r.get_value(), 0);
    assert_eq!(r.get_bound(), 6);
}

#[test]
fn checked_sub_refuses_underflow() {
    let r = WrapNum::new(5u32, 7u32).checked_sub(6u32);
    assert_eq!(r, Err(WrapError::Underflow));
}

#[test]
fn checked_sub_reports_cast_before_underflow() {
    let r = WrapNum::new(5u8, 7u8).checked_sub(1000u16);
    assert_eq!(r, Err(WrapError::CastOverflow));
}

#[test]
fn checked_rem_uses_operand_as_modulus() {
    let r = WrapNum::new(9u32, 10u32).checked_rem(5u32).unwrap();
    assert_eq!(r.get_value(), 4);
    assert_eq!(r.get_bound(), 10);
}

#[test]
fn checked_rem_result_is_below_operand() {
    let r = WrapNum::new(200u8, 255u8).checked_rem(7u64).unwrap();
    assert_eq!(r.get_value(), 200 % 7);
    assert!(r.get_value() < 7);
    assert_eq!(r.get_bound(), 255);
}

#[test]
fn checked_rem_refuses_zero() {
    let r = WrapNum::new(9u32, 10u32).checked_rem(0u8);
    assert_eq!(r, Err(WrapError::DivisionByZero));
}

#[test]
fn checked_rem_reports_cast_before_zero_test() {
    let r = WrapNum::new(9u8, 10u8).checked_rem(WrapNum::new(300u16, 301u16));
    assert_eq!(r, Err(WrapError::CastOverflow));
}
