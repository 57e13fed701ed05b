use wrapnum::WrapNum;

#[test]
fn lib_add_wrapnum_nowrap() {
    let num1 = WrapNum::new(2u32, 6u32);
    let num2 = WrapNum::new(2u32, 5u32);

    let num3 = num1 + num2;

    assert_eq!(num3.get_value(), 4);
    assert_eq!(num3.get_bound(), 6);
}

#[test]
fn lib_add_wrapnum_wrap() {
    let num1 = WrapNum::new(3u32, 6u32);
    let num2 = WrapNum::new(4u32, 5u32);

    let num3 = num1 + num2;

    assert_eq!(num3.get_value(), 1);
    assert_eq!(num3.get_bound(), 6);
}

#[test]
fn add_u64_wrap() {
    let num1 = WrapNum::new(3u32, 6u32);
    let num2 = 7u32;

    let num3 = num1 + num2;

    assert_eq!(num3.get_value(), 4);
    assert_eq!(num3.get_bound(), 6);
}

#[test]
fn lib_add_assign_wrapnum_wrap() {
    let mut num1 = WrapNum::new(3u32, 6u32);
    let num2 = WrapNum::new(4u32, 5u32);

    num1 += num2;

    assert_eq!(num1.get_value(), 1);
    assert_eq!(num1.get_bound(), 6);
}

#[test]
fn lib_mul_wrapnum_wrap() {
    let num1 = WrapNum::new(4u32, 6u32);
    let num2 = WrapNum::new(4u32, 5u32);

    let num3 = num1 * num2;

    assert_eq!(num3.get_value(), 4);
    assert_eq!(num3.get_bound(), 6);
}

#[test]
fn lib_mul_assign_wrapnum_wrap() {
    let mut num1 = WrapNum::new(4u32, 6u32);
    let num2 = WrapNum::new(4u32, 5u32);

    num1 *= num2;

    assert_eq!(num1.get_value(), 4);
    assert_eq!(num1.get_bound(), 6);
}

#[test]
fn lib_ops_different_types() {
    let mut num1 = WrapNum::new(4u32, 6u32);
    let num2 = WrapNum::new(4u16, 5u16);

    num1 *= num2;

    assert_eq!(num1.get_value(), 4);
    assert_eq!(num1.get_bound(), 6);
}
