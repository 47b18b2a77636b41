use soroban_fixed_point_math::FixedPoint;

#[test]
fn u128_test_fixed_mul_floor_rounds_down() {
    let x: u128 = 1_5391283;
    let y: u128 = 314_1592653;
    let denominator: u128 = 1_0000001;

    let result = x.fixed_mul_floor(y, denominator).unwrap();

    assert_eq!(result, 483_5313675)
}

#[test]
fn u128_test_fixed_mul_floor_large_number() {
    let x: u128 = 340_282_366_920_938_463_463;
    let y: u128 = 1_000_000_000_000_000_000;
    let denominator: u128 = 1_000_000_000_000_000_000;

    let result = x.fixed_mul_floor(y, denominator).unwrap();

    assert_eq!(result, 340_282_366_920_938_463_463)
}

#[test]
fn u128_test_fixed_mul_floor_phantom_overflow() {
    let x: u128 = 340_282_366_920_938_463_463;
    let y: u128 = 1_000_000_000_000_000_001;
    let denominator: u128 = 1_000_000_000_000_000_000;

    let result = x.fixed_mul_floor(y, denominator);

    assert_eq!(None, result);
}

#[test]
fn u128_test_fixed_mul_ceil_rounds_up() {
    let x: u128 = 1_5391283;
    let y: u128 = 314_1592653;
    let denominator: u128 = 1_0000001;

    let result = x.fixed_mul_ceil(y, denominator).unwrap();

    assert_eq!(result, 483_5313676)
}

#[test]
fn u128_test_fixed_mul_ceil_large_number() {
    let x: u128 = 340_282_366_920_938_463_463;
    let y: u128 = 1_000_000_000_000_000_000;
    let denominator: u128 = 1_000_000_000_000_000_000;

    let result = x.fixed_mul_ceil(y, denominator).unwrap();

    assert_eq!(result, 340_282_366_920_938_463_463)
}

#[test]
fn u128_test_fixed_mul_ceil_phantom_overflow() {
    let x: u128 = 340_282_366_920_938_463_463;
    let y: u128 = 1_000_000_000_000_000_001;
    let denominator: u128 = 1_000_000_000_000_000_000;

    let result = x.fixed_mul_ceil(y, denominator);

    assert_eq!(None, result);
}

#[test]
fn u128_test_fixed_div_floor_rounds_down() {
    let x: u128 = 314_1592653;
    let y: u128 = 1_5391280;
    let denominator: u128 = 1_0000000;

    let result = x.fixed_div_floor(y, denominator).unwrap();

    assert_eq!(result, 204_1150997)
}

#[test]
fn u128_test_fixed_div_floor_large_number() {
    let x: u128 = 340_282_366_920_938_463_463;
    let y: u128 = 1_000_000_000_000_000_000;
    let denominator: u128 = 1_000_000_000_000_000_000;

    let result = x.fixed_div_floor(y, denominator).unwrap();

    assert_eq!(result, 340_282_366_920_938_463_463)
}

#[test]
fn u128_test_fixed_div_floor_phantom_overflow() {
    let x: u128 = 340_282_366_920_938_463_463;
    let y: u128 = 1_000_000_000_000_000_000;
    let denominator: u128 = 1_000_000_000_000_000_001;

    let result = x.fixed_div_floor(y, denominator);

    assert_eq!(None, result);
}

#[test]
fn u128_test_fixed_div_ceil_rounds_down() {
    let x: u128 = 314_1592653;
    let y: u128 = 1_5391280;
    let denominator: u128 = 1_0000000;

    let result = x.fixed_div_ceil(y, denominator).unwrap();

    assert_eq!(result, 204_1150998)
}

#[test]
fn u128_test_fixed_div_ceil_large_number() {
    let x: u128 = 340_282_366_920_938_463_463;
    let y: u128 = 1_000_000_000_000_000_000;
    let denominator: u128 = 1_000_000_000_000_000_000;

    let result = x.fixed_div_ceil(y, denominator).unwrap();

    assert_eq!(result, 340_282_366_920_938_463_463)
}

#[test]
fn u128_test_fixed_div_ceil_phantom_overflow() {
    let x: u128 = 340_282_366_920_938_463_463;
    let y: u128 = 1_000_000_000_000_000_000;
    let denominator: u128 = 1_000_000_000_000_000_001;

    let result = x.fixed_div_ceil(y, denominator);

    assert_eq!(None, result);
}
