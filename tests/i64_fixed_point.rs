use soroban_fixed_point_math::FixedPoint;

#[test]
fn i64_test_fixed_mul_floor_rounds_down() {
    let x: i64 = 1_5391283;
    let y: i64 = 314_1592653;
    let denominator: i64 = 1_0000001;

    let result = x.fixed_mul_floor(y, denominator).unwrap();

    assert_eq!(result, 483_5313675)
}

#[test]
fn i64_test_fixed_mul_floor_large_number() {
    let x: i64 = 9_223_372_036;
    let y: i64 = 1_000_000_000;
    let denominator: i64 = 1_000_000_000;

    let result = x.fixed_mul_floor(y, denominator).unwrap();

    assert_eq!(result, 9_223_372_036)
}

#[test]
fn test_fixed_mul_floor_phantom_overflow_uses_i128() {
    let x: i64 = 9_223_372_036;
    let y: i64 = 2_000_000_000;
    let denominator: i64 = 1_000_000_000;

    let result = x.fixed_mul_floor(y, denominator).unwrap();

    assert_eq!(result, 18_446_744_072);
}

#[test]
fn test_fixed_mul_floor_result_overflow() {
    let x: i64 = 9_223_372_036_000_000_000;
    let y: i64 = 2_000_000_000;
    let denominator: i64 = 1_000_000_000;

    let result = x.fixed_mul_floor(y, denominator);

    assert_eq!(result, None);
}

#[test]
fn i64_test_fixed_mul_ceil_rounds_up() {
    let x: i64 = 1_5391283;
    let y: i64 = 314_1592653;
    let denominator: i64 = 1_0000001;

    let result = x.fixed_mul_ceil(y, denominator).unwrap();

    assert_eq!(result, 483_5313676)
}

#[test]
fn i64_test_fixed_mul_ceil_large_number() {
    let x: i64 = 9_223_372_036;
    let y: i64 = 1_000_000_000;
    let denominator: i64 = 1_000_000_000;

    let result = x.fixed_mul_ceil(y, denominator).unwrap();

    assert_eq!(result, 9_223_372_036)
}

#[test]
fn test_fixed_mul_ceil_phantom_overflow_uses_i128() {
    let x: i64 = 9_223_372_036;
    let y: i64 = 2_000_000_000;
    let denominator: i64 = 1_000_000_000;

    let result = x.fixed_mul_ceil(y, denominator).unwrap();

    assert_eq!(result, 18446744072);
}

#[test]
fn test_fixed_mul_ceil_result_overflow() {
    let x: i64 = 9_223_372_036_000_000_000;
    let y: i64 = 2_000_000_000;
    let denominator: i64 = 1_000_000_000;

    let result = x.fixed_mul_ceil(y, denominator);

    assert_eq!(result, None);
}

#[test]
fn i64_test_fixed_div_floor_rounds_down() {
    let x: i64 = 314_1592653;
    let y: i64 = 1_5391280;
    let denominator: i64 = 1_0000000;

    let result = x.fixed_div_floor(y, denominator).unwrap();

    assert_eq!(result, 204_1150997)
}

#[test]
fn i64_test_fixed_div_floor_large_number() {
    let x: i64 = 9_223_372_036;
    let y: i64 = 1_000_000_000;
    let denominator: i64 = 1_000_000_000;

    let result = x.fixed_div_floor(y, denominator).unwrap();

    assert_eq!(result, 9_223_372_036)
}

#[test]
fn test_fixed_div_floor_phantom_overflow_uses_i128() {
    let x: i64 = 9_223_372_036;
    let y: i64 = 1_000_000_000;
    let denominator: i64 = 2_000_000_000;

    let result = x.fixed_div_floor(y, denominator).unwrap();

    assert_eq!(result, 18_446_744_072);
}

#[test]
fn test_fixed_div_floor_result_overflow() {
    let x: i64 = 9_223_372_036_000_000_000;
    let y: i64 = 1_000_000_000;
    let denominator: i64 = 2_000_000_000;

    let result = x.fixed_div_floor(y, denominator);

    assert_eq!(result, None);
}

#[test]
fn test_fixed_div_ceil_rounds_up() {
    let x: i64 = 314_1592653;
    let y: i64 = 1_5391280;
    let denominator: i64 = 1_0000000;

    let result = x.fixed_div_ceil(y, denominator).unwrap();

    assert_eq!(result, 204_1150998)
}

#[test]
fn i64_test_fixed_div_ceil_large_number() {
    let x: i64 = 9_223_372_036;
    let y: i64 = 1_000_000_000;
    let denominator: i64 = 1_000_000_000;

    let result = x.fixed_div_ceil(y, denominator).unwrap();

    assert_eq!(result, 9_223_372_036)
}

#[test]
fn test_fixed_div_ceil_phantom_overflow_uses_i128() {
    let x: i64 = 9_223_372_036;
    let y: i64 = 1_000_000_000;
    let denominator: i64 = 2_000_000_000;

    let result = x.fixed_div_ceil(y, denominator).unwrap();

    assert_eq!(result, 18_446_744_072);
}

#[test]
fn test_fixed_div_ceil_result_overflow() {
    let x: i64 = 9_223_372_036_000_000_000;
    let y: i64 = 1_000_000_000;
    let denominator: i64 = 2_000_000_000;

    let result = x.fixed_div_ceil(y, denominator);

    assert_eq!(result, None);
}
