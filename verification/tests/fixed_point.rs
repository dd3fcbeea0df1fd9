use boids::fixed::{integer_sqrt, Fixed, ONE_BITS};

fn fx(n: i32) -> Fixed {
    Fixed::from_int(n)
}

#[test]
fn whole_numbers_are_scaled_by_two_to_the_thirty_two() {
    assert_eq!(ONE_BITS, 4_294_967_296i64);
    assert_eq!(fx(1).bits, 4_294_967_296i64);
    assert_eq!(fx(-3).bits, -12_884_901_888i64);
    assert_eq!(fx(0), Fixed::zero());
    assert_eq!(fx(i32::MIN).bits, i64::MIN);
    assert_eq!(fx(i32::MAX).bits, 9_223_372_032_559_808_512i64);
    assert_eq!(Fixed::from_bits(77).bits, 77i64);
}

#[test]
fn sums_and_differences_are_exact_in_range() {
    assert_eq!(fx(1).add(fx(2)), fx(3));
    assert_eq!(fx(1).sub(fx(2)), fx(-1));
    assert_eq!(Fixed::from_bits(5).add(Fixed::from_bits(-7)).bits, -2i64);
    assert_eq!(fx(4).neg(), fx(-4));
}

#[test]
fn sums_and_differences_saturate() {
    let top = Fixed::from_bits(i64::MAX);
    let bottom = Fixed::from_bits(i64::MIN);
    assert_eq!(top.add(Fixed::from_bits(1)), top);
    assert_eq!(top.add(top), top);
    assert_eq!(bottom.sub(Fixed::from_bits(1)), bottom);
    assert_eq!(bottom.add(bottom), bottom);
    assert_eq!(Fixed::zero().sub(bottom), top);
    assert_eq!(bottom.neg(), top);
    assert_eq!(top.neg().bits, i64::MIN + 1);
}

#[test]
fn products_round_toward_zero() {
    let half = Fixed::from_bits(ONE_BITS / 2);
    assert_eq!(fx(3).mul(half).bits, 6_442_450_944i64);
    assert_eq!(Fixed::from_bits(3).mul(half).bits, 1i64);
    assert_eq!(Fixed::from_bits(-3).mul(half).bits, -1i64);
    assert_eq!(Fixed::from_bits(-1).mul(half).bits, 0i64);
    assert_eq!(Fixed::from_bits(1).mul(half).bits, 0i64);
    assert_eq!(fx(-6).mul(fx(7)), fx(-42));
    assert_eq!(fx(-6).mul(fx(-7)), fx(42));
}

#[test]
fn products_saturate() {
    let top = Fixed::from_bits(i64::MAX);
    let bottom = Fixed::from_bits(i64::MIN);
    assert_eq!(top.mul(fx(2)), top);
    assert_eq!(bottom.mul(fx(2)), bottom);
    assert_eq!(bottom.mul(fx(-2)), top);
    assert_eq!(bottom.mul(bottom), top);
}

#[test]
fn quotients_round_toward_zero() {
    assert_eq!(fx(1).div(fx(3)).bits, 1_431_655_765i64);
    assert_eq!(fx(-1).div(fx(3)).bits, -1_431_655_765i64);
    assert_eq!(fx(1).div(fx(-3)).bits, -1_431_655_765i64);
    assert_eq!(fx(-1).div(fx(-3)).bits, 1_431_655_765i64);
    assert_eq!(fx(7).div(fx(2)).bits, 15_032_385_536i64);
    assert_eq!(fx(42).div(fx(-7)), fx(-6));
}

#[test]
fn quotients_saturate() {
    let top = Fixed::from_bits(i64::MAX);
    let bottom = Fixed::from_bits(i64::MIN);
    assert_eq!(top.div(Fixed::from_bits(1)), top);
    assert_eq!(bottom.div(Fixed::from_bits(1)), bottom);
    assert_eq!(bottom.div(Fixed::from_bits(-1)), top);
    assert_eq!(bottom.div(fx(-1)), top);
}

#[test]
fn comparisons_are_strict() {
    assert!(fx(1).less_than(fx(2)));
    assert!(!fx(2).less_than(fx(2)));
    assert!(!fx(3).less_than(fx(2)));
    assert!(fx(3).greater_than(fx(2)));
    assert!(!fx(2).greater_than(fx(2)));
    assert!(fx(-5).less_than(Fixed::zero()));
}

#[test]
fn integer_square_root_rounds_down() {
    assert_eq!(integer_sqrt(0), 0u64);
    assert_eq!(integer_sqrt(1), 1u64);
    assert_eq!(integer_sqrt(2), 1u64);
    assert_eq!(integer_sqrt(3), 1u64);
    assert_eq!(integer_sqrt(4), 2u64);
    assert_eq!(integer_sqrt(15), 3u64);
    assert_eq!(integer_sqrt(16), 4u64);
    assert_eq!(integer_sqrt(17), 4u64);
    assert_eq!(integer_sqrt(999_999), 999u64);
    assert_eq!(integer_sqrt(1_000_000), 1_000u64);
}

#[test]
fn integer_square_root_covers_the_whole_range() {
    assert_eq!(integer_sqrt(u128::MAX), u64::MAX);
    assert_eq!(integer_sqrt(1u128 << 126), 1u64 << 63);
    assert_eq!(integer_sqrt((1u128 << 126) - 1), (1u64 << 63) - 1);
    let big: u128 = 12_345_678_901_234_567_890u128;
    assert_eq!(integer_sqrt(big * big), 12_345_678_901_234_567_890u64);
    assert_eq!(integer_sqrt(big * big - 1), 12_345_678_901_234_567_889u64);
    assert_eq!(integer_sqrt(big * big + 2 * big), 12_345_678_901_234_567_890u64);
}
