use lp_bot::uint256::U256;
use lp_bot::wide::Wide;

#[test]
fn wide_product_of_largest_values() {
    // (2^256 - 1)^2 = 2^512 - 2^257 + 1
    let max = U256::max_value();
    let p = Wide::product(&max, &max);
    assert_eq!(p.limbs, [1, 0, 0, 0, u64::MAX - 1, u64::MAX, u64::MAX, u64::MAX]);
}

#[test]
fn wide_product_small() {
    let p = Wide::product(&U256::from_u64(6), &U256::from_limbs([0, 7, 0, 0]));
    assert_eq!(p.limbs, [0, 42, 0, 0, 0, 0, 0, 0]);
}

#[test]
fn wide_times_pow10() {
    let x = Wide { limbs: [12, 0, 0, 0, 0, 0, 0, 0] };
    assert_eq!(x.times_pow10(3).unwrap().limbs, [12_000, 0, 0, 0, 0, 0, 0, 0]);
    assert_eq!(x.times_pow10(0).unwrap().limbs, x.limbs);
    assert!(x.times_pow10(200).is_none());
}

#[test]
fn wide_mul_shift_add_and_compare() {
    let top = Wide { limbs: [0, 0, 0, 0, 0, 0, 0, 1 << 63] };
    assert!(top.mul_small(2).is_none());
    assert!(top.shift_limb().is_none());
    assert!(top.checked_add(&top).is_none());
    assert!(!top.below_pow511());
    let one = Wide { limbs: [1, 0, 0, 0, 0, 0, 0, 0] };
    let low_max = Wide { limbs: [u64::MAX, 0, 0, 0, 0, 0, 0, 0] };
    assert_eq!(one.shift_limb().unwrap().limbs, [0, 1, 0, 0, 0, 0, 0, 0]);
    assert_eq!(low_max.checked_add(&one).unwrap().limbs, [0, 1, 0, 0, 0, 0, 0, 0]);
    assert_eq!(low_max.mul_small(u64::MAX).unwrap().limbs, [1, u64::MAX - 1, 0, 0, 0, 0, 0, 0]);
    assert!(one.below_pow511());
    assert_eq!(Wide::from_u256(&U256::from_limbs([1, 2, 3, 4])).limbs, [1, 2, 3, 4, 0, 0, 0, 0]);
}
