use lp_bot::uint256::{convert_to_ethers_u256, U256};

fn limbs(x: &U256) -> [u64; 4] {
    x.limbs
}

#[test]
fn u256_constructors() {
    assert_eq!(limbs(&U256::zero()), [0, 0, 0, 0]);
    assert_eq!(limbs(&U256::max_value()), [u64::MAX; 4]);
    assert_eq!(limbs(&U256::from_u64(7)), [7, 0, 0, 0]);
    assert_eq!(limbs(&U256::from_u128((5u128 << 64) | 9)), [9, 5, 0, 0]);
    assert!(U256::zero().is_zero());
    assert!(!U256::from_u64(1).is_zero());
}

#[test]
fn u256_comparisons() {
    let small = U256::from_limbs([u64::MAX, 0, 0, 1]);
    let big = U256::from_limbs([0, 0, 0, 2]);
    assert!(small.lt(&big));
    assert!(!big.lt(&small));
    assert!(small.le(&small));
    assert!(!small.lt(&small));
    assert!(small.equals(&U256::from_limbs([u64::MAX, 0, 0, 1])));
    assert!(!small.equals(&big));
}

#[test]
fn u256_add_carries_and_overflows() {
    let a = U256::from_limbs([u64::MAX, u64::MAX, 0, 0]);
    let s = a.checked_add(&U256::from_u64(1)).unwrap();
    assert_eq!(limbs(&s), [0, 0, 1, 0]);
    assert!(U256::max_value().checked_add(&U256::from_u64(1)).is_none());
    assert_eq!(limbs(&U256::max_value().checked_add(&U256::zero()).unwrap()), [u64::MAX; 4]);
}

#[test]
fn u256_sub_borrows() {
    let a = U256::from_limbs([0, 0, 1, 0]);
    let d = a.sub(&U256::from_u64(1));
    assert_eq!(limbs(&d), [u64::MAX, u64::MAX, 0, 0]);
    assert_eq!(limbs(&a.sub(&a)), [0, 0, 0, 0]);
}

#[test]
fn u256_tenth_rounds_down() {
    assert_eq!(limbs(&U256::from_u64(105).tenth()), [10, 0, 0, 0]);
    assert_eq!(limbs(&U256::from_u64(9).tenth()), [0, 0, 0, 0]);
    // 2^64 / 10 = 1844674407370955161
    assert_eq!(limbs(&U256::from_limbs([0, 1, 0, 0]).tenth()), [1844674407370955161, 0, 0, 0]);
    let max_tenth = U256::max_value().tenth();
    // (2^256 - 1) / 10 = 0x1999...9 in every limb
    assert_eq!(limbs(&max_tenth), [0x9999999999999999, 0x9999999999999999, 0x9999999999999999, 0x1999999999999999]);
}

#[test]
fn u256_complement_flips_bits() {
    assert_eq!(limbs(&U256::zero().complement()), [u64::MAX; 4]);
    assert_eq!(limbs(&U256::from_u64(5).complement()), [u64::MAX - 5, u64::MAX, u64::MAX, u64::MAX]);
    let x = U256::from_limbs([1, 2, 3, 4]);
    assert_eq!(limbs(&x.complement().complement()), [1, 2, 3, 4]);
}

#[test]
fn u256_byte_reads() {
    let mut bytes = [0u8; 32];
    bytes[0] = 0xab;
    bytes[31] = 0xcd;
    assert_eq!(limbs(&U256::from_be_bytes(&bytes)), [0xcd, 0, 0, 0xab00_0000_0000_0000]);
    assert_eq!(limbs(&U256::from_le_bytes(&bytes)), [0xab, 0, 0, 0xcd00_0000_0000_0000]);
}

#[test]
fn u256_little_endian_bytes() {
    let b = U256::from_limbs([0x0102, 0, 0, 0xff00_0000_0000_0000]).to_le_bytes();
    assert_eq!(b[0], 0x02);
    assert_eq!(b[1], 0x01);
    assert_eq!(b[31], 0xff);
    assert_eq!(b[30], 0x00);
}

#[test]
fn u256_as_usize() {
    assert_eq!(U256::from_u64(4242).as_usize(), 4242usize);
}

#[test]
fn convert_to_ethers_u256_keeps_the_value() {
    assert_eq!(limbs(&convert_to_ethers_u256(U256::from_u64(1))), [1, 0, 0, 0]);
    let x = U256::from_limbs([0x1122334455667788, 0x99aabbccddeeff00, 42, 7]);
    assert_eq!(limbs(&convert_to_ethers_u256(x)), limbs(&x));
    assert_eq!(limbs(&convert_to_ethers_u256(U256::max_value())), [u64::MAX; 4]);
    assert_eq!(limbs(&convert_to_ethers_u256(U256::zero())), [0, 0, 0, 0]);
}
