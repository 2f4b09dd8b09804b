use lp_bot::pricing::{
    expected_owed_on_removal, mint_amounts, non_quote_purchase, quote_size_in_weth, weth_quote_fraction,
};
use lp_bot::strategy::{Address, TokenSide};
use lp_bot::ticks::FeeTier;
use lp_bot::uint256::U256;

fn q96() -> U256 {
    U256::from_limbs([0, 1 << 32, 0, 0])
}

fn addr(b: u8) -> Address {
    Address { bytes: [b; 20] }
}

#[test]
fn weth_size_at_price_one() {
    // price 1 raw unit per raw unit: 250 dollars are 250_000_000 raw units of
    // token 1, quoted back as 250_000_000 raw units of token 0 (six
    // decimals), that is "250", read as 250 * 10^18.
    let wei = quote_size_in_weth(&q96(), &addr(1), 6, &addr(2), 250).unwrap();
    let expected = U256::from_u128(250u128 * 1_000_000_000_000_000_000u128);
    assert_eq!(wei.limbs, expected.limbs);
}

#[test]
fn weth_size_at_price_four() {
    // sqrt price 2: token 1 per token 0 is 4, so 100 dollars (10^8 raw of
    // token 1) quote 25 * 10^6 raw of token 0, "25" with six decimals.
    let two_q96 = U256::from_limbs([0, 1 << 33, 0, 0]);
    let wei = quote_size_in_weth(&two_q96, &addr(1), 6, &addr(2), 100).unwrap();
    let expected = U256::from_u128(25u128 * 1_000_000_000_000_000_000u128);
    assert_eq!(wei.limbs, expected.limbs);
}

#[test]
fn weth_size_when_token0_sorts_second() {
    // token 0 sorts after token 1, so the pool price is 2^192 / sqrt^2 =
    // 1/4, its inverse 4: 100 dollars quote 4 * 10^8 raw, "400".
    let two_q96 = U256::from_limbs([0, 1 << 33, 0, 0]);
    let wei = quote_size_in_weth(&two_q96, &addr(2), 6, &addr(1), 100).unwrap();
    let expected = U256::from_u128(400u128 * 1_000_000_000_000_000_000u128);
    assert_eq!(wei.limbs, expected.limbs);
}

#[test]
fn weth_size_below_one_token() {
    // one dollar at price 4: 10^6 / 4 raw of token 0, "0.25" whole tokens.
    let two_q96 = U256::from_limbs([0, 1 << 33, 0, 0]);
    let wei = quote_size_in_weth(&two_q96, &addr(1), 6, &addr(2), 1).unwrap();
    assert_eq!(wei.limbs, U256::from_u128(250_000_000_000_000_000u128).limbs);
}

#[test]
fn weth_size_rounds_to_eighteen_digits() {
    // price 4 with sqrt 2 * 2^96 and token 0 of 0 decimals: 3 dollars are
    // 3 * 10^6 / 4 = 750000 whole tokens, exact.
    let two_q96 = U256::from_limbs([0, 1 << 33, 0, 0]);
    let wei = quote_size_in_weth(&two_q96, &addr(1), 0, &addr(2), 3).unwrap();
    assert_eq!(wei.limbs, U256::from_u128(750_000u128 * 1_000_000_000_000_000_000u128).limbs);
}

#[test]
fn weth_size_is_none_where_the_fraction_overflows() {
    assert!(quote_size_in_weth(&q96(), &addr(1), 255, &addr(2), 250).is_none());
    assert!(weth_quote_fraction(&q96(), true, 255, 250_000_000).is_none());
}

#[test]
fn weth_quote_fraction_values() {
    // sorted: (2^192 * units, sqrt^2 * 10^decimals)
    let (num, den) = weth_quote_fraction(&q96(), true, 6, 7).unwrap();
    assert_eq!(num.limbs, [0, 0, 0, 7, 0, 0, 0, 0]);
    assert_eq!(den.limbs, [0, 0, 0, 1_000_000, 0, 0, 0, 0]);
    // not sorted: (sqrt^2 * units, 2^192 * 10^decimals)
    let two_q96 = U256::from_limbs([0, 1 << 33, 0, 0]);
    let (num, den) = weth_quote_fraction(&two_q96, false, 2, 5).unwrap();
    assert_eq!(num.limbs, [0, 0, 0, 20, 0, 0, 0, 0]);
    assert_eq!(den.limbs, [0, 0, 0, 100, 0, 0, 0, 0]);
}

#[test]
fn mint_amounts_above_the_price_take_only_token0() {
    let (a0, a1) = mint_amounts(&q96(), 1, &addr(1), 18, &addr(2), 18, FeeTier::Medium, 0, 60, 120, 1_000_000_000_000)
        .unwrap();
    assert!(!a0.is_zero());
    assert!(a1.is_zero());
}

#[test]
fn mint_amounts_below_the_price_take_only_token1() {
    let (a0, a1) = mint_amounts(&q96(), 1, &addr(1), 18, &addr(2), 18, FeeTier::Medium, 0, -120, -60, 1_000_000_000_000)
        .unwrap();
    assert!(a0.is_zero());
    assert!(!a1.is_zero());
}

#[test]
fn mint_amounts_around_the_price_take_both() {
    let (a0, a1) = mint_amounts(&q96(), 1, &addr(1), 18, &addr(2), 18, FeeTier::Medium, 0, -60, 60, 1_000_000_000_000)
        .unwrap();
    assert!(!a0.is_zero());
    assert!(!a1.is_zero());
}

#[test]
fn owed_on_removal_above_the_price() {
    // a position above the price holds only token 0: burning gives some of
    // it back, so less than all of it is owed, and none of token 1 is burnt.
    let (owed0, owed1) = expected_owed_on_removal(
        &q96(), 1, &addr(1), 18, &addr(2), 18, FeeTier::Medium, 0, 60, 120, 1_000_000_000_000,
    )
    .unwrap();
    assert!(owed0.lt(&U256::max_value()));
    assert_eq!(owed1.limbs, U256::max_value().limbs);
    let (mint0, _) = mint_amounts(&q96(), 1, &addr(1), 18, &addr(2), 18, FeeTier::Medium, 0, 60, 120, 1_000_000_000_000)
        .unwrap();
    // what burning gives back at 1% slippage is no more than minting took
    assert!(U256::max_value().sub(&owed0).le(&mint0));
}

#[test]
fn owed_on_removal_below_the_price() {
    let (owed0, owed1) = expected_owed_on_removal(
        &q96(), 1, &addr(1), 18, &addr(2), 18, FeeTier::Medium, 0, -120, -60, 1_000_000_000_000,
    )
    .unwrap();
    assert_eq!(owed0.limbs, U256::max_value().limbs);
    assert!(owed1.lt(&U256::max_value()));
}

#[test]
fn non_quote_purchase_picks_the_other_token() {
    let mint = (U256::from_u64(100), U256::from_u64(7));
    let buy = non_quote_purchase(TokenSide::Token0, &mint, &U256::from_u64(2)).unwrap();
    assert_eq!(buy.limbs, [5, 0, 0, 0]);
    let buy = non_quote_purchase(TokenSide::Token1, &mint, &U256::from_u64(40)).unwrap();
    assert_eq!(buy.limbs, [60, 0, 0, 0]);
    assert!(non_quote_purchase(TokenSide::Token1, &mint, &U256::from_u64(101)).is_none());
}

#[test]
fn sizing_prices_back_to_units() {
    // sqrt price 2 * 2^96, token 0 first: the pool price of token 0 is
    // 4 * 2^192 / 2^192. The fraction times 10^6 times that price gives
    // back the 10^8 units.
    let two_q96 = U256::from_limbs([0, 1 << 33, 0, 0]);
    let units: u128 = 100_000_000;
    let (num, den) = weth_quote_fraction(&two_q96, true, 6, units as u32).unwrap();
    assert_eq!(num.limbs[..3], [0, 0, 0]);
    assert_eq!(den.limbs[..3], [0, 0, 0]);
    // both parts sit in limb 3 (a factor 2^192), and so does the price
    // (4 * 2^192) / 2^192; with 2^384 divided out of both sides:
    let lhs = num.limbs[3] as u128 * 1_000_000 * 4;
    let rhs = units * den.limbs[3] as u128;
    assert_eq!(lhs, rhs);
}
