use lp_bot::liquidity::{liquidity_for_quote, parse_quote_amount, quote_liquidity_at_tick};
use lp_bot::strategy::TokenSide;
use lp_bot::uint256::U256;

fn q96_times(k: u64) -> U256 {
    // 2^96 * k, for small k
    let low = (k as u128) << 32;
    U256::from_limbs([0, low as u64, (low >> 64) as u64, 0])
}

#[test]
fn liquidity_from_token1_amount() {
    // (1000 << 96) / (2^97 - 2^96) = 1000
    let l = liquidity_for_quote(TokenSide::Token1, &q96_times(2), &q96_times(1), &U256::from_u64(1000));
    assert_eq!(l, Some(1000));
}

#[test]
fn liquidity_from_token0_amount() {
    // 1000 * ((2^97 * 2^96) >> 96) / 2^96 = 2000
    let l = liquidity_for_quote(TokenSide::Token0, &q96_times(1), &q96_times(2), &U256::from_u64(1000));
    assert_eq!(l, Some(2000));
}

#[test]
fn liquidity_with_equal_prices_is_none() {
    assert_eq!(liquidity_for_quote(TokenSide::Token0, &q96_times(3), &q96_times(3), &U256::from_u64(1)), None);
}

#[test]
fn liquidity_too_large_for_u128_is_none() {
    let amount = U256::from_limbs([0, 0, 1, 0]);
    assert_eq!(liquidity_for_quote(TokenSide::Token1, &q96_times(2), &q96_times(1), &amount), None);
}

#[test]
fn liquidity_at_tick_zero_uses_price_one() {
    // the square-root price at tick 0 is 2^96
    let l = quote_liquidity_at_tick(TokenSide::Token1, &q96_times(2), 0, &U256::from_u64(1000));
    assert_eq!(l, Some(1000));
    let l = quote_liquidity_at_tick(TokenSide::Token0, &q96_times(2), 0, &U256::from_u64(1000));
    assert_eq!(l, Some(2000));
}

#[test]
fn liquidity_at_tick_away_from_zero() {
    let at_zero = quote_liquidity_at_tick(TokenSide::Token1, &q96_times(2), 0, &U256::from_u64(1_000_000)).unwrap();
    let at_one = quote_liquidity_at_tick(TokenSide::Token1, &q96_times(2), 1, &U256::from_u64(1_000_000)).unwrap();
    assert!(at_one > at_zero);
}

#[test]
fn parse_quote_amount_reads_decimal() {
    assert_eq!(parse_quote_amount("250000000").unwrap().limbs, [250_000_000, 0, 0, 0]);
    assert_eq!(parse_quote_amount("1_000").unwrap().limbs, [1000, 0, 0, 0]);
    assert_eq!(parse_quote_amount("18446744073709551616").unwrap().limbs, [0, 1, 0, 0]);
    assert_eq!(parse_quote_amount("").unwrap().limbs, [0, 0, 0, 0]);
}

#[test]
fn parse_quote_amount_rejects() {
    assert!(parse_quote_amount("12.5").is_none());
    assert!(parse_quote_amount("-1").is_none());
    assert!(parse_quote_amount("1a").is_none());
    assert!(parse_quote_amount(
        "115792089237316195423570985008687907853269984665640564039457584007913129639936"
    )
    .is_none());
    assert!(parse_quote_amount(
        "115792089237316195423570985008687907853269984665640564039457584007913129639935"
    )
    .is_some());
}
