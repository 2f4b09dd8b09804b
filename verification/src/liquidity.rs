use vstd::prelude::*;

use crate::strategy::TokenSide;
use crate::ticks::{spec_max_tick, spec_min_tick};
use crate::uint256::{u256_max, U256};

verus! {

/// 2^96, the scale of a Q64.96 square-root price.
pub open spec fn q96() -> nat {
    0x1_0000_0000_0000_0000_0000_0000nat
}

/// 2^160: square-root prices are 160-bit numbers.
pub open spec fn pow160() -> nat {
    0x1_0000_0000_0000_0000_0000_0000_0000_0000_0000_0000nat
}

/// The square-root price at a tick as a Q64.96 number, as
/// `uniswap_v3_sdk::utils::get_sqrt_ratio_at_tick` computes it.
pub uninterp spec fn sqrt_ratio_at_tick(tick: int) -> nat;

/// `uniswap_v3_sdk::utils::get_sqrt_ratio_at_tick`: the Q64.96 square-root
/// price at a tick of the pool, a `U160`. It fails only outside the pool's
/// ticks, which `requires` leaves out; nothing is claimed of the price
/// beyond its being determined by the tick and fitting in 160 bits.
#[verifier::external_body]
fn get_sqrt_ratio_at_tick(tick: i32) -> (res: U256)
    requires
        spec_min_tick() <= tick <= spec_max_tick(),
    ensures
        res@ == sqrt_ratio_at_tick(tick as int),
        res@ < pow160(),
{
    let tick = alloy_primitives::aliases::I24::try_from(tick).unwrap();
    let ratio = uniswap_v3_sdk::prelude::get_sqrt_ratio_at_tick(tick).unwrap();
    U256 { limbs: alloy_primitives::U256::from(ratio).into_limbs() }
}

/// The smaller of two prices.
pub open spec fn low_price(a: nat, b: nat) -> nat {
    if a > b {
        b
    } else {
        a
    }
}

/// The larger of two prices.
pub open spec fn high_price(a: nat, b: nat) -> nat {
    if a > b {
        a
    } else {
        b
    }
}

/// The liquidity that `amount0` of token 0 buys between two square-root
/// prices, imprecisely: `amount0 * ((low * high) >> 96) / (high - low)`.
pub open spec fn liquidity_for_amount0(a: nat, b: nat, amount0: nat) -> nat {
    (amount0 * ((low_price(a, b) * high_price(a, b)) / q96()) / (high_price(a, b) - low_price(
        a,
        b,
    )) as nat) as nat
}

/// The liquidity that `amount1` of token 1 buys between two square-root
/// prices: `(amount1 << 96) / (high - low)`.
pub open spec fn liquidity_for_amount1(a: nat, b: nat, amount1: nat) -> nat {
    ((amount1 * q96()) / (high_price(a, b) - low_price(a, b)) as nat) as nat
}

/// A liquidity as a `u128`, or `None` where it does not fit.
pub open spec fn fit_u128(liquidity: nat) -> Option<u128> {
    if liquidity <= u128::MAX {
        Some(liquidity as u128)
    } else {
        None
    }
}

/// `uniswap_v3_sdk::utils::max_liquidity_for_amount0_imprecise`, then
/// `num_traits::ToPrimitive::to_u128` on the result: with the prices
/// sorted, `amount0 * ((low * high) >> 96) / (high - low)` in 512-bit
/// integers, as a `u128` where it fits. For prices below 2^160 no
/// intermediate reaches 2^512 (the product stays below 2^480); larger
/// prices, which the 512-bit arithmetic would overflow, and equal prices,
/// on which the division panics, are left out by `requires`.
#[verifier::external_body]
fn max_liquidity_for_amount0_imprecise(sqrt_a: &U256, sqrt_b: &U256, amount0: &U256) -> (res:
    Option<u128>)
    requires
        sqrt_a@ != sqrt_b@,
        sqrt_a@ < pow160(),
        sqrt_b@ < pow160(),
    ensures
        res == fit_u128(liquidity_for_amount0(sqrt_a@, sqrt_b@, amount0@)),
{
    let liquidity = uniswap_v3_sdk::prelude::max_liquidity_for_amount0_imprecise(
        alloy_primitives::U256::from_limbs(sqrt_a.limbs),
        alloy_primitives::U256::from_limbs(sqrt_b.limbs),
        alloy_primitives::U256::from_limbs(amount0.limbs),
    );
    num_traits::ToPrimitive::to_u128(&liquidity)
}

/// `uniswap_v3_sdk::utils::max_liquidity_for_amount1`, then
/// `num_traits::ToPrimitive::to_u128` on the result: with the prices
/// sorted, `(amount1 << 96) / (high - low)` in 512-bit integers (the
/// shifted amount stays below 2^352), as a `u128` where it fits. Equal
/// prices, on which the division panics, and prices of 2^160 or more, which
/// no pool has, are left out by `requires`.
#[verifier::external_body]
fn max_liquidity_for_amount1(sqrt_a: &U256, sqrt_b: &U256, amount1: &U256) -> (res: Option<u128>)
    requires
        sqrt_a@ != sqrt_b@,
        sqrt_a@ < pow160(),
        sqrt_b@ < pow160(),
    ensures
        res == fit_u128(liquidity_for_amount1(sqrt_a@, sqrt_b@, amount1@)),
{
    let liquidity = uniswap_v3_sdk::prelude::max_liquidity_for_amount1(
        alloy_primitives::U256::from_limbs(sqrt_a.limbs),
        alloy_primitives::U256::from_limbs(sqrt_b.limbs),
        alloy_primitives::U256::from_limbs(amount1.limbs),
    );
    num_traits::ToPrimitive::to_u128(&liquidity)
}

/// The liquidity that the quote amount buys between the pool's price and
/// the upper price, worked out from the side of the quote token.
pub open spec fn spec_quote_liquidity(
    quote: TokenSide,
    sqrt_price: nat,
    sqrt_upper: nat,
    amount: nat,
) -> Option<u128> {
    if sqrt_price == sqrt_upper {
        None
    } else {
        match quote {
            TokenSide::Token0 => fit_u128(liquidity_for_amount0(sqrt_price, sqrt_upper, amount)),
            TokenSide::Token1 => fit_u128(liquidity_for_amount1(sqrt_price, sqrt_upper, amount)),
        }
    }
}

/// The liquidity that the quote amount buys is the largest whole liquidity
/// that the amount pays for over the gap between the two prices: with `d`
/// the gap, `x` is `amount * 2^96` for a token-1 quote and `amount` times
/// the product of the two prices (over 2^96, rounded down) for a token-0
/// quote, and the liquidity `l` has `l * d <= x < (l + 1) * d`, whichever
/// of the two prices is the higher. It is `None` for equal prices and where
/// that liquidity reaches 2^128.
pub proof fn quote_liquidity_is_floor(quote: TokenSide, sqrt_price: nat, sqrt_upper: nat, amount: nat)
    ensures
        sqrt_price == sqrt_upper ==> spec_quote_liquidity(quote, sqrt_price, sqrt_upper, amount) is None,
        sqrt_price != sqrt_upper ==> ({
            let d: int = if sqrt_price > sqrt_upper {
                sqrt_price - sqrt_upper
            } else {
                sqrt_upper - sqrt_price
            };
            let x: int = match quote {
                TokenSide::Token0 => (amount * ((sqrt_price * sqrt_upper) / 0x1_0000_0000_0000_0000_0000_0000nat)) as int,
                TokenSide::Token1 => (amount * 0x1_0000_0000_0000_0000_0000_0000nat) as int,
            };
            match spec_quote_liquidity(quote, sqrt_price, sqrt_upper, amount) {
                Some(l) => l * d <= x < (l + 1) * d,
                None => 0x1_0000_0000_0000_0000_0000_0000_0000_0000nat * d <= x,
            }
        }),
{
    if sqrt_price != sqrt_upper {
        let lo = low_price(sqrt_price, sqrt_upper);
        let hi = high_price(sqrt_price, sqrt_upper);
        let d: int = hi - lo;
        assert(lo * hi == sqrt_price * sqrt_upper) by (nonlinear_arith)
            requires
                (lo == sqrt_price && hi == sqrt_upper) || (lo == sqrt_upper && hi == sqrt_price),
        ;
        let x: int = match quote {
            TokenSide::Token0 => (amount * ((sqrt_price * sqrt_upper) / 0x1_0000_0000_0000_0000_0000_0000nat)) as int,
            TokenSide::Token1 => (amount * 0x1_0000_0000_0000_0000_0000_0000nat) as int,
        };
        assert(x >= 0) by (nonlinear_arith)
            requires
                x == amount * ((sqrt_price * sqrt_upper) / 0x1_0000_0000_0000_0000_0000_0000nat) || x
                    == amount * 0x1_0000_0000_0000_0000_0000_0000nat,
        ;
        let l = x / d;
        vstd::arithmetic::div_mod::lemma_fundamental_div_mod(x, d);
        assert(l * d <= x < (l + 1) * d) by (nonlinear_arith)
            requires
                x == d * l + x % d,
                0 <= x % d < d,
        ;
        match quote {
            TokenSide::Token0 => assert(liquidity_for_amount0(sqrt_price, sqrt_upper, amount) == l),
            TokenSide::Token1 => assert(liquidity_for_amount1(sqrt_price, sqrt_upper, amount) == l),
        }
        if l > u128::MAX {
            assert(0x1_0000_0000_0000_0000_0000_0000_0000_0000nat * d <= l * d) by (nonlinear_arith)
                requires
                    l >= 0x1_0000_0000_0000_0000_0000_0000_0000_0000nat,
                    d > 0,
            ;
        }
    }
}

/// The liquidity of a new position that the quote amount buys between the
/// pool's square-root price and the square-root price at the upper end:
/// from the token-0 amount where token 0 is the quote token, else from the
/// token-1 amount. `None` where the two prices are equal or the liquidity
/// does not fit in a `u128`. Both prices are 160-bit, as pool prices are.
pub fn liquidity_for_quote(quote: TokenSide, sqrt_price_x96: &U256, sqrt_upper_x96: &U256, amount: &U256) -> (res: Option<u128>)
    requires
        sqrt_price_x96@ < pow160(),
        sqrt_upper_x96@ < pow160(),
    ensures
        res == spec_quote_liquidity(quote, sqrt_price_x96@, sqrt_upper_x96@, amount@),
{
    if sqrt_price_x96.equals(sqrt_upper_x96) {
        return None;
    }
    match quote {
        TokenSide::Token0 => max_liquidity_for_amount0_imprecise(sqrt_price_x96, sqrt_upper_x96, amount),
        TokenSide::Token1 => max_liquidity_for_amount1(sqrt_price_x96, sqrt_upper_x96, amount),
    }
}

/// The liquidity of a new position whose upper end is `upper_tick`: the
/// quote amount's liquidity between the pool's price and the price at that
/// tick.
pub fn quote_liquidity_at_tick(quote: TokenSide, sqrt_price_x96: &U256, upper_tick: i32, amount: &U256) -> (res: Option<u128>)
    requires
        spec_min_tick() <= upper_tick <= spec_max_tick(),
        sqrt_price_x96@ < pow160(),
    ensures
        res == spec_quote_liquidity(quote, sqrt_price_x96@, sqrt_ratio_at_tick(upper_tick as int), amount@),
{
    let sqrt_ratio_upper = get_sqrt_ratio_at_tick(upper_tick);
    liquidity_for_quote(quote, sqrt_price_x96, &sqrt_ratio_upper, amount)
}

/// Every character of `text` is a decimal digit or an underscore.
pub open spec fn is_decimal_text(text: Seq<char>) -> bool {
    forall|i: int| 0 <= i < text.len() ==> ('0' <= #[trigger] text[i] <= '9' || text[i] == '_')
}

/// The number that the decimal digits of `text` spell, underscores skipped.
pub open spec fn decimal_value(text: Seq<char>) -> nat
    decreases text.len(),
{
    if text.len() == 0 {
        0
    } else if text.last() == '_' {
        decimal_value(text.drop_last())
    } else {
        (decimal_value(text.drop_last()) * 10 + (text.last() as nat - '0' as nat)) as nat
    }
}

/// The value of an optional amount.
pub open spec fn amount_of(x: Option<U256>) -> Option<nat> {
    match x {
        Some(v) => Some(v@),
        None => None,
    }
}

/// The amount that `text` spells in decimal, where it is all digits and
/// underscores and the amount fits in 256 bits.
pub open spec fn parsed_decimal(text: Seq<char>) -> Option<nat> {
    if is_decimal_text(text) && decimal_value(text) <= u256_max() {
        Some(decimal_value(text))
    } else {
        None
    }
}

/// Reading decimal text goes digit by digit: the empty text is 0, an
/// underscore changes nothing, and each further digit multiplies what was
/// read by ten and adds itself. The amount is read only from text of
/// digits and underscores, and only up to 2^256 - 1.
pub proof fn decimal_reading_is_positional(text: Seq<char>, c: char)
    ensures
        decimal_value(Seq::<char>::empty()) == 0,
        decimal_value(text.push('_')) == decimal_value(text),
        '0' <= c <= '9' ==> decimal_value(text.push(c)) == 10 * decimal_value(text) + (c as nat
            - '0' as nat),
        !('0' <= c <= '9' || c == '_') ==> parsed_decimal(text.push(c)) is None,
        parsed_decimal(text) matches Some(v) ==> v == decimal_value(text) && v <= u256_max(),
        is_decimal_text(text) && decimal_value(text) <= u256_max() ==> parsed_decimal(text) is Some,
{
    assert(text.push('_').drop_last() =~= text);
    assert(text.push(c).drop_last() =~= text);
    if !('0' <= c <= '9' || c == '_') {
        assert(text.push(c)[text.len() as int] == c);
        assert(!is_decimal_text(text.push(c)));
    }
}

/// `alloy_primitives::U256::from_str_radix(text, 10)`: the value of the
/// decimal digits of `text`, underscores skipped; it fails on any other
/// character and where the value exceeds 2^256 - 1.
#[verifier::external_body]
fn u256_from_decimal_str(text: &str) -> (res: Option<U256>)
    ensures
        amount_of(res) == parsed_decimal(text@),
{
    match alloy_primitives::U256::from_str_radix(text, 10) {
        Ok(v) => Some(U256 { limbs: v.into_limbs() }),
        Err(_) => None,
    }
}

/// Reads the quote deposit, written in the token's base units as a decimal
/// string, as a 256-bit amount: `None` where the text holds anything but
/// digits and underscores or the amount exceeds 2^256 - 1.
pub fn parse_quote_amount(text: &str) -> (res: Option<U256>)
    ensures
        amount_of(res) == parsed_decimal(text@),
{
    u256_from_decimal_str(text)
}

} // verus!
