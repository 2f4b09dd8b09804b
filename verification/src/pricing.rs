use vstd::prelude::*;

use alloy_primitives::{aliases::U160, Address as AlloyAddress};
use uniswap_sdk_core::prelude::{BigInt, Fraction, FractionBase, Percent, Token};
use uniswap_v3_sdk::prelude::{FeeAmount, Pool, Position};

use crate::liquidity::{amount_of, pow160};
use crate::strategy::{
    amount_to_buy, bytes_before, expected_currency_owed, spec_amount_to_buy, Address, TokenSide,
};
use crate::ticks::{fee_tier_of, spec_max_tick, spec_min_tick, FeeTier};
use crate::uint256::{pow192, u256_max, U256};
use crate::wide::{lemma_pow10_grows, pow10, pow511, Wide};

verus! {

/// How a decimal is rounded at its last kept digit.
#[derive(Clone, Copy, Debug)]
pub enum Rounding {
    /// Toward zero.
    Down,
    /// To the nearest, halves away from zero.
    HalfUp,
    /// Away from zero.
    Up,
}

/// The digits a WETH size is written with before it is read back in wei.
pub const SIGNIFICANT_DIGITS: u8 = 18;

/// The decimals of WETH: one WETH is 10^18 wei.
pub const WETH_DECIMALS: u8 = 18;

/// The text that `Fraction::to_significant` of `uniswap_sdk_core` writes
/// for the fraction `num / den` with `digits` significant digits and the
/// given rounding; `None` where it fails.
pub uninterp spec fn significant_text(num: nat, den: nat, digits: nat, rounding: Rounding) -> Option<
    Seq<char>,
>;

/// The integer that `alloy_primitives::utils::parse_units` reads from
/// `text` at `decimals` decimals (its absolute value); `None` where it
/// fails.
pub uninterp spec fn decimal_units(text: Seq<char>, decimals: nat) -> Option<nat>;

/// An optional text as characters.
pub open spec fn text_of(x: Option<String>) -> Option<Seq<char>> {
    match x {
        Some(t) => Some(t@),
        None => None,
    }
}

/// `Fraction::new(num, den).to_significant(digits, Some(rounding))` of
/// `uniswap_sdk_core`, the two numbers handed over as signed 512-bit
/// integers. The text is named, not stated: a function of these
/// arguments alone. `Fraction::new` panics on a zero denominator, and the
/// two numbers must stay positive as signed 512-bit values; `requires`
/// leaves both out.
#[verifier::external_body]
fn fraction_to_significant(num: &Wide, den: &Wide, digits: u8, rounding: Rounding) -> (res: Option<
    String,
>)
    requires
        num@ < pow511(),
        0 < den@ < pow511(),
    ensures
        text_of(res) == significant_text(num@, den@, digits as nat, rounding),
{
    let mode = match rounding {
        Rounding::Down => uniswap_sdk_core::prelude::Rounding::RoundDown,
        Rounding::HalfUp => uniswap_sdk_core::prelude::Rounding::RoundHalfUp,
        Rounding::Up => uniswap_sdk_core::prelude::Rounding::RoundUp,
    };
    let fraction = Fraction::new(BigInt::from_digits(num.limbs), BigInt::from_digits(den.limbs));
    fraction.to_significant(digits, Some(mode)).ok()
}

/// `alloy_primitives::utils::parse_units(text, decimals)`, taken by its
/// absolute value. The result is named, not stated: a function of these
/// arguments alone. It cuts the text at byte offsets, which can fall
/// inside a character of more than one byte; `requires` keeps to ASCII.
#[verifier::external_body]
fn parse_units(text: &str, decimals: u8) -> (res: Option<U256>)
    requires
        text.is_ascii(),
    ensures
        amount_of(res) == decimal_units(text@, decimals as nat),
{
    let parsed = alloy_primitives::utils::parse_units(text, decimals).ok()?;
    Some(U256 { limbs: parsed.get_absolute().into_limbs() })
}

/// The pool's price of token 0 in token 1 as a fraction (numerator,
/// denominator) of its Q64.96 square-root price: the square over 2^192
/// where token 0 sorts first, its inverse otherwise.
pub open spec fn spec_pool_price(sqrt_ratio_x96: nat, token0_first: bool) -> (nat, nat) {
    if token0_first {
        (sqrt_ratio_x96 * sqrt_ratio_x96, pow192())
    } else {
        (pow192(), sqrt_ratio_x96 * sqrt_ratio_x96)
    }
}

/// The inverse of a price.
pub open spec fn spec_invert(price: (nat, nat)) -> (nat, nat) {
    (price.1, price.0)
}

/// What `units` base units of a price's base token come to in its quote
/// token.
pub open spec fn spec_quote(price: (nat, nat), units: nat) -> (nat, nat) {
    (price.0 * units, price.1)
}

/// A number of base units as a fraction of whole tokens of `decimals`.
pub open spec fn spec_in_whole_tokens(amount: (nat, nat), decimals: nat) -> (nat, nat) {
    (amount.0, amount.1 * pow10(decimals))
}

/// The WETH sizing fraction: `units` of token 1 quoted through the
/// inverse of the pool's price of token 0 in token 1, in whole tokens 0.
pub open spec fn spec_weth_quote_fraction(
    sqrt_ratio_x96: nat,
    token0_first: bool,
    token0_decimals: nat,
    units: nat,
) -> (nat, nat) {
    spec_in_whole_tokens(
        spec_quote(spec_invert(spec_pool_price(sqrt_ratio_x96, token0_first)), units),
        token0_decimals,
    )
}

/// The WETH size is what the dollars buy at the pool's price: the sizing
/// fraction, taken back to base units of token 0 and priced in token 1 at
/// the pool's price of token 0, comes to the `units` of token 1 again.
pub proof fn weth_quote_prices_back_to_units(
    sqrt_ratio_x96: nat,
    token0_first: bool,
    token0_decimals: nat,
    units: nat,
)
    ensures
        ({
            let f = spec_weth_quote_fraction(sqrt_ratio_x96, token0_first, token0_decimals, units);
            let p = spec_pool_price(sqrt_ratio_x96, token0_first);
            f.0 * pow10(token0_decimals) * p.0 == units * (f.1 * p.1)
        }),
{
    let p = spec_pool_price(sqrt_ratio_x96, token0_first);
    let t = pow10(token0_decimals);
    assert(p.1 * units * t * p.0 == units * (p.0 * t * p.1)) by (nonlinear_arith);
}

/// The WETH sizing fraction is the dollars' `units` of token 1 divided by
/// the pool's price of token 0 in token 1, counted in whole tokens 0. That
/// price is `s^2 / 2^192` where token 0 sorts first and `2^192 / s^2`
/// otherwise, whatever the size of `s`: the fraction times `10^decimals`
/// times the price gives the units back, with the parts exactly
/// `(2^192 * units, s^2 * 10^decimals)` and `(s^2 * units, 2^192 * 10^decimals)`.
pub proof fn weth_fraction_is_units_over_price(sqrt_ratio_x96: nat, token0_decimals: nat, units: nat)
    ensures
        ({
            let s = sqrt_ratio_x96;
            let f = spec_weth_quote_fraction(s, true, token0_decimals, units);
            &&& f.0 == 0x1_0000_0000_0000_0000_0000_0000_0000_0000_0000_0000_0000_0000nat * units
            &&& f.1 == s * s * pow10(token0_decimals)
            &&& f.0 * (s * s) * pow10(token0_decimals) == units
                * 0x1_0000_0000_0000_0000_0000_0000_0000_0000_0000_0000_0000_0000nat * f.1
        }),
        ({
            let s = sqrt_ratio_x96;
            let f = spec_weth_quote_fraction(s, false, token0_decimals, units);
            &&& f.0 == s * s * units
            &&& f.1 == 0x1_0000_0000_0000_0000_0000_0000_0000_0000_0000_0000_0000_0000nat * pow10(
                token0_decimals,
            )
            &&& f.0 * 0x1_0000_0000_0000_0000_0000_0000_0000_0000_0000_0000_0000_0000nat * pow10(
                token0_decimals,
            ) == units * (s * s) * f.1
        }),
{
    let s = sqrt_ratio_x96;
    let t = pow10(token0_decimals);
    let q = 0x1_0000_0000_0000_0000_0000_0000_0000_0000_0000_0000_0000_0000nat;
    assert(pow192() == q);
    assert(q * units == units * q) by (nonlinear_arith);
    assert(q * units * (s * s) * t == units * q * (s * s * t)) by (nonlinear_arith);
    assert(s * s * units * q * t == units * (s * s) * (q * t)) by (nonlinear_arith);
}

/// Whether both parts of a fraction are positive signed 512-bit numbers.
pub open spec fn fraction_fits(f: (nat, nat)) -> bool {
    f.0 < pow511() && f.1 < pow511()
}

/// The WETH sizing fraction, where both its parts fit 511 bits.
pub fn weth_quote_fraction(sqrt_ratio_x96: &U256, token0_first: bool, token0_decimals: u8, units: u32) -> (res:
    Option<(Wide, Wide)>)
    requires
        0 < sqrt_ratio_x96@ < pow160(),
    ensures
        res is Some <==> fraction_fits(
            spec_weth_quote_fraction(sqrt_ratio_x96@, token0_first, token0_decimals as nat, units as nat),
        ),
        res matches Some(f) ==> (f.0@, f.1@) == spec_weth_quote_fraction(
            sqrt_ratio_x96@,
            token0_first,
            token0_decimals as nat,
            units as nat,
        ),
        res matches Some(f) ==> f.1@ >= 1,
{
    let ghost s: nat = sqrt_ratio_x96@;
    let q192 = U256::from_limbs([0, 0, 0, 1]);
    let square = Wide::product(sqrt_ratio_x96, sqrt_ratio_x96);
    proof {
        assert(s * s < pow160() * pow160()) by (nonlinear_arith)
            requires
                s < pow160(),
        ;
        assert(s * s * units < pow160() * pow160() * 0x1_0000_0000nat) by (nonlinear_arith)
            requires
                s * s < pow160() * pow160(),
                units < 0x1_0000_0000nat,
        ;
        assert(s * s >= 1) by (nonlinear_arith)
            requires
                s >= 1,
        ;
    }
    let (num, per_unit_den) = if token0_first {
        (Wide::product(&q192, &U256::from_u64(units as u64)), square)
    } else {
        (square.mul_small(units as u64).unwrap(), Wide::product(&q192, &U256::from_u64(1)))
    };
    assert(pow160() * pow160() * 0x1_0000_0000nat < pow511());
    assert(q192@ == pow192());
    assert(per_unit_den@ >= 1);
    assert(num@ < pow511());
    let den = match per_unit_den.times_pow10(token0_decimals) {
        Some(d) => d,
        None => {
            return None;
        },
    };
    proof {
        lemma_pow10_grows(0, token0_decimals as nat);
        assert(den@ >= 1) by (nonlinear_arith)
            requires
                den@ == per_unit_den@ * pow10(token0_decimals as nat),
                per_unit_den@ >= 1,
                pow10(token0_decimals as nat) >= 1,
        ;
    }
    if den.below_pow511() {
        Some((num, den))
    } else {
        None
    }
}

/// The WETH amount, in wei, worth `whole_usd` dollars at the price of the
/// WETH/USDC pool with tokens `token0` and `token1`: the dollars in USDC
/// base units (six decimals), quoted through the inverse of the pool's
/// price in whole tokens 0, written with 18 significant digits (halves
/// rounded up) and read back at 18 decimals. `None` where the fraction
/// does not fit 511 bits or a step of the writing or reading fails.
pub open spec fn spec_weth_size(
    sqrt_ratio_x96: nat,
    token0: Seq<u8>,
    token0_decimals: nat,
    token1: Seq<u8>,
    units: nat,
) -> Option<nat> {
    let f = spec_weth_quote_fraction(sqrt_ratio_x96, bytes_before(token0, token1), token0_decimals, units);
    if !fraction_fits(f) {
        None
    } else {
        match significant_text(f.0, f.1, SIGNIFICANT_DIGITS as nat, Rounding::HalfUp) {
            Some(text) => if vstd::utf8::is_ascii_chars(text) {
                decimal_units(text, WETH_DECIMALS as nat)
            } else {
                None
            },
            None => None,
        }
    }
}

/// The WETH size is read off the sizing fraction, which is
/// `(2^192 * units, s^2 * 10^decimals)` where token 0 sorts first and
/// `(s^2 * units, 2^192 * 10^decimals)` otherwise: where both parts stay
/// below 2^511 it is the fraction written with 18 significant digits,
/// halves rounded up, and read back at 18 decimals.
pub proof fn weth_size_reads_the_fraction(
    sqrt_ratio_x96: nat,
    token0: Seq<u8>,
    token0_decimals: nat,
    token1: Seq<u8>,
    units: nat,
)
    ensures
        ({
            let s = sqrt_ratio_x96;
            let q = 0x1_0000_0000_0000_0000_0000_0000_0000_0000_0000_0000_0000_0000nat;
            let f = if bytes_before(token0, token1) {
                (q * units, s * s * pow10(token0_decimals))
            } else {
                (s * s * units, q * pow10(token0_decimals))
            };
            spec_weth_size(sqrt_ratio_x96, token0, token0_decimals, token1, units) == if f.0
                < pow511() && f.1 < pow511() {
                match significant_text(f.0, f.1, 18, Rounding::HalfUp) {
                    Some(text) => if vstd::utf8::is_ascii_chars(text) {
                        decimal_units(text, 18)
                    } else {
                        None
                    },
                    None => None,
                }
            } else {
                None
            }
        }),
{
    weth_fraction_is_units_over_price(sqrt_ratio_x96, token0_decimals, units);
}

/// The WETH amount, in wei, worth `whole_usd` dollars at the price of the
/// WETH/USDC pool with tokens `token0` and `token1`.
pub fn quote_size_in_weth(
    sqrt_ratio_x96: &U256,
    token0: &Address,
    token0_decimals: u8,
    token1: &Address,
    whole_usd: u32,
) -> (res: Option<U256>)
    requires
        whole_usd * 1_000_000 <= u32::MAX,
        0 < sqrt_ratio_x96@ < pow160(),
        token0@ != token1@,
    ensures
        amount_of(res) == spec_weth_size(sqrt_ratio_x96@, token0@, token0_decimals as nat, token1@, (whole_usd * 1_000_000) as nat),
{
    let units = crate::strategy::usd_to_base_units(whole_usd);
    let token0_first = token0.sorts_before(token1);
    let (num, den) = match weth_quote_fraction(sqrt_ratio_x96, token0_first, token0_decimals, units) {
        Some(f) => f,
        None => {
            return None;
        },
    };
    let text = match fraction_to_significant(&num, &den, SIGNIFICANT_DIGITS, Rounding::HalfUp) {
        Some(t) => t,
        None => {
            return None;
        },
    };
    let t = text.as_str();
    if t.is_ascii() {
        parse_units(t, WETH_DECIMALS)
    } else {
        None
    }
}

/// The amounts of token 0 and token 1 that minting `liquidity` between the
/// two ticks takes, in the pool with these tokens, fee, square-root price
/// and liquidity, as `Position::mint_amounts` of `uniswap_v3_sdk` computes
/// them (rounded up); `None` where a step fails.
pub uninterp spec fn mint_amounts_of(
    sqrt_ratio_x96: nat,
    chain_id: nat,
    token0: Seq<u8>,
    token0_decimals: nat,
    token1: Seq<u8>,
    token1_decimals: nat,
    fee: nat,
    pool_liquidity: nat,
    tick_lower: int,
    tick_upper: int,
    liquidity: nat,
) -> Option<(nat, nat)>;

/// Two optional amounts as numbers.
pub open spec fn amounts_of(x: Option<(U256, U256)>) -> Option<(nat, nat)> {
    match x {
        Some(a) => Some((a.0@, a.1@)),
        None => None,
    }
}

/// The inputs on which `Position::new` and `Token::new` do not panic: a
/// non-zero chain, a 160-bit price, and ordered ticks of the pool that are
/// multiples of the fee's tick spacing.
pub open spec fn mint_amounts_defined(
    sqrt_ratio_x96: nat,
    chain_id: u64,
    fee: FeeTier,
    tick_lower: int,
    tick_upper: int,
) -> bool {
    &&& chain_id != 0
    &&& sqrt_ratio_x96 < pow160()
    &&& spec_min_tick() <= tick_lower < tick_upper <= spec_max_tick()
    &&& tick_lower % (fee.spec_tick_spacing() as int) == 0
    &&& tick_upper % (fee.spec_tick_spacing() as int) == 0
}

/// `Pool::new` of `uniswap_v3_sdk` on the two tokens, the fee, the price
/// and the pool's liquidity, then `Position::new` with the liquidity and
/// ticks, then `Position::mint_amounts`. The result is named, not stated:
/// it is a function of these arguments alone. The panics of `Token::new`,
/// `U160::from` and `Position::new` are left out by `requires`.
#[verifier::external_body]
fn position_mint_amounts(
    sqrt_ratio_x96: &U256,
    chain_id: u64,
    token0: &Address,
    token0_decimals: u8,
    token1: &Address,
    token1_decimals: u8,
    fee: FeeTier,
    pool_liquidity: u128,
    tick_lower: i32,
    tick_upper: i32,
    liquidity: u128,
) -> (res: Option<(U256, U256)>)
    requires
        mint_amounts_defined(sqrt_ratio_x96@, chain_id, fee, tick_lower as int, tick_upper as int),
    ensures
        amounts_of(res) == mint_amounts_of(sqrt_ratio_x96@, chain_id as nat, token0@, token0_decimals as nat, token1@, token1_decimals as nat, fee.spec_fee() as nat, pool_liquidity as nat, tick_lower as int, tick_upper as int, liquidity as nat),
{
    let t0 = Token::new(chain_id, AlloyAddress::from(token0.bytes), token0_decimals, None, None, 0, 0);
    let t1 = Token::new(chain_id, AlloyAddress::from(token1.bytes), token1_decimals, None, None, 0, 0);
    let sqrt = U160::from(alloy_primitives::U256::from_limbs(sqrt_ratio_x96.limbs));
    let fee_amount = match fee {
        FeeTier::Lowest => FeeAmount::LOWEST,
        FeeTier::Low => FeeAmount::LOW,
        FeeTier::Medium => FeeAmount::MEDIUM,
        FeeTier::High => FeeAmount::HIGH,
    };
    let pool = Pool::new(t0, t1, fee_amount, sqrt, pool_liquidity).ok()?;
    let amounts = Position::new(pool, liquidity, tick_lower, tick_upper).mint_amounts().ok()?;
    Some((U256 { limbs: amounts.amount0.into_limbs() }, U256 { limbs: amounts.amount1.into_limbs() }))
}

/// The amounts of token 0 and token 1 that a new position of `liquidity`
/// between `tick_lower` and `tick_upper` takes in the pool.
pub fn mint_amounts(
    sqrt_ratio_x96: &U256,
    chain_id: u64,
    token0: &Address,
    token0_decimals: u8,
    token1: &Address,
    token1_decimals: u8,
    fee: FeeTier,
    pool_liquidity: u128,
    tick_lower: i32,
    tick_upper: i32,
    liquidity: u128,
) -> (res: Option<(U256, U256)>)
    requires
        mint_amounts_defined(sqrt_ratio_x96@, chain_id, fee, tick_lower as int, tick_upper as int),
    ensures
        amounts_of(res) == mint_amounts_of(sqrt_ratio_x96@, chain_id as nat, token0@, token0_decimals as nat, token1@, token1_decimals as nat, fee.spec_fee() as nat, pool_liquidity as nat, tick_lower as int, tick_upper as int, liquidity as nat),
{
    position_mint_amounts(sqrt_ratio_x96, chain_id, token0, token0_decimals, token1, token1_decimals, fee, pool_liquidity, tick_lower, tick_upper, liquidity)
}

/// The amounts of token 0 and token 1 that burning all `liquidity` of the
/// position between the two ticks gives back at the least, where the
/// price may slip by `slippage_num / slippage_den`, in the pool with these
/// tokens, fee, square-root price and liquidity, as
/// `Position::burn_amounts_with_slippage` of `uniswap_v3_sdk` computes
/// them; `None` where a step fails.
pub uninterp spec fn burn_amounts_of(
    sqrt_ratio_x96: nat,
    chain_id: nat,
    token0: Seq<u8>,
    token0_decimals: nat,
    token1: Seq<u8>,
    token1_decimals: nat,
    fee: nat,
    pool_liquidity: nat,
    tick_lower: int,
    tick_upper: int,
    liquidity: nat,
    slippage_num: nat,
    slippage_den: nat,
) -> Option<(nat, nat)>;

/// `Pool::new` of `uniswap_v3_sdk` on the two tokens, the fee (through
/// `FeeAmount::from`), the price and the pool's liquidity, `Position::new`
/// with the liquidity and ticks, then `Position::burn_amounts_with_slippage` with the `Percent` of
/// `slippage_num / slippage_den`. The result is named, not stated: it is a
/// function of these arguments alone. `requires` leaves out the panics of
/// `Token::new`, `U160::from` and `Position::new`, the zero denominator
/// that `Percent::new` panics on, and a slippage above 100%, below which
/// the lowered price would be negative and its square root fails.
#[verifier::external_body]
fn position_burn_amounts(
    sqrt_ratio_x96: &U256,
    chain_id: u64,
    token0: &Address,
    token0_decimals: u8,
    token1: &Address,
    token1_decimals: u8,
    fee: u32,
    pool_liquidity: u128,
    tick_lower: i32,
    tick_upper: i32,
    liquidity: u128,
    slippage_num: u32,
    slippage_den: u32,
) -> (res: Option<(U256, U256)>)
    requires
        fee_tier_of(fee) is Some,
        mint_amounts_defined(sqrt_ratio_x96@, chain_id, fee_tier_of(fee).unwrap(), tick_lower as int, tick_upper as int),
        0 < slippage_den,
        slippage_num <= slippage_den,
    ensures
        amounts_of(res) == burn_amounts_of(sqrt_ratio_x96@, chain_id as nat, token0@, token0_decimals as nat, token1@, token1_decimals as nat, fee as nat, pool_liquidity as nat, tick_lower as int, tick_upper as int, liquidity as nat, slippage_num as nat, slippage_den as nat),
{
    let t0 = Token::new(chain_id, AlloyAddress::from(token0.bytes), token0_decimals, None, None, 0, 0);
    let t1 = Token::new(chain_id, AlloyAddress::from(token1.bytes), token1_decimals, None, None, 0, 0);
    let sqrt = U160::from(alloy_primitives::U256::from_limbs(sqrt_ratio_x96.limbs));
    let pool = Pool::new(t0, t1, FeeAmount::from(fee), sqrt, pool_liquidity).ok()?;
    let slippage = Percent::new(slippage_num, slippage_den);
    let amounts = Position::new(pool, liquidity, tick_lower, tick_upper).burn_amounts_with_slippage(&slippage).ok()?;
    Some((U256 { limbs: amounts.0.into_limbs() }, U256 { limbs: amounts.1.into_limbs() }))
}

/// The price slippage that removing a position allows, 1 in 100.
pub const REMOVAL_SLIPPAGE_NUM: u32 = 1;

/// The denominator of the removal slippage.
pub const REMOVAL_SLIPPAGE_DEN: u32 = 100;

/// What collecting may be owed of each token: 2^256 - 1 less each amount.
pub open spec fn owed_after(burnt: Option<(nat, nat)>) -> Option<(nat, nat)> {
    match burnt {
        Some(a) => Some(((u256_max() - a.0) as nat, (u256_max() - a.1) as nat)),
        None => None,
    }
}

/// The amounts of token 0 and token 1 that collecting after removing the
/// whole position may be owed: for each token, 2^256 - 1 less what
/// burning the position gives back at 1% slippage.
pub fn expected_owed_on_removal(
    sqrt_ratio_x96: &U256,
    chain_id: u64,
    token0: &Address,
    token0_decimals: u8,
    token1: &Address,
    token1_decimals: u8,
    fee: FeeTier,
    pool_liquidity: u128,
    tick_lower: i32,
    tick_upper: i32,
    liquidity: u128,
) -> (res: Option<(U256, U256)>)
    requires
        mint_amounts_defined(sqrt_ratio_x96@, chain_id, fee, tick_lower as int, tick_upper as int),
    ensures
        amounts_of(res) == owed_after(burn_amounts_of(sqrt_ratio_x96@, chain_id as nat, token0@, token0_decimals as nat, token1@, token1_decimals as nat, fee.spec_fee() as nat, pool_liquidity as nat, tick_lower as int, tick_upper as int, liquidity as nat, REMOVAL_SLIPPAGE_NUM as nat, REMOVAL_SLIPPAGE_DEN as nat)),
{
    match position_burn_amounts(
        sqrt_ratio_x96,
        chain_id,
        token0,
        token0_decimals,
        token1,
        token1_decimals,
        fee.fee(),
        pool_liquidity,
        tick_lower,
        tick_upper,
        liquidity,
        REMOVAL_SLIPPAGE_NUM,
        REMOVAL_SLIPPAGE_DEN,
    ) {
        Some(burnt) => Some((expected_currency_owed(&burnt.0), expected_currency_owed(&burnt.1))),
        None => None,
    }
}

/// Collecting may be owed, of each token, what is left of 2^256 - 1 once
/// the burnt amount is taken off: owed and burnt add up to 2^256 - 1, and
/// nothing is owed where burning fails.
pub proof fn owed_and_burnt_make_the_maximum(burnt: Option<(nat, nat)>)
    requires
        burnt matches Some(b) ==> b.0 <= u256_max() && b.1 <= u256_max(),
    ensures
        owed_after(burnt) is Some <==> burnt is Some,
        burnt matches Some(b) ==> owed_after(burnt).unwrap().0 + b.0 == u256_max()
            && owed_after(burnt).unwrap().1 + b.1 == u256_max(),
{
}

/// The amount of the token that is not the quote token that a position
/// takes: token 1's where token 0 is the quote token, else token 0's.
pub open spec fn spec_non_quote_amount(quote: TokenSide, amounts: (nat, nat)) -> nat {
    match quote {
        TokenSide::Token0 => amounts.1,
        TokenSide::Token1 => amounts.0,
    }
}

/// How much of the non-quote token to buy before minting: of the amount
/// the position takes of it, what the wallet's balance of it falls short
/// of; nothing where the balance exceeds it.
pub fn non_quote_purchase(quote: TokenSide, mint: &(U256, U256), non_quote_balance: &U256) -> (res:
    Option<U256>)
    ensures
        amount_of(res) == spec_amount_to_buy(
            non_quote_balance@,
            spec_non_quote_amount(quote, (mint.0@, mint.1@)),
        ),
{
    let needed = match quote {
        TokenSide::Token0 => &mint.1,
        TokenSide::Token1 => &mint.0,
    };
    amount_to_buy(non_quote_balance, needed)
}

/// The token bought before minting is the one that is not the quote
/// token: token 1's amount where token 0 is the quote token, token 0's
/// where token 1 is.
pub proof fn non_quote_is_the_other_token(quote: TokenSide, amounts: (nat, nat))
    ensures
        spec_non_quote_amount(quote, amounts) == (if quote.spec_other() == TokenSide::Token0 {
            amounts.0
        } else {
            amounts.1
        }),
        quote == TokenSide::Token0 ==> spec_non_quote_amount(quote, amounts) == amounts.1,
        quote == TokenSide::Token1 ==> spec_non_quote_amount(quote, amounts) == amounts.0,
{
}

} // verus!
