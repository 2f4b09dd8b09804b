use vstd::prelude::*;

verus! {

/// The lowest tick a Uniswap V3 pool knows.
pub open spec fn spec_min_tick() -> int {
    -887272
}

/// The highest tick a Uniswap V3 pool knows.
pub open spec fn spec_max_tick() -> int {
    887272
}

/// `uniswap_v3_sdk::utils::tick_math::MIN_TICK_I32`, which that crate
/// defines as -887272.
#[verifier::external_body]
fn min_tick() -> (t: i32)
    ensures
        t == spec_min_tick(),
{
    uniswap_v3_sdk::prelude::MIN_TICK_I32
}

/// `uniswap_v3_sdk::utils::tick_math::MAX_TICK_I32`, which that crate
/// defines as 887272.
#[verifier::external_body]
fn max_tick() -> (t: i32)
    ensures
        t == spec_max_tick(),
{
    uniswap_v3_sdk::prelude::MAX_TICK_I32
}

/// The lower and upper ticks `change` ticks below and above `current`,
/// held inside the range of ticks a pool knows.
pub open spec fn new_ticks(current: int, change: int) -> (int, int) {
    let lower = current - change;
    let upper = current + change;
    (
        if lower < spec_min_tick() {
            spec_min_tick()
        } else {
            lower
        },
        if upper > spec_max_tick() {
            spec_max_tick()
        } else {
            upper
        },
    )
}

/// Bounds a range of `tick_change` ticks on each side of `current_tick`
/// by the pool's lowest and highest tick, as `(lower, upper)`. One tick is a
/// price change of 0.01%, so `tick_change` is the percentage divided by 0.01.
pub fn calc_new_ticks(current_tick: i32, tick_change: i32) -> (res: (i32, i32))
    requires
        i32::MIN <= current_tick + tick_change <= i32::MAX,
        i32::MIN <= current_tick - tick_change <= i32::MAX,
    ensures
        res.0 == new_ticks(current_tick as int, tick_change as int).0,
        res.1 == new_ticks(current_tick as int, tick_change as int).1,
{
    let mut upper_tick = current_tick + tick_change;
    let mut lower_tick = current_tick - tick_change;
    let max = max_tick();
    let min = min_tick();
    if upper_tick > max {
        upper_tick = max;
    }
    if lower_tick < min {
        lower_tick = min;
    }
    (lower_tick, upper_tick)
}

/// A range of a non-negative width around a tick of the pool stays inside
/// the pool's ticks and holds the tick; where neither end is cut off, it is
/// as wide below the tick as above it.
pub proof fn new_ticks_bracket_current(current: int, change: int)
    requires
        spec_min_tick() <= current <= spec_max_tick(),
        0 <= change,
    ensures
        spec_min_tick() <= new_ticks(current, change).0 <= current,
        current <= new_ticks(current, change).1 <= spec_max_tick(),
        spec_min_tick() <= current - change && current + change <= spec_max_tick() ==> current
            - new_ticks(current, change).0 == new_ticks(current, change).1 - current,
{
}

/// Each end of the range is its side's tick `change` away, held inside the
/// pool: the lower end is the higher of `current - change` and the lowest
/// tick, the upper end the lower of `current + change` and the highest.
pub proof fn new_ticks_are_clamped(current: int, change: int)
    ensures
        new_ticks(current, change).0 >= current - change,
        new_ticks(current, change).0 >= spec_min_tick(),
        new_ticks(current, change).0 == current - change || new_ticks(current, change).0
            == spec_min_tick(),
        new_ticks(current, change).1 <= current + change,
        new_ticks(current, change).1 <= spec_max_tick(),
        new_ticks(current, change).1 == current + change || new_ticks(current, change).1
            == spec_max_tick(),
{
}

/// The tick nearest to `tick` that is a multiple of `spacing`, halves
/// rounded up, moved back by one spacing where it leaves the pool's ticks.
pub open spec fn nearest_usable(tick: int, spacing: int) -> int {
    let rounded = (tick / spacing + (tick % spacing + spacing / 2) / spacing) * spacing;
    if rounded < spec_min_tick() {
        rounded + spacing
    } else if rounded > spec_max_tick() {
        rounded - spacing
    } else {
        rounded
    }
}

/// The inputs on which `nearest_usable_tick` neither asserts nor overflows.
pub open spec fn nearest_usable_defined(tick: int, spacing: int) -> bool {
    &&& 0 < spacing
    &&& spec_min_tick() <= tick <= spec_max_tick()
    &&& tick % spacing + spacing / 2 <= i32::MAX
}

/// `uniswap_v3_sdk::utils::nearest_usable_tick` on `i32`: with the floor
/// quotient and remainder of `tick` by `tick_spacing`, it rounds to
/// `(quotient + (remainder + tick_spacing / 2) / tick_spacing) * tick_spacing`
/// and steps one spacing back inside `MIN_TICK ..= MAX_TICK`. It asserts a
/// positive spacing and a tick in that range.
#[verifier::external_body]
fn nearest_usable_tick(tick: i32, tick_spacing: i32) -> (res: i32)
    requires
        nearest_usable_defined(tick as int, tick_spacing as int),
    ensures
        res == nearest_usable(tick as int, tick_spacing as int),
{
    uniswap_v3_sdk::prelude::nearest_usable_tick(tick, tick_spacing)
}

/// A usable tick is a multiple of the spacing within one spacing of the
/// tick; with a spacing no wider than the highest tick it is a tick of the
/// pool.
pub proof fn nearest_usable_is_usable(tick: int, spacing: int)
    requires
        nearest_usable_defined(tick, spacing),
    ensures
        nearest_usable(tick, spacing) % spacing == 0,
        tick - spacing <= nearest_usable(tick, spacing) <= tick + spacing,
        spacing <= spec_max_tick() ==> spec_min_tick() <= nearest_usable(tick, spacing)
            <= spec_max_tick(),
{
    let q = tick / spacing;
    let r = tick % spacing;
    let c = (r + spacing / 2) / spacing;
    assert(0 <= r < spacing);
    assert(q * spacing + r == tick) by {
        vstd::arithmetic::div_mod::lemma_fundamental_div_mod(tick, spacing);
    }
    let x = r + spacing / 2;
    if x >= spacing {
        vstd::arithmetic::div_mod::lemma_fundamental_div_mod_converse(x, spacing, 1, x - spacing);
    } else {
        vstd::arithmetic::div_mod::lemma_fundamental_div_mod_converse(x, spacing, 0, x);
    }
    assert(c == 1 <==> x >= spacing);
    assert(c == 0 || c == 1);
    let rounded = (q + c) * spacing;
    assert(rounded == q * spacing + c * spacing) by (nonlinear_arith)
        requires
            rounded == (q + c) * spacing,
    ;
    assert(rounded % spacing == 0) by {
        vstd::arithmetic::div_mod::lemma_mod_multiples_basic(q + c, spacing);
    }
    assert((rounded + spacing) % spacing == 0) by {
        assert(rounded + spacing == (q + c + 1) * spacing) by (nonlinear_arith)
            requires
                rounded == (q + c) * spacing,
        ;
        vstd::arithmetic::div_mod::lemma_mod_multiples_basic(q + c + 1, spacing);
    }
    assert((rounded - spacing) % spacing == 0) by {
        assert(rounded - spacing == (q + c - 1) * spacing) by (nonlinear_arith)
            requires
                rounded == (q + c) * spacing,
        ;
        vstd::arithmetic::div_mod::lemma_mod_multiples_basic(q + c - 1, spacing);
    }
}

/// The usable tick is the nearest multiple of the spacing, halves rounded
/// up: where the multiple `k * spacing` lies within half a spacing below
/// `tick` and less than half above it (`k * spacing <= tick + spacing / 2 <
/// k * spacing + spacing`) and inside the pool's ticks, it is that multiple.
pub proof fn nearest_usable_is_nearest(tick: int, spacing: int, k: int)
    requires
        0 < spacing,
        k * spacing <= tick + spacing / 2 < k * spacing + spacing,
        spec_min_tick() <= k * spacing <= spec_max_tick(),
    ensures
        nearest_usable(tick, spacing) == k * spacing,
{
    lemma_nearest_usable_by_index(tick, spacing);
    let x = tick + spacing / 2;
    assert(x == spacing * k + (x - k * spacing)) by (nonlinear_arith)
        requires
            x == tick + spacing / 2,
    ;
    vstd::arithmetic::div_mod::lemma_fundamental_div_mod_converse(x, spacing, k, x - k * spacing);
}

/// The usable tick `k` spacings up, stepped back by one spacing where it
/// leaves the pool's ticks.
spec fn stepped_inside(k: int, spacing: int) -> int {
    if k * spacing < spec_min_tick() {
        k * spacing + spacing
    } else if k * spacing > spec_max_tick() {
        k * spacing - spacing
    } else {
        k * spacing
    }
}

proof fn lemma_nearest_usable_by_index(tick: int, spacing: int)
    requires
        0 < spacing,
    ensures
        nearest_usable(tick, spacing) == stepped_inside((tick + spacing / 2) / spacing, spacing),
{
    let q = tick / spacing;
    let r = tick % spacing;
    let x = r + spacing / 2;
    vstd::arithmetic::div_mod::lemma_fundamental_div_mod(tick, spacing);
    if x >= spacing {
        vstd::arithmetic::div_mod::lemma_fundamental_div_mod_converse(x, spacing, 1, x - spacing);
        assert(tick + spacing / 2 == (q + 1) * spacing + (x - spacing)) by (nonlinear_arith)
            requires
                tick == spacing * q + r,
                x == r + spacing / 2,
        ;
        vstd::arithmetic::div_mod::lemma_fundamental_div_mod_converse(
            tick + spacing / 2,
            spacing,
            q + 1,
            x - spacing,
        );
    } else {
        vstd::arithmetic::div_mod::lemma_fundamental_div_mod_converse(x, spacing, 0, x);
        assert(tick + spacing / 2 == q * spacing + x) by (nonlinear_arith)
            requires
                tick == spacing * q + r,
                x == r + spacing / 2,
        ;
        vstd::arithmetic::div_mod::lemma_fundamental_div_mod_converse(
            tick + spacing / 2,
            spacing,
            q,
            x,
        );
    }
    let k = (tick + spacing / 2) / spacing;
    assert(tick / spacing + (tick % spacing + spacing / 2) / spacing == k);
    assert((tick / spacing + (tick % spacing + spacing / 2) / spacing) * spacing == k * spacing);
}

proof fn lemma_stepped_inside_monotone(k1: int, k2: int, spacing: int)
    requires
        k1 <= k2,
        0 < spacing <= spec_max_tick(),
    ensures
        stepped_inside(k1, spacing) <= stepped_inside(k2, spacing),
{
    let a = k1 * spacing;
    let b = k2 * spacing;
    assert((k1 + 1) * spacing == a + spacing && (k1 - 1) * spacing == a - spacing) by (
    nonlinear_arith)
        requires
            a == k1 * spacing,
    ;
    assert((k2 + 1) * spacing == b + spacing && (k2 - 1) * spacing == b - spacing) by (
    nonlinear_arith)
        requires
            b == k2 * spacing,
    ;
    if k1 < k2 {
        vstd::arithmetic::mul::lemma_mul_inequality(k1 + 1, k2, spacing);
        assert(a + spacing <= b);
    }
}

/// The range a position is given is a usable range of the pool: for a
/// non-negative width around a tick of the pool, and a spacing no wider
/// than the highest tick, both ends are multiples of the spacing inside the
/// pool's ticks, and the lower end is not above the upper end.
pub proof fn usable_range_is_valid(current: int, change: int, spacing: int)
    requires
        spec_min_tick() <= current <= spec_max_tick(),
        0 <= change,
        0 < spacing <= spec_max_tick(),
    ensures
        nearest_usable_defined(new_ticks(current, change).0, spacing),
        nearest_usable_defined(new_ticks(current, change).1, spacing),
        nearest_usable(new_ticks(current, change).0, spacing) <= nearest_usable(
            new_ticks(current, change).1,
            spacing,
        ),
        nearest_usable(new_ticks(current, change).0, spacing) % spacing == 0,
        nearest_usable(new_ticks(current, change).1, spacing) % spacing == 0,
        spec_min_tick() <= nearest_usable(new_ticks(current, change).0, spacing)
            <= spec_max_tick(),
        spec_min_tick() <= nearest_usable(new_ticks(current, change).1, spacing)
            <= spec_max_tick(),
{
    let lower = new_ticks(current, change).0;
    let upper = new_ticks(current, change).1;
    assert(0 <= lower % spacing < spacing && 0 <= upper % spacing < spacing) by {
        vstd::arithmetic::div_mod::lemma_mod_bound(lower, spacing);
        vstd::arithmetic::div_mod::lemma_mod_bound(upper, spacing);
    }
    nearest_usable_is_usable(lower, spacing);
    nearest_usable_is_usable(upper, spacing);
    lemma_nearest_usable_by_index(lower, spacing);
    lemma_nearest_usable_by_index(upper, spacing);
    vstd::arithmetic::div_mod::lemma_div_is_ordered(
        lower + spacing / 2,
        upper + spacing / 2,
        spacing,
    );
    lemma_stepped_inside_monotone(
        (lower + spacing / 2) / spacing,
        (upper + spacing / 2) / spacing,
        spacing,
    );
}

/// The usable lower and upper ticks of a range of `tick_change` ticks on
/// each side of `current_tick`, for a pool with `tick_spacing`: the range of
/// `calc_new_ticks`, each end moved to its nearest usable tick.
pub fn usable_tick_range(current_tick: i32, tick_change: i32, tick_spacing: i32) -> (res: (i32, i32))
    requires
        i32::MIN <= current_tick + tick_change <= i32::MAX,
        i32::MIN <= current_tick - tick_change <= i32::MAX,
        nearest_usable_defined(new_ticks(current_tick as int, tick_change as int).0, tick_spacing as int),
        nearest_usable_defined(new_ticks(current_tick as int, tick_change as int).1, tick_spacing as int),
    ensures
        res.0 == nearest_usable(new_ticks(current_tick as int, tick_change as int).0, tick_spacing as int),
        res.1 == nearest_usable(new_ticks(current_tick as int, tick_change as int).1, tick_spacing as int),
{
    let range_ticks = calc_new_ticks(current_tick, tick_change);
    let lower_tick = nearest_usable_tick(range_ticks.0, tick_spacing);
    let upper_tick = nearest_usable_tick(range_ticks.1, tick_spacing);
    (lower_tick, upper_tick)
}

/// `a / b` rounded toward zero, as Rust's integer division rounds.
pub open spec fn div_toward_zero(a: int, b: int) -> int {
    if a >= 0 {
        a / b
    } else {
        -((-a) / b)
    }
}

/// The average tick is the change of the accumulator divided by the
/// seconds and rounded toward zero: the result times the seconds has the
/// sign of the change, is no larger than it in magnitude, and falls short
/// of it by less than the seconds.
pub proof fn twap_is_mean_toward_zero(start_cumulative: int, end_cumulative: int, seconds: int)
    requires
        twap_defined(start_cumulative, end_cumulative, seconds),
    ensures
        ({
            let delta = end_cumulative - start_cumulative;
            let r = div_toward_zero(delta, seconds);
            &&& delta >= 0 ==> 0 <= r * seconds <= delta < r * seconds + seconds
            &&& delta < 0 ==> delta <= r * seconds <= 0 && r * seconds - seconds < delta
        }),
{
    let delta = end_cumulative - start_cumulative;
    if delta >= 0 {
        let q = delta / seconds;
        vstd::arithmetic::div_mod::lemma_fundamental_div_mod(delta, seconds);
        assert(0 <= q * seconds <= delta < q * seconds + seconds) by (nonlinear_arith)
            requires
                delta == seconds * q + delta % seconds,
                0 <= delta % seconds < seconds,
                delta >= 0,
                seconds > 0,
        ;
    } else {
        let q = (-delta) / seconds;
        vstd::arithmetic::div_mod::lemma_fundamental_div_mod(-delta, seconds);
        assert(delta <= (-q) * seconds <= 0 && (-q) * seconds - seconds < delta) by (nonlinear_arith)
            requires
                -delta == seconds * q + (-delta) % seconds,
                0 <= (-delta) % seconds < seconds,
                delta < 0,
                seconds > 0,
        ;
    }
}

/// The inputs on which `twap_tick` neither overflows nor divides by zero.
pub open spec fn twap_defined(start_cumulative: int, end_cumulative: int, seconds: int) -> bool {
    &&& i64::MIN <= end_cumulative - start_cumulative <= i64::MAX
    &&& i32::MIN <= end_cumulative - start_cumulative <= i32::MAX
    &&& 0 < seconds <= i32::MAX
}

/// The time-weighted average tick over `seconds`, from the pool's tick
/// accumulator `seconds` ago and now: their difference divided by the
/// seconds, rounded toward zero.
pub fn twap_tick(start_cumulative: i64, end_cumulative: i64, seconds: u32) -> (res: i32)
    requires
        twap_defined(start_cumulative as int, end_cumulative as int, seconds as int),
    ensures
        res == div_toward_zero(end_cumulative - start_cumulative, seconds as int),
{
    let tick_cumulatives_delta = end_cumulative - start_cumulative;
    let delta = tick_cumulatives_delta as i32;
    let secs = seconds as i32;
    delta / secs
}

/// The pool fees that the manager accepts, in hundredths of a basis point.
#[derive(Clone, Copy, Debug, PartialEq, Eq)]
pub enum FeeTier {
    /// 0.01%
    Lowest,
    /// 0.05%
    Low,
    /// 0.3%
    Medium,
    /// 1%
    High,
}

impl FeeTier {
    /// The fee of the tier, in hundredths of a basis point.
    pub open spec fn spec_fee(self) -> u32 {
        match self {
            FeeTier::Lowest => 100,
            FeeTier::Low => 500,
            FeeTier::Medium => 3000,
            FeeTier::High => 10000,
        }
    }

    /// The tick spacing of pools with this fee.
    pub open spec fn spec_tick_spacing(self) -> i32 {
        match self {
            FeeTier::Lowest => 1,
            FeeTier::Low => 10,
            FeeTier::Medium => 60,
            FeeTier::High => 200,
        }
    }

    /// The tier with fee `fee`, or `None` where no tier has it.
    pub fn from_fee(fee: u32) -> (res: Option<FeeTier>)
        ensures
            res == fee_tier_of(fee),
            res is None <==> (fee != 100 && fee != 500 && fee != 3000 && fee != 10000),
    {
        match fee {
            100 => Some(FeeTier::Lowest),
            500 => Some(FeeTier::Low),
            3000 => Some(FeeTier::Medium),
            10000 => Some(FeeTier::High),
            _ => None,
        }
    }

    /// The fee of the tier, in hundredths of a basis point.
    pub fn fee(&self) -> (res: u32)
        ensures
            res == self.spec_fee(),
    {
        match self {
            FeeTier::Lowest => 100,
            FeeTier::Low => 500,
            FeeTier::Medium => 3000,
            FeeTier::High => 10000,
        }
    }

    /// The tick spacing of pools with this fee.
    pub fn tick_spacing(&self) -> (res: i32)
        ensures
            res == self.spec_tick_spacing(),
    {
        fee_amount_tick_spacing(*self)
    }
}

/// `uniswap_v3_sdk::constants::FeeAmount::tick_spacing` for the fee amount
/// of the tier (`LOWEST`, `LOW`, `MEDIUM`, `HIGH`), which that source maps
/// to the spacings 1, 10, 60 and 200.
#[verifier::external_body]
fn fee_amount_tick_spacing(tier: FeeTier) -> (res: i32)
    ensures
        res == tier.spec_tick_spacing(),
{
    let amount = match tier {
        FeeTier::Lowest => uniswap_v3_sdk::constants::FeeAmount::LOWEST,
        FeeTier::Low => uniswap_v3_sdk::constants::FeeAmount::LOW,
        FeeTier::Medium => uniswap_v3_sdk::constants::FeeAmount::MEDIUM,
        FeeTier::High => uniswap_v3_sdk::constants::FeeAmount::HIGH,
    };
    amount.tick_spacing().as_i32()
}

/// The tier whose fee is `fee`, if any.
pub open spec fn fee_tier_of(fee: u32) -> Option<FeeTier> {
    if fee == 100 {
        Some(FeeTier::Lowest)
    } else if fee == 500 {
        Some(FeeTier::Low)
    } else if fee == 3000 {
        Some(FeeTier::Medium)
    } else if fee == 10000 {
        Some(FeeTier::High)
    } else {
        None
    }
}

/// The spacing of a tier's ticks is its fee over 50, save the lowest tier,
/// whose fee of 0.01% has ticks one apart; each tier has its own fee.
pub proof fn tick_spacing_follows_fee(tier: FeeTier, other: FeeTier)
    ensures
        tier.spec_fee() == 100 ==> tier.spec_tick_spacing() == 1,
        tier.spec_fee() != 100 ==> tier.spec_tick_spacing() * 50 == tier.spec_fee(),
        tier.spec_fee() == 100 || tier.spec_fee() == 500 || tier.spec_fee() == 3000
            || tier.spec_fee() == 10000,
        tier.spec_fee() == other.spec_fee() ==> tier == other,
{
}

/// Reading a tier back from its fee gives the tier, and a tier read from a
/// fee has that fee.
pub proof fn fee_tier_round_trip(tier: FeeTier, fee: u32)
    ensures
        fee_tier_of(tier.spec_fee()) == Some(tier),
        fee_tier_of(fee) matches Some(t) ==> t.spec_fee() == fee,
{
}

} // verus!
