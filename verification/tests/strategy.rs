use lp_bot::strategy::{
    amount_to_buy, deadline_from, expected_currency_owed, has_liquidity,
    has_sufficient_balance, needs_approval, needs_new_position, plan_position,
    position_id_after_removal, quote_side, range_action, rebalance_steps, succeeded,
    usd_to_base_units, Address, PositionPlan, QuoteSizing, RangeAction, RebalanceStep, TokenSide,
};
use lp_bot::uint256::U256;

fn addr(b: u8) -> Address {
    Address { bytes: [b; 20] }
}

#[test]
fn address_comparison() {
    assert!(addr(1).same_as(&addr(1)));
    let mut other = addr(1);
    other.bytes[19] = 2;
    assert!(!addr(1).same_as(&other));
}

#[test]
fn address_byte_order() {
    let mut other = addr(1);
    other.bytes[19] = 2;
    assert!(addr(1).sorts_before(&other));
    assert!(!other.sorts_before(&addr(1)));
    assert!(!addr(1).sorts_before(&addr(1)));
    // the first differing byte decides, not the later ones
    let mut high_first = addr(0);
    high_first.bytes[0] = 3;
    assert!(addr(2).sorts_before(&high_first));
    assert!(!high_first.sorts_before(&addr(2)));
}

#[test]
fn quote_side_prefers_token0() {
    let (weth, usdc) = (addr(1), addr(2));
    assert_eq!(quote_side(&addr(2), &addr(1), &weth, &usdc), Some(TokenSide::Token0));
    assert_eq!(quote_side(&addr(1), &addr(9), &weth, &usdc), Some(TokenSide::Token0));
    assert_eq!(quote_side(&addr(9), &addr(2), &weth, &usdc), Some(TokenSide::Token1));
    assert_eq!(quote_side(&addr(8), &addr(9), &weth, &usdc), None);
}

#[test]
fn plan_position_sizes_in_weth_whenever_weth_is_in_the_pool() {
    let (weth, usdc) = (addr(1), addr(2));
    // USDC/WETH pool: token0 USDC is the quote token, sized in WETH
    assert_eq!(
        plan_position(&usdc, &weth, &weth, &usdc),
        Some(PositionPlan { sizing: QuoteSizing::Weth, quote: TokenSide::Token0 })
    );
    assert_eq!(
        plan_position(&addr(7), &usdc, &weth, &usdc),
        Some(PositionPlan { sizing: QuoteSizing::Usdc, quote: TokenSide::Token1 })
    );
    assert_eq!(
        plan_position(&weth, &addr(7), &weth, &usdc),
        Some(PositionPlan { sizing: QuoteSizing::Weth, quote: TokenSide::Token0 })
    );
    assert_eq!(plan_position(&addr(7), &addr(8), &weth, &usdc), None);
}

#[test]
fn token_side_other() {
    assert_eq!(TokenSide::Token0.other(), TokenSide::Token1);
    assert_eq!(TokenSide::Token1.other(), TokenSide::Token0);
}

#[test]
fn amount_to_buy_is_the_shortfall() {
    let d = amount_to_buy(&U256::from_u64(30), &U256::from_u64(100)).unwrap();
    assert_eq!(d.limbs, [70, 0, 0, 0]);
    let big = U256::from_limbs([0, 0, 0, 1]);
    let d = amount_to_buy(&U256::from_u64(1), &big).unwrap();
    assert_eq!(d.limbs, [u64::MAX, u64::MAX, u64::MAX, 0]);
}

#[test]
fn amount_to_buy_when_balance_is_enough() {
    assert!(amount_to_buy(&U256::from_u64(101), &U256::from_u64(100)).is_none());
    // an equal balance still buys a zero amount
    assert_eq!(amount_to_buy(&U256::from_u64(100), &U256::from_u64(100)).unwrap().limbs, [0, 0, 0, 0]);
}

#[test]
fn balance_and_allowance_checks() {
    assert!(has_sufficient_balance(&U256::from_u64(5), &U256::from_u64(5)));
    assert!(!has_sufficient_balance(&U256::from_u64(4), &U256::from_u64(5)));
    assert!(needs_approval(&U256::from_u64(4), &U256::from_u64(5)));
    assert!(!needs_approval(&U256::from_u64(5), &U256::from_u64(5)));
}

#[test]
fn expected_owed_is_max_less_burn() {
    assert_eq!(expected_currency_owed(&U256::zero()).limbs, [u64::MAX; 4]);
    assert_eq!(expected_currency_owed(&U256::from_u64(10)).limbs, [u64::MAX - 10, u64::MAX, u64::MAX, u64::MAX]);
    assert_eq!(expected_currency_owed(&U256::max_value()).limbs, [0, 0, 0, 0]);
}

#[test]
fn removal_decisions() {
    assert!(!has_liquidity(0));
    assert!(has_liquidity(1));
    assert!(succeeded(Some(1)));
    assert!(!succeeded(Some(0)));
    assert!(!succeeded(None));
    assert_eq!(position_id_after_removal(Some(1), 77), 0);
    assert_eq!(position_id_after_removal(Some(0), 77), 77);
    assert_eq!(position_id_after_removal(None, 77), 77);
    assert!(needs_new_position(0));
    assert!(!needs_new_position(12));
}

#[test]
fn range_actions() {
    assert_eq!(range_action(-10, 0, 100), RangeAction::AdjustLower);
    assert_eq!(range_action(101, 0, 100), RangeAction::AdjustHigher);
    assert_eq!(range_action(0, 0, 100), RangeAction::Keep);
    assert_eq!(range_action(100, 0, 100), RangeAction::Keep);
}

#[test]
fn rebalance_step_lists() {
    assert_eq!(
        rebalance_steps(RangeAction::AdjustLower),
        vec![RebalanceStep::RemoveLiquidity, RebalanceStep::CreatePosition, RebalanceStep::SellLeftover]
    );
    assert_eq!(
        rebalance_steps(RangeAction::AdjustHigher),
        vec![RebalanceStep::RemoveLiquidity, RebalanceStep::CreatePosition]
    );
    assert!(rebalance_steps(RangeAction::Keep).is_empty());
}

#[test]
fn deadline_and_usd_units() {
    assert_eq!(deadline_from(1_700_000_000), 1_700_000_120);
    assert_eq!(usd_to_base_units(250), 250_000_000);
    assert_eq!(usd_to_base_units(0), 0);
}
