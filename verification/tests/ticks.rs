use lp_bot::ticks::{calc_new_ticks, twap_tick, usable_tick_range, FeeTier};

#[test]
fn calc_new_ticks_spreads_around_current() {
    assert_eq!(calc_new_ticks(1000, 200), (800, 1200));
    assert_eq!(calc_new_ticks(-5, 0), (-5, -5));
}

#[test]
fn calc_new_ticks_clamps_to_pool_ticks() {
    assert_eq!(calc_new_ticks(887000, 500), (886500, 887272));
    assert_eq!(calc_new_ticks(-887000, 500), (-887272, -886500));
    assert_eq!(calc_new_ticks(0, 900000), (-887272, 887272));
}

#[test]
fn calc_new_ticks_negative_change_is_not_reordered() {
    assert_eq!(calc_new_ticks(100, -10), (110, 90));
}

#[test]
fn usable_tick_range_rounds_to_spacing() {
    // 1000 +- 200 = (800, 1200); spacing 60: 800 -> 780, 1200 -> 1200
    assert_eq!(usable_tick_range(1000, 200, 60), (780, 1200));
    // halves round up: 30 -> 60, -30 -> 0
    assert_eq!(usable_tick_range(0, 30, 60), (0, 60));
    assert_eq!(usable_tick_range(0, 0, 1), (0, 0));
}

#[test]
fn usable_tick_range_steps_back_inside_pool_ticks() {
    // MIN_TICK rounds to -887280 with spacing 60, below MIN_TICK: one spacing up
    assert_eq!(usable_tick_range(0, 900000, 60), (-887220, 887220));
    assert_eq!(usable_tick_range(0, 900000, 10), (-887270, 887270));
}

#[test]
fn twap_tick_divides_toward_zero() {
    assert_eq!(twap_tick(0, 3600, 60), 60);
    assert_eq!(twap_tick(0, -7, 2), -3);
    assert_eq!(twap_tick(100, 107, 2), 3);
    assert_eq!(twap_tick(-1_000_000, -1_000_600, 600), -1);
}

#[test]
fn fee_tiers() {
    assert_eq!(FeeTier::from_fee(100), Some(FeeTier::Lowest));
    assert_eq!(FeeTier::from_fee(500), Some(FeeTier::Low));
    assert_eq!(FeeTier::from_fee(3000), Some(FeeTier::Medium));
    assert_eq!(FeeTier::from_fee(10000), Some(FeeTier::High));
    assert_eq!(FeeTier::from_fee(200), None);
    assert_eq!(FeeTier::from_fee(0), None);
}

#[test]
fn fee_tier_round_trips() {
    for t in [FeeTier::Lowest, FeeTier::Low, FeeTier::Medium, FeeTier::High] {
        assert_eq!(FeeTier::from_fee(t.fee()), Some(t));
    }
}

#[test]
fn fee_tier_tick_spacings() {
    assert_eq!(FeeTier::Lowest.tick_spacing(), 1);
    assert_eq!(FeeTier::Low.tick_spacing(), 10);
    assert_eq!(FeeTier::Medium.tick_spacing(), 60);
    assert_eq!(FeeTier::High.tick_spacing(), 200);
}

#[test]
fn usable_tick_ranges_are_valid() {
    for spacing in [1, 10, 60, 200] {
        for current in [-887272, -887200, -12345, -1, 0, 7, 99999, 887000, 887272] {
            for change in [0, 1, 29, 30, 200, 5000, 900000] {
                let (lower, upper) = usable_tick_range(current, change, spacing);
                assert!(lower <= upper);
                assert_eq!(lower % spacing, 0);
                assert_eq!(upper % spacing, 0);
                assert!((-887272..=887272).contains(&lower));
                assert!((-887272..=887272).contains(&upper));
            }
        }
    }
}
