use lp_bot::tx::{can_take_tx_step, next_tx_step, should_resend, AttemptOutcome, SendAttempt, TxStep};
use lp_bot::uint256::U256;

fn receipt(status: Option<u64>, price: u64, limit: u64) -> AttemptOutcome {
    AttemptOutcome {
        status,
        gas_price: Some(U256::from_u64(price)),
        gas_limit: Some(U256::from_u64(limit)),
    }
}

#[test]
fn first_send_resends_only_on_failure() {
    assert!(should_resend(SendAttempt::First, Some(0)));
    assert!(!should_resend(SendAttempt::First, Some(1)));
    assert!(!should_resend(SendAttempt::First, None));
    assert!(!should_resend(SendAttempt::First, Some(2)));
}

#[test]
fn second_send_resends_unless_success() {
    assert!(should_resend(SendAttempt::Second, Some(0)));
    assert!(should_resend(SendAttempt::Second, None));
    assert!(!should_resend(SendAttempt::Second, Some(1)));
}

#[test]
fn third_send_never_resends() {
    assert!(!should_resend(SendAttempt::Third, Some(0)));
    assert!(matches!(next_tx_step(SendAttempt::Third, &receipt(Some(0), 10, 10)), TxStep::Done));
}

#[test]
fn resend_raises_gas_by_a_tenth() {
    match next_tx_step(SendAttempt::First, &receipt(Some(0), 1_000, 21_005)) {
        TxStep::Resend { attempt, gas_limit, gas_price } => {
            assert_eq!(attempt, SendAttempt::Second);
            assert_eq!(gas_price.limbs, [1_100, 0, 0, 0]);
            assert_eq!(gas_limit.limbs, [23_105, 0, 0, 0]);
        }
        TxStep::Done => panic!("expected a resend"),
    }
    match next_tx_step(SendAttempt::Second, &receipt(None, 9, 19)) {
        TxStep::Resend { attempt, gas_limit, gas_price } => {
            assert_eq!(attempt, SendAttempt::Third);
            assert_eq!(gas_price.limbs, [9, 0, 0, 0]);
            assert_eq!(gas_limit.limbs, [20, 0, 0, 0]);
        }
        TxStep::Done => panic!("expected a resend"),
    }
}

#[test]
fn success_is_done() {
    assert!(matches!(next_tx_step(SendAttempt::First, &receipt(Some(1), 1, 1)), TxStep::Done));
    assert!(matches!(next_tx_step(SendAttempt::Second, &receipt(Some(1), 1, 1)), TxStep::Done));
}

#[test]
fn at_most_three_sends() {
    let mut attempt = SendAttempt::First;
    let mut sends = 1;
    loop {
        match next_tx_step(attempt, &receipt(Some(0), 100, 100)) {
            TxStep::Done => break,
            TxStep::Resend { attempt: next, .. } => {
                attempt = next;
                sends += 1;
            }
        }
    }
    assert_eq!(sends, 3);
}

#[test]
fn step_is_defined_only_with_gas_data() {
    let missing = AttemptOutcome { status: Some(0), gas_price: None, gas_limit: Some(U256::from_u64(1)) };
    assert!(!can_take_tx_step(SendAttempt::First, &missing));
    assert!(can_take_tx_step(SendAttempt::Third, &missing));
    let ok_missing = AttemptOutcome { status: Some(1), gas_price: None, gas_limit: None };
    assert!(can_take_tx_step(SendAttempt::First, &ok_missing));
    let huge = AttemptOutcome {
        status: Some(0),
        gas_price: Some(U256::max_value()),
        gas_limit: Some(U256::from_u64(1)),
    };
    assert!(!can_take_tx_step(SendAttempt::First, &huge));
    assert!(can_take_tx_step(SendAttempt::First, &receipt(Some(0), 5, 5)));
}
