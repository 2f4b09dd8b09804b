use vstd::prelude::*;

use crate::uint256::{u256_max, U256};

verus! {

/// Which send of a transaction a receipt answers. A transaction is sent at
/// most three times.
#[derive(Clone, Copy, Debug, PartialEq, Eq)]
pub enum SendAttempt {
    First,
    Second,
    Third,
}

impl SendAttempt {
    /// How many sends have been made.
    pub open spec fn count(self) -> nat {
        match self {
            SendAttempt::First => 1,
            SendAttempt::Second => 2,
            SendAttempt::Third => 3,
        }
    }
}

/// What the retry logic reads of a send once it is mined: the status of its
/// receipt and the gas settings it was sent with.
#[derive(Clone, Copy, Debug)]
pub struct AttemptOutcome {
    /// 1 for success, 0 for failure, where the node reports it.
    pub status: Option<u64>,
    /// The gas limit the send carried, where known.
    pub gas_limit: Option<U256>,
    /// The gas price the send carried, where known.
    pub gas_price: Option<U256>,
}

/// What to do after a receipt.
#[derive(Clone, Copy, Debug)]
pub enum TxStep {
    /// Stop and hand back the last receipt.
    Done,
    /// Send the transaction again with these gas settings.
    Resend { attempt: SendAttempt, gas_limit: U256, gas_price: U256 },
}

/// Whether the receipt of a send calls for another send: a first send is
/// sent again when it failed (status 0), a second one unless it succeeded
/// (status 1), and a third one never.
pub open spec fn spec_should_resend(attempt: SendAttempt, status: Option<u64>) -> bool {
    match attempt {
        SendAttempt::First => status == Some(0u64),
        SendAttempt::Second => status != Some(1u64),
        SendAttempt::Third => false,
    }
}

/// The attempt after `attempt`.
pub open spec fn spec_next_attempt(attempt: SendAttempt) -> SendAttempt {
    match attempt {
        SendAttempt::First => SendAttempt::Second,
        _ => SendAttempt::Third,
    }
}

/// A gas figure raised by a tenth, rounded down.
pub open spec fn bumped(x: nat) -> nat {
    x + x / 10
}

/// The outcomes on which the next step is defined: where another send is
/// due, the gas limit and price of the send are known, and neither
/// overflows when raised by a tenth.
pub open spec fn tx_step_defined(attempt: SendAttempt, outcome: AttemptOutcome) -> bool {
    spec_should_resend(attempt, outcome.status) ==> {
        &&& outcome.gas_price matches Some(p) && bumped(p@) <= u256_max()
        &&& outcome.gas_limit matches Some(g) && bumped(g@) <= u256_max()
    }
}

/// Raises a gas figure by a tenth of itself.
fn bump_gas(x: &U256) -> (res: U256)
    requires
        bumped(x@) <= u256_max(),
    ensures
        res@ == bumped(x@),
{
    let tenth = x.tenth();
    match x.checked_add(&tenth) {
        Some(s) => s,
        None => U256::zero(),
    }
}

/// Whether a gas figure can be raised by a tenth within 256 bits.
fn can_bump(x: &U256) -> (res: bool)
    ensures
        res == (bumped(x@) <= u256_max()),
{
    match x.checked_add(&x.tenth()) {
        Some(_) => true,
        None => false,
    }
}

/// Whether a receipt status calls for another send.
pub fn should_resend(attempt: SendAttempt, status: Option<u64>) -> (res: bool)
    ensures
        res == spec_should_resend(attempt, status),
{
    match attempt {
        SendAttempt::First => match status {
            Some(s) => s == 0,
            None => false,
        },
        SendAttempt::Second => match status {
            Some(s) => s != 1,
            None => true,
        },
        SendAttempt::Third => false,
    }
}

/// Whether `next_tx_step` is defined on the outcome.
pub fn can_take_tx_step(attempt: SendAttempt, outcome: &AttemptOutcome) -> (res: bool)
    ensures
        res == tx_step_defined(attempt, *outcome),
{
    if !should_resend(attempt, outcome.status) {
        return true;
    }
    match (outcome.gas_price, outcome.gas_limit) {
        (Some(p), Some(g)) => can_bump(&p) && can_bump(&g),
        _ => false,
    }
}

/// Decides, from the outcome of a send, whether to stop or to send again,
/// and with which gas limit and price: each raised by a tenth over the
/// limit and price that send carried.
pub fn next_tx_step(attempt: SendAttempt, outcome: &AttemptOutcome) -> (res: TxStep)
    requires
        tx_step_defined(attempt, *outcome),
    ensures
        !spec_should_resend(attempt, outcome.status) ==> res is Done,
        spec_should_resend(attempt, outcome.status) ==> {
            &&& res is Resend
            &&& res->attempt == spec_next_attempt(attempt)
            &&& (res->gas_limit)@ == bumped(outcome.gas_limit.unwrap()@)
            &&& (res->gas_price)@ == bumped(outcome.gas_price.unwrap()@)
        },
{
    if !should_resend(attempt, outcome.status) {
        return TxStep::Done;
    }
    let gas_price = match outcome.gas_price {
        Some(p) => bump_gas(&p),
        None => U256::zero(),
    };
    let gas_limit = match outcome.gas_limit {
        Some(g) => bump_gas(&g),
        None => U256::zero(),
    };
    let next = match attempt {
        SendAttempt::First => SendAttempt::Second,
        _ => SendAttempt::Third,
    };
    TxStep::Resend { attempt: next, gas_limit, gas_price }
}

/// A transaction is sent at most three times: every send again is a later
/// attempt, and the third is never followed by another.
pub proof fn sends_are_bounded(attempt: SendAttempt, status: Option<u64>)
    ensures
        spec_should_resend(attempt, status) ==> spec_next_attempt(attempt).count() == attempt.count()
            + 1 && spec_next_attempt(attempt).count() <= 3,
        attempt == SendAttempt::Third ==> !spec_should_resend(attempt, status),
{
}

/// A send again never carries a lower gas limit or price than the send
/// before it, and a successful send is never repeated.
pub proof fn resends_never_lower_gas(attempt: SendAttempt, status: Option<u64>, x: nat)
    ensures
        bumped(x) >= x,
        status == Some(1u64) ==> !spec_should_resend(attempt, status),
{
}

/// A gas figure is raised by a tenth of itself, rounded down: ten times
/// the raise is at most the figure and more than the figure less ten.
pub proof fn bump_is_a_tenth(x: nat)
    ensures
        bumped(x) >= x,
        10 * (bumped(x) - x) <= x < 10 * (bumped(x) - x) + 10,
{
}

/// A first send is sent again exactly when it failed, a second one unless
/// it succeeded, a third one never; each send again is the next attempt.
pub proof fn resend_rule(attempt: SendAttempt, status: Option<u64>)
    ensures
        attempt == SendAttempt::First ==> (spec_should_resend(attempt, status) <==> status == Some(
            0u64,
        )),
        attempt == SendAttempt::Second ==> (spec_should_resend(attempt, status) <==> status != Some(
            1u64,
        )),
        attempt == SendAttempt::Third ==> !spec_should_resend(attempt, status),
        attempt == SendAttempt::First ==> spec_next_attempt(attempt) == SendAttempt::Second,
        attempt == SendAttempt::Second ==> spec_next_attempt(attempt) == SendAttempt::Third,
{
}

} // verus!
