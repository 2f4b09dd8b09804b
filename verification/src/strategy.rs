use vstd::prelude::*;

use crate::uint256::{u256_max, U256};

verus! {

/// A 20-byte account or token address.
#[derive(Clone, Copy, Debug)]
pub struct Address {
    pub bytes: [u8; 20],
}

impl View for Address {
    type V = Seq<u8>;

    open spec fn view(&self) -> Seq<u8> {
        self.bytes@
    }
}

/// Whether address `a` comes before address `b` in byte order: at the
/// first byte where they differ, `a`'s is the smaller.
pub open spec fn bytes_before(a: Seq<u8>, b: Seq<u8>) -> bool {
    exists|i: int|
        0 <= i < a.len() && i < b.len() && #[trigger] a[i] < b[i] && forall|j: int|
            0 <= j < i ==> a[j] == b[j]
}

impl Address {
    /// Whether this address sorts before `other`, the order in which a
    /// pool's two tokens stand.
    pub fn sorts_before(&self, other: &Address) -> (res: bool)
        ensures
            res == bytes_before(self@, other@),
    {
        let mut i: usize = 0;
        while i < 20
            invariant
                i <= 20,
                forall|k: int| 0 <= k < i ==> self@[k] == other@[k],
            decreases 20 - i,
        {
            if self.bytes[i] != other.bytes[i] {
                proof {
                    if self.bytes[i as int] > other.bytes[i as int] {
                        assert forall|w: int|
                            0 <= w < self@.len() && w < other@.len() && #[trigger] self@[w] < other@[w]
                                implies !(forall|j: int| 0 <= j < w ==> self@[j] == other@[j]) by {
                            if w > i {
                                assert(self@[i as int] != other@[i as int]);
                            }
                        }
                    }
                }
                return self.bytes[i] < other.bytes[i];
            }
            i = i + 1;
        }
        proof {
            assert forall|w: int|
                0 <= w < self@.len() && w < other@.len() && #[trigger] self@[w] < other@[w]
                    implies false by {
                assert(self@[w] == other@[w]);
            }
        }
        false
    }

    /// Whether both addresses are the same.
    pub fn same_as(&self, other: &Address) -> (res: bool)
        ensures
            res == (self@ == other@),
    {
        let mut i: usize = 0;
        while i < 20
            invariant
                i <= 20,
                forall|k: int| 0 <= k < i ==> self@[k] == other@[k],
            decreases 20 - i,
        {
            if self.bytes[i] != other.bytes[i] {
                return false;
            }
            i = i + 1;
        }
        assert(self@ =~= other@);
        true
    }
}

/// Addresses are ordered by their first differing byte: no address comes
/// before itself, of two different addresses of 20 bytes exactly one comes
/// first, and an address whose byte is smaller where the two first differ
/// comes first.
pub proof fn address_order_is_by_first_difference(a: Seq<u8>, b: Seq<u8>, k: int)
    requires
        a.len() == 20,
        b.len() == 20,
    ensures
        !bytes_before(a, a),
        a != b ==> (bytes_before(a, b) <==> !bytes_before(b, a)),
        0 <= k < 20 && a[k] < b[k] && (forall|j: int| 0 <= j < k ==> a[j] == b[j]) ==> bytes_before(
            a,
            b,
        ),
{
    if a != b {
        assert(exists|i: int| 0 <= i < 20 && a[i] != b[i]) by {
            if forall|i: int| 0 <= i < 20 ==> a[i] == b[i] {
                assert(a =~= b);
            }
        }
        let i0 = choose|i: int| 0 <= i < 20 && a[i] != b[i];
        let first = first_difference(a, b, i0);
        if a[first] < b[first] {
            assert(bytes_before(a, b));
            assert(!bytes_before(b, a)) by {
                if bytes_before(b, a) {
                    let w = choose|w: int|
                        0 <= w < b.len() && w < a.len() && #[trigger] b[w] < a[w] && forall|j: int|
                            0 <= j < w ==> b[j] == a[j];
                    if w < first {
                    } else if w > first {
                        assert(b[first] == a[first]);
                    }
                }
            }
        } else {
            assert(bytes_before(b, a));
            assert(!bytes_before(a, b)) by {
                if bytes_before(a, b) {
                    let w = choose|w: int|
                        0 <= w < a.len() && w < b.len() && #[trigger] a[w] < b[w] && forall|j: int|
                            0 <= j < w ==> a[j] == b[j];
                    if w < first {
                    } else if w > first {
                        assert(a[first] == b[first]);
                    }
                }
            }
        }
    }
    if 0 <= k < 20 && a[k] < b[k] && (forall|j: int| 0 <= j < k ==> a[j] == b[j]) {
        assert(a[k] < b[k]);
    }
}

/// The first index below `i` and at `i` at most where `a` and `b` differ.
proof fn first_difference(a: Seq<u8>, b: Seq<u8>, i: int) -> (first: int)
    requires
        0 <= i < a.len(),
        i < b.len(),
        a[i] != b[i],
    ensures
        0 <= first <= i,
        a[first] != b[first],
        forall|j: int| 0 <= j < first ==> a[j] == b[j],
    decreases i,
{
    if exists|j: int| 0 <= j < i && a[j] != b[j] {
        let j = choose|j: int| 0 <= j < i && a[j] != b[j];
        first_difference(a, b, j)
    } else {
        i
    }
}

/// One of the two tokens of a pool.
#[derive(Clone, Copy, Debug, PartialEq, Eq)]
pub enum TokenSide {
    Token0,
    Token1,
}

impl TokenSide {
    /// The other token of the pool.
    pub open spec fn spec_other(self) -> TokenSide {
        match self {
            TokenSide::Token0 => TokenSide::Token1,
            TokenSide::Token1 => TokenSide::Token0,
        }
    }

    /// The other token of the pool.
    pub fn other(&self) -> (res: TokenSide)
        ensures
            res == self.spec_other(),
    {
        match self {
            TokenSide::Token0 => TokenSide::Token1,
            TokenSide::Token1 => TokenSide::Token0,
        }
    }
}

/// How the size of the quote-token deposit is worked out.
#[derive(Clone, Copy, Debug, PartialEq, Eq)]
pub enum QuoteSizing {
    /// The pool holds WETH: the USD size is converted to WETH at the
    /// WETH/USDC price.
    Weth,
    /// The pool holds USDC but no WETH: the USD size is the USDC amount.
    Usdc,
}

/// The quote token of the pool: the first token that is WETH or USDC.
pub open spec fn spec_quote_side(
    token0: Seq<u8>,
    token1: Seq<u8>,
    weth: Seq<u8>,
    usdc: Seq<u8>,
) -> Option<TokenSide> {
    if token0 == weth || token0 == usdc {
        Some(TokenSide::Token0)
    } else if token1 == weth || token1 == usdc {
        Some(TokenSide::Token1)
    } else {
        None
    }
}

/// How the quote deposit is sized: in WETH where either token is WETH,
/// else in USDC where either token is USDC.
pub open spec fn spec_quote_sizing(
    token0: Seq<u8>,
    token1: Seq<u8>,
    weth: Seq<u8>,
    usdc: Seq<u8>,
) -> Option<QuoteSizing> {
    if token0 == weth || token1 == weth {
        Some(QuoteSizing::Weth)
    } else if token0 == usdc || token1 == usdc {
        Some(QuoteSizing::Usdc)
    } else {
        None
    }
}

/// Which pool token is the quote token (WETH or USDC), or `None` where
/// neither is.
pub fn quote_side(token0: &Address, token1: &Address, weth: &Address, usdc: &Address) -> (res:
    Option<TokenSide>)
    ensures
        res == spec_quote_side(token0@, token1@, weth@, usdc@),
{
    if token0.same_as(weth) || token0.same_as(usdc) {
        Some(TokenSide::Token0)
    } else if token1.same_as(weth) || token1.same_as(usdc) {
        Some(TokenSide::Token1)
    } else {
        None
    }
}

/// What creating a position decides from the pool's tokens.
#[derive(Clone, Copy, Debug, PartialEq, Eq)]
pub struct PositionPlan {
    /// How the quote deposit is sized.
    pub sizing: QuoteSizing,
    /// The quote token: liquidity is worked out from its amount, and the
    /// other token is bought where the wallet holds too little of it.
    pub quote: TokenSide,
}

/// Plans a new position in a pool of `token0` and `token1`: `None` where
/// neither token is WETH or USDC.
pub fn plan_position(token0: &Address, token1: &Address, weth: &Address, usdc: &Address) -> (res:
    Option<PositionPlan>)
    ensures
        res is Some <==> spec_quote_side(token0@, token1@, weth@, usdc@) is Some,
        res matches Some(p) ==> Some(p.sizing) == spec_quote_sizing(token0@, token1@, weth@, usdc@)
            && Some(p.quote) == spec_quote_side(token0@, token1@, weth@, usdc@),
{
    let sizing = if token0.same_as(weth) || token1.same_as(weth) {
        QuoteSizing::Weth
    } else if token0.same_as(usdc) || token1.same_as(usdc) {
        QuoteSizing::Usdc
    } else {
        return None;
    };
    match quote_side(token0, token1, weth, usdc) {
        Some(quote) => Some(PositionPlan { sizing, quote }),
        None => None,
    }
}

/// A pool has a quote token exactly when the deposit can be sized, and the
/// quote token is WETH or USDC.
pub proof fn quote_side_and_sizing_agree(
    token0: Seq<u8>,
    token1: Seq<u8>,
    weth: Seq<u8>,
    usdc: Seq<u8>,
)
    ensures
        spec_quote_side(token0, token1, weth, usdc) is Some <==> spec_quote_sizing(
            token0,
            token1,
            weth,
            usdc,
        ) is Some,
        spec_quote_side(token0, token1, weth, usdc) == Some(TokenSide::Token0) ==> (token0 == weth
            || token0 == usdc),
        spec_quote_side(token0, token1, weth, usdc) == Some(TokenSide::Token1) ==> (token1 == weth
            || token1 == usdc),
{
}

/// The quote token is the first of the pool's tokens that is WETH or USDC:
/// token 0 whenever it is either, token 1 only where token 0 is neither,
/// and none where neither token is. The deposit is sized in WETH whenever
/// the pool holds WETH, and in USDC only where it holds USDC and no WETH.
pub proof fn quote_token_is_first_weth_or_usdc(
    token0: Seq<u8>,
    token1: Seq<u8>,
    weth: Seq<u8>,
    usdc: Seq<u8>,
)
    ensures
        (token0 == weth || token0 == usdc) ==> spec_quote_side(token0, token1, weth, usdc) == Some(
            TokenSide::Token0,
        ),
        !(token0 == weth || token0 == usdc) && (token1 == weth || token1 == usdc) ==> spec_quote_side(
            token0,
            token1,
            weth,
            usdc,
        ) == Some(TokenSide::Token1),
        !(token0 == weth || token0 == usdc || token1 == weth || token1 == usdc) ==> spec_quote_side(
            token0,
            token1,
            weth,
            usdc,
        ) is None,
        (token0 == weth || token1 == weth) ==> spec_quote_sizing(token0, token1, weth, usdc) == Some(
            QuoteSizing::Weth,
        ),
        !(token0 == weth || token1 == weth) && (token0 == usdc || token1 == usdc) ==> spec_quote_sizing(
            token0,
            token1,
            weth,
            usdc,
        ) == Some(QuoteSizing::Usdc),
        !(token0 == weth || token0 == usdc || token1 == weth || token1 == usdc) ==> spec_quote_sizing(
            token0,
            token1,
            weth,
            usdc,
        ) is None,
{
}

/// The amount to buy: nothing where the balance exceeds what is needed,
/// else the shortfall.
pub open spec fn spec_amount_to_buy(balance: nat, needed: nat) -> Option<nat> {
    if balance > needed {
        None
    } else {
        Some((needed - balance) as nat)
    }
}

/// How much of a token to buy so that the wallet holds `needed`: nothing
/// where the balance is above it, else the shortfall (zero included).
pub fn amount_to_buy(balance: &U256, needed: &U256) -> (res: Option<U256>)
    ensures
        res is None <==> balance@ > needed@,
        res matches Some(d) ==> balance@ + d@ == needed@,
        res matches Some(d) ==> spec_amount_to_buy(balance@, needed@) == Some(d@),
{
    if needed.lt(balance) {
        None
    } else {
        Some(needed.sub(balance))
    }
}

/// After buying what `amount_to_buy` says, or buying nothing where it says
/// nothing, the balance covers the amount needed: the balance check that
/// follows passes.
pub proof fn buying_covers_need(balance: nat, needed: nat)
    ensures
        match spec_amount_to_buy(balance, needed) {
            Some(d) => balance + d >= needed,
            None => balance >= needed,
        },
{
}

/// The amount to buy is exactly the shortfall: nothing is bought only
/// where the balance is above what is needed, and otherwise the balance
/// plus the purchase is what is needed.
pub proof fn amount_to_buy_is_shortfall(balance: nat, needed: nat)
    ensures
        spec_amount_to_buy(balance, needed) is None <==> balance > needed,
        spec_amount_to_buy(balance, needed) matches Some(d) ==> balance + d == needed,
{
}

/// Whether a balance covers an amount.
pub fn has_sufficient_balance(balance: &U256, amount: &U256) -> (res: bool)
    ensures
        res == (balance@ >= amount@),
{
    !balance.lt(amount)
}

/// Whether a spender's allowance falls short of an amount, so that it has
/// to be approved.
pub fn needs_approval(allowance: &U256, amount: &U256) -> (res: bool)
    ensures
        res == (allowance@ < amount@),
{
    !amount.le(allowance)
}

/// The largest amount of a token that can be owed back when collecting:
/// 2^256 - 1 less the amount that burning the liquidity gives back.
pub fn expected_currency_owed(burn_amount: &U256) -> (res: U256)
    ensures
        res@ == u256_max() - burn_amount@,
{
    burn_amount.complement()
}

/// The amount owed and the amount burnt add up to 2^256 - 1, so the owed
/// amount of the owed amount is the burnt amount again.
pub proof fn expected_owed_is_involution(burn_amount: U256)
    ensures
        u256_max() - (u256_max() - burn_amount@) == burn_amount@,
        (u256_max() - burn_amount@) + burn_amount@ == u256_max(),
{
    crate::uint256::lemma_u256_bounded(burn_amount);
}

/// Whether a position still holds liquidity to remove.
pub fn has_liquidity(liquidity: u128) -> (res: bool)
    ensures
        res == (liquidity != 0),
{
    liquidity != 0
}

/// Whether a receipt status reports success.
pub open spec fn spec_succeeded(status: Option<u64>) -> bool {
    status == Some(1u64)
}

/// Whether a receipt status reports success (status 1).
pub fn succeeded(status: Option<u64>) -> (res: bool)
    ensures
        res == spec_succeeded(status),
{
    match status {
        Some(s) => s == 1,
        None => false,
    }
}

/// The position ID kept after a removal transaction: cleared to 0 where the
/// transaction succeeded, else the current one.
pub fn position_id_after_removal(status: Option<u64>, position_id: usize) -> (res: usize)
    ensures
        res == if spec_succeeded(status) {
            0
        } else {
            position_id
        },
{
    if succeeded(status) {
        0
    } else {
        position_id
    }
}

/// Whether no position is recorded (ID 0), so that one has to be created.
pub fn needs_new_position(position_id: usize) -> (res: bool)
    ensures
        res == (position_id == 0),
{
    position_id == 0
}

/// What a cycle does about the position's range.
#[derive(Clone, Copy, Debug, PartialEq, Eq)]
pub enum RangeAction {
    /// The price fell below the range.
    AdjustLower,
    /// The price rose above the range.
    AdjustHigher,
    /// The price is within the range.
    Keep,
}

/// The action for the current tick and the position's range.
pub open spec fn spec_range_action(current: int, lower: int, upper: int) -> RangeAction {
    if current < lower {
        RangeAction::AdjustLower
    } else if current > upper {
        RangeAction::AdjustHigher
    } else {
        RangeAction::Keep
    }
}

/// Compares the pool's current tick with the position's range.
pub fn range_action(current_tick: i32, tick_lower: i32, tick_upper: i32) -> (res: RangeAction)
    ensures
        res == spec_range_action(current_tick as int, tick_lower as int, tick_upper as int),
{
    if current_tick < tick_lower {
        RangeAction::AdjustLower
    } else if current_tick > tick_upper {
        RangeAction::AdjustHigher
    } else {
        RangeAction::Keep
    }
}

/// A position is kept exactly when the tick lies in its range; a tick
/// below the range moves it lower, one above it higher.
pub proof fn range_action_is_exact(current: int, lower: int, upper: int)
    ensures
        spec_range_action(current, lower, upper) == RangeAction::Keep <==> lower <= current
            <= upper,
        lower <= upper ==> (spec_range_action(current, lower, upper) == RangeAction::AdjustLower
            <==> current < lower),
        lower <= upper ==> (spec_range_action(current, lower, upper) == RangeAction::AdjustHigher
            <==> current > upper),
{
}

/// One step of moving a position.
#[derive(Clone, Copy, Debug, PartialEq, Eq)]
pub enum RebalanceStep {
    /// Remove the position's liquidity and collect its fees.
    RemoveLiquidity,
    /// Create a new position around the current price.
    CreatePosition,
    /// Sell what is left of the token that is not the quote token.
    SellLeftover,
}

/// The steps that an action on the range takes.
pub open spec fn spec_rebalance_steps(action: RangeAction) -> Seq<RebalanceStep> {
    match action {
        RangeAction::AdjustLower => seq![
            RebalanceStep::RemoveLiquidity,
            RebalanceStep::CreatePosition,
            RebalanceStep::SellLeftover,
        ],
        RangeAction::AdjustHigher => seq![
            RebalanceStep::RemoveLiquidity,
            RebalanceStep::CreatePosition,
        ],
        RangeAction::Keep => seq![],
    }
}

/// The steps that an action on the range takes, in order.
pub fn rebalance_steps(action: RangeAction) -> (res: Vec<RebalanceStep>)
    ensures
        res@ == spec_rebalance_steps(action),
{
    let mut steps: Vec<RebalanceStep> = Vec::new();
    match action {
        RangeAction::AdjustLower => {
            steps.push(RebalanceStep::RemoveLiquidity);
            steps.push(RebalanceStep::CreatePosition);
            steps.push(RebalanceStep::SellLeftover);
        },
        RangeAction::AdjustHigher => {
            steps.push(RebalanceStep::RemoveLiquidity);
            steps.push(RebalanceStep::CreatePosition);
        },
        RangeAction::Keep => {},
    }
    assert(steps@ =~= spec_rebalance_steps(action));
    steps
}

/// Moving a position always removes the old one before it creates the new
/// one, and keeping it does nothing.
pub proof fn rebalance_removes_before_creating(action: RangeAction)
    ensures
        action != RangeAction::Keep ==> spec_rebalance_steps(action)[0]
            == RebalanceStep::RemoveLiquidity && spec_rebalance_steps(action)[1]
            == RebalanceStep::CreatePosition,
        action == RangeAction::Keep ==> spec_rebalance_steps(action).len() == 0,
{
}

/// The leftover non-quote token is sold only after moving a position
/// lower: moving it lower takes three steps ending in the sale, moving it
/// higher two, with no sale.
pub proof fn leftover_sold_only_when_moving_lower(action: RangeAction)
    ensures
        action == RangeAction::AdjustLower ==> spec_rebalance_steps(action).len() == 3
            && spec_rebalance_steps(action)[2] == RebalanceStep::SellLeftover,
        action == RangeAction::AdjustHigher ==> spec_rebalance_steps(action).len() == 2,
        forall|i: int|
            0 <= i < spec_rebalance_steps(action).len() && #[trigger] spec_rebalance_steps(action)[i]
                == RebalanceStep::SellLeftover ==> action == RangeAction::AdjustLower,
{
}

/// Only a receipt status of 1 reports success.
pub proof fn only_status_one_succeeds(status: Option<u64>)
    ensures
        spec_succeeded(status) <==> status == Some(1u64),
{
}

/// The other token of a pool is a different token, and the other of the
/// other is the token itself.
pub proof fn other_side_swaps(side: TokenSide)
    ensures
        side.spec_other() != side,
        side.spec_other().spec_other() == side,
{
}

/// Seconds that a transaction stays valid after it is prepared.
pub const DEADLINE_SECONDS: u64 = 120;

/// The deadline, in seconds since the Unix epoch, of a transaction prepared
/// at `now_secs`: two minutes later.
pub fn deadline_from(now_secs: u64) -> (res: u64)
    requires
        now_secs + 120 <= u64::MAX,
    ensures
        res == now_secs + 120,
{
    now_secs + DEADLINE_SECONDS
}

/// A whole number of US dollars in USDC base units (six decimals).
pub fn usd_to_base_units(whole_usd: u32) -> (res: u32)
    requires
        whole_usd * 1_000_000 <= u32::MAX,
    ensures
        res == whole_usd * 1_000_000,
{
    whole_usd * 1_000_000
}

} // verus!
