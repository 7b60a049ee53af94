//! The position lifecycle: open, fund and swap planning, and the close
//! orchestration. External AMM primitives are actions handed back to the
//! caller; every decision between them is made here and verified.
use vstd::prelude::*;

use crate::errors::ErrorCode;
use crate::identity::Identity;
use crate::math::{get_liquidity_from_token_a, liquidity_for_amount};
use crate::settle::{settle_yield, skim_of};
use crate::state::{MAX_SQRT_PRICE, MIN_SQRT_PRICE};
use crate::token::Holding;

verus! {

/// Whether the pool's current tick lies inside the requested range.
pub open spec fn tick_in_range(tick_current: i32, tick_lower: i32, tick_upper: i32) -> bool {
    tick_lower <= tick_current && tick_current <= tick_upper
}

/// Validates the tick range for opening a position: the pool's live tick
/// must lie within `[tick_lower, tick_upper]`.
pub fn open_range_check(tick_current: i32, tick_lower: i32, tick_upper: i32) -> (r: Result<
    (),
    ErrorCode,
>)
    ensures
        r is Ok <==> tick_in_range(tick_current, tick_lower, tick_upper),
        r is Err ==> r == Err::<(), ErrorCode>(ErrorCode::OutOfRange),
{
    if tick_current >= tick_lower && tick_current <= tick_upper {
        Ok(())
    } else {
        Err(ErrorCode::OutOfRange)
    }
}

/// The parameters of one external swap invocation.
#[derive(Clone, Copy, Debug, PartialEq, Eq, Structural)]
pub struct SwapCall {
    /// The input amount swapped.
    pub amount: u64,
    /// Minimum acceptable output (zero here: no slippage bound is applied).
    pub other_amount_threshold: u64,
    /// Conservative price limit: the representable extreme for the direction.
    pub sqrt_price_limit: u128,
    /// The given amount is the exact input.
    pub amount_specified_is_input: bool,
    /// Swap direction, asset A to asset B when true.
    pub a_to_b: bool,
}

/// The amount a swap request resolves to: a zero request means the full
/// balance of the source asset.
pub open spec fn swap_effective_amount(
    a_to_b: bool,
    amount: u64,
    balance_a: u64,
    balance_b: u64,
) -> u64 {
    if amount == 0 {
        if a_to_b {
            balance_a
        } else {
            balance_b
        }
    } else {
        amount
    }
}

/// Plans a swap. A zero request substitutes the source asset's full balance;
/// if the resolved amount is still zero, no call is made (a no-op, not an
/// error). The price limit is the representable extreme for the direction
/// and no minimum output is imposed.
pub fn swap_plan(a_to_b: bool, amount: u64, balance_a: u64, balance_b: u64) -> (r: Option<
    SwapCall,
>)
    ensures
        swap_effective_amount(a_to_b, amount, balance_a, balance_b) == 0 ==> r is None,
        swap_effective_amount(a_to_b, amount, balance_a, balance_b) > 0 ==> r == Some(
            SwapCall {
                amount: swap_effective_amount(a_to_b, amount, balance_a, balance_b),
                other_amount_threshold: 0,
                sqrt_price_limit: if a_to_b { MIN_SQRT_PRICE } else { MAX_SQRT_PRICE },
                amount_specified_is_input: true,
                a_to_b,
            },
        ),
{
    let sqrt_price_limit = if a_to_b {
        MIN_SQRT_PRICE
    } else {
        MAX_SQRT_PRICE
    };
    let mut mod_amount = amount;
    if amount == 0 {
        mod_amount = if a_to_b {
            balance_a
        } else {
            balance_b
        };
    }
    if mod_amount > 0 {
        Some(
            SwapCall {
                amount: mod_amount,
                other_amount_threshold: 0,
                sqrt_price_limit,
                amount_specified_is_input: true,
                a_to_b,
            },
        )
    } else {
        None
    }
}

/// Sizes the liquidity for a one-sided funding step: validates that the live
/// tick lies in the range, then converts the asset-A balance through the
/// wide fixed-point math against the live price and the range's upper bound.
pub fn fund_quote(
    tick_current: i32,
    tick_lower: i32,
    tick_upper: i32,
    token_a_amount: u64,
    sqrt_price_current: u128,
    sqrt_price_upper: u128,
) -> (r: Result<u128, ErrorCode>)
    ensures
        !tick_in_range(tick_current, tick_lower, tick_upper) ==> r == Err::<
            u128,
            ErrorCode,
        >(ErrorCode::OutOfRange),
        tick_in_range(tick_current, tick_lower, tick_upper) && sqrt_price_current
            >= sqrt_price_upper ==> r == Err::<u128, ErrorCode>(ErrorCode::RangeInverted),
        (tick_in_range(tick_current, tick_lower, tick_upper) && sqrt_price_current
            < sqrt_price_upper && liquidity_for_amount(
            token_a_amount as int,
            sqrt_price_current as int,
            sqrt_price_upper as int,
        ) <= u128::MAX) ==> r == Ok::<u128, ErrorCode>(
            liquidity_for_amount(
                token_a_amount as int,
                sqrt_price_current as int,
                sqrt_price_upper as int,
            ) as u128,
        ),
        (tick_in_range(tick_current, tick_lower, tick_upper) && sqrt_price_current
            < sqrt_price_upper && liquidity_for_amount(
            token_a_amount as int,
            sqrt_price_current as int,
            sqrt_price_upper as int,
        ) > u128::MAX) ==> r == Err::<u128, ErrorCode>(ErrorCode::WhirlpoolNumberDownCastError),
{
    if !(tick_current >= tick_lower && tick_current <= tick_upper) {
        return Err(ErrorCode::OutOfRange);
    }
    get_liquidity_from_token_a(token_a_amount as u128, sqrt_price_current, sqrt_price_upper)
}

/// The parameters of one external increase-liquidity invocation.
#[derive(Clone, Copy, Debug, PartialEq, Eq, Structural)]
pub struct IncreaseLiquidityCall {
    pub liquidity: u128,
    pub token_max_a: u64,
    pub token_max_b: u64,
}

/// Verifies the two-sided amount ceilings the external delta calculator
/// returned for the sized liquidity: both must strictly exceed the
/// caller-supplied minimums, else the step fails with no external effect.
pub fn fund_verify_ceilings(
    liquidity: u128,
    token_max_a: u64,
    token_max_b: u64,
    minimum_a_amount: u64,
    minimum_b_amount: u64,
) -> (r: Result<IncreaseLiquidityCall, ErrorCode>)
    ensures
        r is Ok <==> (token_max_a > minimum_a_amount && token_max_b > minimum_b_amount),
        r is Ok ==> r == Ok::<IncreaseLiquidityCall, ErrorCode>(
            IncreaseLiquidityCall { liquidity, token_max_a, token_max_b },
        ),
        r is Err ==> r == Err::<IncreaseLiquidityCall, ErrorCode>(ErrorCode::TooMuchAmount),
{
    if token_max_a > minimum_a_amount && token_max_b > minimum_b_amount {
        Ok(IncreaseLiquidityCall { liquidity, token_max_a, token_max_b })
    } else {
        Err(ErrorCode::TooMuchAmount)
    }
}

/// Where a close run stands. Steps must happen in this order because each
/// external call mutates state the next step reads.
#[derive(Clone, Copy, Debug, PartialEq, Eq, Structural)]
pub enum ClosePhase {
    /// Accrual refreshed if needed; trading-fee settlement is next.
    Settling,
    /// Trading fees settled; reward settlements may run, index by index.
    Rewards,
    /// Rewards done; remaining liquidity is being withdrawn.
    Withdrawing,
    /// The position is closed.
    Done,
}

/// Orchestrates one close run: enforces the step order and performs each
/// settlement from measured balance deltas.
#[derive(Clone, Copy, Debug, PartialEq, Eq, Structural)]
pub struct CloseMachine {
    pub phase: ClosePhase,
}

impl CloseMachine {
    /// Starts a close run. The returned flag says whether the external
    /// accrual-refresh call must run first: exactly when the position still
    /// holds liquidity.
    pub fn begin(live_liquidity: u128) -> (r: (CloseMachine, bool))
        ensures
            r.0.phase == ClosePhase::Settling,
            r.1 <==> live_liquidity > 0,
    {
        (CloseMachine { phase: ClosePhase::Settling }, live_liquidity > 0)
    }

    /// Settles the trading-fee yield for both principal assets after the
    /// external collect-fees call: each holding's growth over its snapshot
    /// is skimmed to the matching platform holding; the remainder stays.
    pub fn settle_fees(
        &mut self,
        holding_a: &mut Holding,
        platform_a: &mut Holding,
        before_a: u64,
        holding_b: &mut Holding,
        platform_b: &mut Holding,
        before_b: u64,
        authority: &Identity,
    ) -> (r: (u64, u64))
        requires
            old(self).phase == ClosePhase::Settling,
            old(holding_a).owner == *authority,
            old(holding_b).owner == *authority,
            old(platform_a).balance + old(holding_a).balance <= u64::MAX,
            old(platform_b).balance + old(holding_b).balance <= u64::MAX,
        ensures
            final(self).phase == ClosePhase::Rewards,
            r == (
                skim_of(before_a, old(holding_a).balance) as u64,
                skim_of(before_b, old(holding_b).balance) as u64,
            ),
            final(holding_a).balance == old(holding_a).balance - skim_of(
                before_a,
                old(holding_a).balance,
            ),
            final(platform_a).balance == old(platform_a).balance + skim_of(
                before_a,
                old(holding_a).balance,
            ),
            final(holding_b).balance == old(holding_b).balance - skim_of(
                before_b,
                old(holding_b).balance,
            ),
            final(platform_b).balance == old(platform_b).balance + skim_of(
                before_b,
                old(holding_b).balance,
            ),
            final(holding_a).owner == old(holding_a).owner,
            final(holding_b).owner == old(holding_b).owner,
            final(platform_a).owner == old(platform_a).owner,
            final(platform_b).owner == old(platform_b).owner,
    {
        let fee_a = settle_yield(holding_a, platform_a, authority, before_a);
        let fee_b = settle_yield(holding_b, platform_b, authority, before_b);
        self.phase = ClosePhase::Rewards;
        (fee_a, fee_b)
    }

    /// Whether a reward index is worth collecting: only where the position
    /// reports a nonzero amount owed before collection. Skipping a stale
    /// zero is safe: it only forgoes an opportunistic skim, never user
    /// funds.
    pub fn reward_should_collect(&self, amount_owed: u64) -> (r: bool)
        requires
            self.phase == ClosePhase::Rewards,
        ensures
            r <==> amount_owed > 0,
    {
        amount_owed > 0
    }

    /// Settles one reward asset after its external collect call, exactly as
    /// the trading-fee settlement does. May run once per reward index.
    pub fn settle_reward(
        &mut self,
        holding: &mut Holding,
        platform: &mut Holding,
        before: u64,
        authority: &Identity,
    ) -> (fee: u64)
        requires
            old(self).phase == ClosePhase::Rewards,
            old(holding).owner == *authority,
            old(platform).balance + old(holding).balance <= u64::MAX,
        ensures
            final(self).phase == ClosePhase::Rewards,
            fee == skim_of(before, old(holding).balance),
            final(holding).balance == old(holding).balance - skim_of(
                before,
                old(holding).balance,
            ),
            final(platform).balance == old(platform).balance + skim_of(
                before,
                old(holding).balance,
            ),
            old(holding).balance <= before ==> *final(holding) == *old(holding)
                && *final(platform) == *old(platform),
            final(holding).owner == old(holding).owner,
            final(platform).owner == old(platform).owner,
    {
        settle_yield(holding, platform, authority, before)
    }

    /// Plans the principal withdrawal: all remaining liquidity leaves the
    /// position, with zero minimum outputs; none when no liquidity remains.
    /// Principal is never skimmed: the settlement steps are already over.
    pub fn withdraw_liquidity(&mut self, live_liquidity: u128) -> (r: Option<(u128, u64, u64)>)
        requires
            old(self).phase == ClosePhase::Rewards,
        ensures
            final(self).phase == ClosePhase::Withdrawing,
            live_liquidity > 0 ==> r == Some((live_liquidity, 0u64, 0u64)),
            live_liquidity == 0 ==> r is None,
    {
        self.phase = ClosePhase::Withdrawing;
        if live_liquidity > 0 {
            Some((live_liquidity, 0, 0))
        } else {
            None
        }
    }

    /// Releases the close-position call: always the final step, after all
    /// liquidity has been withdrawn.
    pub fn finish(&mut self)
        requires
            old(self).phase == ClosePhase::Withdrawing,
        ensures
            final(self).phase == ClosePhase::Done,
    {
        self.phase = ClosePhase::Done;
    }
}

} // verus!
