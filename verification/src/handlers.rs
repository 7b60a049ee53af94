//! The operation surface: one function per operation, each gating the
//! caller's role before anything else happens. A failed gate changes no
//! state and plans no external call.
use vstd::prelude::*;

use crate::authority::{derive_authority, user_authority_of};
use crate::errors::ErrorCode;
use crate::gate::{admin_access, service_access, user_access};
use crate::identity::{Config, Identity};
use crate::lifecycle::{
    fund_quote, open_range_check, swap_plan, tick_in_range, CloseMachine, SwapCall,
};
use crate::math::liquidity_for_amount;
use crate::state::{PoolConfig, User};
use crate::token::{transfer, Holding};

verus! {

/// The parameters of one external open-position invocation.
#[derive(Clone, Copy, Debug, PartialEq, Eq, Structural)]
pub struct OpenCall {
    pub position_bump: u8,
    pub tick_lower_index: i32,
    pub tick_upper_index: i32,
}

/// Registers a pool configuration. Admin-only; the fresh record carries the
/// defaults and is reserved for a future approval workflow.
pub fn add_pool_config(config: &Config, auth: &Identity) -> (r: Result<PoolConfig, ErrorCode>)
    ensures
        r is Ok <==> auth == config.admin,
        r is Ok ==> r == Ok::<PoolConfig, ErrorCode>(
            PoolConfig {
                task: Identity { hi: 0, lo: 0 },
                user: Identity { hi: 0, lo: 0 },
                approved: false,
                rejected: false,
            },
        ),
        r is Err ==> r == Err::<PoolConfig, ErrorCode>(ErrorCode::Unauthorized),
{
    match admin_access(config, auth) {
        Ok(()) => Ok(PoolConfig::default()),
        Err(e) => Err(e),
    }
}

/// Creates a user record, self-funded by anyone: the record binds the
/// caller's identity, unpaused, with no bound pool yet.
pub fn user_create(user: &Identity) -> (r: User)
    ensures
        r == (User { user: *user, paused: false, whirlpool: Identity { hi: 0, lo: 0 } }),
{
    let mut record = User::default();
    record.user = *user;
    record
}

/// Updates a user's settings: only the owning user may do so, and the owner
/// identity itself never changes.
pub fn user_settings(
    record: &mut User,
    auth: &Identity,
    is_paused: bool,
    whirlpool: &Identity,
) -> (r: Result<(), ErrorCode>)
    ensures
        r is Ok <==> auth == old(record).user,
        r is Ok ==> *final(record) == (User {
            user: old(record).user,
            paused: is_paused,
            whirlpool: *whirlpool,
        }),
        r is Err ==> r == Err::<(), ErrorCode>(ErrorCode::Unauthorized) && *final(record) == *old(
            record,
        ),
{
    match user_access(record, auth) {
        Ok(()) => {
            record.paused = is_paused;
            record.whirlpool = *whirlpool;
            Ok(())
        },
        Err(e) => Err(e),
    }
}

/// Authorizes deletion of a user record: only the identity recorded as its
/// owner may destroy it (and reclaim its storage to itself).
pub fn user_delete(record: &User, auth: &Identity) -> (r: Result<(), ErrorCode>)
    ensures
        r is Ok <==> auth == record.user,
        r is Err ==> r == Err::<(), ErrorCode>(ErrorCode::Unauthorized),
{
    user_access(record, auth)
}

/// Authorizes holding-account initialization. Relay-service-only; the
/// account creation itself is environment boilerplate.
pub fn init_ata(config: &Config, auth: &Identity) -> (r: Result<(), ErrorCode>)
    ensures
        r is Ok <==> auth == config.service,
        r is Err ==> r == Err::<(), ErrorCode>(ErrorCode::Unauthorized),
{
    service_access(config, auth)
}

/// Opens a position: relay-service-only. The pool's live tick must lie in
/// the requested range; then the external open-position call runs under the
/// delegated authority, moving no funds.
pub fn position_open(
    config: &Config,
    auth: &Identity,
    tick_current: i32,
    position_bump: u8,
    tick_lower_index: i32,
    tick_upper_index: i32,
) -> (r: Result<OpenCall, ErrorCode>)
    ensures
        auth != config.service ==> r == Err::<OpenCall, ErrorCode>(ErrorCode::Unauthorized),
        auth == config.service && !tick_in_range(tick_current, tick_lower_index, tick_upper_index)
            ==> r == Err::<OpenCall, ErrorCode>(ErrorCode::OutOfRange),
        auth == config.service && tick_in_range(tick_current, tick_lower_index, tick_upper_index)
            ==> r == Ok::<OpenCall, ErrorCode>(
            OpenCall { position_bump, tick_lower_index, tick_upper_index },
        ),
{
    if let Err(e) = service_access(config, auth) {
        return Err(e);
    }
    if let Err(e) = open_range_check(tick_current, tick_lower_index, tick_upper_index) {
        return Err(e);
    }
    Ok(OpenCall { position_bump, tick_lower_index, tick_upper_index })
}

/// Plans a swap: relay-service-only; the planning semantics are those of
/// `swap_plan`, and a resolved zero amount is a successful no-op.
pub fn position_swap(
    config: &Config,
    auth: &Identity,
    a_to_b: bool,
    amount: u64,
    balance_a: u64,
    balance_b: u64,
) -> (r: Result<Option<SwapCall>, ErrorCode>)
    ensures
        auth != config.service ==> r == Err::<Option<SwapCall>, ErrorCode>(
            ErrorCode::Unauthorized,
        ),
        auth == config.service ==> (r matches Ok(p) && p == swap_plan_spec(
            a_to_b,
            amount,
            balance_a,
            balance_b,
        )),
{
    if let Err(e) = service_access(config, auth) {
        return Err(e);
    }
    let plan = swap_plan(a_to_b, amount, balance_a, balance_b);
    proof {
        assert(plan == swap_plan_spec(a_to_b, amount, balance_a, balance_b));
    }
    Ok(plan)
}

/// What `swap_plan` returns, as a spec value.
pub open spec fn swap_plan_spec(a_to_b: bool, amount: u64, balance_a: u64, balance_b: u64) -> Option<
    SwapCall,
> {
    let eff = crate::lifecycle::swap_effective_amount(a_to_b, amount, balance_a, balance_b);
    if eff == 0 {
        None
    } else {
        Some(
            SwapCall {
                amount: eff,
                other_amount_threshold: 0,
                sqrt_price_limit: if a_to_b {
                    crate::state::MIN_SQRT_PRICE
                } else {
                    crate::state::MAX_SQRT_PRICE
                },
                amount_specified_is_input: true,
                a_to_b,
            },
        )
    }
}

/// Sizes a funding step: relay-service-only, then the semantics of
/// `fund_quote`. The two-sided ceilings are verified separately by
/// `fund_verify_ceilings` once the external delta calculator has answered.
pub fn position_fund(
    config: &Config,
    auth: &Identity,
    tick_current: i32,
    tick_lower_index: i32,
    tick_upper_index: i32,
    token_a_amount: u64,
    sqrt_price_current: u128,
    sqrt_price_upper: u128,
) -> (r: Result<u128, ErrorCode>)
    ensures
        auth != config.service ==> r == Err::<u128, ErrorCode>(ErrorCode::Unauthorized),
        auth == config.service && !tick_in_range(tick_current, tick_lower_index, tick_upper_index)
            ==> r == Err::<u128, ErrorCode>(ErrorCode::OutOfRange),
        auth == config.service && tick_in_range(tick_current, tick_lower_index, tick_upper_index)
            && sqrt_price_current >= sqrt_price_upper ==> r == Err::<u128, ErrorCode>(
            ErrorCode::RangeInverted,
        ),
        (auth == config.service && tick_in_range(tick_current, tick_lower_index, tick_upper_index)
            && sqrt_price_current < sqrt_price_upper && liquidity_for_amount(
            token_a_amount as int,
            sqrt_price_current as int,
            sqrt_price_upper as int,
        ) <= u128::MAX) ==> r == Ok::<u128, ErrorCode>(
            liquidity_for_amount(
                token_a_amount as int,
                sqrt_price_current as int,
                sqrt_price_upper as int,
            ) as u128,
        ),
        (auth == config.service && tick_in_range(tick_current, tick_lower_index, tick_upper_index)
            && sqrt_price_current < sqrt_price_upper && liquidity_for_amount(
            token_a_amount as int,
            sqrt_price_current as int,
            sqrt_price_upper as int,
        ) > u128::MAX) ==> r == Err::<u128, ErrorCode>(ErrorCode::WhirlpoolNumberDownCastError),
{
    if let Err(e) = service_access(config, auth) {
        return Err(e);
    }
    fund_quote(
        tick_current,
        tick_lower_index,
        tick_upper_index,
        token_a_amount,
        sqrt_price_current,
        sqrt_price_upper,
    )
}

/// Begins a close run: relay-service-only. On success the returned machine
/// enforces the close step order, and the flag says whether the external
/// accrual refresh must run first.
pub fn position_close(config: &Config, auth: &Identity, live_liquidity: u128) -> (r: Result<
    (CloseMachine, bool),
    ErrorCode,
>)
    ensures
        auth != config.service ==> r == Err::<(CloseMachine, bool), ErrorCode>(
            ErrorCode::Unauthorized,
        ),
        auth == config.service ==> (r matches Ok(m) && m.0.phase
            == crate::lifecycle::ClosePhase::Settling && (m.1 <==> live_liquidity > 0)),
{
    if let Err(e) = service_access(config, auth) {
        return Err(e);
    }
    Ok(CloseMachine::begin(live_liquidity))
}

/// Deposits principal: the caller transfers from a holding it controls into
/// the user's delegated-authority-owned holding. No fee, no math.
pub fn funds_deposit(
    source: &mut Holding,
    destination: &mut Holding,
    user: &Identity,
    amount: u64,
) -> (r: Result<(), ErrorCode>)
    requires
        old(destination).balance + amount <= u64::MAX,
    ensures
        r is Ok <==> (old(source).owner == *user && amount <= old(source).balance),
        r is Ok ==> final(source).balance == old(source).balance - amount,
        r is Ok ==> final(destination).balance == old(destination).balance + amount,
        r is Err ==> *final(source) == *old(source) && *final(destination) == *old(destination),
        *user != old(source).owner ==> r == Err::<(), ErrorCode>(ErrorCode::Unauthorized),
        *user == old(source).owner && amount > old(source).balance ==> r == Err::<
            (),
            ErrorCode,
        >(ErrorCode::InsufficientBalance),
{
    transfer(source, destination, user, amount)
}

/// Withdraws principal to a destination of the user's choice. Only the
/// recorded owner may withdraw; the source holding must belong to the
/// re-derived delegated authority, never to a caller-supplied one. A zero
/// request withdraws the full balance; a request over the balance fails
/// with `InsufficientBalance` and moves nothing.
pub fn funds_withdraw(
    config: &Config,
    record: &User,
    auth: &Identity,
    source: &mut Holding,
    destination: &mut Holding,
    amount: u64,
) -> (r: Result<(), ErrorCode>)
    requires
        old(destination).balance + old(source).balance <= u64::MAX,
        amount > 0 ==> old(destination).balance + amount <= u64::MAX,
    ensures
        auth != record.user ==> r == Err::<(), ErrorCode>(ErrorCode::Unauthorized),
        auth == record.user && user_authority_of(config.program, record.user) is None ==> r
            == Err::<(), ErrorCode>(ErrorCode::Unauthorized),
        auth == record.user ==> ((user_authority_of(config.program, record.user) matches Some(ab)
            && old(source).owner != ab.0) ==> r == Err::<(), ErrorCode>(ErrorCode::Unauthorized)),
        auth == record.user ==> ((user_authority_of(config.program, record.user) matches Some(ab)
            && old(source).owner == ab.0 && amount == 0) ==> (r is Ok && final(source).balance == 0
            && final(destination).balance == old(destination).balance + old(source).balance)),
        auth == record.user ==> ((user_authority_of(config.program, record.user) matches Some(ab)
            && old(source).owner == ab.0 && 0 < amount <= old(source).balance) ==> (r is Ok
            && final(source).balance == old(source).balance - amount && final(destination).balance
            == old(destination).balance + amount)),
        auth == record.user ==> ((user_authority_of(config.program, record.user) matches Some(ab)
            && old(source).owner == ab.0 && amount > old(source).balance) ==> r == Err::<
            (),
            ErrorCode,
        >(ErrorCode::InsufficientBalance)),
        r is Err ==> *final(source) == *old(source) && *final(destination) == *old(destination),
        final(source).owner == old(source).owner,
        final(destination).owner == old(destination).owner,
{
    if let Err(e) = user_access(record, auth) {
        return Err(e);
    }
    let derived = derive_authority(&config.program, &record.user);
    let authority = match derived {
        Some(ab) => ab.0,
        None => { return Err(ErrorCode::Unauthorized) },
    };
    if !(source.owner.hi == authority.hi && source.owner.lo == authority.lo) {
        return Err(ErrorCode::Unauthorized);
    }
    if amount == 0 {
        let all = source.balance;
        transfer(source, destination, &authority, all)
    } else {
        transfer(source, destination, &authority, amount)
    }
}

} // verus!
