use aqueduct::authority::derive_authority;
use aqueduct::errors::ErrorCode;
use aqueduct::handlers::{
    add_pool_config, funds_deposit, funds_withdraw, init_ata, position_close, position_fund,
    position_open, position_swap, user_create, user_delete, user_settings,
};
use aqueduct::identity::{Config, Identity};
use aqueduct::lifecycle::{fund_verify_ceilings, swap_plan, CloseMachine, ClosePhase};
use aqueduct::settle::{settle_yield, skim_amount};
use aqueduct::state::{MAX_SQRT_PRICE, MIN_SQRT_PRICE};
use aqueduct::token::{transfer, Holding};

fn id(hi: u128, lo: u128) -> Identity {
    Identity { hi, lo }
}

fn config() -> Config {
    Config { admin: id(1, 1), service: id(2, 2), program: id(3, 3) }
}

#[test]
fn skim_is_fifteen_percent_rounded_down() {
    assert_eq!(skim_amount(100, 1100), 150);
    assert_eq!(skim_amount(0, 100), 15);
    assert_eq!(skim_amount(0, 7), 1); // floor(7 * 15 / 100) = 1
    assert_eq!(skim_amount(0, 6), 0); // floor(6 * 15 / 100) = 0
    assert_eq!(skim_amount(50, 50), 0);
    assert_eq!(skim_amount(60, 50), 0); // no growth, no fee
}

#[test]
fn settle_moves_fee_and_leaves_remainder() {
    let authority = id(9, 9);
    let mut holding = Holding { owner: authority, balance: 1100 };
    let mut platform = Holding { owner: id(8, 8), balance: 5 };
    let fee = settle_yield(&mut holding, &mut platform, &authority, 100);
    assert_eq!(fee, 150);
    assert_eq!(holding.balance, 950);
    assert_eq!(platform.balance, 155);
}

#[test]
fn settle_skips_when_balance_did_not_grow() {
    let authority = id(9, 9);
    let mut holding = Holding { owner: authority, balance: 80 };
    let mut platform = Holding { owner: id(8, 8), balance: 5 };
    let fee = settle_yield(&mut holding, &mut platform, &authority, 80);
    assert_eq!(fee, 0);
    assert_eq!(holding.balance, 80);
    assert_eq!(platform.balance, 5);
}

#[test]
fn transfer_checks_owner_and_balance() {
    let owner = id(4, 4);
    let mut from = Holding { owner, balance: 10 };
    let mut to = Holding { owner: id(5, 5), balance: 0 };
    assert_eq!(
        transfer(&mut from, &mut to, &id(6, 6), 5),
        Err(ErrorCode::Unauthorized)
    );
    assert_eq!(
        transfer(&mut from, &mut to, &owner, 11),
        Err(ErrorCode::InsufficientBalance)
    );
    assert_eq!((from.balance, to.balance), (10, 0));
    assert_eq!(transfer(&mut from, &mut to, &owner, 4), Ok(()));
    assert_eq!((from.balance, to.balance), (6, 4));
}

#[test]
fn admin_gate_rejects_non_admin() {
    let cfg = config();
    assert_eq!(add_pool_config(&cfg, &cfg.service), Err(ErrorCode::Unauthorized));
    let pc = add_pool_config(&cfg, &cfg.admin).unwrap();
    assert!(!pc.approved && !pc.rejected);
}

#[test]
fn user_record_lifecycle() {
    let owner = id(10, 10);
    let mut record = user_create(&owner);
    assert_eq!(record.user, owner);
    assert!(!record.paused);

    // Settings are owner-only; a stranger changes nothing.
    let pool = id(20, 20);
    assert_eq!(
        user_settings(&mut record, &id(11, 11), true, &pool),
        Err(ErrorCode::Unauthorized)
    );
    assert!(!record.paused);
    assert_eq!(user_settings(&mut record, &owner, true, &pool), Ok(()));
    assert!(record.paused);
    assert_eq!(record.whirlpool, pool);

    // Deletion is owner-only.
    assert_eq!(user_delete(&record, &id(11, 11)), Err(ErrorCode::Unauthorized));
    assert_eq!(user_delete(&record, &owner), Ok(()));
}

#[test]
fn service_gated_operations_reject_strangers() {
    let cfg = config();
    let outsider = id(99, 99);
    assert_eq!(
        position_open(&cfg, &outsider, 0, 255, -10, 10),
        Err(ErrorCode::Unauthorized)
    );
    assert_eq!(
        position_swap(&cfg, &outsider, true, 5, 0, 0),
        Err(ErrorCode::Unauthorized)
    );
    assert_eq!(
        position_fund(&cfg, &outsider, 0, -10, 10, 100, 1 << 64, 2 << 64),
        Err(ErrorCode::Unauthorized)
    );
    assert_eq!(
        position_close(&cfg, &outsider, 1),
        Err(ErrorCode::Unauthorized)
    );
    assert_eq!(init_ata(&cfg, &outsider), Err(ErrorCode::Unauthorized));
    assert_eq!(init_ata(&cfg, &cfg.service), Ok(()));
}

#[test]
fn open_requires_tick_in_range() {
    let cfg = config();
    assert_eq!(
        position_open(&cfg, &cfg.service, 11, 255, -10, 10),
        Err(ErrorCode::OutOfRange)
    );
    let call = position_open(&cfg, &cfg.service, 0, 255, -10, 10).unwrap();
    assert_eq!(call.position_bump, 255);
    assert_eq!((call.tick_lower_index, call.tick_upper_index), (-10, 10));
}

#[test]
fn swap_zero_amount_substitutes_source_balance() {
    let plan = swap_plan(true, 0, 500, 900).unwrap();
    assert_eq!(plan.amount, 500);
    assert_eq!(plan.sqrt_price_limit, MIN_SQRT_PRICE);
    assert!(plan.amount_specified_is_input);
    assert!(plan.a_to_b);

    let plan = swap_plan(false, 0, 500, 900).unwrap();
    assert_eq!(plan.amount, 900);
    assert_eq!(plan.sqrt_price_limit, MAX_SQRT_PRICE);
    assert!(!plan.a_to_b);
}

#[test]
fn swap_resolved_zero_is_a_no_op() {
    assert_eq!(swap_plan(true, 0, 0, 900), None);
    assert_eq!(swap_plan(false, 0, 500, 0), None);
    let cfg = config();
    assert_eq!(position_swap(&cfg, &cfg.service, true, 0, 0, 900), Ok(None));
}

#[test]
fn swap_explicit_amount_passes_through() {
    let plan = swap_plan(true, 123, 500, 900).unwrap();
    assert_eq!(plan.amount, 123);
    assert_eq!(plan.other_amount_threshold, 0);
}

#[test]
fn fund_checks_range_then_sizes() {
    let cfg = config();
    assert_eq!(
        position_fund(&cfg, &cfg.service, 20, -10, 10, 100, 1 << 64, 2 << 64),
        Err(ErrorCode::OutOfRange)
    );
    assert_eq!(
        position_fund(&cfg, &cfg.service, 0, -10, 10, 100, 2 << 64, 2 << 64),
        Err(ErrorCode::RangeInverted)
    );
    assert_eq!(
        position_fund(&cfg, &cfg.service, 0, -10, 10, 1000, 1 << 64, 2 << 64),
        Ok(2000)
    );
}

#[test]
fn fund_ceilings_must_exceed_minimums() {
    assert_eq!(
        fund_verify_ceilings(2000, 600, 700, 600, 0),
        Err(ErrorCode::TooMuchAmount)
    );
    assert_eq!(
        fund_verify_ceilings(2000, 600, 700, 0, 700),
        Err(ErrorCode::TooMuchAmount)
    );
    let call = fund_verify_ceilings(2000, 600, 700, 0, 0).unwrap();
    assert_eq!(call.liquidity, 2000);
    assert_eq!((call.token_max_a, call.token_max_b), (600, 700));
}

#[test]
fn close_run_settles_skips_and_withdraws() {
    let cfg = config();
    let authority = id(9, 9);
    let (mut machine, needs_update) = position_close(&cfg, &cfg.service, 5000).unwrap();
    assert!(needs_update);
    assert_eq!(machine.phase, ClosePhase::Settling);

    // Trading-fee settlement from measured deltas on both assets.
    let mut user_a = Holding { owner: authority, balance: 1100 };
    let mut plat_a = Holding { owner: id(8, 8), balance: 0 };
    let mut user_b = Holding { owner: authority, balance: 40 };
    let mut plat_b = Holding { owner: id(8, 8), balance: 0 };
    let (fee_a, fee_b) =
        machine.settle_fees(&mut user_a, &mut plat_a, 100, &mut user_b, &mut plat_b, 40, &authority);
    assert_eq!((fee_a, fee_b), (150, 0));
    assert_eq!((user_a.balance, plat_a.balance), (950, 150));
    assert_eq!((user_b.balance, plat_b.balance), (40, 0));

    // A reward slot with nothing owed is skipped: no collect, no transfer.
    assert!(!machine.reward_should_collect(0));
    assert!(machine.reward_should_collect(1));
    let mut reward = Holding { owner: authority, balance: 200 };
    let mut plat_r = Holding { owner: id(8, 8), balance: 0 };
    let fee_r = machine.settle_reward(&mut reward, &mut plat_r, 0, &authority);
    assert_eq!(fee_r, 30);
    assert_eq!((reward.balance, plat_r.balance), (170, 30));

    // All remaining liquidity leaves with zero minimum outputs, then close.
    assert_eq!(machine.withdraw_liquidity(5000), Some((5000, 0, 0)));
    machine.finish();
    assert_eq!(machine.phase, ClosePhase::Done);
}

#[test]
fn close_with_no_liquidity_skips_update_and_withdrawal() {
    let (machine, needs_update) = CloseMachine::begin(0);
    assert!(!needs_update);
    let mut m = machine;
    let authority = id(9, 9);
    let mut user_a = Holding { owner: authority, balance: 0 };
    let mut plat_a = Holding { owner: id(8, 8), balance: 0 };
    let mut user_b = Holding { owner: authority, balance: 0 };
    let mut plat_b = Holding { owner: id(8, 8), balance: 0 };
    let fees = m.settle_fees(&mut user_a, &mut plat_a, 0, &mut user_b, &mut plat_b, 0, &authority);
    assert_eq!(fees, (0, 0));
    assert_eq!(m.withdraw_liquidity(0), None);
}

#[test]
fn deposit_moves_funds_into_the_user_holding() {
    let user = id(10, 10);
    let mut source = Holding { owner: user, balance: 1000 };
    let mut dest = Holding { owner: id(30, 30), balance: 0 };
    assert_eq!(funds_deposit(&mut source, &mut dest, &user, 400), Ok(()));
    assert_eq!((source.balance, dest.balance), (600, 400));
    assert_eq!(
        funds_deposit(&mut source, &mut dest, &id(11, 11), 1),
        Err(ErrorCode::Unauthorized)
    );
}

#[test]
fn withdraw_zero_means_all() {
    let cfg = config();
    let owner = id(10, 10);
    let record = user_create(&owner);
    let (authority, _bump) = derive_authority(&cfg.program, &owner).unwrap();
    let mut source = Holding { owner: authority, balance: 777 };
    let mut dest = Holding { owner, balance: 3 };
    assert_eq!(
        funds_withdraw(&cfg, &record, &owner, &mut source, &mut dest, 0),
        Ok(())
    );
    assert_eq!((source.balance, dest.balance), (0, 780));
}

#[test]
fn withdraw_over_balance_fails_and_changes_nothing() {
    let cfg = config();
    let owner = id(10, 10);
    let record = user_create(&owner);
    let (authority, _bump) = derive_authority(&cfg.program, &owner).unwrap();
    let mut source = Holding { owner: authority, balance: 50 };
    let mut dest = Holding { owner, balance: 0 };
    assert_eq!(
        funds_withdraw(&cfg, &record, &owner, &mut source, &mut dest, 51),
        Err(ErrorCode::InsufficientBalance)
    );
    assert_eq!((source.balance, dest.balance), (50, 0));
    assert_eq!(
        funds_withdraw(&cfg, &record, &owner, &mut source, &mut dest, 20),
        Ok(())
    );
    assert_eq!((source.balance, dest.balance), (30, 20));
}

#[test]
fn withdraw_rejects_strangers_and_foreign_holdings() {
    let cfg = config();
    let owner = id(10, 10);
    let record = user_create(&owner);
    let (authority, _bump) = derive_authority(&cfg.program, &owner).unwrap();
    let mut source = Holding { owner: authority, balance: 50 };
    let mut dest = Holding { owner, balance: 0 };
    assert_eq!(
        funds_withdraw(&cfg, &record, &id(66, 66), &mut source, &mut dest, 0),
        Err(ErrorCode::Unauthorized)
    );
    // A holding not owned by the re-derived authority is refused even for
    // the right caller: authority is proven by recomputation.
    let mut foreign = Holding { owner: id(77, 77), balance: 50 };
    assert_eq!(
        funds_withdraw(&cfg, &record, &owner, &mut foreign, &mut dest, 0),
        Err(ErrorCode::Unauthorized)
    );
    assert_eq!((source.balance, foreign.balance, dest.balance), (50, 50, 0));
}

#[test]
fn end_to_end_fund_flow() {
    // A user with a 1,000-unit holding of asset A funds a position sized
    // against an upper bound strictly above the current price.
    let cfg = config();
    let owner = id(10, 10);
    let record = user_create(&owner);
    let (authority, _bump) = derive_authority(&cfg.program, &owner).unwrap();

    // Deposit principal under the delegated authority.
    let mut wallet = Holding { owner, balance: 1000 };
    let mut holding_a = Holding { owner: authority, balance: 0 };
    assert_eq!(funds_deposit(&mut wallet, &mut holding_a, &owner, 1000), Ok(()));
    assert_eq!(holding_a.balance, 1000);

    // Size the one-sided deposit: nonzero liquidity comes out.
    let sqrt_current = 1u128 << 64;
    let sqrt_upper = 2u128 << 64;
    let liquidity = position_fund(
        &cfg,
        &cfg.service,
        0,
        -10,
        10,
        holding_a.balance,
        sqrt_current,
        sqrt_upper,
    )
    .unwrap();
    assert_eq!(liquidity, 2000);
    assert!(liquidity > 0);

    // The external delta calculator answers with both ceilings; both are
    // strictly above the supplied minimums of zero, so the increase runs.
    let (token_max_a, token_max_b) = (999, 500);
    let call = fund_verify_ceilings(liquidity, token_max_a, token_max_b, 0, 0).unwrap();
    assert_eq!(call.liquidity, 2000);
    assert!(call.token_max_a > 0 && call.token_max_b > 0);
}

#[test]
fn error_names_are_stable() {
    assert_eq!(ErrorCode::Unauthorized.name(), "unauthorized");
    assert_eq!(ErrorCode::InsufficientBalance.name(), "insufficient balance");
    assert_eq!(ErrorCode::RangeInverted.name(), "price range inverted");
}
