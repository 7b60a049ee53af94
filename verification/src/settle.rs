//! The fee-skimming settlement protocol: the platform's cut is computed
//! strictly from measured balance deltas around an external yield-producing
//! call, never from anything the external system reports about itself.
use vstd::prelude::*;

use crate::identity::Identity;
use crate::token::{transfer, Holding};

verus! {

/// The fixed platform share of any measured yield, in percent.
pub const AQUEDUCT_FEE_PERCENT: u64 = 15;

/// The platform's cut of a measured balance pair: zero when the balance did
/// not grow, otherwise the fee percentage of the increase, rounded down.
pub open spec fn skim_of(before: u64, after: u64) -> int {
    if after > before {
        ((after - before) * AQUEDUCT_FEE_PERCENT as int) / 100
    } else {
        0
    }
}

/// Platform cut of the balance increase measured around one yield-producing
/// call: `floor((after - before) * 15 / 100)`, and zero when the balance did
/// not grow.
pub fn skim_amount(before: u64, after: u64) -> (fee: u64)
    ensures
        fee == skim_of(before, after),
        fee <= after,
{
    if after > before {
        let delta = after - before;
        let wide = (delta as u128) * (AQUEDUCT_FEE_PERCENT as u128);
        let fee = (wide / 100) as u64;
        proof {
            assert(wide / 100 <= delta as u128) by (nonlinear_arith)
                requires wide == (delta as u128) * 15;
        }
        fee
    } else {
        0
    }
}

/// Settles one yield source. `before` is the holding's balance snapshotted
/// before the external collect call; the holding's current balance is the
/// fresh read after it. When the balance grew, the platform's cut moves from
/// the user-controlled holding to the platform holding, authorized by the
/// delegated authority; the remainder stays with the user. When the balance
/// did not grow, nothing moves.
pub fn settle_yield(
    holding: &mut Holding,
    platform: &mut Holding,
    authority: &Identity,
    before: u64,
) -> (fee: u64)
    requires
        old(holding).owner == *authority,
        old(platform).balance + old(holding).balance <= u64::MAX,
    ensures
        fee == skim_of(before, old(holding).balance),
        final(holding).balance == old(holding).balance - skim_of(before, old(holding).balance),
        final(platform).balance == old(platform).balance + skim_of(before, old(holding).balance),
        old(holding).balance <= before ==> *final(holding) == *old(holding)
            && *final(platform) == *old(platform),
        final(holding).balance + final(platform).balance == old(holding).balance + old(
            platform,
        ).balance,
        final(holding).owner == old(holding).owner,
        final(platform).owner == old(platform).owner,
{
    let after = holding.balance;
    let fee = skim_amount(before, after);
    if fee > 0 {
        let tr = transfer(holding, platform, authority, fee);
        proof {
            assert(tr is Ok);
        }
        let _ = tr;
    }
    fee
}

/// Law: the skim never touches principal and accounts for the whole delta.
/// For any measured pair with `after > before`, the platform receives
/// exactly `floor((after - before) * 15 / 100)`, which never exceeds the
/// measured yield; for `after <= before` the cut is zero.
pub proof fn lemma_skim_bounds(before: u64, after: u64)
    ensures
        after > before ==> skim_of(before, after) == ((after - before) * 15) / 100,
        after > before ==> 0 <= skim_of(before, after) <= after - before,
        after <= before ==> skim_of(before, after) == 0,
{
    if after > before {
        let delta = (after - before) as int;
        assert((delta * 15) / 100 <= delta && (delta * 15) / 100 >= 0) by (nonlinear_arith)
            requires delta >= 0;
    }
}

} // verus!
