//! The token-holding model: balance accounts moved only by the transfer
//! primitive, which checks the authorizing owner and the available balance.
use vstd::prelude::*;

use crate::errors::ErrorCode;
use crate::identity::Identity;

verus! {

/// A token holding account: its recorded owner and its balance.
#[derive(Clone, Copy, Debug, PartialEq, Eq, Structural)]
pub struct Holding {
    /// The identity that must authorize transfers out of this holding.
    pub owner: Identity,
    /// The current balance, in the asset's base units.
    pub balance: u64,
}

/// Whether a transfer of `amount` out of `from`, authorized by `authority`,
/// is accepted.
pub open spec fn transfer_ok(from: Holding, authority: Identity, amount: u64) -> bool {
    authority == from.owner && amount <= from.balance
}

/// Moves `amount` from `from` to `to`, authorized by `authority`. Fails with
/// `Unauthorized` when `authority` is not `from`'s recorded owner, and with
/// `InsufficientBalance` when `amount` exceeds `from`'s balance; a failed
/// transfer changes nothing.
pub fn transfer(
    from: &mut Holding,
    to: &mut Holding,
    authority: &Identity,
    amount: u64,
) -> (r: Result<(), ErrorCode>)
    requires
        transfer_ok(*old(from), *authority, amount) ==> old(to).balance + amount <= u64::MAX,
    ensures
        r is Ok <==> transfer_ok(*old(from), *authority, amount),
        r is Ok ==> final(from).balance == old(from).balance - amount
            && final(to).balance == old(to).balance + amount,
        final(from).balance + final(to).balance == old(from).balance + old(to).balance,
        r is Err ==> *final(from) == *old(from) && *final(to) == *old(to),
        *authority != old(from).owner ==> r == Err::<(), ErrorCode>(ErrorCode::Unauthorized),
        *authority == old(from).owner && amount > old(from).balance
            ==> r == Err::<(), ErrorCode>(ErrorCode::InsufficientBalance),
        final(from).owner == old(from).owner,
        final(to).owner == old(to).owner,
{
    if !(authority.hi == from.owner.hi && authority.lo == from.owner.lo) {
        return Err(ErrorCode::Unauthorized);
    }
    if amount > from.balance {
        return Err(ErrorCode::InsufficientBalance);
    }
    from.balance = from.balance - amount;
    to.balance = to.balance + amount;
    Ok(())
}

} // verus!
