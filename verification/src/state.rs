//! Persistent records and the fixed protocol constants.
use vstd::prelude::*;

use crate::identity::Identity;

verus! {

/// Largest square-root price the AMM represents (64.64 fixed point).
pub const MAX_SQRT_PRICE: u128 = 79226673515401279992447579055;

/// Smallest square-root price the AMM represents (64.64 fixed point).
pub const MIN_SQRT_PRICE: u128 = 4295048016;

pub const AQUEDUCT_FEE_NUMERATOR: u64 = 20;

pub const AQUEDUCT_FEE_DENOMINATOR: u64 = 100;

pub const RESOLUTION: u64 = 10000;

/// Per-user persistent record. Gates whether operations may proceed.
#[derive(Clone, Copy, Debug, PartialEq, Eq, Structural)]
pub struct User {
    /// The owning end user's identity. Immutable after creation.
    pub user: Identity,
    /// When true, relay-service operations are meant to be rejected
    /// (recorded but not consulted by any lifecycle operation).
    pub paused: bool,
    /// The AMM pool currently bound to this user, settable by the user.
    pub whirlpool: Identity,
}

impl Default for User {
    /// A fresh record: zero owner, not paused, no bound pool.
    fn default() -> (r: User)
        ensures
            r.user == (Identity { hi: 0, lo: 0 }),
            !r.paused,
            r.whirlpool == (Identity { hi: 0, lo: 0 }),
    {
        User {
            user: Identity { hi: 0, lo: 0 },
            paused: false,
            whirlpool: Identity { hi: 0, lo: 0 },
        }
    }
}

/// Per-pool record registered by the admin. Reserved for an approval
/// workflow: no handler mutates or consults it after creation.
#[derive(Clone, Copy, Debug, PartialEq, Eq, Structural)]
pub struct PoolConfig {
    pub task: Identity,
    pub user: Identity,
    pub approved: bool,
    pub rejected: bool,
}

impl Default for PoolConfig {
    /// A fresh record: zero references, neither approved nor rejected.
    fn default() -> (r: PoolConfig)
        ensures
            r.task == (Identity { hi: 0, lo: 0 }),
            r.user == (Identity { hi: 0, lo: 0 }),
            !r.approved,
            !r.rejected,
    {
        PoolConfig {
            task: Identity { hi: 0, lo: 0 },
            user: Identity { hi: 0, lo: 0 },
            approved: false,
            rejected: false,
        }
    }
}

/// The seed label under which a user's delegated authority is derived.
pub open spec fn user_pda_prefix() -> Seq<u8> {
    seq![117u8, 115u8, 101u8, 114u8]
}

/// The bytes of the delegated-authority seed label, `"user"`.
pub fn user_pda_prefix_bytes() -> (r: Vec<u8>)
    ensures r@ == user_pda_prefix(),
{
    let mut v: Vec<u8> = Vec::new();
    v.push(117u8);
    v.push(115u8);
    v.push(101u8);
    v.push(114u8);
    proof {
        assert(v@ =~= user_pda_prefix());
    }
    v
}

} // verus!
