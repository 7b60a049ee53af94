//! A custodial relay that operates concentrated-liquidity positions on an
//! external automated market maker on behalf of end users: it derives a
//! deterministic delegated authority per user, gates every operation by
//! caller role, sizes one-sided deposits with wide fixed-point math, and
//! skims a fixed percentage of measured yield, never principal.

pub mod authority;
pub mod errors;
pub mod gate;
pub mod handlers;
pub mod lifecycle;
pub mod math;
pub mod identity;
pub mod settle;
pub mod state;
pub mod token;
