//! The access-control gate: three disjoint role checks, evaluated before any
//! handler body runs. A mismatch is `Unauthorized` and aborts the call before
//! any state change or external call.
use vstd::prelude::*;

use crate::errors::ErrorCode;
use crate::identity::{Config, Identity};
use crate::state::User;

verus! {

/// Admin-only gate: the caller must be the configured admin identity.
pub fn admin_access(config: &Config, auth: &Identity) -> (r: Result<(), ErrorCode>)
    ensures
        r is Ok <==> auth == config.admin,
        r is Err ==> r == Err::<(), ErrorCode>(ErrorCode::Unauthorized),
{
    if auth.hi == config.admin.hi && auth.lo == config.admin.lo {
        Ok(())
    } else {
        Err(ErrorCode::Unauthorized)
    }
}

/// Relay-service-only gate: the caller must be the configured service
/// identity.
pub fn service_access(config: &Config, auth: &Identity) -> (r: Result<(), ErrorCode>)
    ensures
        r is Ok <==> auth == config.service,
        r is Err ==> r == Err::<(), ErrorCode>(ErrorCode::Unauthorized),
{
    if auth.hi == config.service.hi && auth.lo == config.service.lo {
        Ok(())
    } else {
        Err(ErrorCode::Unauthorized)
    }
}

/// User-only gate: the caller must be the identity recorded on the target
/// user record.
pub fn user_access(record: &User, auth: &Identity) -> (r: Result<(), ErrorCode>)
    ensures
        r is Ok <==> auth == record.user,
        r is Err ==> r == Err::<(), ErrorCode>(ErrorCode::Unauthorized),
{
    if auth.hi == record.user.hi && auth.lo == record.user.lo {
        Ok(())
    } else {
        Err(ErrorCode::Unauthorized)
    }
}

} // verus!
