//! The delegated authorization gateway: a stateless relay that forwards
//! `issue`/`revoke` requests across the trust boundary to the ledger and
//! translates service-side failures through a narrow status-code channel.
//!
//! The channel is deliberately lossy: every service error becomes a
//! nonzero status code, and every nonzero status code decodes to
//! `UnknownStatusCode`, so a caller on the near side cannot tell
//! `AlreadyExists` from `DoesNotExist` once the failure has crossed the
//! boundary.

use crate::ledger;
use crate::ledger::{AccountId, Error, HashValue, Pallet};
use vstd::prelude::*;

verus! {

/// Errors observable on the near side of the boundary. The first two are
/// produced by the channel itself; the last three belong to the
/// organization access controller and share the enumeration so that every
/// failure a contract caller can see is one closed set.
#[derive(Clone, Copy, Debug, PartialEq, Eq, Structural)]
pub enum ContractError {
    /// An unrecognized nonzero status code came back over the channel.
    UnknownStatusCode,
    /// A payload on the channel could not be decoded.
    InvalidScaleEncoding,
    /// The caller did not pass an authorization gate.
    NoPermission,
    /// The account to remove is not a member.
    NotAMember,
    /// The account to add is already a member.
    AlreadyAMember,
}

impl ContractError {
    /// The status-code -> error direction of the boundary mapping: 0 is
    /// success; any other code decodes to `UnknownStatusCode`.
    pub fn from_status_code(status_code: u32) -> (r: Result<(), ContractError>)
        ensures
            status_code == 0 <==> r == Ok::<(), ContractError>(()),
            status_code != 0 <==> r == Err::<(), ContractError>(ContractError::UnknownStatusCode),
    {
        match status_code {
            0 => Ok(()),
            _ => Err(ContractError::UnknownStatusCode),
        }
    }
}

/// The service-error -> status-code direction of the boundary mapping:
/// each service error is reported as its own nonzero code.
pub open spec fn spec_status_code(e: Error) -> u32 {
    match e {
        Error::NoOwner => 1,
        Error::IncorrectOwner => 2,
        Error::AlreadyExists => 3,
        Error::DoesNotExist => 4,
    }
}

pub fn status_code_of(e: Error) -> (c: u32)
    ensures
        c == spec_status_code(e),
        c != 0,
{
    match e {
        Error::NoOwner => 1,
        Error::IncorrectOwner => 2,
        Error::AlreadyExists => 3,
        Error::DoesNotExist => 4,
    }
}

/// Forwards an issue request to the ledger on behalf of `caller`. On
/// success the credential identifier is echoed back; on service failure
/// the specific error kind is lost and only `UnknownStatusCode` crosses
/// the boundary, with no state changed.
pub fn issue_in_runtime(runtime: &mut Pallet, caller: AccountId, key: HashValue) -> (r: Result<
    HashValue,
    ContractError,
>)
    requires
        old(runtime).wf(),
    ensures
        final(runtime).wf(),
        (match r {
            Ok(h) => h == key && ledger::issue_post(
                *old(runtime),
                *final(runtime),
                caller,
                key,
                Ok(()),
            ),
            Err(e) => e == ContractError::UnknownStatusCode && old(runtime).issued(key)
                && *final(runtime) == *old(runtime),
        }),
{
    match runtime.issue(caller, key) {
        Ok(()) => Ok(key),
        Err(e) => {
            let code = status_code_of(e);
            match ContractError::from_status_code(code) {
                // Unreachable: a service error always maps to a nonzero
                // code, and a nonzero code never decodes to success.
                Ok(()) => Ok(key),
                Err(ce) => Err(ce),
            }
        },
    }
}

/// Forwards a revoke request to the ledger on behalf of `caller`,
/// translating failures exactly as [`issue_in_runtime`] does.
pub fn revoke_in_runtime(runtime: &mut Pallet, caller: AccountId, key: HashValue) -> (r: Result<
    HashValue,
    ContractError,
>)
    requires
        old(runtime).wf(),
    ensures
        final(runtime).wf(),
        (match r {
            Ok(h) => h == key && ledger::revoke_post(
                *old(runtime),
                *final(runtime),
                caller,
                key,
                Ok(()),
            ),
            Err(e) => e == ContractError::UnknownStatusCode
                && (!old(runtime).issued(key) || old(runtime).issuer_of(key) != caller)
                && *final(runtime) == *old(runtime),
        }),
{
    match runtime.revoke(caller, key) {
        Ok(()) => Ok(key),
        Err(e) => {
            let code = status_code_of(e);
            match ContractError::from_status_code(code) {
                // Unreachable, as in `issue_in_runtime`.
                Ok(()) => Ok(key),
                Err(ce) => Err(ce),
            }
        },
    }
}

} // verus!
