//! The rules of the registry as plain functions: who may ask, and what a
//! request yields given the claim recorded under its key. They touch no
//! storage, so a host that keeps its claims elsewhere can apply them to what
//! it has read.

use vstd::prelude::*;
use crate::types::{AccountId, BadOrigin, BlockNumber, Claim, Error, Origin};

verus! {

/// The account that signed a request, if one did.
pub open spec fn signer_of(origin: Origin) -> Result<AccountId, BadOrigin> {
    match origin {
        Origin::Signed(who) => Ok(who),
        _ => Err(BadOrigin),
    }
}

/// Accepts a request only if an account signed it, and returns that account.
pub fn ensure_signed(origin: Origin) -> (signer: Result<AccountId, BadOrigin>)
    ensures
        signer == signer_of(origin),
{
    match origin {
        Origin::Signed(who) => Ok(who),
        _ => Err(BadOrigin),
    }
}

/// The claim that `caller` obtains at block `now` for a key under which
/// `existing` is recorded: a fresh claim if nothing is recorded, and
/// `AlreadyClaimed` otherwise, whoever owns the recorded claim.
pub open spec fn create_decision(
    existing: Option<Claim>,
    caller: AccountId,
    now: BlockNumber,
) -> Result<Claim, Error> {
    match existing {
        Some(_) => Err(Error::AlreadyClaimed),
        None => Ok(Claim { owner: caller, registered_at: now }),
    }
}

/// Decides a request by `caller` to claim a key at block `now`.
pub fn decide_create(
    existing: Option<Claim>,
    caller: AccountId,
    now: BlockNumber,
) -> (decision: Result<Claim, Error>)
    ensures
        decision == create_decision(existing, caller, now),
{
    match existing {
        Some(_) => Err(Error::AlreadyClaimed),
        None => Ok(Claim { owner: caller, registered_at: now }),
    }
}

/// Whether `caller` may revoke the claim recorded under a key: `NoSuchClaim`
/// if nothing is recorded, `NotClaimOwner` if somebody else owns it.
pub open spec fn revoke_decision(existing: Option<Claim>, caller: AccountId) -> Result<(), Error> {
    match existing {
        None => Err(Error::NoSuchClaim),
        Some(claim) => if claim.owner == caller {
            Ok(())
        } else {
            Err(Error::NotClaimOwner)
        },
    }
}

/// Decides a request by `caller` to revoke the claim recorded under a key.
pub fn decide_revoke(existing: Option<Claim>, caller: AccountId) -> (decision: Result<(), Error>)
    ensures
        decision == revoke_decision(existing, caller),
{
    match existing {
        None => Err(Error::NoSuchClaim),
        Some(claim) => if claim.owner == caller {
            Ok(())
        } else {
            Err(Error::NotClaimOwner)
        },
    }
}

} // verus!
