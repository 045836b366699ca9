//! The dispatch front of the registry: it accepts a request from any origin,
//! lets only signed ones through to the registry, and reports why a request
//! failed.

use vstd::prelude::*;
use crate::model::{after_create, after_revoke, create_result, revoke_result};
use crate::registry::ClaimRegistry;
use crate::rules::{ensure_signed, signer_of};
use crate::types::{BlockNumber, Claim, ClaimKey, DispatchError, Error, Event, Origin};

verus! {

/// The registry's answer as the answer to a dispatched request.
pub open spec fn dispatched(result: Result<Event, Error>) -> Result<Event, DispatchError> {
    match result {
        Ok(event) => Ok(event),
        Err(error) => Err(DispatchError::Module(error)),
    }
}

/// The answer to a request from `origin` to claim `claim`.
pub open spec fn create_claims_result(
    claims: Map<ClaimKey, Claim>,
    origin: Origin,
    claim: ClaimKey,
) -> Result<Event, DispatchError> {
    match signer_of(origin) {
        Ok(who) => dispatched(create_result(claims, who, claim)),
        Err(_) => Err(DispatchError::BadOrigin),
    }
}

/// The claims after a request from `origin` to claim `claim` at block `now`.
pub open spec fn after_create_claims(
    claims: Map<ClaimKey, Claim>,
    origin: Origin,
    claim: ClaimKey,
    now: BlockNumber,
) -> Map<ClaimKey, Claim> {
    match signer_of(origin) {
        Ok(who) => after_create(claims, who, claim, now),
        Err(_) => claims,
    }
}

/// The answer to a request from `origin` to revoke the claim on `claim`.
pub open spec fn revoke_claims_result(
    claims: Map<ClaimKey, Claim>,
    origin: Origin,
    claim: ClaimKey,
) -> Result<Event, DispatchError> {
    match signer_of(origin) {
        Ok(who) => dispatched(revoke_result(claims, who, claim)),
        Err(_) => Err(DispatchError::BadOrigin),
    }
}

/// The claims after a request from `origin` to revoke the claim on `claim`.
pub open spec fn after_revoke_claims(
    claims: Map<ClaimKey, Claim>,
    origin: Origin,
    claim: ClaimKey,
) -> Map<ClaimKey, Claim> {
    match signer_of(origin) {
        Ok(who) => after_revoke(claims, who, claim),
        Err(_) => claims,
    }
}

/// A claim registry behind an origin check.
pub struct Pallet {
    claims: ClaimRegistry,
}

impl View for Pallet {
    type V = Map<ClaimKey, Claim>;

    closed spec fn view(&self) -> Map<ClaimKey, Claim> {
        self.claims@
    }
}

impl Pallet {
    /// A pallet without claims.
    pub fn new() -> (pallet: Self)
        ensures
            pallet@ == Map::<ClaimKey, Claim>::empty(),
    {
        Pallet { claims: ClaimRegistry::new() }
    }

    /// The registry, for reading.
    pub fn claims(&self) -> (claims: &ClaimRegistry)
        ensures
            claims@ == self@,
    {
        &self.claims
    }

    /// Claims `claim` for the account that signed the request, at block
    /// `now`. A request that no account signed fails with `BadOrigin` before
    /// the registry is asked. On success the result is the event to announce;
    /// on failure nothing has changed.
    pub fn create_claims(
        &mut self,
        origin: Origin,
        claim: ClaimKey,
        now: BlockNumber,
    ) -> (result: Result<Event, DispatchError>)
        ensures
            result == create_claims_result(old(self)@, origin, claim),
            final(self)@ == after_create_claims(old(self)@, origin, claim, now),
    {
        let sender = match ensure_signed(origin) {
            Ok(who) => who,
            Err(bad_origin) => {
                return Err(DispatchError::from(bad_origin));
            },
        };
        match self.claims.create(sender, claim, now) {
            Ok(event) => Ok(event),
            Err(error) => Err(DispatchError::from(error)),
        }
    }

    /// Revokes the claim on `claim` for the account that signed the request,
    /// which must own it. A request that no account signed fails with
    /// `BadOrigin` before the registry is asked. On success the result is the
    /// event to announce; on failure nothing has changed.
    pub fn revoke_claims(
        &mut self,
        origin: Origin,
        claim: ClaimKey,
    ) -> (result: Result<Event, DispatchError>)
        ensures
            result == revoke_claims_result(old(self)@, origin, claim),
            final(self)@ == after_revoke_claims(old(self)@, origin, claim),
    {
        let sender = match ensure_signed(origin) {
            Ok(who) => who,
            Err(bad_origin) => {
                return Err(DispatchError::from(bad_origin));
            },
        };
        match self.claims.revoke(sender, claim) {
            Ok(event) => Ok(event),
            Err(error) => Err(DispatchError::from(error)),
        }
    }
}

} // verus!
