//! The registry as a mathematical map from claim key to claim, and the effect
//! of each request on that map. The executable registry is specified against
//! these functions, and the laws of the registry are proved about them.

use vstd::prelude::*;
use crate::types::{AccountId, BlockNumber, Claim, ClaimKey, Error, Event};

verus! {

/// The claim recorded under `key`, if there is one.
pub open spec fn claim_at(claims: Map<ClaimKey, Claim>, key: ClaimKey) -> Option<Claim> {
    if claims.contains_key(key) {
        Some(claims[key])
    } else {
        None
    }
}

/// The answer to a request by `caller` to claim `key`.
pub open spec fn create_result(
    claims: Map<ClaimKey, Claim>,
    caller: AccountId,
    key: ClaimKey,
) -> Result<Event, Error> {
    if claims.contains_key(key) {
        Err(Error::AlreadyClaimed)
    } else {
        Ok(Event::ClaimCreated { who: caller, claim: key })
    }
}

/// The claims after a request by `caller` to claim `key` at block `now`.
pub open spec fn after_create(
    claims: Map<ClaimKey, Claim>,
    caller: AccountId,
    key: ClaimKey,
    now: BlockNumber,
) -> Map<ClaimKey, Claim> {
    if claims.contains_key(key) {
        claims
    } else {
        claims.insert(key, Claim { owner: caller, registered_at: now })
    }
}

/// The answer to a request by `caller` to revoke the claim on `key`.
pub open spec fn revoke_result(
    claims: Map<ClaimKey, Claim>,
    caller: AccountId,
    key: ClaimKey,
) -> Result<Event, Error> {
    if !claims.contains_key(key) {
        Err(Error::NoSuchClaim)
    } else if claims[key].owner != caller {
        Err(Error::NotClaimOwner)
    } else {
        Ok(Event::ClaimRevoked { who: caller, claim: key })
    }
}

/// The claims after a request by `caller` to revoke the claim on `key`.
pub open spec fn after_revoke(
    claims: Map<ClaimKey, Claim>,
    caller: AccountId,
    key: ClaimKey,
) -> Map<ClaimKey, Claim> {
    if claims.contains_key(key) && claims[key].owner == caller {
        claims.remove(key)
    } else {
        claims
    }
}

/// A request to the registry by an authenticated caller.
#[derive(Clone, Copy, Debug, PartialEq, Eq)]
pub enum Request {
    /// Claim `key` for `caller`, at block `now`.
    Create { caller: AccountId, key: ClaimKey, now: BlockNumber },
    /// Give up the claim on `key`, which `caller` says to own.
    Revoke { caller: AccountId, key: ClaimKey },
}

impl Request {
    /// The key that the request is about.
    pub open spec fn key(self) -> ClaimKey {
        match self {
            Request::Create { key, .. } => key,
            Request::Revoke { key, .. } => key,
        }
    }
}

/// The answer to a request.
pub open spec fn result_of(claims: Map<ClaimKey, Claim>, request: Request) -> Result<Event, Error> {
    match request {
        Request::Create { caller, key, .. } => create_result(claims, caller, key),
        Request::Revoke { caller, key } => revoke_result(claims, caller, key),
    }
}

/// The claims after a request.
pub open spec fn after(claims: Map<ClaimKey, Claim>, request: Request) -> Map<ClaimKey, Claim> {
    match request {
        Request::Create { caller, key, now } => after_create(claims, caller, key, now),
        Request::Revoke { caller, key } => after_revoke(claims, caller, key),
    }
}

/// The claims after a sequence of requests, handled one after the other.
pub open spec fn after_all(
    claims: Map<ClaimKey, Claim>,
    requests: Seq<Request>,
) -> Map<ClaimKey, Claim>
    decreases requests.len(),
{
    if requests.len() == 0 {
        claims
    } else {
        after(after_all(claims, requests.drop_last()), requests.last())
    }
}

/// Handling one more request is one step from the claims left by the requests
/// before it.
pub proof fn lemma_after_all_step(claims: Map<ClaimKey, Claim>, requests: Seq<Request>, n: int)
    requires
        0 <= n < requests.len(),
    ensures
        after_all(claims, requests.take(n + 1)) == after(
            after_all(claims, requests.take(n)),
            requests[n],
        ),
{
    assert(requests.take(n + 1).drop_last() == requests.take(n));
}

/// The answer to the request at position `i` of a sequence of requests that
/// starts on `claims`.
pub open spec fn result_at(
    claims: Map<ClaimKey, Claim>,
    requests: Seq<Request>,
    i: int,
) -> Result<Event, Error> {
    result_of(after_all(claims, requests.take(i)), requests[i])
}

/// The request at position `i` created a claim on `key`.
pub open spec fn created_at(
    claims: Map<ClaimKey, Claim>,
    requests: Seq<Request>,
    i: int,
    key: ClaimKey,
) -> bool {
    &&& requests[i] is Create
    &&& requests[i].key() == key
    &&& result_at(claims, requests, i) is Ok
}

/// The request at position `i` revoked the claim on `key`.
pub open spec fn revoked_at(
    claims: Map<ClaimKey, Claim>,
    requests: Seq<Request>,
    i: int,
    key: ClaimKey,
) -> bool {
    &&& requests[i] is Revoke
    &&& requests[i].key() == key
    &&& result_at(claims, requests, i) is Ok
}

} // verus!
