//! What holds of the registry whatever requests it receives.

use vstd::prelude::*;
use crate::model::{
    after, after_all, after_create, after_revoke, claim_at, create_result, created_at,
    lemma_after_all_step, result_at, result_of, revoke_result, revoked_at, Request,
};
use crate::pallet::{
    after_create_claims, after_revoke_claims, create_claims_result, revoke_claims_result,
};
use crate::rules::{create_decision, revoke_decision, signer_of};
use crate::types::{AccountId, BlockNumber, Claim, ClaimKey, DispatchError, Error, Event, Origin};

verus! {

/// The rules, applied to the claim recorded under a key, give the registry's
/// answer: where they admit a request, the registry answers with the event
/// and records the decided claim, or removes the revoked one; where they turn
/// it down, the registry answers with the same error and keeps its claims. So
/// a host that reads a record, asks the rules and then writes does what the
/// registry does.
pub proof fn law_rules_decide(
    claims: Map<ClaimKey, Claim>,
    caller: AccountId,
    key: ClaimKey,
    now: BlockNumber,
)
    ensures
        match create_decision(claim_at(claims, key), caller, now) {
            Ok(claim) => {
                &&& create_result(claims, caller, key) == Ok::<Event, Error>(
                    Event::ClaimCreated { who: caller, claim: key },
                )
                &&& after_create(claims, caller, key, now) == claims.insert(key, claim)
            },
            Err(error) => {
                &&& create_result(claims, caller, key) == Err::<Event, Error>(error)
                &&& after_create(claims, caller, key, now) == claims
            },
        },
        match revoke_decision(claim_at(claims, key), caller) {
            Ok(_) => {
                &&& revoke_result(claims, caller, key) == Ok::<Event, Error>(
                    Event::ClaimRevoked { who: caller, claim: key },
                )
                &&& after_revoke(claims, caller, key) == claims.remove(key)
            },
            Err(error) => {
                &&& revoke_result(claims, caller, key) == Err::<Event, Error>(error)
                &&& after_revoke(claims, caller, key) == claims
            },
        },
{
}

/// A request that fails changes nothing.
pub proof fn law_failure_changes_nothing(claims: Map<ClaimKey, Claim>, request: Request)
    requires
        result_of(claims, request) is Err,
    ensures
        after(claims, request) == claims,
{
}

/// A request changes at most the claim on its own key.
pub proof fn law_other_keys_untouched(claims: Map<ClaimKey, Claim>, request: Request, key: ClaimKey)
    requires
        key != request.key(),
    ensures
        claim_at(after(claims, request), key) == claim_at(claims, key),
{
}

/// While a claim exists, its owner and the block of its registration stay as
/// they were set: no request changes a claim that it leaves in place.
pub proof fn law_claim_is_write_once(claims: Map<ClaimKey, Claim>, request: Request, key: ClaimKey)
    requires
        claims.contains_key(key),
        after(claims, request).contains_key(key),
    ensures
        after(claims, request)[key] == claims[key],
{
}

/// A claim disappears only through a revocation by its owner.
pub proof fn law_only_owner_removes(claims: Map<ClaimKey, Claim>, request: Request, key: ClaimKey)
    requires
        claims.contains_key(key),
        !after(claims, request).contains_key(key),
    ensures
        request == (Request::Revoke { caller: claims[key].owner, key }),
{
}

/// A revocation succeeds exactly when the key is claimed and the caller owns
/// the claim. It fails with `NoSuchClaim` when the key is not claimed, and
/// with `NotClaimOwner` when somebody else owns the claim.
pub proof fn law_revoke_needs_owner(claims: Map<ClaimKey, Claim>, caller: AccountId, key: ClaimKey)
    ensures
        revoke_result(claims, caller, key) is Ok <==> claim_at(claims, key) is Some && claim_at(
            claims,
            key,
        )->0.owner == caller,
        claim_at(claims, key) is None ==> revoke_result(claims, caller, key) == Err::<Event, Error>(
            Error::NoSuchClaim,
        ),
        claim_at(claims, key) is Some && claim_at(claims, key)->0.owner != caller
            ==> revoke_result(claims, caller, key) == Err::<Event, Error>(Error::NotClaimOwner),
        revoke_result(claims, caller, key) is Ok ==> claim_at(
            after_revoke(claims, caller, key),
            key,
        ) is None,
{
}

/// Right after a successful revocation, a second revocation of the same key
/// fails with `NoSuchClaim`, whoever asks.
pub proof fn law_revoke_not_twice(
    claims: Map<ClaimKey, Claim>,
    first: AccountId,
    second: AccountId,
    key: ClaimKey,
)
    requires
        revoke_result(claims, first, key) is Ok,
    ensures
        revoke_result(after_revoke(claims, first, key), second, key) == Err::<Event, Error>(
            Error::NoSuchClaim,
        ),
{
}

/// After a successful revocation the key is free again: anyone, the former
/// owner included, can claim it, and the new claim carries the new owner and
/// the block of the new request. That block differs from the one of the
/// revoked claim whenever the clock has moved in between.
pub proof fn law_reclaim(
    claims: Map<ClaimKey, Claim>,
    owner: AccountId,
    key: ClaimKey,
    caller: AccountId,
    now: BlockNumber,
)
    requires
        revoke_result(claims, owner, key) is Ok,
    ensures
        create_result(after_revoke(claims, owner, key), caller, key) == Ok::<Event, Error>(
            Event::ClaimCreated { who: caller, claim: key },
        ),
        claim_at(after_create(after_revoke(claims, owner, key), caller, key, now), key) == Some(
            Claim { owner: caller, registered_at: now },
        ),
        now != claims[key].registered_at ==> after_create(
            after_revoke(claims, owner, key),
            caller,
            key,
            now,
        )[key].registered_at != claims[key].registered_at,
{
}

/// A request that no account signed is answered with `BadOrigin` and leaves
/// the claims as they were, whatever it asks for.
pub proof fn law_unsigned_changes_nothing(
    claims: Map<ClaimKey, Claim>,
    origin: Origin,
    claim: ClaimKey,
    now: BlockNumber,
)
    requires
        signer_of(origin) is Err,
    ensures
        create_claims_result(claims, origin, claim) == Err::<Event, DispatchError>(
            DispatchError::BadOrigin,
        ),
        after_create_claims(claims, origin, claim, now) == claims,
        revoke_claims_result(claims, origin, claim) == Err::<Event, DispatchError>(
            DispatchError::BadOrigin,
        ),
        after_revoke_claims(claims, origin, claim) == claims,
{
}

/// A claimed key stays claimed as long as no request revokes the claim.
pub proof fn lemma_stays_claimed(
    claims: Map<ClaimKey, Claim>,
    requests: Seq<Request>,
    from: int,
    to: int,
    key: ClaimKey,
)
    requires
        0 <= from <= to <= requests.len(),
        after_all(claims, requests.take(from)).contains_key(key),
        forall|m: int| from <= m < to ==> !revoked_at(claims, requests, m, key),
    ensures
        after_all(claims, requests.take(to)).contains_key(key),
    decreases to - from,
{
    if from < to {
        lemma_stays_claimed(claims, requests, from, to - 1, key);
        lemma_after_all_step(claims, requests, to - 1);
        assert(!revoked_at(claims, requests, to - 1, key));
    }
}

/// A free key stays free as long as no request creates a claim on it.
pub proof fn lemma_stays_free(
    claims: Map<ClaimKey, Claim>,
    requests: Seq<Request>,
    from: int,
    to: int,
    key: ClaimKey,
)
    requires
        0 <= from <= to <= requests.len(),
        !after_all(claims, requests.take(from)).contains_key(key),
        forall|m: int| from <= m < to ==> !created_at(claims, requests, m, key),
    ensures
        !after_all(claims, requests.take(to)).contains_key(key),
    decreases to - from,
{
    if from < to {
        lemma_stays_free(claims, requests, from, to - 1, key);
        lemma_after_all_step(claims, requests, to - 1);
        assert(!created_at(claims, requests, to - 1, key));
    }
}

/// In any sequence of requests, on any claims to start with, two requests
/// that both create a claim on one key have a revocation of that claim
/// between them: since the last revocation, at most one creation succeeded.
pub proof fn law_one_create_per_claim(
    claims: Map<ClaimKey, Claim>,
    requests: Seq<Request>,
    i: int,
    j: int,
    key: ClaimKey,
)
    requires
        0 <= i < j < requests.len(),
        created_at(claims, requests, i, key),
        created_at(claims, requests, j, key),
    ensures
        exists|m: int| i < m < j && revoked_at(claims, requests, m, key),
{
    if !exists|m: int| i < m < j && revoked_at(claims, requests, m, key) {
        lemma_after_all_step(claims, requests, i);
        lemma_stays_claimed(claims, requests, i + 1, j, key);
        assert(result_at(claims, requests, j) is Err);
    }
}

/// In any sequence of requests, on any claims to start with, two requests
/// that both revoke the claim on one key have a creation of such a claim
/// between them: no claim is revoked twice.
pub proof fn law_one_revoke_per_claim(
    claims: Map<ClaimKey, Claim>,
    requests: Seq<Request>,
    i: int,
    j: int,
    key: ClaimKey,
)
    requires
        0 <= i < j < requests.len(),
        revoked_at(claims, requests, i, key),
        revoked_at(claims, requests, j, key),
    ensures
        exists|m: int| i < m < j && created_at(claims, requests, m, key),
{
    if !exists|m: int| i < m < j && created_at(claims, requests, m, key) {
        lemma_after_all_step(claims, requests, i);
        lemma_stays_free(claims, requests, i + 1, j, key);
        assert(result_at(claims, requests, j) is Err);
    }
}

/// The request at position `i` created the claim `claim` on `key`, and no
/// later request revoked it.
pub open spec fn created_and_kept(
    claims: Map<ClaimKey, Claim>,
    requests: Seq<Request>,
    i: int,
    key: ClaimKey,
    claim: Claim,
) -> bool {
    &&& 0 <= i < requests.len()
    &&& created_at(claims, requests, i, key)
    &&& requests[i] == (Request::Create {
        caller: claim.owner,
        key,
        now: claim.registered_at,
    })
    &&& forall|m: int| i < m < requests.len() ==> !revoked_at(claims, requests, m, key)
}

proof fn lemma_results_of_prefix(
    claims: Map<ClaimKey, Claim>,
    requests: Seq<Request>,
    n: int,
    i: int,
)
    requires
        0 <= i < n <= requests.len(),
    ensures
        result_at(claims, requests.take(n), i) == result_at(claims, requests, i),
        requests.take(n)[i] == requests[i],
{
    assert(requests.take(n).take(i) == requests.take(i));
}

/// Every claim in the registry was put there by a request: a key that was
/// free at the start and is claimed after a sequence of requests owes its
/// claim to one of them, which created it for the recorded owner at the
/// recorded block, and which no later request undid.
pub proof fn law_claim_comes_from_create(
    claims: Map<ClaimKey, Claim>,
    requests: Seq<Request>,
    key: ClaimKey,
)
    requires
        !claims.contains_key(key),
        after_all(claims, requests).contains_key(key),
    ensures
        exists|i: int|
            created_and_kept(claims, requests, i, key, after_all(claims, requests)[key]),
    decreases requests.len(),
{
    let n = requests.len() as int;
    let front = requests.drop_last();
    let before = after_all(claims, front);
    let claim = after_all(claims, requests)[key];
    assert(front == requests.take(n - 1));
    if created_at(claims, requests, n - 1, key) {
        assert(created_and_kept(claims, requests, n - 1, key, claim));
    } else {
        law_claim_comes_from_create(claims, front, key);
        let i = choose|i: int| created_and_kept(claims, front, i, key, before[key]);
        lemma_results_of_prefix(claims, requests, n - 1, i);
        assert forall|m: int| i < m < n implies !revoked_at(claims, requests, m, key) by {
            if m < n - 1 {
                lemma_results_of_prefix(claims, requests, n - 1, m);
                assert(!revoked_at(claims, front, m, key));
            }
        }
        assert(created_and_kept(claims, requests, i, key, claim));
    }
}

/// When any number of callers ask for one free key, in whatever order their
/// requests are handled, the first request creates the claim and every other
/// one fails with `AlreadyClaimed`: exactly one caller wins, and the claim is
/// that caller's.
pub proof fn law_one_winner(claims: Map<ClaimKey, Claim>, requests: Seq<Request>, key: ClaimKey)
    requires
        !claims.contains_key(key),
        requests.len() > 0,
        forall|i: int| 0 <= i < requests.len() ==> requests[i] is Create && requests[i].key() == key,
    ensures
        result_at(claims, requests, 0) is Ok,
        forall|i: int| 0 < i < requests.len() ==> result_at(claims, requests, i) == Err::<Event, Error>(
            Error::AlreadyClaimed,
        ),
        claim_at(after_all(claims, requests), key) == Some(
            Claim { owner: requests[0]->Create_caller, registered_at: requests[0]->Create_now },
        ),
{
    assert(requests.take(0) == Seq::<Request>::empty());
    lemma_after_all_step(claims, requests, 0);
    let first = Claim { owner: requests[0]->Create_caller, registered_at: requests[0]->Create_now };
    assert forall|n: int| 1 <= n <= requests.len() implies claim_at(
        after_all(claims, requests.take(n)),
        key,
    ) == Some(first) by {
        lemma_winner_keeps_claim(claims, requests, key, n);
    }
    assert(requests.take(requests.len() as int) == requests);
}

proof fn lemma_winner_keeps_claim(
    claims: Map<ClaimKey, Claim>,
    requests: Seq<Request>,
    key: ClaimKey,
    n: int,
)
    requires
        !claims.contains_key(key),
        1 <= n <= requests.len(),
        forall|i: int| 0 <= i < requests.len() ==> requests[i] is Create && requests[i].key() == key,
    ensures
        claim_at(after_all(claims, requests.take(n)), key) == Some(
            Claim { owner: requests[0]->Create_caller, registered_at: requests[0]->Create_now },
        ),
    decreases n,
{
    lemma_after_all_step(claims, requests, n - 1);
    if n == 1 {
        assert(requests.take(0) == Seq::<Request>::empty());
    } else {
        lemma_winner_keeps_claim(claims, requests, key, n - 1);
    }
}

} // verus!
