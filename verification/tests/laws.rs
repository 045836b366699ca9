use std::collections::HashMap;

use claim_registry::{
    decide_create, decide_revoke, AccountId, Claim, ClaimKey, ClaimRegistry, Error, Event, Request,
};

fn account(n: u8) -> AccountId {
    AccountId([n; 32])
}

fn key(n: u8) -> ClaimKey {
    ClaimKey([n; 32])
}

#[test]
fn many_callers_one_key_one_winner() {
    let mut registry = ClaimRegistry::new();
    let mut requests = Vec::new();
    for n in 0..50u8 {
        requests.push(Request::Create { caller: account(n), key: key(9), now: 100 + n as u64 });
    }
    let results = registry.handle_all(&requests);
    assert_eq!(results.len(), 50);
    assert_eq!(results[0], Ok(Event::ClaimCreated { who: account(0), claim: key(9) }));
    for n in 1..50usize {
        assert_eq!(results[n], Err(Error::AlreadyClaimed));
    }
    assert_eq!(results.iter().filter(|r| r.is_ok()).count(), 1);
    assert_eq!(registry.lookup(key(9)), Some(Claim { owner: account(0), registered_at: 100 }));
}

#[test]
fn the_winner_is_whoever_comes_first() {
    let mut registry = ClaimRegistry::new();
    let requests = vec![
        Request::Create { caller: account(3), key: key(9), now: 1 },
        Request::Create { caller: account(1), key: key(9), now: 1 },
        Request::Create { caller: account(2), key: key(9), now: 1 },
    ];
    let results = registry.handle_all(&requests);
    assert_eq!(
        results,
        vec![
            Ok(Event::ClaimCreated { who: account(3), claim: key(9) }),
            Err(Error::AlreadyClaimed),
            Err(Error::AlreadyClaimed),
        ]
    );
    assert_eq!(registry.lookup(key(9)), Some(Claim { owner: account(3), registered_at: 1 }));
}

#[test]
fn between_two_creations_lies_a_revocation() {
    let mut registry = ClaimRegistry::new();
    let requests = vec![
        Request::Create { caller: account(1), key: key(1), now: 1 },
        Request::Create { caller: account(2), key: key(1), now: 2 },
        Request::Revoke { caller: account(2), key: key(1) },
        Request::Create { caller: account(2), key: key(2), now: 3 },
        Request::Create { caller: account(1), key: key(1), now: 4 },
        Request::Revoke { caller: account(1), key: key(1) },
        Request::Create { caller: account(2), key: key(1), now: 5 },
        Request::Create { caller: account(1), key: key(1), now: 6 },
    ];
    let results = registry.handle_all(&requests);
    let created: Vec<usize> = (0..requests.len())
        .filter(|&i| {
            results[i].is_ok() && matches!(requests[i], Request::Create { key: k, .. } if k == key(1))
        })
        .collect();
    assert_eq!(created, vec![0, 6]);
    let revoked: Vec<usize> = (0..requests.len())
        .filter(|&i| {
            results[i].is_ok() && matches!(requests[i], Request::Revoke { key: k, .. } if k == key(1))
        })
        .collect();
    assert_eq!(revoked, vec![5]);
    assert!(created[0] < revoked[0] && revoked[0] < created[1]);
}

#[test]
fn revoke_succeeds_exactly_for_the_owner() {
    for caller in 0..4u8 {
        let mut registry = ClaimRegistry::new();
        assert!(registry.create(account(2), key(1), 1).is_ok());
        let owner = registry.lookup(key(1)).map(|claim| claim.owner);
        let result = registry.revoke(account(caller), key(1));
        assert_eq!(result.is_ok(), owner == Some(account(caller)));
        if caller == 2 {
            assert_eq!(result, Ok(Event::ClaimRevoked { who: account(2), claim: key(1) }));
            assert_eq!(registry.lookup(key(1)), None);
        } else {
            assert_eq!(result, Err(Error::NotClaimOwner));
            assert_eq!(registry.lookup(key(1)), Some(Claim { owner: account(2), registered_at: 1 }));
        }
        assert_eq!(registry.revoke(account(caller), key(7)), Err(Error::NoSuchClaim));
    }
}

#[test]
fn revoke_never_succeeds_twice_in_a_row() {
    let mut registry = ClaimRegistry::new();
    assert!(registry.create(account(1), key(1), 1).is_ok());
    assert!(registry.revoke(account(1), key(1)).is_ok());
    for caller in 0..4u8 {
        assert_eq!(registry.revoke(account(caller), key(1)), Err(Error::NoSuchClaim));
    }
    assert!(registry.create(account(1), key(1), 2).is_ok());
    assert!(registry.revoke(account(1), key(1)).is_ok());
}

#[test]
fn anyone_can_reclaim_a_revoked_key() {
    for caller in 0..3u8 {
        let mut registry = ClaimRegistry::new();
        assert!(registry.create(account(0), key(1), 10).is_ok());
        assert!(registry.revoke(account(0), key(1)).is_ok());
        assert_eq!(
            registry.create(account(caller), key(1), 11),
            Ok(Event::ClaimCreated { who: account(caller), claim: key(1) })
        );
        assert_eq!(
            registry.lookup(key(1)),
            Some(Claim { owner: account(caller), registered_at: 11 })
        );
    }
}

#[test]
fn a_claim_does_not_change_while_it_exists() {
    let mut registry = ClaimRegistry::new();
    assert!(registry.create(account(1), key(1), 1).is_ok());
    let before = registry.lookup(key(1));
    let requests = vec![
        Request::Create { caller: account(2), key: key(1), now: 2 },
        Request::Create { caller: account(1), key: key(1), now: 3 },
        Request::Revoke { caller: account(2), key: key(1) },
        Request::Create { caller: account(2), key: key(2), now: 4 },
        Request::Revoke { caller: account(2), key: key(2) },
        Request::Revoke { caller: account(1), key: key(3) },
    ];
    for request in requests {
        let _ = registry.handle(request);
        assert_eq!(registry.lookup(key(1)), before);
    }
}

#[test]
fn a_failed_request_leaves_every_claim_in_place() {
    let mut registry = ClaimRegistry::new();
    assert!(registry.create(account(1), key(1), 1).is_ok());
    assert!(registry.create(account(2), key(2), 2).is_ok());
    assert_eq!(registry.create(account(3), key(1), 3), Err(Error::AlreadyClaimed));
    assert_eq!(registry.revoke(account(3), key(2)), Err(Error::NotClaimOwner));
    assert_eq!(registry.revoke(account(3), key(3)), Err(Error::NoSuchClaim));
    assert_eq!(registry.lookup(key(1)), Some(Claim { owner: account(1), registered_at: 1 }));
    assert_eq!(registry.lookup(key(2)), Some(Claim { owner: account(2), registered_at: 2 }));
    assert_eq!(registry.lookup(key(3)), None);
}

#[test]
fn every_claim_stems_from_the_last_creation_on_its_key() {
    let mut registry = ClaimRegistry::new();
    let requests = vec![
        Request::Create { caller: account(1), key: key(1), now: 1 },
        Request::Create { caller: account(2), key: key(2), now: 2 },
        Request::Revoke { caller: account(1), key: key(1) },
        Request::Create { caller: account(3), key: key(1), now: 3 },
        Request::Create { caller: account(1), key: key(1), now: 4 },
        Request::Revoke { caller: account(1), key: key(2) },
        Request::Create { caller: account(1), key: key(3), now: 5 },
        Request::Revoke { caller: account(1), key: key(3) },
    ];
    let results = registry.handle_all(&requests);
    assert_eq!(registry.lookup(key(1)), Some(Claim { owner: account(3), registered_at: 3 }));
    assert_eq!(registry.lookup(key(2)), Some(Claim { owner: account(2), registered_at: 2 }));
    assert_eq!(registry.lookup(key(3)), None);
    for k in [key(1), key(2)] {
        let claim = registry.lookup(k).unwrap();
        let source = (0..requests.len())
            .rev()
            .find(|&i| {
                results[i].is_ok() && matches!(requests[i], Request::Create { key, .. } if key == k)
            })
            .unwrap();
        assert_eq!(
            requests[source],
            Request::Create { caller: claim.owner, key: k, now: claim.registered_at }
        );
        for later in source + 1..requests.len() {
            assert!(
                !(results[later].is_ok()
                    && matches!(requests[later], Request::Revoke { key, .. } if key == k))
            );
        }
    }
}

#[test]
fn reclaiming_in_a_later_block_changes_the_stamp() {
    let mut registry = ClaimRegistry::new();
    assert!(registry.create(account(1), key(1), 20).is_ok());
    let old = registry.lookup(key(1)).unwrap();
    assert!(registry.revoke(account(1), key(1)).is_ok());
    assert!(registry.create(account(1), key(1), 21).is_ok());
    let new = registry.lookup(key(1)).unwrap();
    assert_eq!(new, Claim { owner: account(1), registered_at: 21 });
    assert_ne!(new.registered_at, old.registered_at);
}

#[test]
fn reclaiming_in_the_same_block_keeps_the_stamp() {
    let mut registry = ClaimRegistry::new();
    assert!(registry.create(account(1), key(1), 20).is_ok());
    assert!(registry.revoke(account(1), key(1)).is_ok());
    assert!(registry.create(account(2), key(1), 20).is_ok());
    assert_eq!(registry.lookup(key(1)), Some(Claim { owner: account(2), registered_at: 20 }));
}

#[test]
fn rules_on_a_plain_map_agree_with_the_registry() {
    let mut registry = ClaimRegistry::new();
    let mut records: HashMap<[u8; 32], Claim> = HashMap::new();
    let requests = vec![
        Request::Revoke { caller: account(0), key: key(0) },
        Request::Create { caller: account(0), key: key(0), now: 1 },
        Request::Create { caller: account(1), key: key(1), now: 1 },
        Request::Create { caller: account(1), key: key(0), now: 2 },
        Request::Revoke { caller: account(1), key: key(0) },
        Request::Revoke { caller: account(0), key: key(0) },
        Request::Create { caller: account(2), key: key(0), now: 3 },
        Request::Revoke { caller: account(1), key: key(1) },
        Request::Revoke { caller: account(1), key: key(1) },
        Request::Create { caller: account(1), key: key(1), now: 3 },
        Request::Create { caller: account(0), key: key(2), now: 4 },
        Request::Revoke { caller: account(2), key: key(2) },
        Request::Revoke { caller: account(2), key: key(0) },
    ];
    let mut succeeded = 0;
    for request in requests {
        let expected = match request {
            Request::Create { caller, key, now } => {
                match decide_create(records.get(&key.0).copied(), caller, now) {
                    Ok(claim) => {
                        records.insert(key.0, claim);
                        Ok(Event::ClaimCreated { who: caller, claim: key })
                    }
                    Err(error) => Err(error),
                }
            }
            Request::Revoke { caller, key } => {
                match decide_revoke(records.get(&key.0).copied(), caller) {
                    Ok(()) => {
                        records.remove(&key.0);
                        Ok(Event::ClaimRevoked { who: caller, claim: key })
                    }
                    Err(error) => Err(error),
                }
            }
        };
        if expected.is_ok() {
            succeeded += 1;
        }
        assert_eq!(registry.handle(request), expected);
        for k in 0..3u8 {
            assert_eq!(registry.lookup(key(k)), records.get(&key(k).0).copied());
        }
    }
    assert_eq!(succeeded, 8);
}
