//! The executable registry: the claims in a vector in which no key occurs
//! twice.

use vstd::prelude::*;
use crate::model::{
    after, after_all, after_create, after_revoke, claim_at, create_result, lemma_after_all_step,
    result_at, result_of, revoke_result, Request,
};
use crate::rules::{decide_create, decide_revoke};
use crate::types::{AccountId, BlockNumber, Claim, ClaimKey, Error, Event};

verus! {

struct Entry {
    key: ClaimKey,
    claim: Claim,
}

spec fn keys_distinct(entries: Seq<Entry>) -> bool {
    forall|i: int, j: int| 0 <= i < j < entries.len() ==> entries[i].key != entries[j].key
}

spec fn as_map(entries: Seq<Entry>) -> Map<ClaimKey, Claim>
    decreases entries.len(),
{
    if entries.len() == 0 {
        Map::empty()
    } else {
        as_map(entries.drop_last()).insert(entries.last().key, entries.last().claim)
    }
}

proof fn lemma_as_map_keys(entries: Seq<Entry>, key: ClaimKey)
    ensures
        as_map(entries).contains_key(key) <==> exists|i: int|
            0 <= i < entries.len() && entries[i].key == key,
    decreases entries.len(),
{
    if entries.len() > 0 {
        let front = entries.drop_last();
        lemma_as_map_keys(front, key);
        if as_map(entries).contains_key(key) {
            if entries.last().key == key {
                assert(entries[entries.len() - 1].key == key);
            } else {
                let i = choose|i: int| 0 <= i < front.len() && front[i].key == key;
                assert(entries[i].key == key);
            }
        }
        if exists|i: int| 0 <= i < entries.len() && entries[i].key == key {
            let i = choose|i: int| 0 <= i < entries.len() && entries[i].key == key;
            if i < front.len() {
                assert(front[i].key == key);
            }
        }
    }
}

proof fn lemma_as_map_value(entries: Seq<Entry>, i: int)
    requires
        keys_distinct(entries),
        0 <= i < entries.len(),
    ensures
        as_map(entries).contains_key(entries[i].key),
        as_map(entries)[entries[i].key] == entries[i].claim,
    decreases entries.len(),
{
    if i < entries.len() - 1 {
        let front = entries.drop_last();
        assert(front[i] == entries[i]);
        lemma_as_map_value(front, i);
    }
}

proof fn lemma_as_map_remove(entries: Seq<Entry>, i: int)
    requires
        keys_distinct(entries),
        0 <= i < entries.len(),
    ensures
        keys_distinct(entries.remove(i)),
        as_map(entries.remove(i)) == as_map(entries).remove(entries[i].key),
    decreases entries.len(),
{
    let front = entries.drop_last();
    let last = entries.last();
    let rest = entries.remove(i);
    if i == entries.len() - 1 {
        assert(rest == front);
        lemma_as_map_keys(front, last.key);
        assert(as_map(front) == as_map(entries).remove(last.key));
    } else {
        lemma_as_map_remove(front, i);
        assert(rest.drop_last() == front.remove(i));
        assert(rest.last() == last);
        assert(front[i] == entries[i]);
        assert(as_map(rest) == as_map(entries).remove(entries[i].key));
    }
}

/// The claims of a registry, each under its key.
pub struct ClaimRegistry {
    entries: Vec<Entry>,
}

impl View for ClaimRegistry {
    type V = Map<ClaimKey, Claim>;

    closed spec fn view(&self) -> Map<ClaimKey, Claim> {
        as_map(self.entries@)
    }
}

impl ClaimRegistry {
    #[verifier::type_invariant]
    spec fn well_formed(self) -> bool {
        keys_distinct(self.entries@)
    }

    /// A registry without claims.
    pub fn new() -> (registry: Self)
        ensures
            registry@ == Map::<ClaimKey, Claim>::empty(),
    {
        ClaimRegistry { entries: Vec::new() }
    }

    fn position(&self, key: ClaimKey) -> (found: Option<usize>)
        ensures
            match found {
                Some(i) => i < self.entries@.len() && self.entries@[i as int].key == key,
                None => forall|i: int| 0 <= i < self.entries@.len() ==> self.entries@[i].key != key,
            },
    {
        let mut i: usize = 0;
        while i < self.entries.len()
            invariant
                i <= self.entries@.len(),
                forall|j: int| 0 <= j < i ==> self.entries@[j].key != key,
            decreases self.entries@.len() - i,
        {
            if self.entries[i].key == key {
                return Some(i);
            }
            i += 1;
        }
        None
    }

    /// The claim recorded under `key`, if there is one. Anyone may ask.
    pub fn lookup(&self, key: ClaimKey) -> (claim: Option<Claim>)
        ensures
            claim == claim_at(self@, key),
    {
        proof {
            use_type_invariant(self);
            lemma_as_map_keys(self.entries@, key);
        }
        match self.position(key) {
            Some(i) => {
                proof {
                    lemma_as_map_value(self.entries@, i as int);
                }
                Some(self.entries[i].claim)
            },
            None => None,
        }
    }

    /// Records a claim on `key` for `caller`, stamped with the block `now`,
    /// unless the key is already claimed. On success the result is the event
    /// to announce; on failure the registry is unchanged.
    pub fn create(
        &mut self,
        caller: AccountId,
        key: ClaimKey,
        now: BlockNumber,
    ) -> (result: Result<Event, Error>)
        ensures
            result == create_result(old(self)@, caller, key),
            final(self)@ == after_create(old(self)@, caller, key, now),
    {
        let existing = self.lookup(key);
        match decide_create(existing, caller, now) {
            Err(error) => Err(error),
            Ok(claim) => {
                proof {
                    use_type_invariant(&*self);
                    lemma_as_map_keys(self.entries@, key);
                }
                let mut entries = Vec::new();
                std::mem::swap(&mut entries, &mut self.entries);
                entries.push(Entry { key, claim });
                proof {
                    assert(entries@.drop_last() == old(self).entries@);
                }
                self.entries = entries;
                Ok(Event::ClaimCreated { who: caller, claim: key })
            },
        }
    }

    /// Removes the claim on `key` if `caller` owns it. On success the result
    /// is the event to announce; on failure the registry is unchanged.
    pub fn revoke(&mut self, caller: AccountId, key: ClaimKey) -> (result: Result<Event, Error>)
        ensures
            result == revoke_result(old(self)@, caller, key),
            final(self)@ == after_revoke(old(self)@, caller, key),
    {
        proof {
            use_type_invariant(&*self);
            lemma_as_map_keys(self.entries@, key);
        }
        match self.position(key) {
            None => Err(Error::NoSuchClaim),
            Some(i) => {
                proof {
                    lemma_as_map_value(self.entries@, i as int);
                }
                match decide_revoke(Some(self.entries[i].claim), caller) {
                    Err(error) => Err(error),
                    Ok(()) => {
                        proof {
                            lemma_as_map_remove(self.entries@, i as int);
                        }
                        let mut entries = Vec::new();
                        std::mem::swap(&mut entries, &mut self.entries);
                        entries.remove(i);
                        self.entries = entries;
                        Ok(Event::ClaimRevoked { who: caller, claim: key })
                    },
                }
            },
        }
    }

    /// Handles one request.
    pub fn handle(&mut self, request: Request) -> (result: Result<Event, Error>)
        ensures
            result == result_of(old(self)@, request),
            final(self)@ == after(old(self)@, request),
    {
        match request {
            Request::Create { caller, key, now } => self.create(caller, key, now),
            Request::Revoke { caller, key } => self.revoke(caller, key),
        }
    }

    /// Handles the requests in the order given and returns the answer to
    /// each, in the same order.
    pub fn handle_all(&mut self, requests: &Vec<Request>) -> (results: Vec<Result<Event, Error>>)
        ensures
            final(self)@ == after_all(old(self)@, requests@),
            results@.len() == requests@.len(),
            forall|i: int|
                0 <= i < requests@.len() ==> results@[i] == result_at(old(self)@, requests@, i),
    {
        let mut results: Vec<Result<Event, Error>> = Vec::new();
        let mut done: usize = 0;
        proof {
            assert(requests@.take(0) == Seq::<Request>::empty());
        }
        while done < requests.len()
            invariant
                done <= requests@.len(),
                self@ == after_all(old(self)@, requests@.take(done as int)),
                results@.len() == done,
                forall|i: int| 0 <= i < done ==> results@[i] == result_at(old(self)@, requests@, i),
            decreases requests@.len() - done,
        {
            proof {
                lemma_after_all_step(old(self)@, requests@, done as int);
            }
            let result = self.handle(requests[done]);
            results.push(result);
            done += 1;
        }
        proof {
            assert(requests@.take(requests@.len() as int) == requests@);
        }
        results
    }
}

} // verus!
