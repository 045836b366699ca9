//! The plain values the registry works with: claim keys, account identifiers
//! and block numbers.

use vstd::prelude::*;

verus! {

/// Logical time at which a claim is registered: the height of the block that
/// carries the request.
pub type BlockNumber = u64;

/// Byte-wise comparison of two 32-byte identifiers.
pub fn bytes_equal(a: &[u8; 32], b: &[u8; 32]) -> (same: bool)
    ensures
        same == (*a == *b),
{
    let mut i: usize = 0;
    while i < 32
        invariant
            i <= 32,
            forall|j: int| 0 <= j < i ==> a[j] == b[j],
        decreases 32 - i,
    {
        if a[i] != b[i] {
            return false;
        }
        i += 1;
    }
    assert(*a =~= *b);
    true
}

/// The content hash that identifies a claim. The registry never interprets
/// the bytes; it only compares them.
#[derive(Clone, Copy, Debug, Eq)]
pub struct ClaimKey(pub [u8; 32]);

impl PartialEq for ClaimKey {
    fn eq(&self, other: &Self) -> (same: bool) {
        bytes_equal(&self.0, &other.0)
    }
}

impl vstd::std_specs::cmp::PartialEqSpecImpl for ClaimKey {
    open spec fn obeys_eq_spec() -> bool {
        true
    }

    open spec fn eq_spec(&self, other: &Self) -> bool {
        *self == *other
    }
}

/// An authenticated caller. The registry trusts the identifier as given and
/// only compares it with the owner recorded in a claim.
#[derive(Clone, Copy, Debug, Eq)]
pub struct AccountId(pub [u8; 32]);

impl PartialEq for AccountId {
    fn eq(&self, other: &Self) -> (same: bool) {
        bytes_equal(&self.0, &other.0)
    }
}

impl vstd::std_specs::cmp::PartialEqSpecImpl for AccountId {
    open spec fn obeys_eq_spec() -> bool {
        true
    }

    open spec fn eq_spec(&self, other: &Self) -> bool {
        *self == *other
    }
}

/// A registered claim: who owns the hash and since when. Both fields are set
/// when the claim is created and never change while it exists.
#[derive(Clone, Copy, Debug, PartialEq, Eq)]
pub struct Claim {
    pub owner: AccountId,
    pub registered_at: BlockNumber,
}

/// Why the registry turned a request down. A request that fails leaves the
/// registry as it was.
#[derive(Clone, Copy, Debug, PartialEq, Eq, Structural)]
pub enum Error {
    /// The hash is already claimed.
    AlreadyClaimed,
    /// There is no claim for the hash.
    NoSuchClaim,
    /// The caller does not own the claim.
    NotClaimOwner,
}

/// What the registry asks its host to announce after a request succeeded.
#[derive(Clone, Copy, Debug, PartialEq, Eq)]
pub enum Event {
    ClaimCreated { who: AccountId, claim: ClaimKey },
    ClaimRevoked { who: AccountId, claim: ClaimKey },
}

/// Where a request comes from, as the host has established it.
#[derive(Clone, Copy, Debug, PartialEq, Eq)]
pub enum Origin {
    /// The host itself, acting with full privilege and on behalf of no account.
    Root,
    /// An account whose signature the host has checked.
    Signed(AccountId),
    /// Nobody: the request carries no signature.
    Unsigned,
}

/// The origin of a request is not one the operation accepts.
#[derive(Clone, Copy, Debug, PartialEq, Eq, Structural)]
pub struct BadOrigin;

/// Why a dispatched request failed.
#[derive(Clone, Copy, Debug, PartialEq, Eq, Structural)]
pub enum DispatchError {
    /// The request was not signed by an account.
    BadOrigin,
    /// The registry turned the request down.
    Module(Error),
}

impl From<BadOrigin> for DispatchError {
    fn from(_bad_origin: BadOrigin) -> (dispatched: Self) {
        DispatchError::BadOrigin
    }
}

impl vstd::std_specs::convert::FromSpecImpl<BadOrigin> for DispatchError {
    open spec fn obeys_from_spec() -> bool {
        true
    }

    open spec fn from_spec(_bad_origin: BadOrigin) -> Self {
        DispatchError::BadOrigin
    }
}

impl From<Error> for DispatchError {
    fn from(error: Error) -> (dispatched: Self) {
        DispatchError::Module(error)
    }
}

impl vstd::std_specs::convert::FromSpecImpl<Error> for DispatchError {
    open spec fn obeys_from_spec() -> bool {
        true
    }

    open spec fn from_spec(error: Error) -> Self {
        DispatchError::Module(error)
    }
}

} // verus!
