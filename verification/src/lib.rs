//! A proof-of-existence claim registry.
//!
//! A claim binds a content hash to the account that first registered it and
//! to the block at which it did so. Only the owner of a claim may revoke it,
//! and a revoked hash may be claimed again by anyone.
//!
//! - [`types`]: keys, accounts, claims, events and errors.
//! - [`rules`]: who may ask, and what a request yields given the claim
//!   recorded under its key.
//! - [`model`]: the registry as a mathematical map, and the effect of
//!   requests on it.
//! - [`registry`]: the executable registry, specified against the model.
//! - [`pallet`]: the registry behind an origin check.
//! - [`laws`]: what holds of the registry whatever requests it receives.
//!
//! The registry reads no clock and sends no event: its host passes the
//! current block with each request and announces the event that a successful
//! request returns. A request takes the registry by `&mut`, so requests are
//! handled one at a time, each as a single step; a host that serves several
//! threads keeps the registry behind a lock.

pub mod laws;
pub mod model;
pub mod pallet;
pub mod registry;
pub mod rules;
pub mod types;

pub use model::Request;
pub use pallet::Pallet;
pub use registry::ClaimRegistry;
pub use rules::{decide_create, decide_revoke, ensure_signed};
pub use types::{
    bytes_equal, AccountId, BadOrigin, BlockNumber, Claim, ClaimKey, DispatchError, Error, Event,
    Origin,
};
