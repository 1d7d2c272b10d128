//! Orchestration core of a non-custodial task-marketplace escrow.
//!
//! Tasks move through a funded, claimed, verified and settled lifecycle while
//! the reward sits in a hold invoice that is released only by revealing its
//! preimage, or returned to the payer on failure, timeout or dispute.

pub mod engine;
pub mod error;
pub mod external;
pub mod models;
pub mod node;
pub mod nostr_publisher;
pub mod payment_coordinator;
pub mod reputation_indexer;
pub mod task_manager;
pub mod verification_service;

use vstd::prelude::*;

verus! {

pub use error::EscrowError;

/// Result type of the escrow operations.
pub type EscrowResult<T> = Result<T, EscrowError>;

} // verus!
