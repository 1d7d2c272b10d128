//! Error taxonomy of the escrow system.

use vstd::prelude::*;

verus! {

/// Main error type for escrow operations.
#[derive(Debug, Clone)]
pub enum EscrowError {
    /// External integration errors (Lightning, publish sink, storage).
    Integration(String),
    /// Cryptographic verification errors.
    Crypto(String),
    /// Configuration errors.
    Config(String),
    /// Payment processing errors.
    Payment(String),
    /// Task validation errors.
    TaskValidation(String),
    /// Proof verification errors.
    ProofVerification(String),
    /// Dispute resolution errors.
    Dispute(String),
    /// Reputation system errors.
    Reputation(String),
    /// State machine transition errors.
    StateTransition { from_state: String, to_state: String, reason: String },
    /// Invoice errors.
    Invoice(String),
    /// Timeout errors.
    Timeout(String),
    /// External API errors.
    ExternalApi(String),
    /// Serialization errors.
    Serialization(String),
    /// Identifier parsing errors.
    Uuid(String),
    /// General internal errors (an invariant was found broken).
    Internal(String),
}

impl EscrowError {
    /// Create a cryptographic error.
    pub fn crypto<S: Into<String>>(msg: S) -> (r: Self)
        ensures
            r is Crypto,
    {
        EscrowError::Crypto(msg.into())
    }

    /// Create a configuration error.
    pub fn config<S: Into<String>>(msg: S) -> (r: Self)
        ensures
            r is Config,
    {
        EscrowError::Config(msg.into())
    }

    /// Create a payment error.
    pub fn payment<S: Into<String>>(msg: S) -> (r: Self)
        ensures
            r is Payment,
    {
        EscrowError::Payment(msg.into())
    }

    /// Create a task validation error.
    pub fn task_validation<S: Into<String>>(msg: S) -> (r: Self)
        ensures
            r is TaskValidation,
    {
        EscrowError::TaskValidation(msg.into())
    }

    /// Create a proof verification error.
    pub fn proof_verification<S: Into<String>>(msg: S) -> (r: Self)
        ensures
            r is ProofVerification,
    {
        EscrowError::ProofVerification(msg.into())
    }

    /// Create a dispute error.
    pub fn dispute<S: Into<String>>(msg: S) -> (r: Self)
        ensures
            r is Dispute,
    {
        EscrowError::Dispute(msg.into())
    }

    /// Create a reputation error.
    pub fn reputation<S: Into<String>>(msg: S) -> (r: Self)
        ensures
            r is Reputation,
    {
        EscrowError::Reputation(msg.into())
    }

    /// Create a state transition error.
    pub fn state_transition<S: Into<String>>(from_state: S, to_state: S, reason: S) -> (r: Self)
        ensures
            r is StateTransition,
    {
        EscrowError::StateTransition {
            from_state: from_state.into(),
            to_state: to_state.into(),
            reason: reason.into(),
        }
    }

    /// Create an invoice error.
    pub fn invoice<S: Into<String>>(msg: S) -> (r: Self)
        ensures
            r is Invoice,
    {
        EscrowError::Invoice(msg.into())
    }

    /// Create a timeout error.
    pub fn timeout<S: Into<String>>(msg: S) -> (r: Self)
        ensures
            r is Timeout,
    {
        EscrowError::Timeout(msg.into())
    }

    /// Create an external API error.
    pub fn external_api<S: Into<String>>(msg: S) -> (r: Self)
        ensures
            r is ExternalApi,
    {
        EscrowError::ExternalApi(msg.into())
    }

    /// Create an integration error.
    pub fn integration<S: Into<String>>(msg: S) -> (r: Self)
        ensures
            r is Integration,
    {
        EscrowError::Integration(msg.into())
    }

    /// Create an internal error.
    pub fn internal<S: Into<String>>(msg: S) -> (r: Self)
        ensures
            r is Internal,
    {
        EscrowError::Internal(msg.into())
    }
}

/// Errors of the wider exchange toolkit that this engine belongs to.
#[derive(Debug, Clone)]
pub enum EltrisError {
    Exchange(String),
    Lightning(String),
    Bitcoin(String),
    Arbitrage(String),
    Config(String),
    Network(String),
    InsufficientBalance { required: String, available: String },
    RateLimit,
    Auth(String),
    Serialization(String),
    Database(String),
    Internal(String),
}

} // verus!
