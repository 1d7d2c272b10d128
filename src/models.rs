//! Core data models: the task and funding state machines and the records
//! that the escrow system keeps.
//!
//! Times are whole seconds since the Unix epoch; identifiers are 128-bit
//! values.

use vstd::prelude::*;
use crate::error::EscrowError;
use crate::external::{fresh_id, now_secs};
use crate::EscrowResult;

verus! {

/// Task state machine.
#[derive(Debug, Clone, Copy, PartialEq, Eq, Structural)]
pub enum TaskState {
    /// Task created but not yet funded
    Draft,
    /// Funding invoice created, awaiting payment
    PendingFunding,
    /// Payment received and held in escrow
    Funded,
    /// Worker has claimed the task
    Claimed,
    /// Proof submitted and approved
    Verified,
    /// Funds released to worker
    Paid,
    /// Funds returned to employer
    Refunded,
    /// Under arbitration
    Disputed,
    /// Deadline passed without completion
    Expired,
}

/// The legal transition table of the task state machine.
pub open spec fn is_legal_transition(from: TaskState, to: TaskState) -> bool {
    match from {
        TaskState::Draft => to == TaskState::PendingFunding || to == TaskState::Expired,
        TaskState::PendingFunding => to == TaskState::Funded || to == TaskState::Expired || to
            == TaskState::Draft,
        TaskState::Funded => to == TaskState::Claimed || to == TaskState::Refunded || to
            == TaskState::Expired,
        TaskState::Claimed => to == TaskState::Verified || to == TaskState::Disputed || to
            == TaskState::Expired,
        TaskState::Verified => to == TaskState::Paid || to == TaskState::Disputed,
        TaskState::Disputed => to == TaskState::Paid || to == TaskState::Refunded,
        _ => false,
    }
}

/// The name under which a state appears in errors and audit records.
pub open spec fn state_name(s: TaskState) -> Seq<char> {
    match s {
        TaskState::Draft => "Draft"@,
        TaskState::PendingFunding => "PendingFunding"@,
        TaskState::Funded => "Funded"@,
        TaskState::Claimed => "Claimed"@,
        TaskState::Verified => "Verified"@,
        TaskState::Paid => "Paid"@,
        TaskState::Refunded => "Refunded"@,
        TaskState::Disputed => "Disputed"@,
        TaskState::Expired => "Expired"@,
    }
}

/// `e` is the state-transition error for the attempted pair `from -> to`.
pub open spec fn is_transition_error(e: EscrowError, from: TaskState, to: TaskState) -> bool {
    match e {
        EscrowError::StateTransition { from_state, to_state, .. } => from_state@ == state_name(
            from,
        ) && to_state@ == state_name(to),
        _ => false,
    }
}

impl TaskState {
    /// Check if this is a terminal state (no further transitions possible).
    pub fn is_terminal(&self) -> (r: bool)
        ensures
            r == (*self == TaskState::Paid || *self == TaskState::Refunded || *self
                == TaskState::Expired),
    {
        matches!(self, TaskState::Paid | TaskState::Refunded | TaskState::Expired)
    }

    /// Check if this state allows funding.
    pub fn can_fund(&self) -> (r: bool)
        ensures
            r == (*self == TaskState::Draft),
    {
        matches!(self, TaskState::Draft)
    }

    /// Check if this state allows claiming.
    pub fn can_claim(&self) -> (r: bool)
        ensures
            r == (*self == TaskState::Funded),
    {
        matches!(self, TaskState::Funded)
    }

    /// Check if this state allows proof submission.
    pub fn can_submit_proof(&self) -> (r: bool)
        ensures
            r == (*self == TaskState::Claimed),
    {
        matches!(self, TaskState::Claimed)
    }

    /// Check if this state allows verification.
    pub fn can_verify(&self) -> (r: bool)
        ensures
            r == (*self == TaskState::Claimed),
    {
        matches!(self, TaskState::Claimed)
    }

    /// Check if this state allows settlement.
    pub fn can_settle(&self) -> (r: bool)
        ensures
            r == (*self == TaskState::Verified),
    {
        matches!(self, TaskState::Verified)
    }

    /// Check if this state allows disputes.
    pub fn can_dispute(&self) -> (r: bool)
        ensures
            r == (*self == TaskState::Claimed || *self == TaskState::Verified),
    {
        matches!(self, TaskState::Claimed | TaskState::Verified)
    }

    /// Whether the transition table allows moving from this state to `to`.
    pub fn can_transition_to(&self, to: TaskState) -> (r: bool)
        ensures
            r == is_legal_transition(*self, to),
    {
        match self {
            TaskState::Draft => to == TaskState::PendingFunding || to == TaskState::Expired,
            TaskState::PendingFunding => to == TaskState::Funded || to == TaskState::Expired
                || to == TaskState::Draft,
            TaskState::Funded => to == TaskState::Claimed || to == TaskState::Refunded || to
                == TaskState::Expired,
            TaskState::Claimed => to == TaskState::Verified || to == TaskState::Disputed || to
                == TaskState::Expired,
            TaskState::Verified => to == TaskState::Paid || to == TaskState::Disputed,
            TaskState::Disputed => to == TaskState::Paid || to == TaskState::Refunded,
            _ => false,
        }
    }

    /// The state's name.
    pub fn name(&self) -> (r: String)
        ensures
            r@ == state_name(*self),
    {
        match self {
            TaskState::Draft => String::from_str("Draft"),
            TaskState::PendingFunding => String::from_str("PendingFunding"),
            TaskState::Funded => String::from_str("Funded"),
            TaskState::Claimed => String::from_str("Claimed"),
            TaskState::Verified => String::from_str("Verified"),
            TaskState::Paid => String::from_str("Paid"),
            TaskState::Refunded => String::from_str("Refunded"),
            TaskState::Disputed => String::from_str("Disputed"),
            TaskState::Expired => String::from_str("Expired"),
        }
    }
}

/// Funding mode (the payment rail).
#[derive(Debug, Clone, Copy, PartialEq, Eq, Structural)]
pub enum FundingMode {
    /// Lightning hold invoice (preferred)
    LightningHold,
    /// Standard Lightning invoice with manual verification
    LightningStandard,
    /// Submarine swap (on-chain to Lightning)
    OnchainSubmarine,
    /// Reverse swap (Lightning to on-chain)
    OnchainReverse,
    /// Multi-signature on-chain escrow (last resort)
    OnchainMultisig,
}

/// Funding status.
#[derive(Debug, Clone, Copy, PartialEq, Eq, Structural)]
pub enum FundingStatus {
    /// Funding method created, awaiting payment
    Created,
    /// Payment detected but unconfirmed
    Pending,
    /// Payment confirmed and held
    Accepted,
    /// Preimage revealed, funds released
    Settled,
    /// Hold cancelled, funds returned
    Cancelled,
    /// Expired without payment
    Expired,
    /// Payment or swap failed
    Failed,
}

impl FundingStatus {
    /// Check if this is a terminal state.
    pub fn is_terminal(&self) -> (r: bool)
        ensures
            r == (*self == FundingStatus::Settled || *self == FundingStatus::Cancelled || *self
                == FundingStatus::Expired || *self == FundingStatus::Failed),
    {
        matches!(
            self,
            FundingStatus::Settled | FundingStatus::Cancelled | FundingStatus::Expired
                | FundingStatus::Failed
        )
    }
}

/// Dispute resolution.
#[derive(Debug, Clone, Copy, PartialEq, Eq, Structural)]
pub enum DisputeResolution {
    /// Awaiting an arbitrator
    Pending,
    /// Funds returned to employer
    EmployerFavor,
    /// Funds released to worker
    WorkerFavor,
    /// Funds split between parties
    Split,
    /// Needs several arbitrators
    Escalated,
    /// Dispute withdrawn by initiator
    Withdrawn,
}

/// A unit of paid work.
#[derive(Debug)]
pub struct Task {
    pub id: u128,
    pub title: String,
    pub description: Option<String>,
    pub reward_sats: i64,
    pub currency: String,
    pub state: TaskState,
    // Parties
    pub employer_pubkey: String,
    pub worker_pubkey: Option<String>,
    /// The worker's payout invoice, captured when the task is claimed.
    pub worker_invoice: Option<String>,
    // Funding reference
    pub funding_id: Option<u128>,
    // Proof
    pub proof_url: Option<String>,
    pub proof_hash: Option<String>,
    pub proof_nostr_event_id: Option<String>,
    // Verification
    pub verified_by: Option<String>,
    pub verified_at: Option<i64>,
    pub verification_reason: Option<String>,
    // Metadata (free-form JSON text)
    pub deadline: Option<i64>,
    pub metadata: Option<String>,
    pub nostr_event_id: Option<String>,
    // Timestamps
    pub created_at: i64,
    pub updated_at: i64,
    pub claimed_at: Option<i64>,
    pub completed_at: Option<i64>,
    pub settled_at: Option<i64>,
}

/// Copies an optional string, keeping its value.
pub fn copy_opt_string(s: &Option<String>) -> (r: Option<String>)
    ensures
        r == *s,
{
    match s {
        Some(v) => Some(v.clone()),
        None => None,
    }
}

impl Clone for Task {
    fn clone(&self) -> (r: Self)
        ensures
            r == *self,
    {
        Task {
            id: self.id,
            title: self.title.clone(),
            description: copy_opt_string(&self.description),
            reward_sats: self.reward_sats,
            currency: self.currency.clone(),
            state: self.state,
            employer_pubkey: self.employer_pubkey.clone(),
            worker_pubkey: copy_opt_string(&self.worker_pubkey),
            worker_invoice: copy_opt_string(&self.worker_invoice),
            funding_id: self.funding_id,
            proof_url: copy_opt_string(&self.proof_url),
            proof_hash: copy_opt_string(&self.proof_hash),
            proof_nostr_event_id: copy_opt_string(&self.proof_nostr_event_id),
            verified_by: copy_opt_string(&self.verified_by),
            verified_at: self.verified_at,
            verification_reason: copy_opt_string(&self.verification_reason),
            deadline: self.deadline,
            metadata: copy_opt_string(&self.metadata),
            nostr_event_id: copy_opt_string(&self.nostr_event_id),
            created_at: self.created_at,
            updated_at: self.updated_at,
            claimed_at: self.claimed_at,
            completed_at: self.completed_at,
            settled_at: self.settled_at,
        }
    }
}

/// One funding attempt for exactly one task.
#[derive(Debug)]
pub struct Funding {
    pub id: u128,
    pub task_id: u128,
    // Payment rail
    pub mode: FundingMode,
    pub provider: String,
    // Lightning (hold invoice)
    pub invoice: Option<String>,
    pub invoice_hash: Option<String>,
    pub preimage_hash: Option<String>,
    pub hold_invoice_id: Option<String>,
    // Amount & expiry
    pub amount_sats: i64,
    pub expires_at: Option<i64>,
    // On-chain / swap
    pub onchain_address: Option<String>,
    pub swap_id: Option<String>,
    pub lockup_script: Option<String>,
    pub timeout_block: Option<i32>,
    // Status tracking
    pub status: FundingStatus,
    pub payment_received_at: Option<i64>,
    pub settled_at: Option<i64>,
    pub cancelled_at: Option<i64>,
    // External references (free-form JSON text)
    pub external_id: Option<String>,
    pub external_metadata: Option<String>,
    // Timestamps
    pub created_at: i64,
    pub updated_at: i64,
}

impl Clone for Funding {
    fn clone(&self) -> (r: Self)
        ensures
            r == *self,
    {
        Funding {
            id: self.id,
            task_id: self.task_id,
            mode: self.mode,
            provider: self.provider.clone(),
            invoice: copy_opt_string(&self.invoice),
            invoice_hash: copy_opt_string(&self.invoice_hash),
            preimage_hash: copy_opt_string(&self.preimage_hash),
            hold_invoice_id: copy_opt_string(&self.hold_invoice_id),
            amount_sats: self.amount_sats,
            expires_at: self.expires_at,
            onchain_address: copy_opt_string(&self.onchain_address),
            swap_id: copy_opt_string(&self.swap_id),
            lockup_script: copy_opt_string(&self.lockup_script),
            timeout_block: self.timeout_block,
            status: self.status,
            payment_received_at: self.payment_received_at,
            settled_at: self.settled_at,
            cancelled_at: self.cancelled_at,
            external_id: copy_opt_string(&self.external_id),
            external_metadata: copy_opt_string(&self.external_metadata),
            created_at: self.created_at,
            updated_at: self.updated_at,
        }
    }
}

impl Funding {
    /// A new funding record with identifier `id`, created at `now`.
    pub fn with_id(
        id: u128,
        task_id: u128,
        mode: FundingMode,
        provider: String,
        amount_sats: i64,
        expires_at: Option<i64>,
        now: i64,
    ) -> (r: Self)
        ensures
            r.id == id,
            r.created_at == now,
            r.task_id == task_id,
            r.mode == mode,
            r.provider == provider,
            r.amount_sats == amount_sats,
            r.expires_at == expires_at,
            r.status == FundingStatus::Created,
            r.invoice is None,
            r.invoice_hash is None,
            r.preimage_hash is None,
            r.hold_invoice_id is None,
            r.onchain_address is None,
            r.swap_id is None,
            r.lockup_script is None,
            r.timeout_block is None,
            r.payment_received_at is None,
            r.settled_at is None,
            r.cancelled_at is None,
            r.external_id is None,
            r.external_metadata is None,
            r.updated_at == r.created_at,
    {
        Funding {
            id,
            task_id,
            mode,
            provider,
            invoice: None,
            invoice_hash: None,
            preimage_hash: None,
            hold_invoice_id: None,
            amount_sats,
            expires_at,
            onchain_address: None,
            swap_id: None,
            lockup_script: None,
            timeout_block: None,
            status: FundingStatus::Created,
            payment_received_at: None,
            settled_at: None,
            cancelled_at: None,
            external_id: None,
            external_metadata: None,
            created_at: now,
            updated_at: now,
        }
    }

    /// Create a new funding record for a task, in status `Created`.
    pub fn new(
        task_id: u128,
        mode: FundingMode,
        provider: String,
        amount_sats: i64,
        expires_at: Option<i64>,
    ) -> (r: Self)
        ensures
            r.task_id == task_id,
            r.mode == mode,
            r.provider == provider,
            r.amount_sats == amount_sats,
            r.expires_at == expires_at,
            r.status == FundingStatus::Created,
            r.invoice is None,
            r.invoice_hash is None,
            r.preimage_hash is None,
            r.hold_invoice_id is None,
            r.onchain_address is None,
            r.swap_id is None,
            r.lockup_script is None,
            r.timeout_block is None,
            r.payment_received_at is None,
            r.settled_at is None,
            r.cancelled_at is None,
            r.external_id is None,
            r.external_metadata is None,
            r.updated_at == r.created_at,
    {
        Funding::with_id(fresh_id(), task_id, mode, provider, amount_sats, expires_at, now_secs())
    }
}

/// An append-only audit record.
#[derive(Debug)]
pub struct EscrowEvent {
    pub id: i64,
    pub event_type: String,
    // References
    pub task_id: Option<u128>,
    pub funding_id: Option<u128>,
    // Event data
    pub invoice_hash: Option<String>,
    pub preimage: Option<String>,
    pub amount_sats: Option<i64>,
    // Actor
    pub actor_pubkey: Option<String>,
    // Metadata (free-form JSON text)
    pub provider: Option<String>,
    pub status: Option<String>,
    pub metadata: Option<String>,
    // Cryptographic proof
    pub nostr_event_id: Option<String>,
    pub signature: Option<String>,
    // Timestamp (immutable)
    pub created_at: i64,
}

impl Clone for EscrowEvent {
    fn clone(&self) -> (r: Self)
        ensures
            r == *self,
    {
        EscrowEvent {
            id: self.id,
            event_type: self.event_type.clone(),
            task_id: self.task_id,
            funding_id: self.funding_id,
            invoice_hash: copy_opt_string(&self.invoice_hash),
            preimage: copy_opt_string(&self.preimage),
            amount_sats: self.amount_sats,
            actor_pubkey: copy_opt_string(&self.actor_pubkey),
            provider: copy_opt_string(&self.provider),
            status: copy_opt_string(&self.status),
            metadata: copy_opt_string(&self.metadata),
            nostr_event_id: copy_opt_string(&self.nostr_event_id),
            signature: copy_opt_string(&self.signature),
            created_at: self.created_at,
        }
    }
}

/// The lowest score of the tier bands.
pub const MIN_SCORE: i32 = 0;

/// The highest score of the tier bands.
pub const MAX_SCORE: i32 = 1000;

/// The tier that a score falls in; the bands do not overlap, and a score
/// outside all of them counts as `New`.
pub open spec fn tier_of(score: int) -> Seq<char> {
    if 0 <= score <= 99 {
        "New"@
    } else if 100 <= score <= 299 {
        "Beginner"@
    } else if 300 <= score <= 599 {
        "Intermediate"@
    } else if 600 <= score <= 799 {
        "Advanced"@
    } else if 800 <= score <= 949 {
        "Trusted"@
    } else if 950 <= score <= 1000 {
        "Elite"@
    } else {
        "New"@
    }
}

/// `v` limited to `[lo, hi]`.
pub open spec fn clamp(v: int, lo: int, hi: int) -> int {
    if v < lo {
        lo
    } else if v > hi {
        hi
    } else {
        v
    }
}

/// Bonus of a task outcome for the amount at stake: one point per 10,000
/// sats, at most 50; amounts that are not positive earn none.
pub open spec fn completion_amount_bonus(amount_sats: int) -> int {
    if amount_sats <= 0 {
        0
    } else if amount_sats / 10000 > 50 {
        50
    } else {
        amount_sats / 10000
    }
}

/// Timeliness adjustment of a task outcome.
pub open spec fn timeliness_points(on_time: bool) -> int {
    if on_time {
        20
    } else {
        -10
    }
}

/// Points of a task outcome in `update_score`: completed or refunded, the
/// amount bonus and the timeliness adjustment.
pub open spec fn outcome_points(completed: bool, amount_sats: int, on_time: bool) -> int {
    (if completed {
        50int
    } else {
        -25int
    }) + completion_amount_bonus(amount_sats) + timeliness_points(on_time)
}

/// The tier of a score.
pub fn tier_name(score: i32) -> (r: String)
    ensures
        r@ == tier_of(score as int),
{
    if 0 <= score && score <= 99 {
        String::from_str("New")
    } else if 100 <= score && score <= 299 {
        String::from_str("Beginner")
    } else if 300 <= score && score <= 599 {
        String::from_str("Intermediate")
    } else if 600 <= score && score <= 799 {
        String::from_str("Advanced")
    } else if 800 <= score && score <= 949 {
        String::from_str("Trusted")
    } else if 950 <= score && score <= 1000 {
        String::from_str("Elite")
    } else {
        String::from_str("New")
    }
}

/// The amount bonus of a task outcome.
pub fn amount_bonus(amount_sats: i64) -> (r: i64)
    ensures
        r == completion_amount_bonus(amount_sats as int),
        0 <= r <= 50,
{
    if amount_sats <= 0 {
        0
    } else if amount_sats / 10000 > 50 {
        50
    } else {
        amount_sats / 10000
    }
}

/// Per-identity reputation record.
#[derive(Debug)]
pub struct Reputation {
    pub pubkey: String,
    // Score and derived tier
    pub score: i32,
    pub tier: String,
    // Stats as employer
    pub tasks_created: i32,
    pub tasks_funded: i32,
    pub tasks_cancelled: i32,
    pub total_sats_paid: i64,
    // Stats as worker
    pub tasks_claimed: i32,
    pub tasks_completed: i32,
    pub tasks_failed: i32,
    pub total_sats_earned: i64,
    // Quality metrics
    pub disputes_total: i32,
    pub disputes_won: i32,
    pub disputes_lost: i32,
    // Badges
    pub badges: Vec<String>,
    // Penalties
    pub penalty_points: i32,
    pub suspended_until: Option<i64>,
    // Timestamps
    pub first_seen_at: i64,
    pub last_active_at: i64,
    pub updated_at: i64,
}

/// Copies a list of strings, keeping its contents.
pub fn copy_strings(v: &Vec<String>) -> (r: Vec<String>)
    ensures
        r@ == v@,
{
    let mut r: Vec<String> = Vec::new();
    let mut i: usize = 0;
    while i < v.len()
        invariant
            i <= v.len(),
            r@ == v@.subrange(0, i as int),
        decreases v.len() - i,
    {
        r.push(v[i].clone());
        i = i + 1;
    }
    assert(r@ =~= v@);
    r
}

impl Clone for Reputation {
    fn clone(&self) -> (r: Self)
        ensures
            r.pubkey == self.pubkey,
            r.score == self.score,
            r.tier == self.tier,
            r.tasks_created == self.tasks_created,
            r.tasks_funded == self.tasks_funded,
            r.tasks_cancelled == self.tasks_cancelled,
            r.total_sats_paid == self.total_sats_paid,
            r.tasks_claimed == self.tasks_claimed,
            r.tasks_completed == self.tasks_completed,
            r.tasks_failed == self.tasks_failed,
            r.total_sats_earned == self.total_sats_earned,
            r.disputes_total == self.disputes_total,
            r.disputes_won == self.disputes_won,
            r.disputes_lost == self.disputes_lost,
            r.badges@ == self.badges@,
            r.penalty_points == self.penalty_points,
            r.suspended_until == self.suspended_until,
            r.first_seen_at == self.first_seen_at,
            r.last_active_at == self.last_active_at,
            r.updated_at == self.updated_at,
    {
        Reputation {
            pubkey: self.pubkey.clone(),
            score: self.score,
            tier: self.tier.clone(),
            tasks_created: self.tasks_created,
            tasks_funded: self.tasks_funded,
            tasks_cancelled: self.tasks_cancelled,
            total_sats_paid: self.total_sats_paid,
            tasks_claimed: self.tasks_claimed,
            tasks_completed: self.tasks_completed,
            tasks_failed: self.tasks_failed,
            total_sats_earned: self.total_sats_earned,
            disputes_total: self.disputes_total,
            disputes_won: self.disputes_won,
            disputes_lost: self.disputes_lost,
            badges: copy_strings(&self.badges),
            penalty_points: self.penalty_points,
            suspended_until: self.suspended_until,
            first_seen_at: self.first_seen_at,
            last_active_at: self.last_active_at,
            updated_at: self.updated_at,
        }
    }
}

impl Reputation {
    /// Create a new reputation record, at the midpoint score.
    pub fn new(pubkey: String) -> (r: Self)
        ensures
            r.pubkey == pubkey,
            r.score == 500,
            r.tier@ == tier_of(500),
            r.tasks_created == 0 && r.tasks_funded == 0 && r.tasks_cancelled == 0,
            r.total_sats_paid == 0,
            r.tasks_claimed == 0 && r.tasks_completed == 0 && r.tasks_failed == 0,
            r.total_sats_earned == 0,
            r.disputes_total == 0 && r.disputes_won == 0 && r.disputes_lost == 0,
            r.badges@.len() == 0,
            r.penalty_points == 0,
            r.suspended_until is None,
            r.last_active_at == r.first_seen_at && r.updated_at == r.first_seen_at,
    {
        let now = now_secs();
        Reputation {
            pubkey,
            score: 500,
            tier: tier_name(500),
            tasks_created: 0,
            tasks_funded: 0,
            tasks_cancelled: 0,
            total_sats_paid: 0,
            tasks_claimed: 0,
            tasks_completed: 0,
            tasks_failed: 0,
            total_sats_earned: 0,
            disputes_total: 0,
            disputes_won: 0,
            disputes_lost: 0,
            badges: Vec::new(),
            penalty_points: 0,
            suspended_until: None,
            first_seen_at: now,
            last_active_at: now,
            updated_at: now,
        }
    }

    /// Recompute the tier from the score.
    pub fn calculate_tier(&mut self)
        ensures
            final(self).tier@ == tier_of(old(self).score as int),
            *final(self) == (Reputation { tier: final(self).tier, ..*old(self) }),
    {
        self.tier = tier_name(self.score);
    }

    /// Update the score for a task outcome: 50 points if completed, -25 if
    /// not, the amount bonus, and 20 points if on time, -10 if late; the score
    /// stays within the tier bands.
    pub fn update_score(&mut self, completed: bool, amount_sats: i64, on_time: bool)
        ensures
            final(self).score == clamp(
                old(self).score + outcome_points(completed, amount_sats as int, on_time),
                MIN_SCORE as int,
                MAX_SCORE as int,
            ),
            final(self).tier@ == tier_of(final(self).score as int),
            *final(self) == (Reputation {
                score: final(self).score,
                tier: final(self).tier,
                ..*old(self)
            }),
    {
        let base_points: i64 = if completed { 50 } else { -25 };
        let time_bonus: i64 = if on_time { 20 } else { -10 };
        let total: i64 = self.score as i64 + base_points + amount_bonus(amount_sats) + time_bonus;
        let clamped: i64 = if total < MIN_SCORE as i64 {
            MIN_SCORE as i64
        } else if total > MAX_SCORE as i64 {
            MAX_SCORE as i64
        } else {
            total
        };
        self.score = clamped as i32;
        self.calculate_tier();
    }
}

/// Created when verification is rejected.
#[derive(Debug)]
pub struct Dispute {
    pub id: u128,
    pub task_id: u128,
    // Parties
    pub initiated_by: String,
    pub respondent: String,
    // Reason
    pub reason: String,
    pub evidence_urls: Vec<String>,
    // Arbitration
    pub arbitrator_pubkey: Option<String>,
    pub resolution: Option<DisputeResolution>,
    pub resolution_reason: Option<String>,
    // Outcome (distribution as free-form JSON text)
    pub winner: Option<String>,
    pub funds_distribution: Option<String>,
    // Reputation impact
    pub penalty_employer: i32,
    pub penalty_worker: i32,
    // Timestamps
    pub created_at: i64,
    pub resolved_at: Option<i64>,
    // Publish reference
    pub nostr_event_id: Option<String>,
}

impl Clone for Dispute {
    fn clone(&self) -> (r: Self)
        ensures
            r.id == self.id && r.task_id == self.task_id,
            r.initiated_by == self.initiated_by && r.respondent == self.respondent,
            r.reason == self.reason,
            r.evidence_urls@ == self.evidence_urls@,
            r.resolution == self.resolution,
    {
        Dispute {
            id: self.id,
            task_id: self.task_id,
            initiated_by: self.initiated_by.clone(),
            respondent: self.respondent.clone(),
            reason: self.reason.clone(),
            evidence_urls: copy_strings(&self.evidence_urls),
            arbitrator_pubkey: copy_opt_string(&self.arbitrator_pubkey),
            resolution: self.resolution,
            resolution_reason: copy_opt_string(&self.resolution_reason),
            winner: copy_opt_string(&self.winner),
            funds_distribution: copy_opt_string(&self.funds_distribution),
            penalty_employer: self.penalty_employer,
            penalty_worker: self.penalty_worker,
            created_at: self.created_at,
            resolved_at: self.resolved_at,
            nostr_event_id: copy_opt_string(&self.nostr_event_id),
        }
    }
}

impl Dispute {
    /// Open a new dispute, pending arbitration.
    pub fn new(
        task_id: u128,
        initiated_by: String,
        respondent: String,
        reason: String,
        evidence_urls: Vec<String>,
    ) -> (r: Self)
        ensures
            r.task_id == task_id,
            r.initiated_by == initiated_by,
            r.respondent == respondent,
            r.reason == reason,
            r.evidence_urls == evidence_urls,
            r.arbitrator_pubkey is None,
            r.resolution == Some(DisputeResolution::Pending),
            r.resolution_reason is None,
            r.winner is None,
            r.funds_distribution is None,
            r.penalty_employer == 0 && r.penalty_worker == 0,
            r.resolved_at is None,
            r.nostr_event_id is None,
    {
        let id = fresh_id();
        let now = now_secs();
        Dispute {
            id,
            task_id,
            initiated_by,
            respondent,
            reason,
            evidence_urls,
            arbitrator_pubkey: None,
            resolution: Some(DisputeResolution::Pending),
            resolution_reason: None,
            winner: None,
            funds_distribution: None,
            penalty_employer: 0,
            penalty_worker: 0,
            created_at: now,
            resolved_at: None,
            nostr_event_id: None,
        }
    }
}

/// Cached profile data of an identity.
#[derive(Debug, Clone)]
pub struct User {
    pub pubkey: String,
    // Profile
    pub name: Option<String>,
    pub display_name: Option<String>,
    pub about: Option<String>,
    pub picture: Option<String>,
    pub nip05: Option<String>,
    pub nip05_verified: bool,
    // Contact
    pub lud16: Option<String>,
    pub lud06: Option<String>,
    // Settings (JSON text)
    pub settings: String,
    // Timestamps
    pub created_at: i64,
    pub updated_at: i64,
    pub last_seen_at: Option<i64>,
}

/// Hold invoice data.
#[derive(Debug)]
pub struct HoldInvoiceData {
    pub invoice: String,
    pub invoice_hash: String,
    pub hold_invoice_id: String,
    pub amount_sats: u64,
    pub expires_at: i64,
}

impl Clone for HoldInvoiceData {
    fn clone(&self) -> (r: Self)
        ensures
            r == *self,
    {
        HoldInvoiceData {
            invoice: self.invoice.clone(),
            invoice_hash: self.invoice_hash.clone(),
            hold_invoice_id: self.hold_invoice_id.clone(),
            amount_sats: self.amount_sats,
            expires_at: self.expires_at,
        }
    }
}

/// Invoice settlement data.
#[derive(Debug)]
pub struct InvoiceSettlementData {
    pub invoice_hash: String,
    pub preimage: String,
    pub amount_sats: u64,
    pub settled_at: i64,
    /// The invoice the held payment was routed to.
    pub paid_to: String,
}

/// A state transition that the table allows.
#[derive(Debug)]
pub struct StateTransition {
    pub from_state: TaskState,
    pub to_state: TaskState,
    pub reason: String,
    pub valid: bool,
}

impl Task {
    /// A new task in `Draft` with identifier `id`, created at `now`.
    pub fn with_id(
        id: u128,
        title: String,
        description: Option<String>,
        reward_sats: i64,
        employer_pubkey: String,
        deadline: Option<i64>,
        now: i64,
    ) -> (r: Self)
        ensures
            r.id == id,
            r.created_at == now,
            r.title == title,
            r.description == description,
            r.reward_sats == reward_sats,
            r.currency@ == "BTC"@,
            r.state == TaskState::Draft,
            r.employer_pubkey == employer_pubkey,
            r.worker_pubkey is None,
            r.worker_invoice is None,
            r.funding_id is None,
            r.proof_url is None,
            r.proof_hash is None,
            r.proof_nostr_event_id is None,
            r.verified_by is None,
            r.verified_at is None,
            r.verification_reason is None,
            r.deadline == deadline,
            r.metadata is None,
            r.nostr_event_id is None,
            r.updated_at == r.created_at,
            r.claimed_at is None,
            r.completed_at is None,
            r.settled_at is None,
    {
        Task {
            id,
            title,
            description,
            reward_sats,
            currency: String::from_str("BTC"),
            state: TaskState::Draft,
            employer_pubkey,
            worker_pubkey: None,
            worker_invoice: None,
            funding_id: None,
            proof_url: None,
            proof_hash: None,
            proof_nostr_event_id: None,
            verified_by: None,
            verified_at: None,
            verification_reason: None,
            deadline,
            metadata: None,
            nostr_event_id: None,
            created_at: now,
            updated_at: now,
            claimed_at: None,
            completed_at: None,
            settled_at: None,
        }
    }

    /// Create a new task in `Draft`.
    pub fn new(
        title: String,
        description: Option<String>,
        reward_sats: i64,
        employer_pubkey: String,
        deadline: Option<i64>,
    ) -> (r: Self)
        ensures
            r.title == title,
            r.description == description,
            r.reward_sats == reward_sats,
            r.currency@ == "BTC"@,
            r.state == TaskState::Draft,
            r.employer_pubkey == employer_pubkey,
            r.worker_pubkey is None,
            r.worker_invoice is None,
            r.funding_id is None,
            r.proof_url is None,
            r.proof_hash is None,
            r.proof_nostr_event_id is None,
            r.verified_by is None,
            r.verified_at is None,
            r.verification_reason is None,
            r.deadline == deadline,
            r.metadata is None,
            r.nostr_event_id is None,
            r.updated_at == r.created_at,
            r.claimed_at is None,
            r.completed_at is None,
            r.settled_at is None,
    {
        Task::with_id(fresh_id(), title, description, reward_sats, employer_pubkey, deadline, now_secs())
    }

    /// Check that the legal moves of a task include this one.
    pub fn validate_transition(&self, to_state: TaskState) -> (r: EscrowResult<StateTransition>)
        ensures
            r is Ok <==> is_legal_transition(self.state, to_state),
            r matches Ok(t) ==> t.from_state == self.state && t.to_state == to_state && t.valid
                && t.reason@.len() == 0,
            r matches Err(e) ==> is_transition_error(e, self.state, to_state),
            r matches Err(EscrowError::StateTransition { reason, .. }) ==> reason@.len() > 0,
    {
        proof {
            reveal_strlit("Invalid state transition");
        }
        if self.state.can_transition_to(to_state) {
            Ok(StateTransition {
                from_state: self.state,
                to_state,
                reason: String::new(),
                valid: true,
            })
        } else {
            Err(
                EscrowError::StateTransition {
                    from_state: self.state.name(),
                    to_state: to_state.name(),
                    reason: String::from_str("Invalid state transition"),
                },
            )
        }
    }
}

} // verus!
