//! Escrow node: the operations of the task manager together with the
//! read-only queries that cut across the engine, the payment coordinator and
//! the reputation indexer.

use vstd::prelude::*;
use crate::engine::{EscrowEngine, EscrowEngineConfig, InvoiceStatusUpdate, LiquidityInfo, NodeInfo};
use crate::error::EscrowError;
use crate::models::{Dispute, EscrowEvent, Funding, FundingMode, HoldInvoiceData, Reputation, Task, TaskState};
use crate::nostr_publisher::{NostrPublisher, NostrPublisherConfig};
use crate::payment_coordinator::{fee_of, supported_modes, PaymentCoordinator, PaymentCoordinatorConfig};
use crate::reputation_indexer::{ReputationIndexer, ReputationIndexerConfig, ReputationStats};
use crate::task_manager::{
    approved_and_paid, claim_refusal, created, disputes_of, error_for, events_of, fund_refusal,
    funded, funding_hold_live, lemma_indexer_wf, lemma_task_funding_stored, proof_refusal,
    rejected, settleable, signature_ok, signed, tasks_of, valid_create_request, verify_refusal,
    TaskManager, TaskManagerConfig,
};
pub use crate::task_manager::{
    ClaimTaskRequest, CreateTaskRequest, FundTaskRequest, SubmitProofRequest, VerifyTaskRequest,
};
use crate::verification_service::{VerificationService, VerificationServiceConfig};
use crate::EscrowResult;

verus! {

/// Configuration for the escrow node.
#[derive(Debug, Clone)]
pub struct EscrowNodeConfig {
    /// Task manager configuration
    pub task_config: TaskManagerConfig,
    /// Escrow engine configuration
    pub escrow_config: EscrowEngineConfig,
    /// Payment coordinator configuration
    pub payment_config: PaymentCoordinatorConfig,
    /// Verification service configuration
    pub verification_config: VerificationServiceConfig,
    /// Publisher configuration
    pub nostr_config: NostrPublisherConfig,
    /// Reputation indexer configuration
    pub reputation_config: ReputationIndexerConfig,
}

impl Default for EscrowNodeConfig {
    fn default() -> (r: Self)
        ensures
            r.reputation_config.min_score <= r.reputation_config.max_score,
            r.task_config.max_task_reward_sats == 10_000_000,
            !r.task_config.require_reputation_check,
            r.escrow_config.max_invoice_amount_sats == 10_000_000,
            r.verification_config.require_nostr_verification,
    {
        EscrowNodeConfig {
            task_config: TaskManagerConfig::default(),
            escrow_config: EscrowEngineConfig::default(),
            payment_config: PaymentCoordinatorConfig::default(),
            verification_config: VerificationServiceConfig::default(),
            nostr_config: NostrPublisherConfig::default(),
            reputation_config: ReputationIndexerConfig::default(),
        }
    }
}

/// Task information with related data.
#[derive(Debug)]
pub struct TaskInfo {
    pub task: Task,
    pub funding: Option<Funding>,
    pub events: Vec<EscrowEvent>,
    pub reputation: Option<Reputation>,
}

/// The tasks of an identity.
#[derive(Debug)]
pub struct UserTasksResponse {
    pub tasks: Vec<Task>,
    pub total_count: usize,
}

/// Reputation statistics.
#[derive(Debug)]
pub struct ReputationStatsResponse {
    pub stats: ReputationStats,
    pub user_reputation: Option<Reputation>,
}

/// Node health status.
#[derive(Debug, Clone)]
pub struct NodeHealth {
    pub healthy: bool,
    pub issues: Vec<String>,
    pub timestamp: i64,
}

/// Main escrow node.
pub struct EscrowNode {
    task_manager: TaskManager,
    payment_coordinator: PaymentCoordinator,
}

impl EscrowNode {
    /// The task manager.
    pub closed spec fn manager(&self) -> TaskManager {
        self.task_manager
    }

    /// Well-formedness: the task manager is well-formed.
    pub open spec fn wf(&self) -> bool {
        self.manager().wf()
    }

    /// Create a node with all components initialised; the reputation bounds
    /// must be ordered.
    pub fn new(config: EscrowNodeConfig) -> (r: EscrowResult<Self>)
        ensures
            r is Ok <==> config.reputation_config.min_score <= config.reputation_config.max_score,
            r matches Err(e) ==> e is Config,
            r matches Ok(n) ==> n.wf() && n.manager().tasks() == Map::<u128, Task>::empty()
                && n.manager().fundings() == Map::<u128, Funding>::empty()
                && n.manager().engine().active().len() == 0
                && n.manager().spec_config() == config.task_config,
    {
        if config.reputation_config.min_score > config.reputation_config.max_score {
            return Err(EscrowError::Config(String::from_str("Reputation bounds are not ordered")));
        }
        let escrow_engine = match EscrowEngine::new(config.escrow_config) {
            Ok(e) => e,
            Err(e) => {
                return Err(e);
            },
        };
        let verification_service = VerificationService::new(config.verification_config);
        let nostr_publisher = match NostrPublisher::new(config.nostr_config) {
            Ok(p) => p,
            Err(e) => {
                return Err(e);
            },
        };
        let reputation_indexer = ReputationIndexer::new(config.reputation_config);
        let payment_coordinator = PaymentCoordinator::new(config.payment_config);
        let task_manager = match TaskManager::new(
            config.task_config,
            escrow_engine,
            verification_service,
            nostr_publisher,
            reputation_indexer,
        ) {
            Ok(m) => m,
            Err(e) => {
                return Err(e);
            },
        };
        Ok(EscrowNode { task_manager, payment_coordinator })
    }

    /// Create a new task.
    pub fn create_task(&mut self, request: CreateTaskRequest) -> (r: EscrowResult<Task>)
        requires
            old(self).wf(),
        ensures
            final(self).wf(),
            !valid_create_request(request, old(self).manager().spec_config().max_task_reward_sats)
                ==> (r matches Err(e) && e is TaskValidation),
            r matches Err(e) ==> ((e is TaskValidation
                || !old(self).manager().spec_config().require_reputation_check) ==> final(self).manager()
                == old(self).manager()),
            valid_create_request(request, old(self).manager().spec_config().max_task_reward_sats)
                && !old(self).manager().spec_config().require_reputation_check ==> (r is Ok || (r matches Err(
                e,
            ) && e is Internal)),
            r matches Ok(t) ==> created(&old(self).manager(), &final(self).manager(), request, t),
            r matches Err(e) ==> (e is Internal ==> exists|id: u128|
                #[trigger] old(self).manager().tasks().contains_key(id)),
    {
        self.task_manager.create_task(request)
    }

    /// Fund a task with a hold invoice.
    pub fn fund_task(&mut self, request: FundTaskRequest) -> (r: EscrowResult<HoldInvoiceData>)
        requires
            old(self).wf(),
        ensures
            final(self).wf(),
            fund_refusal(old(self).manager().tasks(), request) matches Some(f) ==> (r matches Err(e)
                && error_for(
                f,
                e,
                old(self).manager().tasks()[request.task_id].state,
                TaskState::PendingFunding,
            )),
            fund_refusal(old(self).manager().tasks(), request) is None
                && old(self).manager().tasks()[request.task_id].reward_sats
                > old(self).manager().engine().spec_config().max_invoice_amount_sats ==> (r matches Err(
                e,
            ) && e is Invoice),
            r is Err ==> final(self).manager() == old(self).manager(),
            fund_refusal(old(self).manager().tasks(), request) is None
                && old(self).manager().tasks()[request.task_id].reward_sats
                <= old(self).manager().engine().spec_config().max_invoice_amount_sats ==> (r is Ok || (r matches Err(
                e,
            ) && e is Internal)),
            r matches Ok(d) ==> funded(&old(self).manager(), &final(self).manager(), request, d),
            r matches Err(e) ==> (e is Internal ==> (exists|f: u128|
                #[trigger] old(self).manager().fundings().contains_key(f))
                || old(self).manager().engine().active().len() > 0),
    {
        self.task_manager.fund_task(request)
    }

    /// Record that a task's hold invoice was paid.
    pub fn confirm_funding(&mut self, task_id: u128) -> (r: EscrowResult<Task>)
        requires
            old(self).wf(),
        ensures
            final(self).wf(),
            r is Err ==> final(self).manager() == old(self).manager(),
            old(self).manager().tasks().contains_key(task_id) && old(self).manager().tasks()[task_id].state
                == TaskState::PendingFunding && funding_hold_live(&old(self).manager(), task_id)
                ==> r is Ok,
            r matches Ok(t) ==> t.state == TaskState::Funded && final(self).manager().tasks()
                == old(self).manager().tasks().insert(task_id, t),
    {
        self.task_manager.confirm_funding(task_id)
    }

    /// Claim a funded task.
    pub fn claim_task(&mut self, request: ClaimTaskRequest) -> (r: EscrowResult<Task>)
        requires
            old(self).wf(),
        ensures
            final(self).wf(),
            r is Ok <==> claim_refusal(old(self).manager().tasks(), request) is None,
            claim_refusal(old(self).manager().tasks(), request) matches Some(f) ==> (r matches Err(e)
                && error_for(f, e, old(self).manager().tasks()[request.task_id].state, TaskState::Claimed)),
            r matches Ok(t) ==> t.state == TaskState::Claimed && final(self).manager().tasks()
                == old(self).manager().tasks().insert(request.task_id, t),
            r is Err ==> final(self).manager() == old(self).manager(),
    {
        self.task_manager.claim_task(request)
    }

    /// Submit proof of work completion.
    pub fn submit_proof(&mut self, request: SubmitProofRequest) -> (r: EscrowResult<Task>)
        requires
            old(self).wf(),
        ensures
            final(self).wf(),
            r is Ok <==> proof_refusal(old(self).manager().tasks(), request) is None && signed(
                old(self).manager().checker(),
                request.nostr_signature@,
                request.nostr_event_id@,
            ),
            r matches Ok(t) ==> t.state == TaskState::Claimed && t.proof_url == Some(
                request.proof_url,
            ) && t.proof_hash == Some(request.proof_hash) && final(self).manager().tasks() == old(self).manager().tasks().insert(request.task_id, t),
            r is Err ==> final(self).manager() == old(self).manager(),
    {
        self.task_manager.submit_proof(request)
    }

    /// Verify task completion: approval settles the task into `Paid`,
    /// rejection opens a dispute.
    pub fn verify_task(&mut self, request: VerifyTaskRequest) -> (r: EscrowResult<Task>)
        requires
            old(self).wf(),
        ensures
            final(self).wf(),
            verify_refusal(old(self).manager().tasks(), request) matches Some(f) ==> (r matches Err(e)
                && error_for(f, e, old(self).manager().tasks()[request.task_id].state, TaskState::Verified)),
            verify_refusal(old(self).manager().tasks(), request) is Some || !signature_ok(
                request.signature@,
                request.verifier_pubkey@,
            ) ==> (r is Err && final(self).manager() == old(self).manager()),
            verify_refusal(old(self).manager().tasks(), request) is None && signature_ok(
                request.signature@,
                request.verifier_pubkey@,
            ) && !request.approved ==> (r matches Ok(t) && rejected(
                &old(self).manager(),
                &final(self).manager(),
                request,
                t,
            )),
            verify_refusal(old(self).manager().tasks(), request) is None && signature_ok(
                request.signature@,
                request.verifier_pubkey@,
            ) && request.approved && settleable(&old(self).manager(), request.task_id) ==> (r matches Ok(t)
                && approved_and_paid(&old(self).manager(), &final(self).manager(), request, t)),
            r matches Ok(t) ==> (request.approved ==> approved_and_paid(
                &old(self).manager(),
                &final(self).manager(),
                request,
                t,
            )),
    {
        self.task_manager.verify_task(request)
    }

    /// Get a task with its funding, its audit events and its employer's
    /// reputation.
    pub fn get_task_info(&mut self, task_id: u128) -> (r: EscrowResult<TaskInfo>)
        requires
            old(self).wf(),
        ensures
            final(self).wf(),
            final(self).manager().tasks() == old(self).manager().tasks(),
            r is Ok <==> old(self).manager().tasks().contains_key(task_id),
            r matches Ok(info) ==> info.task == old(self).manager().tasks()[task_id]
                && info.events@ == events_of(old(self).manager().events(), task_id) && (
            match info.task.funding_id {
                Some(f) => info.funding == Some(old(self).manager().fundings()[f]),
                None => info.funding is None,
            }) && info.reputation is Some,
    {
        let task = match self.task_manager.get_task(task_id) {
            Ok(t) => t,
            Err(e) => {
                return Err(e);
            },
        };
        let events = match self.task_manager.get_task_events(task_id) {
            Ok(v) => v,
            Err(e) => {
                return Err(e);
            },
        };
        proof {
            lemma_task_funding_stored(&self.task_manager, task_id);
        }
        let funding = match task.funding_id {
            Some(funding_id) => match self.task_manager.get_funding(funding_id) {
                Ok(f) => Some(f),
                Err(e) => {
                    return Err(e);
                },
            },
            None => None,
        };
        let employer = task.employer_pubkey.clone();
        let reputation = match self.task_manager.get_reputation(employer.as_str()) {
            Ok(rep) => Some(rep),
            Err(_) => None,
        };
        Ok(TaskInfo { task, funding, events, reputation })
    }

    /// The disputes opened on a task.
    pub fn get_task_disputes(&self, task_id: u128) -> (r: Vec<Dispute>)
        ensures
            r@.len() == disputes_of(self.manager().disputes(), task_id).len(),
            forall|i: int| 0 <= i < r@.len() ==> (#[trigger] r@[i]).task_id == task_id,
    {
        self.task_manager.get_task_disputes(task_id)
    }

    /// Subscribe to status updates for the live hold with payment hash
    /// `invoice_hash`.
    pub fn register_status_callback(&mut self, invoice_hash: String) -> (r: EscrowResult<()>)
        requires
            old(self).wf(),
        ensures
            final(self).wf(),
            r is Ok <==> old(self).manager().engine().is_live_hash(invoice_hash@),
            final(self).manager().tasks() == old(self).manager().tasks(),
    {
        self.task_manager.register_status_callback(invoice_hash)
    }

    /// Status updates at time `now` for every subscribed hold that is still
    /// live.
    pub fn status_updates(&self, now: i64) -> (r: Vec<InvoiceStatusUpdate>)
        requires
            self.wf(),
        ensures
            forall|i: int|
                0 <= i < r@.len() ==> self.manager().engine().subscribed().contains(
                    (#[trigger] r@[i]).invoice_hash@,
                ) && r@[i].timestamp == now,
    {
        self.task_manager.status_updates(now)
    }

    /// Get all tasks of an identity, as employer or worker.
    pub fn get_user_tasks(&self, pubkey: &str) -> (r: EscrowResult<UserTasksResponse>)
        requires
            self.wf(),
        ensures
            r matches Ok(u) && u.tasks@ == tasks_of(
                self.manager().order(),
                self.manager().tasks(),
                pubkey@,
            ) && u.total_count == u.tasks@.len(),
    {
        let tasks = match self.task_manager.get_user_tasks(pubkey) {
            Ok(v) => v,
            Err(e) => {
                return Err(e);
            },
        };
        Ok(UserTasksResponse { total_count: tasks.len(), tasks })
    }

    /// Get the reputation of an identity.
    pub fn get_user_reputation(&mut self, pubkey: &str) -> (r: EscrowResult<Reputation>)
        requires
            old(self).wf(),
        ensures
            final(self).wf(),
            final(self).manager().tasks() == old(self).manager().tasks(),
            final(self).manager().indexer().record(pubkey@) matches Some(v) && r matches Ok(x)
                && x@ == v,
    {
        self.task_manager.get_reputation(pubkey)
    }

    /// Get reputation statistics for the system.
    pub fn get_reputation_stats(&self) -> (r: EscrowResult<ReputationStatsResponse>)
        requires
            self.wf(),
        ensures
            r matches Ok(s) && s.stats.total_users == self.manager().indexer().records().len()
                && s.user_reputation is None,
    {
        proof {
            lemma_indexer_wf(&self.task_manager);
        }
        let stats = match self.task_manager.reputation_indexer().get_reputation_stats() {
            Ok(s) => s,
            Err(e) => {
                return Err(e);
            },
        };
        Ok(ReputationStatsResponse { stats, user_reputation: None })
    }

    /// Get the rails that an amount is eligible for.
    pub fn get_supported_payment_modes(&self, amount_sats: u64) -> (r: Vec<FundingMode>)
        ensures
            r@ == supported_modes(amount_sats),
    {
        self.payment_coordinator.get_supported_modes(amount_sats)
    }

    /// Calculate the fee of a rail for an amount.
    pub fn calculate_payment_fees(&self, amount_sats: u64, mode: FundingMode) -> (r: u64)
        ensures
            r == fee_of(amount_sats, mode),
    {
        self.payment_coordinator.calculate_fees(amount_sats, mode)
    }

    /// Get the node's liquidity information.
    pub fn get_liquidity_info(&self) -> (r: EscrowResult<LiquidityInfo>)
        ensures
            r matches Ok(l) && l.max_hold_invoice_sats
                == self.manager().engine().spec_config().max_invoice_amount_sats,
    {
        self.task_manager.escrow_engine().get_liquidity_info()
    }

    /// Get the node's information.
    pub fn get_node_info(&self) -> (r: EscrowResult<NodeInfo>)
        ensures
            r is Ok,
    {
        self.task_manager.escrow_engine().get_node_info()
    }

    /// Check that the components answer.
    pub fn health_check(&self) -> (r: EscrowResult<NodeHealth>)
        requires
            self.wf(),
        ensures
            r matches Ok(h) && h.healthy && h.issues@.len() == 0,
    {
        let mut issues: Vec<String> = Vec::new();
        if self.task_manager.escrow_engine().get_node_info().is_err() {
            issues.push(String::from_str("Lightning node unavailable"));
        }
        proof {
            lemma_indexer_wf(&self.task_manager);
        }
        if self.task_manager.reputation_indexer().get_reputation_stats().is_err() {
            issues.push(String::from_str("Reputation indexer unavailable"));
        }
        Ok(NodeHealth { healthy: issues.len() == 0, issues, timestamp: crate::external::now_secs() })
    }

    /// Shut the node down.
    pub fn shutdown(&self) -> (r: EscrowResult<()>)
        ensures
            r is Ok,
    {
        Ok(())
    }
}

} // verus!
