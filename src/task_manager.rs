//! Task manager: the single writer of task, funding and audit state.
//!
//! Every operation fetches the task, validates the request, checks the
//! state machine's guard, calls the collaborator it needs, and only then
//! stores the new state, updates reputation and appends an audit event. An
//! operation that fails leaves tasks and fundings exactly as they were.

use vstd::prelude::*;
use std::collections::HashMap;
use crate::engine::{EscrowEngine, InvoiceStatusUpdate};
use crate::error::EscrowError;
use crate::external::{fresh_id, is_blank, is_blank_text, json_object, now_secs, uuid_text, JsonEntry};
use crate::payment_coordinator::expiry_after;
use crate::models::{
    is_transition_error, Dispute, EscrowEvent, Funding, FundingMode, FundingStatus,
    HoldInvoiceData, InvoiceSettlementData, Task, TaskState,
};
use crate::nostr_publisher::{number_entry, text_entry, NostrPublisher};
use crate::reputation_indexer::{
    apply_update, bounded, lemma_other_record, ReputationIndexer, ReputationUpdate, ReputationView,
};
use crate::verification_service::VerificationService;
use crate::EscrowResult;

verus! {

broadcast use vstd::std_specs::hash::group_hash_axioms;

/// Configuration for the task manager.
#[derive(Debug, Clone)]
pub struct TaskManagerConfig {
    /// Default task timeout in hours
    pub default_task_timeout_hours: u32,
    /// Maximum task reward in sats
    pub max_task_reward_sats: i64,
    /// Require a reputation check for task creation
    pub require_reputation_check: bool,
    /// Minimum reputation score to create tasks
    pub min_reputation_score: i32,
}

impl Default for TaskManagerConfig {
    fn default() -> (r: Self)
        ensures
            r.default_task_timeout_hours == 168,
            r.max_task_reward_sats == 10_000_000,
            !r.require_reputation_check,
            r.min_reputation_score == 100,
    {
        TaskManagerConfig {
            default_task_timeout_hours: 168,
            max_task_reward_sats: 10_000_000,
            require_reputation_check: false,
            min_reputation_score: 100,
        }
    }
}

/// Task creation request.
#[derive(Debug, Clone)]
pub struct CreateTaskRequest {
    pub title: String,
    pub description: Option<String>,
    pub reward_sats: i64,
    pub employer_pubkey: String,
    pub deadline: Option<i64>,
    /// Free-form JSON text
    pub metadata: Option<String>,
}

/// Task funding request.
#[derive(Debug, Clone)]
pub struct FundTaskRequest {
    pub task_id: u128,
    pub employer_pubkey: String,
    pub mode: FundingMode,
}

/// Task claiming request.
#[derive(Debug, Clone)]
pub struct ClaimTaskRequest {
    pub task_id: u128,
    pub worker_pubkey: String,
    pub worker_invoice: String,
}

/// Proof submission request.
#[derive(Debug, Clone)]
pub struct SubmitProofRequest {
    pub task_id: u128,
    pub worker_pubkey: String,
    pub proof_url: String,
    pub proof_hash: String,
    pub nostr_event_id: String,
    pub nostr_signature: String,
}

/// Task verification request.
#[derive(Debug, Clone)]
pub struct VerifyTaskRequest {
    pub task_id: u128,
    pub verifier_pubkey: String,
    pub approved: bool,
    pub reason: String,
    pub signature: String,
}

/// Why a request about a task is refused before any collaborator is
/// called.
#[derive(Debug, Clone, Copy, PartialEq, Eq, Structural)]
pub enum Refusal {
    /// No task has the id (a validation error).
    NotFound,
    /// The request is malformed or comes from the wrong identity (a
    /// validation error).
    Invalid,
    /// The task's state does not allow the step (a state-transition error).
    WrongState,
}

/// `r` is the error that `refusal` calls for.
pub open spec fn error_for(refusal: Refusal, e: EscrowError, from: TaskState, to: TaskState) -> bool {
    match refusal {
        Refusal::NotFound | Refusal::Invalid => e is TaskValidation,
        Refusal::WrongState => is_transition_error(e, from, to),
    }
}

/// Whether a creation request is well-formed under the reward limit.
pub open spec fn valid_create_request(req: CreateTaskRequest, max_reward: i64) -> bool {
    !is_blank_text(req.title@) && 0 < req.reward_sats <= max_reward && !is_blank_text(
        req.employer_pubkey@,
    )
}

/// Why a funding request is refused, if it is.
pub open spec fn fund_refusal(tasks: Map<u128, Task>, req: FundTaskRequest) -> Option<Refusal> {
    if !tasks.contains_key(req.task_id) {
        Some(Refusal::NotFound)
    } else if tasks[req.task_id].employer_pubkey@ != req.employer_pubkey@ {
        Some(Refusal::Invalid)
    } else if tasks[req.task_id].state != TaskState::Draft {
        Some(Refusal::WrongState)
    } else {
        None
    }
}

/// Why a claim is refused, if it is.
pub open spec fn claim_refusal(tasks: Map<u128, Task>, req: ClaimTaskRequest) -> Option<Refusal> {
    if !tasks.contains_key(req.task_id) {
        Some(Refusal::NotFound)
    } else if tasks[req.task_id].state != TaskState::Funded {
        Some(Refusal::WrongState)
    } else if is_blank_text(req.worker_pubkey@) || is_blank_text(req.worker_invoice@) {
        Some(Refusal::Invalid)
    } else {
        None
    }
}

/// Whether `pubkey` is the worker who claimed the task.
pub open spec fn is_worker(t: Task, pubkey: Seq<char>) -> bool {
    match t.worker_pubkey {
        Some(w) => w@ == pubkey,
        None => false,
    }
}

/// Why a proof submission is refused, if it is.
pub open spec fn proof_refusal(tasks: Map<u128, Task>, req: SubmitProofRequest) -> Option<
    Refusal,
> {
    if !tasks.contains_key(req.task_id) {
        Some(Refusal::NotFound)
    } else if !is_worker(tasks[req.task_id], req.worker_pubkey@) {
        Some(Refusal::Invalid)
    } else if tasks[req.task_id].state != TaskState::Claimed {
        Some(Refusal::WrongState)
    } else if is_blank_text(req.proof_url@) || is_blank_text(req.proof_hash@) {
        Some(Refusal::Invalid)
    } else {
        None
    }
}

/// Why a verification is refused, if it is. Approval also needs a proof
/// to have been submitted.
pub open spec fn verify_refusal(tasks: Map<u128, Task>, req: VerifyTaskRequest) -> Option<
    Refusal,
> {
    if !tasks.contains_key(req.task_id) {
        Some(Refusal::NotFound)
    } else if tasks[req.task_id].employer_pubkey@ != req.verifier_pubkey@ {
        Some(Refusal::Invalid)
    } else if tasks[req.task_id].state != TaskState::Claimed {
        Some(Refusal::WrongState)
    } else if req.approved && (tasks[req.task_id].proof_url is None
        || tasks[req.task_id].proof_hash is None) {
        Some(Refusal::Invalid)
    } else {
        None
    }
}

/// Whether a task is in one of the states from funding on, up to payment.
pub open spec fn is_funded_state(s: TaskState) -> bool {
    s == TaskState::PendingFunding || s == TaskState::Funded || s == TaskState::Claimed || s
        == TaskState::Verified || s == TaskState::Paid
}

/// Whether a task has been claimed (and not refunded or expired since).
pub open spec fn is_claimed_state(s: TaskState) -> bool {
    s == TaskState::Claimed || s == TaskState::Verified || s == TaskState::Paid || s
        == TaskState::Disputed
}

/// The invariant of a stored task, given the stored fundings.
pub open spec fn task_ok(t: Task, fundings: Map<u128, Funding>) -> bool {
    &&& 0 < t.reward_sats
    &&& t.state == TaskState::Draft ==> t.funding_id is None && t.worker_pubkey is None
    &&& is_funded_state(t.state) || t.state == TaskState::Disputed ==> t.funding_id is Some
    &&& t.funding_id matches Some(f) ==> fundings.contains_key(f) && fundings[f].task_id == t.id
        && fundings[f].hold_invoice_id is Some
    &&& is_claimed_state(t.state) ==> t.worker_pubkey is Some && t.claimed_at is Some && (
    t.worker_invoice matches Some(w) && w@.len() > 0)
    &&& t.state == TaskState::Verified || t.state == TaskState::Paid ==> t.proof_url is Some
        && t.proof_hash is Some && t.verified_by is Some && t.verified_at is Some
    &&& t.state == TaskState::Paid ==> t.settled_at is Some
}

/// The id of the audit event at position `i`: one more than its position,
/// so each event's id is above those of every earlier one (ids stop at the
/// largest `i64`).
pub open spec fn event_id_at(i: int) -> int {
    if i + 1 <= i64::MAX {
        i + 1
    } else {
        i64::MAX as int
    }
}

/// `after` appends to the audit log of `before` and keeps what was there.
pub open spec fn log_extends(before: Seq<EscrowEvent>, after: Seq<EscrowEvent>) -> bool {
    before.len() <= after.len() && forall|i: int|
        0 <= i < before.len() ==> #[trigger] after[i] == before[i]
}

/// Whether the employer passes the creation reputation check at `now`
/// (always, when the check is off).
pub open spec fn passes_reputation_check(m: &TaskManager, employer: Seq<char>, now: int) -> bool {
    !m.spec_config().require_reputation_check || m.indexer().read_view(employer, now).score
        >= m.spec_config().min_reputation_score
}

/// The employer's record that the creation bonus is added to: as read at
/// `now` when the reputation check is on, as stored otherwise.
pub open spec fn creation_base(m: &TaskManager, employer: Seq<char>, now: int) -> ReputationView {
    if m.spec_config().require_reputation_check {
        m.indexer().read_view(employer, now)
    } else {
        m.indexer().record_or_fresh(employer)
    }
}

/// What a successful `create_task` did: a new `Draft` task built from the
/// request was stored under a fresh id, the only change to tasks and
/// fundings, and one `task.created` event was appended to the log.
pub open spec fn created(before: &TaskManager, after: &TaskManager, req: CreateTaskRequest, t: Task) -> bool {
    &&& valid_create_request(req, before.spec_config().max_task_reward_sats)
    &&& t.state == TaskState::Draft
    &&& t.title == req.title
    &&& t.description == req.description
    &&& t.reward_sats == req.reward_sats
    &&& t.employer_pubkey == req.employer_pubkey
    &&& t.deadline == req.deadline
    &&& t.metadata == req.metadata
    &&& t.worker_pubkey is None
    &&& t.worker_invoice is None
    &&& t.claimed_at is None
    &&& t.proof_url is None
    &&& t.verified_by is None
    &&& t.funding_id is None
    &&& !before.tasks().contains_key(t.id)
    &&& after.tasks() == before.tasks().insert(t.id, t)
    &&& after.fundings() == before.fundings()
    &&& after.engine() == before.engine()
    &&& after.events().len() == before.events().len() + 1
    &&& log_extends(before.events(), after.events())
    &&& after.events().last().event_type@ == "task.created"@
    &&& after.events().last().task_id == Some(t.id)
}

/// The funding of a stored task has an invoice hash that is live in the
/// escrow engine.
pub open spec fn funding_hold_live(m: &TaskManager, task_id: u128) -> bool {
    &&& m.tasks()[task_id].funding_id matches Some(f)
    &&& m.fundings()[f].invoice_hash matches Some(h)
    &&& m.engine().is_live_hash(h@)
}

/// A stored task can be settled: its funding's hold is live in the escrow
/// engine and its worker's payout invoice is non-empty.
pub open spec fn settleable(m: &TaskManager, task_id: u128) -> bool {
    &&& m.tasks()[task_id].funding_id matches Some(f)
    &&& m.fundings()[f].hold_invoice_id matches Some(h)
    &&& m.engine().is_live_hold(h@)
    &&& m.tasks()[task_id].worker_invoice matches Some(w)
    &&& w@.len() > 0
}

/// What a successful `fund_task` did: the task went from `Draft` to
/// `PendingFunding` and refers to one new funding record for its reward,
/// bound to a hold invoice that is now live.
pub open spec fn funded(
    before: &TaskManager,
    after: &TaskManager,
    req: FundTaskRequest,
    d: HoldInvoiceData,
) -> bool {
    let old_task = before.tasks()[req.task_id];
    let t = after.tasks()[req.task_id];
    &&& fund_refusal(before.tasks(), req) is None
    &&& after.tasks() == before.tasks().insert(req.task_id, t)
    &&& t == (Task {
        state: TaskState::PendingFunding,
        funding_id: t.funding_id,
        updated_at: t.updated_at,
        ..old_task
    })
    &&& t.funding_id matches Some(f) && !before.fundings().contains_key(f) && after.fundings()
        == before.fundings().insert(f, after.fundings()[f]) && after.fundings()[f].task_id
        == req.task_id && after.fundings()[f].mode == req.mode && after.fundings()[f].amount_sats
        == old_task.reward_sats && after.fundings()[f].status == FundingStatus::Created
        && after.fundings()[f].hold_invoice_id == Some(d.hold_invoice_id)
        && after.fundings()[f].invoice_hash == Some(d.invoice_hash)
    &&& d.amount_sats == old_task.reward_sats
    &&& after.engine().is_live_hold(d.hold_invoice_id@)
    &&& before.engine().issued(&after.engine(), old_task.reward_sats as u64, d)
    &&& after.indexer() == before.indexer()
    &&& after.events().len() == before.events().len() + 1
    &&& log_extends(before.events(), after.events())
    &&& after.events().last().event_type@ == "invoice.created"@
}

/// Whether the verification service accepts a signature over an event id.
pub open spec fn signed(v: VerificationService, signature: Seq<char>, event_id: Seq<char>) -> bool {
    !v.spec_config().require_nostr_verification || (!is_blank_text(signature) && !is_blank_text(
        event_id,
    ))
}

/// Whether the verification service accepts a signature by a public key.
pub open spec fn signature_ok(signature: Seq<char>, pubkey: Seq<char>) -> bool {
    !is_blank_text(signature) && !is_blank_text(pubkey)
}

/// What a successful settlement did: the task went from `Verified` to
/// `Paid`, its hold invoice was released in the engine (revealing a
/// non-empty preimage), its funding is `Settled`, and the worker's record
/// counts one more completed task.
pub open spec fn settled(
    before: &TaskManager,
    after: &TaskManager,
    task_id: u128,
    d: InvoiceSettlementData,
) -> bool {
    let old_task = before.tasks()[task_id];
    let t = after.tasks()[task_id];
    &&& t == (Task {
        state: TaskState::Paid,
        settled_at: t.settled_at,
        updated_at: t.updated_at,
        ..old_task
    })
    &&& old_task.state == TaskState::Verified
    &&& t.settled_at == Some(d.settled_at)
    &&& after.tasks() == before.tasks().insert(task_id, t)
    &&& old_task.worker_invoice matches Some(w) && d.paid_to@ == w@
    &&& after.events().len() == before.events().len() + 1
    &&& log_extends(before.events(), after.events())
    &&& after.events().last().event_type@ == "settlement.completed"@
    &&& after.events().last().task_id == Some(task_id)
    &&& after.events().last().preimage == Some(d.preimage)
    &&& old_task.funding_id matches Some(f) && before.fundings()[f].hold_invoice_id matches Some(
        h,
    ) && before.engine().released(&after.engine(), h@) && after.fundings()[f].status
        == FundingStatus::Settled && after.fundings()[f].settled_at == Some(d.settled_at)
        && after.fundings().dom() == before.fundings().dom()
    &&& after.disputes() == before.disputes()
    &&& d.preimage@.len() > 0
    &&& old_task.worker_pubkey matches Some(w) && (w@ != old_task.employer_pubkey@
        ==> after.indexer().record(w@) == Some(
        bounded(
            apply_update(
                before.indexer().record_or_fresh(w@),
                ReputationUpdate::TaskCompleted { reward_sats: old_task.reward_sats, on_time: true },
            ),
            before.indexer().min(),
            before.indexer().max(),
        ),
    ))
}

/// What an approved verification did: the task passed through `Verified`
/// (verifier, reason and times recorded, proof kept) and was settled into
/// `Paid`.
pub open spec fn approved_and_paid(
    before: &TaskManager,
    after: &TaskManager,
    req: VerifyTaskRequest,
    t: Task,
) -> bool {
    let old_task = before.tasks()[req.task_id];
    &&& verify_refusal(before.tasks(), req) is None
    &&& t == after.tasks()[req.task_id]
    &&& t == (Task {
        state: TaskState::Paid,
        verified_by: Some(req.verifier_pubkey),
        verified_at: t.verified_at,
        verification_reason: Some(req.reason),
        completed_at: t.completed_at,
        settled_at: t.settled_at,
        updated_at: t.updated_at,
        ..old_task
    })
    &&& t.proof_url is Some && t.proof_hash is Some && t.settled_at is Some
    &&& t.verified_at is Some && t.completed_at is Some
    &&& old_task.state == TaskState::Claimed
    &&& after.events().len() > before.events().len()
    &&& after.events()[before.events().len() as int].event_type@ == "settlement.completed"@
    &&& after.events()[before.events().len() as int].task_id == Some(req.task_id)
    &&& after.events()[before.events().len() as int].preimage matches Some(p) && p@.len() > 0
    &&& after.tasks() == before.tasks().insert(req.task_id, t)
    &&& old_task.funding_id matches Some(f) && before.fundings()[f].hold_invoice_id matches Some(
        h,
    ) && before.engine().released(&after.engine(), h@) && after.fundings()[f].status
        == FundingStatus::Settled && after.fundings().dom() == before.fundings().dom()
    &&& after.disputes() == before.disputes()
    &&& old_task.worker_pubkey matches Some(w) && (w@ != old_task.employer_pubkey@
        ==> after.indexer().record(w@) == Some(
        bounded(
            apply_update(
                before.indexer().record_or_fresh(w@),
                ReputationUpdate::TaskCompleted { reward_sats: old_task.reward_sats, on_time: true },
            ),
            before.indexer().min(),
            before.indexer().max(),
        ),
    ))
}

/// What a rejected verification did: the task went from `Claimed` to
/// `Disputed`, a dispute between the verifier and the worker was opened,
/// and no hold was settled.
pub open spec fn rejected(
    before: &TaskManager,
    after: &TaskManager,
    req: VerifyTaskRequest,
    t: Task,
) -> bool {
    let old_task = before.tasks()[req.task_id];
    &&& t == (Task { state: TaskState::Disputed, updated_at: t.updated_at, ..old_task })
    &&& after.tasks() == before.tasks().insert(req.task_id, t)
    &&& after.engine() == before.engine()
    &&& after.fundings() == before.fundings()
    &&& after.indexer() == before.indexer()
    &&& after.disputes().len() == before.disputes().len() + 1
    &&& after.disputes().last().resolution == Some(crate::models::DisputeResolution::Pending)
    &&& after.disputes().last().task_id == req.task_id
    &&& after.disputes().last().initiated_by == req.verifier_pubkey
    &&& Some(after.disputes().last().respondent) == old_task.worker_pubkey
    &&& after.disputes().last().reason == req.reason
}

/// The stored tasks, in the order of `ids`, in which `pubkey` is the
/// employer or the worker.
pub open spec fn tasks_of(ids: Seq<u128>, tasks: Map<u128, Task>, pubkey: Seq<char>) -> Seq<Task>
    decreases ids.len(),
{
    if ids.len() == 0 {
        Seq::empty()
    } else {
        let rest = tasks_of(ids.drop_last(), tasks, pubkey);
        let t = tasks[ids.last()];
        if tasks.contains_key(ids.last()) && (t.employer_pubkey@ == pubkey || is_worker(t, pubkey)) {
            rest.push(t)
        } else {
            rest
        }
    }
}

/// The events of a task, in order.
pub open spec fn events_of(events: Seq<EscrowEvent>, task_id: u128) -> Seq<EscrowEvent>
    decreases events.len(),
{
    if events.len() == 0 {
        Seq::empty()
    } else if events.last().task_id == Some(task_id) {
        events_of(events.drop_last(), task_id).push(events.last())
    } else {
        events_of(events.drop_last(), task_id)
    }
}

/// The disputes of a task, in order.
pub open spec fn disputes_of(disputes: Seq<Dispute>, task_id: u128) -> Seq<Dispute>
    decreases disputes.len(),
{
    if disputes.len() == 0 {
        Seq::empty()
    } else if disputes.last().task_id == task_id {
        disputes_of(disputes.drop_last(), task_id).push(disputes.last())
    } else {
        disputes_of(disputes.drop_last(), task_id)
    }
}

/// Payment only after verification, and verification only after a proof.
/// In a well-formed manager, which every operation keeps well-formed, a task
/// that is `Verified` or `Paid` has its verifier recorded and a proof URL and
/// hash (set by `submit_proof`, which only accepts a `Claimed` task); a `Paid`
/// task also has its settlement time. `settle_task`, the only step into
/// `Paid`, starts from `Verified`.
pub proof fn lemma_paid_only_after_verification(m: &TaskManager, task_id: u128)
    requires
        m.wf(),
        m.tasks().contains_key(task_id),
    ensures
        m.tasks()[task_id].id == task_id,
        m.tasks()[task_id].state == TaskState::Verified || m.tasks()[task_id].state
            == TaskState::Paid ==> m.tasks()[task_id].verified_by is Some
            && m.tasks()[task_id].verified_at is Some && m.tasks()[task_id].proof_url is Some
            && m.tasks()[task_id].proof_hash is Some,
        m.tasks()[task_id].state == TaskState::Paid ==> m.tasks()[task_id].settled_at is Some,
        is_claimed_state(m.tasks()[task_id].state) ==> m.tasks()[task_id].worker_pubkey is Some,
{
}

/// A well-formed manager holds a well-formed reputation indexer.
pub proof fn lemma_indexer_wf(m: &TaskManager)
    requires
        m.wf(),
    ensures
        m.indexer().wf(),
{
}

/// The funding that a stored task refers to is stored.
pub proof fn lemma_task_funding_stored(m: &TaskManager, task_id: u128)
    requires
        m.wf(),
        m.tasks().contains_key(task_id),
    ensures
        m.tasks()[task_id].funding_id matches Some(f) ==> m.fundings().contains_key(f),
{
}

/// A task in a terminal state (`Paid`, `Refunded`, `Expired`) never changes
/// again: every operation that would change it (funding, claiming,
/// submitting a proof, verifying) is refused for it.
pub proof fn lemma_terminal_tasks_are_final(
    tasks: Map<u128, Task>,
    fund: FundTaskRequest,
    claim: ClaimTaskRequest,
    submit: SubmitProofRequest,
    verify: VerifyTaskRequest,
)
    requires
        tasks.contains_key(fund.task_id),
        tasks[fund.task_id].state == TaskState::Paid || tasks[fund.task_id].state
            == TaskState::Refunded || tasks[fund.task_id].state == TaskState::Expired,
        claim.task_id == fund.task_id,
        submit.task_id == fund.task_id,
        verify.task_id == fund.task_id,
    ensures
        fund_refusal(tasks, fund) is Some,
        claim_refusal(tasks, claim) is Some,
        proof_refusal(tasks, submit) is Some,
        verify_refusal(tasks, verify) is Some,
{
}

/// Funding happens once. After a successful `fund_task`, the task is
/// `PendingFunding` with one funding record, and any further request to fund
/// it is refused: as a state transition when it comes from its employer, as
/// invalid when it does not.
pub proof fn lemma_fund_once(
    before: &TaskManager,
    after: &TaskManager,
    req: FundTaskRequest,
    d: HoldInvoiceData,
    again: FundTaskRequest,
)
    requires
        funded(before, after, req, d),
        again.task_id == req.task_id,
    ensures
        after.tasks()[req.task_id].state == TaskState::PendingFunding,
        fund_refusal(after.tasks(), again) is Some,
        again.employer_pubkey@ == req.employer_pubkey@ ==> fund_refusal(after.tasks(), again)
            == Some(Refusal::WrongState),
        after.fundings().len() == before.fundings().len() + 1,
{
    let f = after.tasks()[req.task_id].funding_id->0;
    assert(after.fundings().dom() =~= before.fundings().dom().insert(f));
}

/// Main task manager that coordinates the task lifecycle.
pub struct TaskManager {
    config: TaskManagerConfig,
    tasks: HashMap<u128, Task>,
    task_order: Vec<u128>,
    funding: HashMap<u128, Funding>,
    escrow_events: Vec<EscrowEvent>,
    disputes: Vec<Dispute>,
    escrow_engine: EscrowEngine,
    verification_service: VerificationService,
    nostr_publisher: NostrPublisher,
    reputation_indexer: ReputationIndexer,
}

impl TaskManager {
    /// The stored tasks, by id.
    pub closed spec fn tasks(&self) -> Map<u128, Task> {
        self.tasks@
    }

    /// The ids of the stored tasks, in order of creation.
    pub closed spec fn order(&self) -> Seq<u128> {
        self.task_order@
    }

    /// The stored fundings, by id.
    pub closed spec fn fundings(&self) -> Map<u128, Funding> {
        self.funding@
    }

    /// The audit log.
    pub closed spec fn events(&self) -> Seq<EscrowEvent> {
        self.escrow_events@
    }

    /// The disputes opened so far.
    pub closed spec fn disputes(&self) -> Seq<Dispute> {
        self.disputes@
    }

    /// The escrow engine.
    pub closed spec fn engine(&self) -> EscrowEngine {
        self.escrow_engine
    }

    /// The reputation indexer.
    pub closed spec fn indexer(&self) -> ReputationIndexer {
        self.reputation_indexer
    }

    /// The verification service.
    pub closed spec fn checker(&self) -> VerificationService {
        self.verification_service
    }

    /// The manager's configuration.
    pub closed spec fn spec_config(&self) -> TaskManagerConfig {
        self.config
    }

    /// Well-formedness: the collaborators are well-formed, the creation
    /// order lists each stored task once, and every stored task is stored
    /// under its own id and satisfies the task invariant.
    pub closed spec fn wf(&self) -> bool {
        &&& self.escrow_engine.wf()
        &&& self.reputation_indexer.wf()
        &&& self.task_order@.no_duplicates()
        &&& forall|id: u128| #[trigger] self.tasks@.contains_key(id) <==> self.task_order@.contains(id)
        &&& forall|id: u128| #[trigger]
            self.tasks@.contains_key(id) ==> self.tasks@[id].id == id && task_ok(
                self.tasks@[id],
                self.funding@,
            )
        &&& forall|f: u128| #[trigger]
            self.funding@.contains_key(f) ==> self.funding@[f].id == f
        &&& forall|i: int|
            0 <= i < self.escrow_events@.len() ==> #[trigger] self.escrow_events@[i].id
                == event_id_at(i)
    }

    /// Create a new task manager with no tasks.
    pub fn new(
        config: TaskManagerConfig,
        escrow_engine: EscrowEngine,
        verification_service: VerificationService,
        nostr_publisher: NostrPublisher,
        reputation_indexer: ReputationIndexer,
    ) -> (r: Result<Self, EscrowError>)
        requires
            escrow_engine.wf(),
            reputation_indexer.wf(),
        ensures
            r matches Ok(m) && m.wf() && m.tasks() == Map::<u128, Task>::empty() && m.fundings()
                == Map::<u128, Funding>::empty()
                && m.events().len() == 0 && m.disputes().len() == 0 && m.engine() == escrow_engine
                && m.indexer() == reputation_indexer && m.spec_config() == config
                && m.checker() == verification_service,
    {
        let m = TaskManager {
            config,
            tasks: HashMap::new(),
            task_order: Vec::new(),
            funding: HashMap::new(),
            escrow_events: Vec::new(),
            disputes: Vec::new(),
            escrow_engine,
            verification_service,
            nostr_publisher,
            reputation_indexer,
        };
        assert(m.tasks@ =~= Map::<u128, Task>::empty());
        assert(m.funding@ =~= Map::<u128, Funding>::empty());
        Ok(m)
    }

    /// Get a task by id.
    pub fn get_task(&self, task_id: u128) -> (r: Result<Task, EscrowError>)
        ensures
            r is Ok <==> self.tasks().contains_key(task_id),
            r matches Ok(t) ==> t == self.tasks()[task_id],
            r matches Err(e) ==> e is TaskValidation,
    {
        match self.tasks.get(&task_id) {
            Some(t) => Ok(t.clone()),
            None => Err(EscrowError::TaskValidation(String::from_str("Task not found"))),
        }
    }

    /// Get a funding record by id.
    pub fn get_funding(&self, funding_id: u128) -> (r: Result<Funding, EscrowError>)
        ensures
            r is Ok <==> self.fundings().contains_key(funding_id),
            r matches Ok(f) ==> f == self.fundings()[funding_id],
            r matches Err(e) ==> e is TaskValidation,
    {
        match self.funding.get(&funding_id) {
            Some(f) => Ok(f.clone()),
            None => Err(EscrowError::TaskValidation(String::from_str("Funding not found"))),
        }
    }

    /// Append an event to the audit log.
    fn create_escrow_event(
        &mut self,
        event_type: &str,
        task_id: Option<u128>,
        funding_id: Option<u128>,
        invoice_hash: Option<String>,
        preimage: Option<String>,
        actor_pubkey: Option<String>,
        status: Option<String>,
        metadata: Option<String>,
    )
        ensures
            final(self).events().last().preimage == preimage,
            final(self).events().len() == old(self).events().len() + 1,
            log_extends(old(self).events(), final(self).events()),
            final(self).events().last().event_type@ == event_type@,
            final(self).events().last().task_id == task_id,
            final(self).events().last().funding_id == funding_id,
            final(self).events().last().actor_pubkey == actor_pubkey,
            final(self).events().last().invoice_hash == invoice_hash,
            final(self).events().last().status == status,
            final(self).events().last().metadata == metadata,
            final(self).events().last().id == event_id_at(old(self).events().len() as int),
            final(self).tasks() == old(self).tasks(),
            final(self).order() == old(self).order(),
            final(self).fundings() == old(self).fundings(),
            final(self).disputes() == old(self).disputes(),
            final(self).engine() == old(self).engine(),
            final(self).indexer() == old(self).indexer(),
            final(self).spec_config() == old(self).spec_config(),
            final(self).checker() == old(self).checker(),
            old(self).wf() ==> final(self).wf(),
    {
        let n = self.escrow_events.len() as u64;
        let id: i64 = if n < i64::MAX as u64 {
            n as i64 + 1
        } else {
            i64::MAX
        };
        let event = EscrowEvent {
            id,
            event_type: String::from_str(event_type),
            task_id,
            funding_id,
            invoice_hash,
            preimage,
            amount_sats: None,
            actor_pubkey,
            provider: None,
            status,
            metadata,
            nostr_event_id: None,
            signature: None,
            created_at: now_secs(),
        };
        let ghost before = self.escrow_events@;
        self.escrow_events.push(event);
        assert(self.escrow_events@.subrange(0, before.len() as int) =~= before);
    }

    /// Validate a task creation request.
    fn validate_create_task_request(&self, request: &CreateTaskRequest) -> (r: Result<
        (),
        EscrowError,
    >)
        ensures
            r is Ok <==> valid_create_request(*request, self.spec_config().max_task_reward_sats),
            r matches Err(e) ==> e is TaskValidation,
    {
        if is_blank(request.title.as_str()) {
            return Err(EscrowError::TaskValidation(String::from_str("Title cannot be empty")));
        }
        if request.reward_sats <= 0 {
            return Err(
                EscrowError::TaskValidation(String::from_str("Reward must be greater than 0")),
            );
        }
        if request.reward_sats > self.config.max_task_reward_sats {
            return Err(EscrowError::TaskValidation(String::from_str("Reward exceeds maximum")));
        }
        if is_blank(request.employer_pubkey.as_str()) {
            return Err(
                EscrowError::TaskValidation(String::from_str("Employer pubkey cannot be empty")),
            );
        }
        Ok(())
    }

    /// Store a new task under its id, at the end of the creation order.
    fn insert_new_task(&mut self, task: Task)
        requires
            old(self).wf(),
            !old(self).tasks().contains_key(task.id),
            task_ok(task, old(self).fundings()),
        ensures
            final(self).wf(),
            final(self).tasks() == old(self).tasks().insert(task.id, task),
            final(self).order() == old(self).order().push(task.id),
            final(self).fundings() == old(self).fundings(),
            final(self).events() == old(self).events(),
            final(self).disputes() == old(self).disputes(),
            final(self).engine() == old(self).engine(),
            final(self).indexer() == old(self).indexer(),
            final(self).spec_config() == old(self).spec_config(),
            final(self).checker() == old(self).checker(),
    {
        let id = task.id;
        let ghost old_order = self.task_order@;
        assert(!old_order.contains(id));
        self.tasks.insert(id, task);
        self.task_order.push(id);
        assert forall|k: u128| #[trigger] self.tasks@.contains_key(k) <==> self.task_order@.contains(k) by {
            if k != id {
                if old_order.contains(k) {
                    let j = choose|j: int| 0 <= j < old_order.len() && old_order[j] == k;
                    assert(self.task_order@[j] == k);
                }
                if self.task_order@.contains(k) {
                    let j = choose|j: int| 0 <= j < self.task_order@.len() && self.task_order@[j] == k;
                    assert(old_order[j] == k);
                }
            } else {
                assert(self.task_order@[old_order.len() as int] == id);
            }
        }
        assert(self.task_order@.no_duplicates()) by {
            assert forall|a: int, b: int|
                0 <= a < self.task_order@.len() && 0 <= b < self.task_order@.len() && a != b implies self.task_order@[a]
                != self.task_order@[b] by {
                if a < old_order.len() && b < old_order.len() {
                } else if a == old_order.len() {
                    assert(old_order.contains(self.task_order@[b]));
                } else {
                    assert(old_order.contains(self.task_order@[a]));
                }
            }
        }
    }

    /// Create a new task in `Draft` for an employer, under a freshly drawn
    /// id; only a clash of that id with a stored task makes a valid request
    /// that passes the reputation check fail.
    pub fn create_task(&mut self, request: CreateTaskRequest) -> (r: Result<Task, EscrowError>)
        requires
            old(self).wf(),
        ensures
            final(self).wf(),
            !valid_create_request(request, old(self).spec_config().max_task_reward_sats) ==> (r matches Err(
                e,
            ) && e is TaskValidation),
            r matches Err(e) ==> ((e is TaskValidation
                || !old(self).spec_config().require_reputation_check) ==> *final(self) == *old(
                self,
            )),
            r matches Err(e) ==> (e is Reputation ==> old(self).spec_config().require_reputation_check),
            r is Err ==> final(self).tasks() == old(self).tasks() && final(self).events() == old(
                self,
            ).events() && final(self).fundings() == old(self).fundings() && final(self).engine()
                == old(self).engine(),
            valid_create_request(request, old(self).spec_config().max_task_reward_sats)
                && !old(self).spec_config().require_reputation_check ==> (r is Ok || (r matches Err(
                e,
            ) && e is Internal)),
            r matches Ok(t) ==> created(&*old(self), &*final(self), request, t),
            r matches Err(e) ==> (e is Internal ==> exists|id: u128|
                #[trigger] old(self).tasks().contains_key(id)),
            r matches Ok(t) ==> (!old(self).spec_config().require_reputation_check
                ==> final(self).indexer().record(request.employer_pubkey@) == Some(
                bounded(
                    apply_update(
                        old(self).indexer().record_or_fresh(request.employer_pubkey@),
                        ReputationUpdate::TaskCreated { reward_sats: request.reward_sats },
                    ),
                    old(self).indexer().min(),
                    old(self).indexer().max(),
                ),
            )),
    {
        self.create_task_with_id(request, fresh_id(), now_secs())
    }

    /// Create a new task in `Draft` with identifier `task_id` at time `now`.
    /// When the reputation check is on, the employer's record is read at
    /// `now` and must reach the minimum score.
    pub fn create_task_with_id(&mut self, request: CreateTaskRequest, task_id: u128, now: i64) -> (r:
        Result<Task, EscrowError>)
        requires
            old(self).wf(),
        ensures
            final(self).wf(),
            !valid_create_request(request, old(self).spec_config().max_task_reward_sats) ==> (r matches Err(
                e,
            ) && e is TaskValidation),
            r is Ok <==> valid_create_request(request, old(self).spec_config().max_task_reward_sats)
                && passes_reputation_check(&*old(self), request.employer_pubkey@, now as int)
                && !old(self).tasks().contains_key(task_id),
            valid_create_request(request, old(self).spec_config().max_task_reward_sats)
                && !passes_reputation_check(&*old(self), request.employer_pubkey@, now as int)
                ==> (r matches Err(e) && e is Reputation),
            valid_create_request(request, old(self).spec_config().max_task_reward_sats)
                && passes_reputation_check(&*old(self), request.employer_pubkey@, now as int)
                && old(self).tasks().contains_key(task_id) ==> (r matches Err(e) && e is Internal),
            r matches Err(e) ==> (e is Reputation ==> !passes_reputation_check(
                &*old(self),
                request.employer_pubkey@,
                now as int,
            )),
            r matches Err(e) ==> ((e is TaskValidation
                || !old(self).spec_config().require_reputation_check) ==> *final(self) == *old(
                self,
            )),
            r is Err ==> final(self).tasks() == old(self).tasks() && final(self).events() == old(
                self,
            ).events() && final(self).fundings() == old(self).fundings() && final(self).engine()
                == old(self).engine(),
            r matches Ok(t) ==> {
                &&& created(&*old(self), &*final(self), request, t)
                &&& t.id == task_id
                &&& t.created_at == now
                &&& final(self).indexer().record(request.employer_pubkey@) == Some(
                    bounded(
                        apply_update(
                            creation_base(&*old(self), request.employer_pubkey@, now as int),
                            ReputationUpdate::TaskCreated { reward_sats: request.reward_sats },
                        ),
                        old(self).indexer().min(),
                        old(self).indexer().max(),
                    ),
                )
            },
    {
        match self.validate_create_task_request(&request) {
            Ok(()) => {},
            Err(e) => {
                return Err(e);
            },
        }
        if self.config.require_reputation_check {
            let rep = match self.reputation_indexer.get_reputation_at(
                request.employer_pubkey.as_str(),
                now,
            ) {
                Ok(rep) => rep,
                Err(e) => {
                    return Err(e);
                },
            };
            if rep.score < self.config.min_reputation_score {
                return Err(EscrowError::Reputation(String::from_str("Insufficient reputation score")));
            }
        }
        let mut task = Task::with_id(
            task_id,
            request.title,
            request.description,
            request.reward_sats,
            request.employer_pubkey,
            request.deadline,
            now,
        );
        task.metadata = request.metadata;
        if self.tasks.contains_key(&task.id) {
            return Err(EscrowError::Internal(String::from_str("Task id already in use")));
        }
        let ghost before_events = self.escrow_events@;
        self.insert_new_task(task.clone());
        let _ = self.reputation_indexer.update_for_task_creation(
            task.employer_pubkey.as_str(),
            task.reward_sats,
        );
        let _ = self.nostr_publisher.publish_task_created(task.clone());
        let mut meta: Vec<JsonEntry> = Vec::new();
        meta.push(text_entry("title", task.title.clone()));
        meta.push(number_entry("reward_sats", Some(task.reward_sats)));
        self.create_escrow_event(
            "task.created",
            Some(task.id),
            None,
            None,
            None,
            Some(task.employer_pubkey.clone()),
            None,
            Some(json_object(&meta)),
        );
        Ok(task)
    }

    /// Store a new funding record under its id.
    fn insert_funding(&mut self, funding: Funding)
        requires
            old(self).wf(),
            !old(self).fundings().contains_key(funding.id),
        ensures
            final(self).wf(),
            final(self).fundings() == old(self).fundings().insert(funding.id, funding),
            final(self).tasks() == old(self).tasks(),
            final(self).order() == old(self).order(),
            final(self).events() == old(self).events(),
            final(self).disputes() == old(self).disputes(),
            final(self).engine() == old(self).engine(),
            final(self).indexer() == old(self).indexer(),
            final(self).spec_config() == old(self).spec_config(),
            final(self).checker() == old(self).checker(),
    {
        let ghost before = self.funding@;
        self.funding.insert(funding.id, funding);
        assert forall|id: u128| #[trigger] self.tasks@.contains_key(id) implies task_ok(
            self.tasks@[id],
            self.funding@,
        ) by {
            assert(task_ok(self.tasks@[id], before));
        }
    }

    /// Replace a funding record, keeping its task and hold invoice.
    fn update_funding(&mut self, funding: Funding)
        requires
            old(self).wf(),
            old(self).fundings().contains_key(funding.id),
            old(self).fundings()[funding.id].task_id == funding.task_id,
            old(self).fundings()[funding.id].hold_invoice_id == funding.hold_invoice_id,
        ensures
            final(self).wf(),
            final(self).fundings() == old(self).fundings().insert(funding.id, funding),
            final(self).tasks() == old(self).tasks(),
            final(self).order() == old(self).order(),
            final(self).events() == old(self).events(),
            final(self).disputes() == old(self).disputes(),
            final(self).engine() == old(self).engine(),
            final(self).indexer() == old(self).indexer(),
            final(self).spec_config() == old(self).spec_config(),
            final(self).checker() == old(self).checker(),
    {
        let ghost before = self.funding@;
        self.funding.insert(funding.id, funding);
        assert forall|id: u128| #[trigger] self.tasks@.contains_key(id) implies task_ok(
            self.tasks@[id],
            self.funding@,
        ) by {
            assert(task_ok(self.tasks@[id], before));
        }
    }

    /// Replace a stored task.
    fn put_task(&mut self, task: Task)
        requires
            old(self).wf(),
            old(self).tasks().contains_key(task.id),
            task_ok(task, old(self).fundings()),
        ensures
            final(self).wf(),
            final(self).tasks() == old(self).tasks().insert(task.id, task),
            final(self).fundings() == old(self).fundings(),
            final(self).order() == old(self).order(),
            final(self).events() == old(self).events(),
            final(self).disputes() == old(self).disputes(),
            final(self).engine() == old(self).engine(),
            final(self).indexer() == old(self).indexer(),
            final(self).spec_config() == old(self).spec_config(),
            final(self).checker() == old(self).checker(),
    {
        self.tasks.insert(task.id, task);
    }

    /// Validate a funding request against the task it names.
    fn validate_fund_task_request(&self, request: &FundTaskRequest, task: &Task) -> (r: Result<
        (),
        EscrowError,
    >)
        requires
            self.tasks().contains_key(request.task_id),
            *task == self.tasks()[request.task_id],
        ensures
            r is Ok <==> fund_refusal(self.tasks(), *request) is None,
            r matches Err(e) ==> (fund_refusal(self.tasks(), *request) matches Some(f) && error_for(
                f,
                e,
                task.state,
                TaskState::PendingFunding,
            )),
    {
        if task.employer_pubkey != request.employer_pubkey {
            return Err(
                EscrowError::TaskValidation(String::from_str("Only task creator can fund task")),
            );
        }
        if !task.state.can_fund() {
            return Err(
                EscrowError::StateTransition {
                    from_state: task.state.name(),
                    to_state: TaskState::PendingFunding.name(),
                    reason: String::from_str("Task cannot be funded in current state"),
                },
            );
        }
        Ok(())
    }

    /// Fund a task with a hold invoice for its reward: the task moves from
    /// `Draft` to `PendingFunding` with one new funding record. The funding
    /// id, payment hash and preimage are drawn fresh; only a clash of one of
    /// them with a stored or live one makes a valid request fail.
    pub fn fund_task(&mut self, request: FundTaskRequest) -> (r: Result<HoldInvoiceData, EscrowError>)
        requires
            old(self).wf(),
        ensures
            final(self).wf(),
            fund_refusal(old(self).tasks(), request) matches Some(f) ==> (r matches Err(e)
                && error_for(
                f,
                e,
                old(self).tasks()[request.task_id].state,
                TaskState::PendingFunding,
            )),
            fund_refusal(old(self).tasks(), request) is None
                && old(self).tasks()[request.task_id].reward_sats
                > old(self).engine().spec_config().max_invoice_amount_sats ==> (r matches Err(e)
                && e is Invoice),
            r is Err ==> *final(self) == *old(self),
            fund_refusal(old(self).tasks(), request) is None
                && old(self).tasks()[request.task_id].reward_sats
                <= old(self).engine().spec_config().max_invoice_amount_sats ==> (r is Ok || (r matches Err(
                e,
            ) && e is Internal)),
            r matches Ok(d) ==> funded(&*old(self), &*final(self), request, d),
            r matches Err(e) ==> (e is Internal ==> (exists|f: u128|
                #[trigger] old(self).fundings().contains_key(f)) || old(self).engine().active().len()
                > 0),
    {
        let funding_id = fresh_id();
        let hash_id = uuid_text(fresh_id());
        let preimage = uuid_text(fresh_id());
        self.fund_task_with(request, funding_id, hash_id, preimage, now_secs())
    }

    /// Fund a task at time `now` with funding id `funding_id` and a hold
    /// invoice whose payment hash is `hash_` followed by `hash_id` and whose
    /// secret is `preimage`.
    pub fn fund_task_with(
        &mut self,
        request: FundTaskRequest,
        funding_id: u128,
        hash_id: String,
        preimage: String,
        now: i64,
    ) -> (r: Result<HoldInvoiceData, EscrowError>)
        requires
            old(self).wf(),
        ensures
            final(self).wf(),
            fund_refusal(old(self).tasks(), request) matches Some(f) ==> (r matches Err(e)
                && error_for(
                f,
                e,
                old(self).tasks()[request.task_id].state,
                TaskState::PendingFunding,
            )),
            fund_refusal(old(self).tasks(), request) is None
                && old(self).tasks()[request.task_id].reward_sats
                > old(self).engine().spec_config().max_invoice_amount_sats ==> (r matches Err(e)
                && e is Invoice),
            r is Ok <==> fund_refusal(old(self).tasks(), request) is None
                && old(self).tasks()[request.task_id].reward_sats
                <= old(self).engine().spec_config().max_invoice_amount_sats && !old(
                self,
            ).fundings().contains_key(funding_id) && preimage@.len() > 0 && !old(
                self,
            ).engine().is_live_hash("hash_"@ + hash_id@),
            r matches Err(e) ==> (fund_refusal(old(self).tasks(), request) is None
                && old(self).tasks()[request.task_id].reward_sats
                <= old(self).engine().spec_config().max_invoice_amount_sats ==> (if !old(
                self,
            ).fundings().contains_key(funding_id) && preimage@.len() == 0 {
                e is Crypto
            } else {
                e is Internal
            })),
            r is Err ==> *final(self) == *old(self),
            r matches Ok(d) ==> {
                &&& funded(&*old(self), &*final(self), request, d)
                &&& final(self).tasks()[request.task_id].funding_id == Some(funding_id)
                &&& d.invoice_hash@ == "hash_"@ + hash_id@
                &&& d.expires_at == if now + old(self).engine().spec_config().invoice_expiry_secs
                    > i64::MAX {
                    i64::MAX as int
                } else {
                    now + old(self).engine().spec_config().invoice_expiry_secs
                }
            },
    {
        let task0 = match self.get_task(request.task_id) {
            Ok(t) => t,
            Err(e) => {
                return Err(e);
            },
        };
        match self.validate_fund_task_request(&request, &task0) {
            Ok(()) => {},
            Err(e) => {
                return Err(e);
            },
        }
        match task0.validate_transition(TaskState::PendingFunding) {
            Ok(_) => {},
            Err(e) => {
                return Err(e);
            },
        }
        if task0.reward_sats as u64 > self.escrow_engine.max_invoice_amount() {
            return Err(EscrowError::Invoice(String::from_str("Reward exceeds the invoice maximum")));
        }
        if self.funding.contains_key(&funding_id) {
            return Err(EscrowError::Internal(String::from_str("Funding id already in use")));
        }
        let invoice_data = match self.escrow_engine.register_hold_invoice(
            task0.reward_sats as u64,
            hash_id,
            preimage,
            now,
        ) {
            Ok(d) => d,
            Err(e) => {
                return Err(e);
            },
        };
        let mut funding = Funding::with_id(
            funding_id,
            task0.id,
            request.mode,
            String::from_str("ldk"),
            task0.reward_sats,
            Some(invoice_data.expires_at),
            now,
        );
        funding.invoice = Some(invoice_data.invoice.clone());
        funding.invoice_hash = Some(invoice_data.invoice_hash.clone());
        funding.hold_invoice_id = Some(invoice_data.hold_invoice_id.clone());
        let fid = funding.id;
        let reward = task0.reward_sats;
        self.insert_funding(funding);
        let mut task = task0;
        task.state = TaskState::PendingFunding;
        task.updated_at = now;
        task.funding_id = Some(fid);
        self.put_task(task);
        let mut meta: Vec<JsonEntry> = Vec::new();
        meta.push(number_entry("amount_sats", Some(reward)));
        meta.push(text_entry("invoice", invoice_data.invoice.clone()));
        self.create_escrow_event(
            "invoice.created",
            Some(request.task_id),
            Some(fid),
            Some(invoice_data.invoice_hash.clone()),
            None,
            Some(request.employer_pubkey),
            Some(String::from_str("Created")),
            Some(json_object(&meta)),
        );
        Ok(invoice_data)
    }

    /// Record that the hold invoice of a task's funding was paid: the task
    /// moves from `PendingFunding` to `Funded`, and its funding to
    /// `Accepted`. The hold must still be live in the escrow engine.
    pub fn confirm_funding(&mut self, task_id: u128) -> (r: Result<Task, EscrowError>)
        requires
            old(self).wf(),
        ensures
            final(self).wf(),
            log_extends(old(self).events(), final(self).events()),
            final(self).engine() == old(self).engine(),
            final(self).indexer() == old(self).indexer(),
            !old(self).tasks().contains_key(task_id) ==> (r matches Err(e) && e is TaskValidation),
            old(self).tasks().contains_key(task_id) && old(self).tasks()[task_id].state
                != TaskState::PendingFunding ==> (r matches Err(e) && is_transition_error(
                e,
                old(self).tasks()[task_id].state,
                TaskState::Funded,
            )),
            r is Err ==> *final(self) == *old(self),
            old(self).tasks().contains_key(task_id) && old(self).tasks()[task_id].state
                == TaskState::PendingFunding && funding_hold_live(&*old(self), task_id) ==> r is Ok,
            r is Ok ==> funding_hold_live(&*old(self), task_id),
            r matches Ok(t) ==> {
                &&& old(self).tasks().contains_key(task_id)
                &&& old(self).tasks()[task_id].state == TaskState::PendingFunding
                &&& t == (Task {
                    state: TaskState::Funded,
                    updated_at: t.updated_at,
                    ..old(self).tasks()[task_id]
                })
                &&& final(self).tasks() == old(self).tasks().insert(task_id, t)
                &&& t.funding_id matches Some(f) && final(self).fundings()[f].status
                    == FundingStatus::Accepted && final(self).fundings().dom() == old(
                    self,
                ).fundings().dom()
            },
    {
        let mut task = match self.get_task(task_id) {
            Ok(t) => t,
            Err(e) => {
                return Err(e);
            },
        };
        if task.state != TaskState::PendingFunding {
            return Err(
                EscrowError::StateTransition {
                    from_state: task.state.name(),
                    to_state: TaskState::Funded.name(),
                    reason: String::from_str("Only tasks pending funding can be funded"),
                },
            );
        }
        let fid = match task.funding_id {
            Some(f) => f,
            None => {
                return Err(EscrowError::Internal(String::from_str("Task has no funding")));
            },
        };
        let mut funding = match self.get_funding(fid) {
            Ok(f) => f,
            Err(e) => {
                return Err(e);
            },
        };
        match &funding.invoice_hash {
            Some(hash) => match self.escrow_engine.get_invoice_status(hash.as_str()) {
                Ok(_) => {},
                Err(e) => {
                    return Err(e);
                },
            },
            None => {
                return Err(EscrowError::Internal(String::from_str("Funding has no invoice")));
            },
        }
        let now = now_secs();
        funding.status = FundingStatus::Accepted;
        funding.payment_received_at = Some(now);
        funding.updated_at = now;
        self.update_funding(funding);
        task.state = TaskState::Funded;
        task.updated_at = now;
        self.put_task(task.clone());
        self.create_escrow_event(
            "payment.received",
            Some(task_id),
            Some(fid),
            None,
            None,
            None,
            Some(String::from_str("Accepted")),
            None,
        );
        Ok(task)
    }

    /// Validate a claim against the task it names.
    fn validate_claim_task_request(&self, request: &ClaimTaskRequest, task: &Task) -> (r: Result<
        (),
        EscrowError,
    >)
        requires
            self.tasks().contains_key(request.task_id),
            *task == self.tasks()[request.task_id],
        ensures
            r is Ok <==> claim_refusal(self.tasks(), *request) is None,
            r matches Err(e) ==> (claim_refusal(self.tasks(), *request) matches Some(f)
                && error_for(f, e, task.state, TaskState::Claimed)),
    {
        if task.state != TaskState::Funded {
            return Err(
                EscrowError::StateTransition {
                    from_state: task.state.name(),
                    to_state: TaskState::Claimed.name(),
                    reason: String::from_str("Only funded tasks can be claimed"),
                },
            );
        }
        if is_blank(request.worker_pubkey.as_str()) {
            return Err(EscrowError::TaskValidation(String::from_str("Worker pubkey cannot be empty")));
        }
        if is_blank(request.worker_invoice.as_str()) {
            return Err(
                EscrowError::TaskValidation(String::from_str("Worker invoice cannot be empty")),
            );
        }
        Ok(())
    }

    /// Claim a funded task for a worker, capturing the worker's payout
    /// invoice.
    pub fn claim_task(&mut self, request: ClaimTaskRequest) -> (r: Result<Task, EscrowError>)
        requires
            old(self).wf(),
        ensures
            final(self).wf(),
            log_extends(old(self).events(), final(self).events()),
            final(self).engine() == old(self).engine(),
            final(self).fundings() == old(self).fundings(),
            r is Ok <==> claim_refusal(old(self).tasks(), request) is None,
            claim_refusal(old(self).tasks(), request) matches Some(f) ==> (r matches Err(e)
                && error_for(f, e, old(self).tasks()[request.task_id].state, TaskState::Claimed)),
            r is Err ==> *final(self) == *old(self),
            r matches Ok(t) ==> {
                &&& t == (Task {
                    state: TaskState::Claimed,
                    worker_pubkey: Some(request.worker_pubkey),
                    worker_invoice: Some(request.worker_invoice),
                    claimed_at: t.claimed_at,
                    updated_at: t.updated_at,
                    ..old(self).tasks()[request.task_id]
                })
                &&& t.claimed_at is Some
                &&& final(self).tasks() == old(self).tasks().insert(request.task_id, t)
                &&& final(self).indexer().record(request.worker_pubkey@) is Some
            },
    {
        let mut task = match self.get_task(request.task_id) {
            Ok(t) => t,
            Err(e) => {
                return Err(e);
            },
        };
        match self.validate_claim_task_request(&request, &task) {
            Ok(()) => {},
            Err(e) => {
                return Err(e);
            },
        }
        match task.validate_transition(TaskState::Claimed) {
            Ok(_) => {},
            Err(e) => {
                return Err(e);
            },
        }
        let now = now_secs();
        task.state = TaskState::Claimed;
        task.worker_pubkey = Some(request.worker_pubkey.clone());
        task.worker_invoice = Some(request.worker_invoice);
        task.claimed_at = Some(now);
        task.updated_at = now;
        self.put_task(task.clone());
        let _ = self.reputation_indexer.update_reputation(
            request.worker_pubkey.as_str(),
            ReputationUpdate::TaskClaimed,
        );
        let _ = self.nostr_publisher.publish_task_claimed(task.clone());
        self.create_escrow_event(
            "task.claimed",
            Some(request.task_id),
            task.funding_id,
            None,
            None,
            Some(request.worker_pubkey),
            None,
            None,
        );
        Ok(task)
    }

    /// Validate a proof submission against the task it names.
    fn validate_proof_submission(&self, request: &SubmitProofRequest, task: &Task) -> (r: Result<
        (),
        EscrowError,
    >)
        requires
            self.tasks().contains_key(request.task_id),
            *task == self.tasks()[request.task_id],
        ensures
            r is Ok <==> proof_refusal(self.tasks(), *request) is None,
            r matches Err(e) ==> (proof_refusal(self.tasks(), *request) matches Some(f)
                && error_for(f, e, task.state, TaskState::Claimed)),
    {
        let is_assigned = match &task.worker_pubkey {
            Some(w) => *w == request.worker_pubkey,
            None => false,
        };
        if !is_assigned {
            return Err(
                EscrowError::TaskValidation(String::from_str("Only assigned worker can submit proof")),
            );
        }
        if !task.state.can_submit_proof() {
            return Err(
                EscrowError::StateTransition {
                    from_state: task.state.name(),
                    to_state: TaskState::Claimed.name(),
                    reason: String::from_str("Proof can only be submitted for claimed tasks"),
                },
            );
        }
        if is_blank(request.proof_url.as_str()) {
            return Err(EscrowError::TaskValidation(String::from_str("Proof URL cannot be empty")));
        }
        if is_blank(request.proof_hash.as_str()) {
            return Err(EscrowError::TaskValidation(String::from_str("Proof hash cannot be empty")));
        }
        Ok(())
    }

    /// Submit proof of work for a claimed task; its signature over the
    /// proof's event id is checked. The task stays `Claimed`.
    pub fn submit_proof(&mut self, request: SubmitProofRequest) -> (r: Result<Task, EscrowError>)
        requires
            old(self).wf(),
        ensures
            final(self).wf(),
            log_extends(old(self).events(), final(self).events()),
            final(self).engine() == old(self).engine(),
            final(self).fundings() == old(self).fundings(),
            final(self).indexer() == old(self).indexer(),
            r is Ok <==> proof_refusal(old(self).tasks(), request) is None && signed(
                old(self).checker(),
                request.nostr_signature@,
                request.nostr_event_id@,
            ),
            proof_refusal(old(self).tasks(), request) matches Some(f) ==> (r matches Err(e)
                && error_for(f, e, old(self).tasks()[request.task_id].state, TaskState::Claimed)),
            r matches Err(e) ==> (proof_refusal(old(self).tasks(), request) is None
                ==> e is ProofVerification),
            r is Err ==> *final(self) == *old(self),
            r matches Ok(t) ==> {
                &&& t == (Task {
                    proof_url: Some(request.proof_url),
                    proof_hash: Some(request.proof_hash),
                    proof_nostr_event_id: Some(request.nostr_event_id),
                    updated_at: t.updated_at,
                    ..old(self).tasks()[request.task_id]
                })
                &&& t.state == TaskState::Claimed
                &&& final(self).tasks() == old(self).tasks().insert(request.task_id, t)
            },
    {
        let mut task = match self.get_task(request.task_id) {
            Ok(t) => t,
            Err(e) => {
                return Err(e);
            },
        };
        match self.validate_proof_submission(&request, &task) {
            Ok(()) => {},
            Err(e) => {
                return Err(e);
            },
        }
        match self.verification_service.verify_nostr_signature(
            request.nostr_signature.as_str(),
            request.nostr_event_id.as_str(),
        ) {
            Ok(()) => {},
            Err(e) => {
                return Err(e);
            },
        }
        task.proof_url = Some(request.proof_url.clone());
        task.proof_hash = Some(request.proof_hash.clone());
        task.proof_nostr_event_id = Some(request.nostr_event_id.clone());
        task.updated_at = now_secs();
        self.put_task(task.clone());
        let mut meta: Vec<JsonEntry> = Vec::new();
        meta.push(text_entry("proof_url", request.proof_url));
        meta.push(text_entry("proof_hash", request.proof_hash));
        meta.push(text_entry("nostr_event_id", request.nostr_event_id));
        self.create_escrow_event(
            "proof.submitted",
            Some(request.task_id),
            task.funding_id,
            None,
            None,
            Some(request.worker_pubkey),
            None,
            Some(json_object(&meta)),
        );
        Ok(task)
    }

    /// Validate a verification request against the task it names.
    fn validate_verification_request(&self, request: &VerifyTaskRequest, task: &Task) -> (r:
        Result<(), EscrowError>)
        requires
            self.tasks().contains_key(request.task_id),
            *task == self.tasks()[request.task_id],
        ensures
            r is Ok <==> verify_refusal(self.tasks(), *request) is None,
            r matches Err(e) ==> (verify_refusal(self.tasks(), *request) matches Some(f)
                && error_for(f, e, task.state, TaskState::Verified)),
    {
        if request.verifier_pubkey != task.employer_pubkey {
            return Err(EscrowError::TaskValidation(String::from_str("Only task creator can verify")));
        }
        if !task.state.can_verify() {
            return Err(
                EscrowError::StateTransition {
                    from_state: task.state.name(),
                    to_state: TaskState::Verified.name(),
                    reason: String::from_str("Only claimed tasks can be verified"),
                },
            );
        }
        if request.approved && (task.proof_url.is_none() || task.proof_hash.is_none()) {
            return Err(
                EscrowError::TaskValidation(String::from_str("No proof has been submitted")),
            );
        }
        Ok(())
    }

    /// Settle a verified task: reveal the hold's preimage and route the
    /// reward to the worker's invoice, then mark the task `Paid`, its funding
    /// `Settled`, and credit both parties' reputation. If settlement fails,
    /// nothing changes.
    fn settle_task(&mut self, task_id: u128) -> (r: Result<InvoiceSettlementData, EscrowError>)
        requires
            old(self).wf(),
        ensures
            final(self).wf(),
            log_extends(old(self).events(), final(self).events()),
            final(self).disputes() == old(self).disputes(),
            r is Err ==> *final(self) == *old(self),
            !old(self).tasks().contains_key(task_id) ==> (r matches Err(e) && e is TaskValidation),
            old(self).tasks().contains_key(task_id) && old(self).tasks()[task_id].state
                != TaskState::Verified ==> (r matches Err(e) && is_transition_error(
                e,
                old(self).tasks()[task_id].state,
                TaskState::Paid,
            )),
            old(self).tasks().contains_key(task_id) && old(self).tasks()[task_id].state
                == TaskState::Verified && settleable(&*old(self), task_id) ==> r is Ok,
            r matches Ok(d) ==> settled(&*old(self), &*final(self), task_id, d),
    {
        let mut task = match self.get_task(task_id) {
            Ok(t) => t,
            Err(e) => {
                return Err(e);
            },
        };
        if !task.state.can_settle() {
            return Err(
                EscrowError::StateTransition {
                    from_state: task.state.name(),
                    to_state: TaskState::Paid.name(),
                    reason: String::from_str("Only verified tasks can be settled"),
                },
            );
        }
        let fid = match task.funding_id {
            Some(f) => f,
            None => {
                return Err(EscrowError::Internal(String::from_str("Task has no funding")));
            },
        };
        let mut funding = match self.get_funding(fid) {
            Ok(f) => f,
            Err(e) => {
                return Err(e);
            },
        };
        let worker_invoice = match &task.worker_invoice {
            Some(w) => w.clone(),
            None => {
                return Err(EscrowError::Internal(String::from_str("Task has no worker invoice")));
            },
        };
        let settlement = match &funding.hold_invoice_id {
            Some(hold) => match self.escrow_engine.settle_hold_invoice(
                hold.as_str(),
                worker_invoice.as_str(),
            ) {
                Ok(d) => d,
                Err(e) => {
                    return Err(e);
                },
            },
            None => {
                return Err(EscrowError::Internal(String::from_str("Funding has no hold invoice")));
            },
        };
        task.state = TaskState::Paid;
        task.settled_at = Some(settlement.settled_at);
        task.updated_at = now_secs();
        self.put_task(task.clone());
        funding.status = FundingStatus::Settled;
        funding.settled_at = Some(settlement.settled_at);
        let ghost f0 = self.funding@;
        self.update_funding(funding);
        assert(self.funding@.dom() =~= f0.dom());
        let worker = match &task.worker_pubkey {
            Some(w) => w.clone(),
            None => String::new(),
        };
        let ghost before_rep = self.reputation_indexer;
        let _ = self.reputation_indexer.update_reputation(
            task.employer_pubkey.as_str(),
            ReputationUpdate::TaskPaidOut { reward_sats: task.reward_sats },
        );
        let ghost mid_rep = self.reputation_indexer;
        let _ = self.reputation_indexer.update_reputation(
            worker.as_str(),
            ReputationUpdate::TaskCompleted { reward_sats: task.reward_sats, on_time: true },
        );
        proof {
            if worker@ != task.employer_pubkey@ {
                lemma_other_record(&before_rep, &mid_rep, task.employer_pubkey@, worker@);
            }
        }
        let _ = self.nostr_publisher.publish_task_paid(task.clone());
        let mut meta: Vec<JsonEntry> = Vec::new();
        meta.push(number_entry("amount_sats", Some(task.reward_sats)));
        meta.push(text_entry("preimage", settlement.preimage.clone()));
        self.create_escrow_event(
            "settlement.completed",
            Some(task_id),
            Some(fid),
            Some(settlement.invoice_hash.clone()),
            Some(settlement.preimage.clone()),
            None,
            Some(String::from_str("Settled")),
            Some(json_object(&meta)),
        );
        Ok(settlement)
    }

    /// Verify a claimed task. Approval checks the verifier's signature,
    /// moves the task to `Verified` and settles it, ending in `Paid`;
    /// rejection moves it to `Disputed` and opens a dispute between the
    /// employer and the worker, with no settlement. Only the employer can
    /// verify.
    pub fn verify_task(&mut self, request: VerifyTaskRequest) -> (r: Result<Task, EscrowError>)
        requires
            old(self).wf(),
        ensures
            final(self).wf(),
            log_extends(old(self).events(), final(self).events()),
            verify_refusal(old(self).tasks(), request) matches Some(f) ==> (r matches Err(e)
                && error_for(f, e, old(self).tasks()[request.task_id].state, TaskState::Verified)),
            verify_refusal(old(self).tasks(), request) is Some || !signature_ok(
                request.signature@,
                request.verifier_pubkey@,
            ) ==> (r is Err && *final(self) == *old(self)),
            verify_refusal(old(self).tasks(), request) is None && !signature_ok(
                request.signature@,
                request.verifier_pubkey@,
            ) ==> (r matches Err(e) && e is ProofVerification),
            r is Ok ==> verify_refusal(old(self).tasks(), request) is None && signature_ok(
                request.signature@,
                request.verifier_pubkey@,
            ),
            verify_refusal(old(self).tasks(), request) is None && signature_ok(
                request.signature@,
                request.verifier_pubkey@,
            ) && !request.approved ==> (r matches Ok(t) && rejected(
                &*old(self),
                &*final(self),
                request,
                t,
            )),
            r matches Ok(t) ==> (request.approved ==> approved_and_paid(
                &*old(self),
                &*final(self),
                request,
                t,
            )),
            verify_refusal(old(self).tasks(), request) is None && signature_ok(
                request.signature@,
                request.verifier_pubkey@,
            ) && request.approved && settleable(&*old(self), request.task_id) ==> (r matches Ok(t)
                && approved_and_paid(&*old(self), &*final(self), request, t)),
            r is Err && request.approved && verify_refusal(old(self).tasks(), request) is None
                && signature_ok(request.signature@, request.verifier_pubkey@) ==> (final(self).tasks()
                == old(self).tasks().insert(request.task_id, final(self).tasks()[request.task_id])
                && final(self).tasks()[request.task_id].state == TaskState::Verified && final(self).tasks()[request.task_id].verified_by == Some(request.verifier_pubkey) && final(self).engine() == old(self).engine() && final(self).fundings() == old(self).fundings()
                && final(self).events() == old(self).events() && final(self).indexer() == old(
                self,
            ).indexer() && final(self).disputes() == old(self).disputes()),
    {
        let mut task = match self.get_task(request.task_id) {
            Ok(t) => t,
            Err(e) => {
                return Err(e);
            },
        };
        match self.validate_verification_request(&request, &task) {
            Ok(()) => {},
            Err(e) => {
                return Err(e);
            },
        }
        match self.verification_service.verify_signature(
            request.signature.as_str(),
            request.verifier_pubkey.as_str(),
        ) {
            Ok(()) => {},
            Err(e) => {
                return Err(e);
            },
        }
        let now = now_secs();
        if request.approved {
            match task.validate_transition(TaskState::Verified) {
                Ok(_) => {},
                Err(e) => {
                    return Err(e);
                },
            }
            task.state = TaskState::Verified;
            task.verified_by = Some(request.verifier_pubkey.clone());
            task.verified_at = Some(now);
            task.verification_reason = Some(request.reason.clone());
            task.completed_at = Some(now);
            task.updated_at = now;
            self.put_task(task.clone());
            match self.settle_task(request.task_id) {
                Ok(_) => {},
                Err(e) => {
                    return Err(e);
                },
            }
            let paid = match self.get_task(request.task_id) {
                Ok(t) => t,
                Err(e) => {
                    return Err(e);
                },
            };
            assert(self.tasks@ =~= old(self).tasks@.insert(request.task_id, paid));
            let _ = self.nostr_publisher.publish_task_verified(paid.clone());
            let mut meta: Vec<JsonEntry> = Vec::new();
            meta.push(text_entry("approved", String::from_str("true")));
            meta.push(text_entry("reason", request.reason));
            self.create_escrow_event(
                "proof.verified",
                Some(request.task_id),
                paid.funding_id,
                None,
                None,
                Some(request.verifier_pubkey),
                None,
                Some(json_object(&meta)),
            );
            Ok(paid)
        } else {
            match task.validate_transition(TaskState::Disputed) {
                Ok(_) => {},
                Err(e) => {
                    return Err(e);
                },
            }
            let worker = match &task.worker_pubkey {
                Some(w) => w.clone(),
                None => {
                    return Err(EscrowError::Internal(String::from_str("Task has no worker")));
                },
            };
            task.state = TaskState::Disputed;
            task.updated_at = now;
            self.put_task(task.clone());
            let dispute = Dispute::new(
                task.id,
                request.verifier_pubkey.clone(),
                worker,
                request.reason.clone(),
                Vec::new(),
            );
            self.disputes.push(dispute);
            let _ = self.nostr_publisher.publish_task_disputed(task.clone());
            let mut meta: Vec<JsonEntry> = Vec::new();
            meta.push(text_entry("approved", String::from_str("false")));
            meta.push(text_entry("reason", request.reason));
            self.create_escrow_event(
                "proof.rejected",
                Some(request.task_id),
                task.funding_id,
                None,
                None,
                Some(request.verifier_pubkey),
                None,
                Some(json_object(&meta)),
            );
            Ok(task)
        }
    }

    /// The tasks in which an identity is the employer or the worker, in
    /// order of creation.
    pub fn get_user_tasks(&self, pubkey: &str) -> (r: Result<Vec<Task>, EscrowError>)
        requires
            self.wf(),
        ensures
            r matches Ok(v) && v@ == tasks_of(self.order(), self.tasks(), pubkey@),
    {
        let key = String::from_str(pubkey);
        let mut out: Vec<Task> = Vec::new();
        let mut i: usize = 0;
        while i < self.task_order.len()
            invariant
                self.wf(),
                i <= self.order().len(),
                key@ == pubkey@,
                out@ == tasks_of(self.order().subrange(0, i as int), self.tasks(), pubkey@),
            decreases self.order().len() - i,
        {
            let id = self.task_order[i];
            assert(self.order().subrange(0, i + 1).drop_last() =~= self.order().subrange(0, i as int));
            assert(self.order().contains(id));
            match self.tasks.get(&id) {
                Some(t) => {
                    let is_worker = match &t.worker_pubkey {
                        Some(w) => *w == key,
                        None => false,
                    };
                    if t.employer_pubkey == key || is_worker {
                        out.push(t.clone());
                    }
                },
                None => {},
            }
            i = i + 1;
        }
        assert(self.order().subrange(0, self.order().len() as int) =~= self.order());
        Ok(out)
    }

    /// The audit events of a task, in order.
    pub fn get_task_events(&self, task_id: u128) -> (r: Result<Vec<EscrowEvent>, EscrowError>)
        ensures
            r matches Ok(v) && v@ == events_of(self.events(), task_id),
    {
        let mut out: Vec<EscrowEvent> = Vec::new();
        let mut i: usize = 0;
        while i < self.escrow_events.len()
            invariant
                i <= self.events().len(),
                out@ == events_of(self.events().subrange(0, i as int), task_id),
            decreases self.events().len() - i,
        {
            assert(self.events().subrange(0, i + 1).drop_last() =~= self.events().subrange(
                0,
                i as int,
            ));
            if self.escrow_events[i].task_id == Some(task_id) {
                out.push(self.escrow_events[i].clone());
            }
            i = i + 1;
        }
        assert(self.events().subrange(0, self.events().len() as int) =~= self.events());
        Ok(out)
    }

    /// The disputes opened on a task, in order.
    pub fn get_task_disputes(&self, task_id: u128) -> (r: Vec<Dispute>)
        ensures
            r@.len() == disputes_of(self.disputes(), task_id).len(),
            forall|i: int|
                0 <= i < r@.len() ==> (#[trigger] r@[i]).task_id == task_id && r@[i].initiated_by
                    == disputes_of(self.disputes(), task_id)[i].initiated_by && r@[i].respondent
                    == disputes_of(self.disputes(), task_id)[i].respondent,
    {
        let mut out: Vec<Dispute> = Vec::new();
        let mut i: usize = 0;
        while i < self.disputes.len()
            invariant
                i <= self.disputes().len(),
                out@.len() == disputes_of(self.disputes().subrange(0, i as int), task_id).len(),
                forall|k: int|
                    0 <= k < out@.len() ==> (#[trigger] out@[k]).task_id == task_id
                        && out@[k].initiated_by == disputes_of(
                        self.disputes().subrange(0, i as int),
                        task_id,
                    )[k].initiated_by && out@[k].respondent == disputes_of(
                        self.disputes().subrange(0, i as int),
                        task_id,
                    )[k].respondent,
            decreases self.disputes().len() - i,
        {
            assert(self.disputes().subrange(0, i + 1).drop_last() =~= self.disputes().subrange(
                0,
                i as int,
            ));
            if self.disputes[i].task_id == task_id {
                out.push(self.disputes[i].clone());
            }
            i = i + 1;
        }
        assert(self.disputes().subrange(0, self.disputes().len() as int) =~= self.disputes());
        out
    }

    /// Subscribe to status updates for the live hold with payment hash
    /// `invoice_hash`.
    pub fn register_status_callback(&mut self, invoice_hash: String) -> (r: EscrowResult<()>)
        requires
            old(self).wf(),
        ensures
            final(self).wf(),
            r is Ok <==> old(self).engine().is_live_hash(invoice_hash@),
            final(self).tasks() == old(self).tasks(),
            final(self).fundings() == old(self).fundings(),
            final(self).events() == old(self).events(),
            final(self).engine().active() == old(self).engine().active(),
            r is Ok ==> final(self).engine().subscribed().contains(invoice_hash@),
    {
        let r = self.escrow_engine.register_status_callback(invoice_hash);
        proof {
            if r is Ok {
                let s = self.escrow_engine.subscribed();
                assert(s.contains(invoice_hash@) || s.last() == invoice_hash@);
                if !s.contains(invoice_hash@) {
                    assert(s[s.len() - 1] == invoice_hash@);
                }
            }
        }
        r
    }

    /// Status updates at time `now` for every subscribed hold that is still
    /// live, in order of subscription.
    pub fn status_updates(&self, now: i64) -> (r: Vec<InvoiceStatusUpdate>)
        requires
            self.wf(),
        ensures
            forall|i: int|
                0 <= i < r@.len() ==> self.engine().subscribed().contains(
                    (#[trigger] r@[i]).invoice_hash@,
                ) && self.engine().is_live_hash(r@[i].invoice_hash@) && r@[i].timestamp == now,
    {
        let hashes = self.escrow_engine.subscribed_hashes();
        let mut out: Vec<InvoiceStatusUpdate> = Vec::new();
        let mut i: usize = 0;
        while i < hashes.len()
            invariant
                self.wf(),
                i <= hashes@.len(),
                hashes@.map_values(|h: String| h@) == self.engine().subscribed(),
                forall|k: int|
                    0 <= k < out@.len() ==> self.engine().subscribed().contains(
                        (#[trigger] out@[k]).invoice_hash@,
                    ) && self.engine().is_live_hash(out@[k].invoice_hash@) && out@[k].timestamp
                        == now,
            decreases hashes@.len() - i,
        {
            match self.escrow_engine.status_update(hashes[i].as_str(), now) {
                Ok(u) => {
                    assert(self.engine().subscribed()[i as int] == hashes@[i as int]@);
                    out.push(u);
                },
                Err(_) => {},
            }
            i = i + 1;
        }
        out
    }

    /// The escrow engine.
    pub fn escrow_engine(&self) -> (r: &EscrowEngine)
        ensures
            *r == self.engine(),
    {
        &self.escrow_engine
    }

    /// The reputation indexer.
    pub fn reputation_indexer(&self) -> (r: &ReputationIndexer)
        ensures
            *r == self.indexer(),
    {
        &self.reputation_indexer
    }

    /// The reputation of an identity, read through the indexer (which
    /// applies inactivity decay and creates the record if there is none).
    pub fn get_reputation(&mut self, pubkey: &str) -> (r: EscrowResult<crate::models::Reputation>)
        requires
            old(self).wf(),
        ensures
            final(self).wf(),
            final(self).tasks() == old(self).tasks(),
            final(self).fundings() == old(self).fundings(),
            final(self).events() == old(self).events(),
            final(self).engine() == old(self).engine(),
            final(self).order() == old(self).order(),
            final(self).indexer().record(pubkey@) matches Some(v) && r matches Ok(x) && x@ == v,
    {
        self.reputation_indexer.get_reputation(pubkey)
    }
}

} // verus!
