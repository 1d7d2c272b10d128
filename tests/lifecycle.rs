use escrow_engine::engine::{EscrowEngine, EscrowEngineConfig};
use escrow_engine::error::EscrowError;
use escrow_engine::nostr_publisher::{NostrPublisher, NostrPublisherConfig};
use escrow_engine::reputation_indexer::ReputationIndexer;
use escrow_engine::task_manager::{TaskManager, TaskManagerConfig};
use escrow_engine::verification_service::VerificationService;
use escrow_engine::models::{FundingMode, FundingStatus, TaskState};
use escrow_engine::node::{
    ClaimTaskRequest, CreateTaskRequest, EscrowNode, EscrowNodeConfig, FundTaskRequest,
    SubmitProofRequest, VerifyTaskRequest,
};

fn node() -> EscrowNode {
    EscrowNode::new(EscrowNodeConfig::default()).unwrap()
}

fn create(node: &mut EscrowNode, reward: i64, employer: &str) -> u128 {
    node.create_task(CreateTaskRequest {
        title: "Task".to_string(),
        description: None,
        reward_sats: reward,
        employer_pubkey: employer.to_string(),
        deadline: None,
        metadata: None,
    })
    .unwrap()
    .id
}

fn fund(node: &mut EscrowNode, id: u128, employer: &str) -> Result<u64, EscrowError> {
    node.fund_task(FundTaskRequest {
        task_id: id,
        employer_pubkey: employer.to_string(),
        mode: FundingMode::LightningHold,
    })
    .map(|d| d.amount_sats)
}

fn claimed_task(node: &mut EscrowNode) -> u128 {
    let id = create(node, 50000, "e1");
    fund(node, id, "e1").unwrap();
    node.confirm_funding(id).unwrap();
    node.claim_task(ClaimTaskRequest {
        task_id: id,
        worker_pubkey: "w1".to_string(),
        worker_invoice: "lnbc_w1".to_string(),
    })
    .unwrap();
    id
}

fn proof_request(id: u128) -> SubmitProofRequest {
    SubmitProofRequest {
        task_id: id,
        worker_pubkey: "w1".to_string(),
        proof_url: "https://example.org/proof.png".to_string(),
        proof_hash: "f".repeat(64),
        nostr_event_id: "ev1".to_string(),
        nostr_signature: "sig1".to_string(),
    }
}

fn verify(id: u128, verifier: &str, approved: bool) -> VerifyTaskRequest {
    VerifyTaskRequest {
        task_id: id,
        verifier_pubkey: verifier.to_string(),
        approved,
        reason: "checked".to_string(),
        signature: "sig".to_string(),
    }
}

#[test]
fn test_node_initialization() {
    let config = EscrowNodeConfig::default();
    let node = EscrowNode::new(config).unwrap();

    let health = node.health_check().unwrap();
    assert!(health.healthy);
}

#[test]
fn test_task_creation() {
    let config = EscrowNodeConfig::default();
    let mut node = EscrowNode::new(config).unwrap();

    let request = CreateTaskRequest {
        title: "Test Task".to_string(),
        description: Some("Test description".to_string()),
        reward_sats: 50000,
        employer_pubkey: "employer_pubkey".to_string(),
        deadline: None,
        metadata: None,
    };

    let task = node.create_task(request).unwrap();
    assert_eq!(task.title, "Test Task");
    assert_eq!(task.reward_sats, 50000);
    assert_eq!(task.state, TaskState::Draft);
}

#[test]
fn creation_requests_are_validated() {
    let mut node = node();
    let bad = |title: &str, reward: i64, employer: &str| CreateTaskRequest {
        title: title.to_string(),
        description: None,
        reward_sats: reward,
        employer_pubkey: employer.to_string(),
        deadline: None,
        metadata: None,
    };
    for req in [
        bad("  ", 10, "e"),
        bad("t", 0, "e"),
        bad("t", -5, "e"),
        bad("t", 10_000_001, "e"),
        bad("t", 10, "\t"),
    ] {
        assert!(matches!(node.create_task(req), Err(EscrowError::TaskValidation(_))));
    }
    assert!(node.create_task(bad("t", 10_000_000, "e")).is_ok());
}

#[test]
fn full_lifecycle_pays_the_worker() {
    let mut node = node();
    let task = node
        .create_task(CreateTaskRequest {
            title: "Test".to_string(),
            description: None,
            reward_sats: 50000,
            employer_pubkey: "e1".to_string(),
            deadline: None,
            metadata: None,
        })
        .unwrap();
    assert_eq!(task.state, TaskState::Draft);
    let id = task.id;

    assert_eq!(fund(&mut node, id, "e1").unwrap(), 50000);
    let info = node.get_task_info(id).unwrap();
    assert_eq!(info.task.state, TaskState::PendingFunding);
    let funding = info.funding.unwrap();
    assert_eq!(funding.amount_sats, 50000);
    assert_eq!(funding.status, FundingStatus::Created);
    assert!(funding.invoice.unwrap().starts_with("lnbc50000u1"));

    assert_eq!(node.confirm_funding(id).unwrap().state, TaskState::Funded);

    let claimed = node
        .claim_task(ClaimTaskRequest {
            task_id: id,
            worker_pubkey: "w1".to_string(),
            worker_invoice: "lnbc_w1".to_string(),
        })
        .unwrap();
    assert_eq!(claimed.state, TaskState::Claimed);
    assert_eq!(claimed.worker_pubkey.as_deref(), Some("w1"));
    let before = node.get_user_reputation("w1").unwrap();

    let with_proof = node.submit_proof(proof_request(id)).unwrap();
    assert_eq!(with_proof.state, TaskState::Claimed);
    assert_eq!(with_proof.proof_url.as_deref(), Some("https://example.org/proof.png"));
    assert_eq!(with_proof.proof_hash, Some("f".repeat(64)));
    assert_eq!(with_proof.proof_nostr_event_id.as_deref(), Some("ev1"));

    let paid = node.verify_task(verify(id, "e1", true)).unwrap();
    assert_eq!(paid.state, TaskState::Paid);
    assert_eq!(paid.verified_by.as_deref(), Some("e1"));
    assert!(paid.settled_at.is_some());

    let info = node.get_task_info(id).unwrap();
    assert_eq!(info.funding.unwrap().status, FundingStatus::Settled);
    let settlement = info
        .events
        .iter()
        .find(|e| e.event_type == "settlement.completed")
        .unwrap();
    let meta: serde_json::Value =
        serde_json::from_str(settlement.metadata.as_deref().unwrap()).unwrap();
    assert!(!meta["preimage"].as_str().unwrap().is_empty());
    assert_eq!(settlement.preimage.as_deref(), meta["preimage"].as_str());
    assert_eq!(meta["amount_sats"], 50000);
    let types: Vec<&str> = info.events.iter().map(|e| e.event_type.as_str()).collect();
    assert_eq!(
        types,
        vec![
            "task.created",
            "invoice.created",
            "payment.received",
            "task.claimed",
            "proof.submitted",
            "settlement.completed",
            "proof.verified"
        ]
    );

    let after = node.get_user_reputation("w1").unwrap();
    assert_eq!(after.tasks_completed, before.tasks_completed + 1);
    assert!(after.score > before.score);
    assert_eq!(after.total_sats_earned, 50000);
    let employer = node.get_user_reputation("e1").unwrap();
    assert_eq!(employer.tasks_funded, 1);
    assert_eq!(employer.total_sats_paid, 50000);
}

#[test]
fn rejected_verification_opens_dispute() {
    let mut node = node();
    let id = claimed_task(&mut node);
    node.submit_proof(proof_request(id)).unwrap();
    let disputed = node.verify_task(verify(id, "e1", false)).unwrap();
    assert_eq!(disputed.state, TaskState::Disputed);
    let disputes = node.get_task_disputes(id);
    assert_eq!(disputes.len(), 1);
    assert_eq!(disputes[0].initiated_by, "e1");
    assert_eq!(disputes[0].respondent, "w1");
    assert_eq!(disputes[0].reason, "checked");
    let info = node.get_task_info(id).unwrap();
    assert_eq!(info.task.state, TaskState::Disputed);
    assert_eq!(info.funding.unwrap().status, FundingStatus::Accepted);
    assert!(info.events.iter().all(|e| e.event_type != "settlement.completed"));
}

#[test]
fn funding_by_other_identity_is_refused() {
    let mut node = node();
    let id = create(&mut node, 50000, "e1");
    assert!(matches!(fund(&mut node, id, "e2"), Err(EscrowError::TaskValidation(_))));
    let info = node.get_task_info(id).unwrap();
    assert_eq!(info.task.state, TaskState::Draft);
    assert!(info.task.funding_id.is_none());
    assert!(info.funding.is_none());
}

#[test]
fn second_funding_is_refused() {
    let mut node = node();
    let id = create(&mut node, 50000, "e1");
    assert!(fund(&mut node, id, "e1").is_ok());
    match fund(&mut node, id, "e1") {
        Err(EscrowError::StateTransition { from_state, to_state, .. }) => {
            assert_eq!(from_state, "PendingFunding");
            assert_eq!(to_state, "PendingFunding");
        }
        other => panic!("unexpected {:?}", other),
    }
    let info = node.get_task_info(id).unwrap();
    assert_eq!(info.task.state, TaskState::PendingFunding);
    assert_eq!(
        info.events.iter().filter(|e| e.event_type == "invoice.created").count(),
        1
    );
}

#[test]
fn unknown_task_is_not_found() {
    let mut node = node();
    assert!(matches!(fund(&mut node, 42, "e1"), Err(EscrowError::TaskValidation(_))));
    assert!(node.get_task_info(42).is_err());
}

#[test]
fn claim_needs_funded_task_and_invoice() {
    let mut node = node();
    let id = create(&mut node, 50000, "e1");
    let claim = |invoice: &str| ClaimTaskRequest {
        task_id: id,
        worker_pubkey: "w1".to_string(),
        worker_invoice: invoice.to_string(),
    };
    assert!(matches!(node.claim_task(claim("lnbc")), Err(EscrowError::StateTransition { .. })));
    fund(&mut node, id, "e1").unwrap();
    assert!(matches!(node.claim_task(claim("lnbc")), Err(EscrowError::StateTransition { .. })));
    node.confirm_funding(id).unwrap();
    assert!(matches!(node.claim_task(claim(" ")), Err(EscrowError::TaskValidation(_))));
    assert!(node.claim_task(claim("lnbc")).is_ok());
}

#[test]
fn proof_only_from_assigned_worker() {
    let mut node = node();
    let id = claimed_task(&mut node);
    let mut other = proof_request(id);
    other.worker_pubkey = "w2".to_string();
    assert!(matches!(node.submit_proof(other), Err(EscrowError::TaskValidation(_))));
    let mut unsigned = proof_request(id);
    unsigned.nostr_signature = String::new();
    assert!(matches!(node.submit_proof(unsigned), Err(EscrowError::ProofVerification(_))));
    let mut no_url = proof_request(id);
    no_url.proof_url = " ".to_string();
    assert!(matches!(node.submit_proof(no_url), Err(EscrowError::TaskValidation(_))));
    assert_eq!(node.get_task_info(id).unwrap().task.proof_url, None);
}

#[test]
fn verification_needs_employer_and_proof() {
    let mut node = node();
    let id = claimed_task(&mut node);
    assert!(matches!(node.verify_task(verify(id, "w1", true)), Err(EscrowError::TaskValidation(_))));
    // No proof submitted yet: approval is refused, the task stays claimed.
    assert!(matches!(node.verify_task(verify(id, "e1", true)), Err(EscrowError::TaskValidation(_))));
    assert_eq!(node.get_task_info(id).unwrap().task.state, TaskState::Claimed);
    node.submit_proof(proof_request(id)).unwrap();
    let mut unsigned = verify(id, "e1", true);
    unsigned.signature = "  ".to_string();
    assert!(matches!(node.verify_task(unsigned), Err(EscrowError::ProofVerification(_))));
    assert_eq!(node.verify_task(verify(id, "e1", true)).unwrap().state, TaskState::Paid);
    assert!(matches!(
        node.verify_task(verify(id, "e1", true)),
        Err(EscrowError::StateTransition { .. })
    ));
}

#[test]
fn user_tasks_and_fees_through_node() {
    let mut node = node();
    let a = create(&mut node, 1000, "e1");
    let _b = create(&mut node, 2000, "e2");
    let c = claimed_task(&mut node);
    let e1 = node.get_user_tasks("e1").unwrap();
    assert_eq!(e1.total_count, 2);
    assert_eq!(e1.tasks[0].id, a);
    assert_eq!(e1.tasks[1].id, c);
    let w1 = node.get_user_tasks("w1").unwrap();
    assert_eq!(w1.total_count, 1);
    assert_eq!(node.calculate_payment_fees(1_000_000, FundingMode::OnchainReverse), 3000);
    assert_eq!(node.get_supported_payment_modes(100).len(), 2);
    assert_eq!(node.get_liquidity_info().unwrap().max_hold_invoice_sats, 10_000_000);
    assert!(node.get_reputation_stats().unwrap().stats.total_users >= 2);
    assert!(node.shutdown().is_ok());
}

#[test]
fn task_created_event_metadata_is_json() {
    let mut node = node();
    let id = create(&mut node, 1234, "e1");
    let info = node.get_task_info(id).unwrap();
    let meta: serde_json::Value =
        serde_json::from_str(info.events[0].metadata.as_deref().unwrap()).unwrap();
    assert_eq!(meta["title"], "Task");
    assert_eq!(meta["reward_sats"], 1234);
}

fn manager(escrow_max: u64, require_check: bool, min_score: i32) -> TaskManager {
    let mut escrow = EscrowEngineConfig::default();
    escrow.max_invoice_amount_sats = escrow_max;
    let mut tc = TaskManagerConfig::default();
    tc.require_reputation_check = require_check;
    tc.min_reputation_score = min_score;
    TaskManager::new(
        tc,
        EscrowEngine::new(escrow).unwrap(),
        VerificationService::default(),
        NostrPublisher::new(NostrPublisherConfig::default()).unwrap(),
        ReputationIndexer::default(),
    )
    .unwrap()
}

fn request(reward: i64) -> CreateTaskRequest {
    CreateTaskRequest {
        title: "T".to_string(),
        description: None,
        reward_sats: reward,
        employer_pubkey: "e1".to_string(),
        deadline: None,
        metadata: None,
    }
}

#[test]
fn task_ids_and_funding_ids_are_checked_for_clashes() {
    let mut m = manager(10_000_000, false, 0);
    let t = m.create_task_with_id(request(5000), 7, 100).unwrap();
    assert_eq!((t.id, t.created_at), (7, 100));
    assert!(matches!(m.create_task_with_id(request(5000), 7, 100), Err(EscrowError::Internal(_))));
    m.create_task_with_id(request(5000), 8, 100).unwrap();
    let fund = |id| FundTaskRequest {
        task_id: id,
        employer_pubkey: "e1".to_string(),
        mode: FundingMode::LightningHold,
    };
    let d = m.fund_task_with(fund(7), 99, "h7".into(), "p7".into(), 200).unwrap();
    assert_eq!(d.invoice_hash, "hash_h7");
    assert_eq!(d.expires_at, 200 + 3600);
    assert_eq!(m.get_task(7).unwrap().funding_id, Some(99));
    assert!(matches!(
        m.fund_task_with(fund(8), 99, "h8".into(), "p8".into(), 200),
        Err(EscrowError::Internal(_))
    ));
    assert!(matches!(
        m.fund_task_with(fund(8), 98, "h7".into(), "p8".into(), 200),
        Err(EscrowError::Internal(_))
    ));
    assert_eq!(m.get_task(8).unwrap().state, TaskState::Draft);
    assert_eq!(m.get_task_events(8).unwrap().len(), 1);
    assert!(m.fund_task_with(fund(8), 98, "h8".into(), "p8".into(), 200).is_ok());
}

#[test]
fn reward_above_invoice_limit_is_refused() {
    let mut m = manager(1000, false, 0);
    let t = m.create_task(request(5000)).unwrap();
    let before = m.get_task_events(t.id).unwrap().len();
    let r = m.fund_task(FundTaskRequest {
        task_id: t.id,
        employer_pubkey: "e1".to_string(),
        mode: FundingMode::LightningHold,
    });
    assert!(matches!(r, Err(EscrowError::Invoice(_))));
    assert_eq!(m.get_task(t.id).unwrap().state, TaskState::Draft);
    assert_eq!(m.get_task_events(t.id).unwrap().len(), before);
}

#[test]
fn reputation_check_on_creation() {
    let mut strict = manager(10_000_000, true, 600);
    assert!(matches!(strict.create_task(request(5000)), Err(EscrowError::Reputation(_))));
    let mut lenient = manager(10_000_000, true, 400);
    assert!(lenient.create_task(request(5000)).is_ok());
}

#[test]
fn audit_event_ids_increase() {
    let mut node = node();
    let id = claimed_task(&mut node);
    let events = node.get_task_info(id).unwrap().events;
    for (i, e) in events.iter().enumerate() {
        assert_eq!(e.id, i as i64 + 1);
    }
}

#[test]
fn node_reports_subscribed_invoice_status() {
    let mut node = node();
    let id = create(&mut node, 3000, "e1");
    fund(&mut node, id, "e1").unwrap();
    let hash = node.get_task_info(id).unwrap().funding.unwrap().invoice_hash.unwrap();
    assert!(node.register_status_callback("hash_none".to_string()).is_err());
    node.register_status_callback(hash.clone()).unwrap();
    let updates = node.status_updates(77);
    assert_eq!(updates.len(), 1);
    assert_eq!(updates[0].invoice_hash, hash);
    assert_eq!(updates[0].amount_sats, Some(3000));
    assert_eq!(updates[0].timestamp, 77);
}
