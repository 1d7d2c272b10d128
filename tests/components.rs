use escrow_engine::engine::{EscrowEngine, EscrowEngineConfig};
use escrow_engine::error::EscrowError;
use escrow_engine::models::{tier_name, FundingMode, FundingStatus, Reputation, Task, TaskState};
use escrow_engine::models::TaskState::{
    Claimed, Disputed, Draft, Expired, Funded, Paid, PendingFunding, Refunded, Verified,
};
use escrow_engine::nostr_publisher::{EscrowEventKind, NostrPublisher, NostrPublisherConfig};
use escrow_engine::payment_coordinator::{PaymentCoordinator, PaymentRequest};
use escrow_engine::reputation_indexer::{ReputationIndexer, ReputationIndexerConfig, ReputationUpdate};
use escrow_engine::verification_service::VerificationService;

fn now() -> i64 {
    chrono::Utc::now().timestamp()
}

#[test]
fn test_validate_file_extension() {
    let service = VerificationService::default();

    // Valid extensions
    assert!(service.validate_file_extension("proof.jpg").is_ok());
    assert!(service.validate_file_extension("proof.PDF").is_ok());

    // Invalid extension
    assert!(service.validate_file_extension("proof.exe").is_err());
}

#[test]
fn file_extension_is_taken_after_the_last_dot() {
    let service = VerificationService::default();
    assert!(service.validate_file_extension("archive.exe.md").is_ok());
    assert!(service.validate_file_extension("notes.md.exe").is_err());
    // A name without a dot is its own extension.
    assert!(service.validate_file_extension("txt").is_ok());
    assert!(service.validate_file_extension("README").is_err());
    assert!(service.is_allowed_extension("png"));
    assert!(!service.is_allowed_extension("PNG"));
}

#[test]
fn test_create_hold_invoice() {
    let config = EscrowEngineConfig::default();
    let mut engine = EscrowEngine::new(config).unwrap();

    let invoice_data = engine
        .create_hold_invoice(50000, "Test task".to_string(), "task_123".to_string())
        .unwrap();

    assert_eq!(invoice_data.amount_sats, 50000);
    assert!(invoice_data.invoice.starts_with("lnbc"));
    assert!(invoice_data.hold_invoice_id.starts_with("hold_"));
    assert!(invoice_data.expires_at > now());
}

#[test]
fn hold_invoice_text_carries_amount_and_hash() {
    let mut engine = EscrowEngine::new(EscrowEngineConfig::default()).unwrap();
    let d = engine.create_hold_invoice(50000, "t".to_string(), "x".to_string()).unwrap();
    assert_eq!(d.invoice, format!("lnbc50000u1{}", d.invoice_hash));
    assert_eq!(d.hold_invoice_id, format!("hold_{}", d.invoice_hash));
    // "hash_" followed by a hyphenated 128-bit identifier.
    assert_eq!(d.invoice_hash.len(), 5 + 36);
    assert!(d.invoice_hash.starts_with("hash_"));
    assert!(d.expires_at >= now() + 3600 - 5);
}

#[test]
fn test_invalid_amount() {
    let config = EscrowEngineConfig::default();
    let mut engine = EscrowEngine::new(config).unwrap();

    let result = engine.create_hold_invoice(0, "Test".to_string(), "task".to_string());
    assert!(result.is_err());

    match result.unwrap_err() {
        EscrowError::Invoice(msg) => assert!(msg.contains("greater than 0")),
        _ => panic!("Expected invoice error"),
    }
}

#[test]
fn hold_invoice_above_maximum_is_refused() {
    let mut engine = EscrowEngine::new(EscrowEngineConfig::default()).unwrap();
    assert!(engine.create_hold_invoice(10_000_000, "t".into(), "x".into()).is_ok());
    match engine.create_hold_invoice(10_000_001, "t".into(), "x".into()) {
        Err(EscrowError::Invoice(_)) => {}
        other => panic!("unexpected {:?}", other),
    }
}

#[test]
fn hold_invoice_settles_exactly_once() {
    let mut engine = EscrowEngine::new(EscrowEngineConfig::default()).unwrap();
    let d = engine.create_hold_invoice(1000, "t".into(), "x".into()).unwrap();
    assert_eq!(engine.get_invoice_status(&d.invoice_hash).unwrap(), FundingStatus::Created);
    match engine.settle_hold_invoice(&d.hold_invoice_id, "") {
        Err(EscrowError::Invoice(_)) => {}
        other => panic!("unexpected {:?}", other),
    }
    let s = engine.settle_hold_invoice(&d.hold_invoice_id, "lnbc_worker").unwrap();
    assert_eq!(s.invoice_hash, d.invoice_hash);
    assert_eq!(s.amount_sats, 1000);
    assert!(!s.preimage.is_empty());
    assert!(engine.settle_hold_invoice(&d.hold_invoice_id, "lnbc_worker").is_err());
    assert!(engine.cancel_hold_invoice(&d.hold_invoice_id).is_err());
    assert!(engine.get_invoice_status(&d.invoice_hash).is_err());
}

#[test]
fn hold_invoice_cancel_releases_it() {
    let mut engine = EscrowEngine::new(EscrowEngineConfig::default()).unwrap();
    let a = engine.create_hold_invoice(1000, "a".into(), "x".into()).unwrap();
    let b = engine.create_hold_invoice(2000, "b".into(), "y".into()).unwrap();
    assert!(engine.cancel_hold_invoice(&a.hold_invoice_id).is_ok());
    assert!(engine.cancel_hold_invoice(&a.hold_invoice_id).is_err());
    assert!(engine.settle_hold_invoice(&a.hold_invoice_id, "lnbc").is_err());
    assert!(engine.get_invoice_status(&b.invoice_hash).is_ok());
    assert!(engine.cancel_hold_invoice("hold_unknown").is_err());
}

#[test]
fn liquidity_reports_configured_maximum() {
    let engine = EscrowEngine::new(EscrowEngineConfig::default()).unwrap();
    assert_eq!(engine.get_liquidity_info().unwrap().max_hold_invoice_sats, 10_000_000);
    assert!(engine.get_node_info().is_ok());
}

#[test]
fn transition_table_is_exact() {
    let all = [Draft, PendingFunding, Funded, Claimed, Verified, Paid, Refunded, Disputed, Expired];
    let legal = [
        (Draft, PendingFunding),
        (Draft, Expired),
        (PendingFunding, Funded),
        (PendingFunding, Expired),
        (PendingFunding, Draft),
        (Funded, Claimed),
        (Funded, Refunded),
        (Funded, Expired),
        (Claimed, Verified),
        (Claimed, Disputed),
        (Claimed, Expired),
        (Verified, Paid),
        (Verified, Disputed),
        (Disputed, Paid),
        (Disputed, Refunded),
    ];
    for from in all {
        for to in all {
            let mut task = Task::new("t".into(), None, 1, "e".into(), None);
            task.state = from;
            let expected = legal.contains(&(from, to));
            match task.validate_transition(to) {
                Ok(t) => {
                    assert!(expected, "{:?} -> {:?} accepted", from, to);
                    assert!(t.valid);
                    assert_eq!(t.from_state, from);
                    assert_eq!(t.to_state, to);
                }
                Err(EscrowError::StateTransition { from_state, to_state, .. }) => {
                    assert!(!expected, "{:?} -> {:?} refused", from, to);
                    assert_eq!(from_state, format!("{:?}", from));
                    assert_eq!(to_state, format!("{:?}", to));
                }
                Err(e) => panic!("unexpected {:?}", e),
            }
        }
    }
}

#[test]
fn state_capabilities_follow_the_table() {
    assert!(TaskState::Draft.can_fund());
    assert!(!TaskState::PendingFunding.can_fund());
    assert!(TaskState::Funded.can_claim());
    assert!(TaskState::Claimed.can_submit_proof());
    assert!(TaskState::Claimed.can_verify());
    assert!(TaskState::Verified.can_settle());
    assert!(TaskState::Verified.can_dispute());
    assert!(!TaskState::Funded.can_dispute());
    assert!(TaskState::Paid.is_terminal());
    assert!(TaskState::Refunded.is_terminal());
    assert!(TaskState::Expired.is_terminal());
    assert!(!TaskState::Disputed.is_terminal());
    assert!(FundingStatus::Settled.is_terminal());
    assert!(!FundingStatus::Accepted.is_terminal());
}

#[test]
fn fees_per_rail() {
    let pc = PaymentCoordinator::default();
    assert_eq!(pc.calculate_fees(1_000_000, FundingMode::LightningHold), 1000);
    assert_eq!(pc.calculate_fees(1_000_000, FundingMode::LightningStandard), 1000);
    assert_eq!(pc.calculate_fees(1_000_000, FundingMode::OnchainSubmarine), 5000);
    assert_eq!(pc.calculate_fees(1_000_000, FundingMode::OnchainReverse), 3000);
    assert_eq!(pc.calculate_fees(1_000_000, FundingMode::OnchainMultisig), 10000);
    assert_eq!(pc.calculate_fees(999, FundingMode::LightningHold), 0);
    assert_eq!(pc.calculate_fees(u64::MAX, FundingMode::OnchainMultisig), u64::MAX / 100);
}

#[test]
fn fees_are_deterministic_and_monotone() {
    let pc = PaymentCoordinator::default();
    let modes = [
        FundingMode::LightningHold,
        FundingMode::LightningStandard,
        FundingMode::OnchainSubmarine,
        FundingMode::OnchainReverse,
        FundingMode::OnchainMultisig,
    ];
    for mode in modes {
        let mut last = 0;
        for a in (0..20_000u64).step_by(97) {
            let f = pc.calculate_fees(a, mode);
            assert_eq!(f, pc.calculate_fees(a, mode));
            assert!(f >= last);
            last = f;
        }
    }
}

#[test]
fn supported_modes_are_amount_gated() {
    let pc = PaymentCoordinator::default();
    assert_eq!(
        pc.get_supported_modes(9_999),
        vec![FundingMode::LightningHold, FundingMode::LightningStandard]
    );
    assert_eq!(pc.get_supported_modes(10_000).len(), 3);
    assert_eq!(pc.get_supported_modes(50_000).len(), 4);
    assert_eq!(
        pc.get_supported_modes(100_000),
        vec![
            FundingMode::LightningHold,
            FundingMode::LightningStandard,
            FundingMode::OnchainSubmarine,
            FundingMode::OnchainReverse,
            FundingMode::OnchainMultisig
        ]
    );
}

#[test]
fn payment_response_depends_on_rail() {
    let pc = PaymentCoordinator::default();
    let req = |amount, mode| PaymentRequest {
        task_id: 1,
        amount_sats: amount,
        preferred_mode: mode,
        payer_pubkey: "p".into(),
        description: "d".into(),
    };
    let l = pc.create_payment(req(20_000, FundingMode::LightningStandard)).unwrap();
    assert_eq!(l.mode, FundingMode::LightningStandard);
    assert!(l.invoice.unwrap().starts_with("lnbc20000u1"));
    assert!(l.onchain_address.is_none() && l.swap_id.is_none());
    assert_eq!(l.estimated_fees_sats, 20);
    let s = pc.create_payment(req(20_000, FundingMode::OnchainSubmarine)).unwrap();
    assert!(s.invoice.is_none() && s.onchain_address.is_some() && s.swap_id.is_some());
    assert_eq!(s.estimated_fees_sats, 100);
    let r = pc.create_payment(req(60_000, FundingMode::OnchainReverse)).unwrap();
    assert!(r.invoice.is_some() && r.onchain_address.is_some() && r.swap_id.is_some());
    let m = pc.create_payment(req(100_000, FundingMode::OnchainMultisig)).unwrap();
    assert!(m.invoice.is_none() && m.onchain_address.is_some() && m.swap_id.is_none());
    match pc.create_payment(req(20_000, FundingMode::OnchainReverse)) {
        Err(EscrowError::Payment(_)) => {}
        other => panic!("unexpected {:?}", other),
    }
}

#[test]
fn test_create_reputation() {
    let mut indexer = ReputationIndexer::default();
    let reputation = indexer.get_reputation("test_pubkey").unwrap();

    assert_eq!(reputation.pubkey, "test_pubkey");
    assert_eq!(reputation.score, 500);
    // The tier is recomputed from the score on every read.
    assert_eq!(reputation.tier, "Intermediate");
}

#[test]
fn test_update_reputation() {
    let mut indexer = ReputationIndexer::default();

    let updated = indexer
        .update_reputation("test_pubkey", ReputationUpdate::AdjustScore(100))
        .unwrap();

    assert_eq!(updated.score, 600);
    assert_eq!(updated.tier, "Advanced");
}

#[test]
fn test_task_completion_update() {
    let mut indexer = ReputationIndexer::default();

    let reputation = indexer
        .update_for_task_completion("test_pubkey", TaskState::Paid, 50000, true)
        .unwrap();

    assert!(reputation.score > 500); // Should have increased
    assert_eq!(reputation.tasks_completed, 1);
}

#[test]
fn task_outcome_points() {
    let mut ix = ReputationIndexer::default();
    // 50 + 5 + 20
    assert_eq!(ix.update_for_task_completion("a", TaskState::Paid, 50000, true).unwrap().score, 575);
    // -25 + 0 - 10
    assert_eq!(ix.update_for_task_completion("b", TaskState::Refunded, 0, false).unwrap().score, 465);
    // -10 + 50 (capped) + 20
    assert_eq!(ix.update_for_task_completion("c", TaskState::Disputed, 10_000_000, true).unwrap().score, 560);
    // -5 + 1 - 10
    assert_eq!(ix.update_for_task_completion("d", TaskState::Expired, 10_000, false).unwrap().score, 486);
    // creation bonus: one point per 50,000 sats, at most 25
    let r = ix.update_for_task_creation("e", 500_000).unwrap();
    assert_eq!(r.score, 510);
    assert_eq!(r.tasks_created, 1);
    assert_eq!(ix.update_for_task_creation("f", 100_000_000).unwrap().score, 525);
}

#[test]
fn scores_stay_within_bounds() {
    let mut ix = ReputationIndexer::default();
    let hi = ix.update_reputation("k", ReputationUpdate::AdjustScore(10_000)).unwrap();
    assert_eq!((hi.score, hi.tier.as_str()), (1000, "Elite"));
    let lo = ix.update_reputation("k", ReputationUpdate::AdjustScore(-10_000)).unwrap();
    assert_eq!((lo.score, lo.tier.as_str()), (0, "New"));
    for d in [-300, 250, 99, 800, -50, 700] {
        let r = ix.update_reputation("k", ReputationUpdate::AdjustScore(d)).unwrap();
        assert!((0..=1000).contains(&r.score));
        assert_eq!(r.tier, tier_name(r.score));
    }
}

#[test]
fn tier_bands() {
    let cases = [
        (0, "New"),
        (99, "New"),
        (100, "Beginner"),
        (299, "Beginner"),
        (300, "Intermediate"),
        (599, "Intermediate"),
        (600, "Advanced"),
        (799, "Advanced"),
        (800, "Trusted"),
        (949, "Trusted"),
        (950, "Elite"),
        (1000, "Elite"),
        (-1, "New"),
        (1001, "New"),
    ];
    for (score, tier) in cases {
        assert_eq!(tier_name(score), tier);
    }
}

#[test]
fn update_score_on_record() {
    let mut rep = Reputation::new("x".into());
    rep.update_score(true, 1_000_000, true);
    assert_eq!(rep.score, 620);
    assert_eq!(rep.tier, "Advanced");
    rep.update_score(false, 0, false);
    assert_eq!(rep.score, 585);
    assert_eq!(rep.tier, "Intermediate");
}

#[test]
fn decay_after_inactive_months() {
    let ix = ReputationIndexer::default();
    let mut rep = Reputation::new("x".into());
    rep.last_active_at = 0;
    let now = 90 * 86400;
    assert!(ix.should_apply_decay(&rep, now));
    ix.apply_decay_at(&mut rep, now);
    // three months at 5% each
    assert_eq!(rep.score, 425);
    assert_eq!(rep.tier, "Intermediate");
    let mut fresh = Reputation::new("y".into());
    fresh.last_active_at = 0;
    assert!(!ix.should_apply_decay(&fresh, 29 * 86400));
    ix.apply_decay_at(&mut fresh, 29 * 86400);
    assert_eq!(fresh.score, 500);
    let mut old = Reputation::new("z".into());
    old.last_active_at = 0;
    ix.apply_decay_at(&mut old, 100 * 365 * 86400);
    assert_eq!(old.score, 0);
}

#[test]
fn penalties_suspend_at_threshold() {
    let mut ix = ReputationIndexer::default();
    let r = ix.apply_penalty("p", 60, "spam").unwrap();
    assert_eq!((r.score, r.penalty_points), (440, 60));
    assert!(r.suspended_until.is_none());
    assert!(!ix.is_user_suspended("p").unwrap());
    let r = ix.apply_penalty("p", 40, "spam").unwrap();
    assert_eq!((r.score, r.penalty_points), (400, 100));
    assert!(r.suspended_until.is_some());
    assert!(ix.is_user_suspended("p").unwrap());
}

#[test]
fn badges_are_not_repeated() {
    let mut ix = ReputationIndexer::default();
    ix.award_badge("b", "early".into()).unwrap();
    let r = ix.award_badge("b", "early".into()).unwrap();
    assert_eq!(r.badges, vec!["early".to_string()]);
    let r = ix.award_badge("b", "fast".into()).unwrap();
    assert_eq!(r.badges.len(), 2);
}

#[test]
fn disputes_update_both_parties() {
    let mut ix = ReputationIndexer::default();
    let (e, w) = ix.update_for_dispute_resolution("emp", "wrk", true, 30).unwrap();
    assert_eq!((e.disputes_total, e.disputes_won, e.disputes_lost, e.penalty_points), (1, 1, 0, 0));
    assert_eq!((w.disputes_total, w.disputes_won, w.disputes_lost, w.penalty_points), (1, 0, 1, 30));
}

#[test]
fn stats_and_tier_queries() {
    let mut ix = ReputationIndexer::default();
    let empty = ix.get_reputation_stats().unwrap();
    assert_eq!((empty.total_users, empty.avg_score), (0, 0));
    ix.update_reputation("a", ReputationUpdate::AdjustScore(450)).unwrap(); // 950 Elite
    ix.update_reputation("b", ReputationUpdate::AdjustScore(-450)).unwrap(); // 50 New
    ix.update_reputation("c", ReputationUpdate::TaskClaimed).unwrap(); // 500
    let st = ix.get_reputation_stats().unwrap();
    assert_eq!(st.total_users, 3);
    assert_eq!(st.avg_score, 500);
    assert_eq!(st.tier_distribution.len(), 6);
    assert_eq!(st.tier_distribution[0], ("New".to_string(), 1));
    assert_eq!(st.tier_distribution[2], ("Intermediate".to_string(), 1));
    assert_eq!(st.tier_distribution[5], ("Elite".to_string(), 1));
    let elite = ix.get_users_by_tier("Elite").unwrap();
    assert_eq!(elite.len(), 1);
    assert_eq!(elite[0].pubkey, "a");
    assert!(ix.check_reputation_requirement("a", 900).unwrap());
    assert!(!ix.check_reputation_requirement("b", 100).unwrap());
    assert_eq!(ix.get_user_tier("c").unwrap(), "Intermediate");
    assert_eq!(ix.apply_reputation_decay().unwrap(), 0);
}

#[test]
fn proof_metadata_checks() {
    let v = VerificationService::default();
    let hash = "a".repeat(64);
    let ok = v.verify_proof("https://x.org/p", &hash, None).unwrap();
    assert!(ok.is_valid);
    assert_eq!(ok.content_hash, hash);
    assert!(!v.verify_proof("http://x.org/p", &hash, Some("b")).unwrap().is_valid);
    assert!(v.verify_proof("http://x.org/p", &hash, Some(&hash)).unwrap().is_valid);
    assert!(matches!(v.verify_proof("ftp://x", &hash, None), Err(EscrowError::ProofVerification(_))));
    assert!(v.verify_proof("  ", &hash, None).is_err());
    assert!(v.verify_proof("https://x", "abc", None).is_err());
    assert!(v.verify_proof("https://x", " ", None).is_err());
}

#[test]
fn signature_checks() {
    let v = VerificationService::default();
    assert!(v.verify_signature("sig", "pk").is_ok());
    assert!(matches!(v.verify_signature(" \t", "pk"), Err(EscrowError::ProofVerification(_))));
    assert!(v.verify_signature("sig", "\n").is_err());
    assert!(v.verify_nostr_signature("sig", "ev").is_ok());
    assert!(v.verify_nostr_signature("", "ev").is_err());
    assert!(v.verify_nostr_signature("sig", "  ").is_err());
}

#[test]
fn event_kinds_and_publisher() {
    assert_eq!(EscrowEventKind::TaskCreated.as_u32(), 30078);
    assert_eq!(EscrowEventKind::TaskClaimed.as_u32(), 30079);
    assert_eq!(EscrowEventKind::ProofSubmitted.as_u32(), 30080);
    assert_eq!(EscrowEventKind::TaskVerified.as_u32(), 30081);
    assert_eq!(EscrowEventKind::TaskDisputed.as_u32(), 30082);
    assert_eq!(EscrowEventKind::SettlementCompleted.as_u32(), 30083);
    assert_eq!(EscrowEventKind::TaskPaid.as_u32(), 30084);
    let p = NostrPublisher::new(NostrPublisherConfig::default()).unwrap();
    let task = Task::new("T".into(), None, 5, "e".into(), None);
    let id = p.publish_task_disputed(task.clone()).unwrap();
    // {"task_id":"<36 chars>","state":"disputed"}
    let content_len = r#"{"task_id":"","state":"disputed"}"#.len() + 36;
    assert_eq!(id, format!("nostr_event_{}", content_len));
    assert!(p.get_task_events(task.id).unwrap().is_empty());
}

#[test]
fn top_users_best_first() {
    let mut ix = ReputationIndexer::default();
    ix.update_reputation("a", ReputationUpdate::AdjustScore(-100)).unwrap(); // 400
    ix.update_reputation("b", ReputationUpdate::AdjustScore(300)).unwrap(); // 800
    ix.update_reputation("c", ReputationUpdate::AdjustScore(100)).unwrap(); // 600
    ix.update_reputation("d", ReputationUpdate::AdjustScore(0)).unwrap(); // 500
    let top = ix.get_top_users(2).unwrap();
    let names: Vec<&str> = top.iter().map(|r| r.pubkey.as_str()).collect();
    assert_eq!(names, vec!["b", "c"]);
    let all = ix.get_top_users(10).unwrap();
    let scores: Vec<i32> = all.iter().map(|r| r.score).collect();
    assert_eq!(scores, vec![800, 600, 500, 400]);
    assert!(ix.get_top_users(0).unwrap().is_empty());
}

#[test]
fn registered_hold_invoice_is_fixed_by_its_inputs() {
    let mut engine = EscrowEngine::new(EscrowEngineConfig::default()).unwrap();
    let d = engine.register_hold_invoice(1500, "abc".into(), "secret".into(), 1000).unwrap();
    assert_eq!(d.invoice_hash, "hash_abc");
    assert_eq!(d.hold_invoice_id, "hold_hash_abc");
    assert_eq!(d.invoice, "lnbc1500u1hash_abc");
    assert_eq!(d.expires_at, 1000 + 3600);
    assert!(matches!(
        engine.register_hold_invoice(10, "abc".into(), "p".into(), 0),
        Err(EscrowError::Internal(_))
    ));
    assert!(matches!(
        engine.register_hold_invoice(10, "xyz".into(), String::new(), 0),
        Err(EscrowError::Crypto(_))
    ));
    let capped = engine.register_hold_invoice(10, "late".into(), "p".into(), i64::MAX - 5).unwrap();
    assert_eq!(capped.expires_at, i64::MAX);
    let s = engine.settle_hold_invoice("hold_hash_abc", "lnbc_w").unwrap();
    assert_eq!(s.preimage, "secret");
    assert_eq!(s.amount_sats, 1500);
}

#[test]
fn status_subscriptions_by_hash() {
    let mut engine = EscrowEngine::new(EscrowEngineConfig::default()).unwrap();
    let d = engine.register_hold_invoice(700, "h1".into(), "p".into(), 0).unwrap();
    assert!(matches!(
        engine.register_status_callback("hash_unknown".into()),
        Err(EscrowError::Invoice(_))
    ));
    engine.register_status_callback(d.invoice_hash.clone()).unwrap();
    engine.register_status_callback(d.invoice_hash.clone()).unwrap();
    assert_eq!(engine.subscribed_hashes(), vec!["hash_h1".to_string()]);
    let u = engine.status_update("hash_h1", 42).unwrap();
    assert_eq!(u.status, FundingStatus::Created);
    assert_eq!(u.amount_sats, Some(700));
    assert_eq!(u.timestamp, 42);
    engine.cancel_hold_invoice(&d.hold_invoice_id).unwrap();
    assert!(engine.status_update("hash_h1", 43).is_err());
}

#[test]
fn reading_a_reputation_at_a_time() {
    let mut ix = ReputationIndexer::default();
    // A new identity is not decayed, whatever the time.
    let fresh = ix.get_reputation_at("n", 0).unwrap();
    assert_eq!((fresh.score, fresh.last_active_at), (500, 0));
    // Within the month: no decay.
    assert_eq!(ix.get_reputation_at("n", 29 * 86400).unwrap().score, 500);
    // Two whole months after the last read: 10% off.
    let later = ix.get_reputation_at("n", 29 * 86400 + 60 * 86400).unwrap();
    assert_eq!(later.score, 450);
}

#[test]
fn decay_sweeps_are_idempotent() {
    let mut ix = ReputationIndexer::default();
    ix.get_reputation_at("old", 0).unwrap();
    ix.get_reputation_at("new", 85 * 86400).unwrap();
    let now = 90 * 86400;
    assert_eq!(ix.apply_reputation_decay_at(now).unwrap(), 1);
    assert_eq!(ix.apply_reputation_decay_at(now).unwrap(), 0);
    let top = ix.get_top_users(2).unwrap();
    assert_eq!((top[0].pubkey.as_str(), top[0].score), ("new", 500));
    assert_eq!((top[1].pubkey.as_str(), top[1].score), ("old", 425));
}

#[test]
fn penalty_under_threshold_keeps_suspension() {
    let mut ix = ReputationIndexer::default();
    let r = ix.apply_penalty("q", 10, "late").unwrap();
    assert!(r.suspended_until.is_none());
    let r = ix.apply_penalty("q", 95, "spam").unwrap();
    let until = r.suspended_until.unwrap();
    let (e, _) = ix.update_for_dispute_resolution("q", "z", true, 0).unwrap();
    assert_eq!(e.suspended_until, Some(until));
    assert_eq!(e.disputes_won, 1);
}

#[test]
fn settlement_records_payout_invoice() {
    let mut engine = EscrowEngine::new(EscrowEngineConfig::default()).unwrap();
    let d = engine.register_hold_invoice(900, "pay".into(), "sec".into(), 0).unwrap();
    let s = engine.settle_hold_invoice(&d.hold_invoice_id, "lnbc_worker_w1").unwrap();
    assert_eq!(s.paid_to, "lnbc_worker_w1");
    assert_eq!(s.preimage, "sec");
}

#[test]
fn penalty_suspension_ends_seven_days_later() {
    let mut ix = ReputationIndexer::default();
    let r = ix.apply_penalty_at("s", 120, "fraud", 1_000).unwrap();
    assert_eq!(r.suspended_until, Some(1_000 + 7 * 86400));
    assert_eq!(r.score, 380);
    assert_eq!(r.last_active_at, 1_000);
}

#[test]
fn decay_follows_rate_times_months_down_to_minimum() {
    let mut cfg = ReputationIndexerConfig::default();
    cfg.min_score = -1000;
    let ix = ReputationIndexer::new(cfg);
    let mut neg = Reputation::new("n".into());
    neg.score = -400;
    neg.last_active_at = 0;
    // two months at 5%: -400 * 0.9
    ix.apply_decay_at(&mut neg, 60 * 86400);
    assert_eq!(neg.score, -360);
    let mut pos = Reputation::new("p".into());
    pos.last_active_at = 0;
    // 30 months: 150% decay, clamped to the minimum
    ix.apply_decay_at(&mut pos, 30 * 30 * 86400);
    assert_eq!(pos.score, -250);
}

#[test]
fn completion_credit_above_one_thousand() {
    let mut cfg = ReputationIndexerConfig::default();
    cfg.max_score = 2000;
    let mut ix = ReputationIndexer::new(cfg);
    ix.update_reputation("w", ReputationUpdate::AdjustScore(600)).unwrap(); // 1100
    let r = ix
        .update_reputation("w", ReputationUpdate::TaskCompleted { reward_sats: 50000, on_time: true })
        .unwrap();
    assert_eq!(r.score, 1175);
    assert_eq!(r.tasks_completed, 1);
}
