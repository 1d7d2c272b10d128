//! Publisher of escrow events to the public audit network.
//!
//! Each lifecycle step is published as an event of its own kind whose
//! content is a JSON object describing the task.

use vstd::prelude::*;
use vstd::utf8::encode_utf8;
use crate::error::EscrowError;
use crate::external::{
    decimal, decimal_of, entry_view, json_object, json_object_of, uuid_text, uuid_text_of, JsonEntry,
    JsonValue,
};
use crate::models::{state_name, Task};

verus! {

/// Configuration for the publisher.
#[derive(Debug, Clone)]
pub struct NostrPublisherConfig {
    /// Relay URLs to publish to
    pub relay_urls: Vec<String>,
    /// Private key for signing events
    pub private_key: String,
    /// Event kind prefix for escrow events
    pub event_kind_prefix: u32,
}

impl Default for NostrPublisherConfig {
    fn default() -> (r: Self)
        ensures
            r.relay_urls@.len() == 3,
            r.event_kind_prefix == 30000,
    {
        let mut relay_urls: Vec<String> = Vec::new();
        relay_urls.push(String::from_str("wss://relay.damus.io"));
        relay_urls.push(String::from_str("wss://nos.lol"));
        relay_urls.push(String::from_str("wss://relay.snort.social"));
        NostrPublisherConfig {
            relay_urls,
            private_key: String::new(),
            event_kind_prefix: 30000,
        }
    }
}

/// Main publisher.
pub struct NostrPublisher {
    config: NostrPublisherConfig,
}

/// Event kinds of the escrow system.
#[derive(Debug, Clone, Copy, PartialEq, Eq, Structural)]
pub enum EscrowEventKind {
    /// Task created (30078)
    TaskCreated,
    /// Task claimed (30079)
    TaskClaimed,
    /// Proof submitted (30080)
    ProofSubmitted,
    /// Task verified (30081)
    TaskVerified,
    /// Task disputed (30082)
    TaskDisputed,
    /// Settlement completed (30083)
    SettlementCompleted,
    /// Task paid (30084)
    TaskPaid,
}

/// The numeric kind of an event.
pub open spec fn kind_number(k: EscrowEventKind) -> u32 {
    match k {
        EscrowEventKind::TaskCreated => 30078,
        EscrowEventKind::TaskClaimed => 30079,
        EscrowEventKind::ProofSubmitted => 30080,
        EscrowEventKind::TaskVerified => 30081,
        EscrowEventKind::TaskDisputed => 30082,
        EscrowEventKind::SettlementCompleted => 30083,
        EscrowEventKind::TaskPaid => 30084,
    }
}

impl EscrowEventKind {
    /// Get the numeric kind value.
    pub fn as_u32(self) -> (r: u32)
        ensures
            r == kind_number(self),
    {
        match self {
            EscrowEventKind::TaskCreated => 30078,
            EscrowEventKind::TaskClaimed => 30079,
            EscrowEventKind::ProofSubmitted => 30080,
            EscrowEventKind::TaskVerified => 30081,
            EscrowEventKind::TaskDisputed => 30082,
            EscrowEventKind::SettlementCompleted => 30083,
            EscrowEventKind::TaskPaid => 30084,
        }
    }
}

/// A received event.
#[derive(Debug, Clone)]
pub struct NostrEvent {
    pub id: String,
    pub kind: u32,
    pub content: String,
    pub tags: Vec<NostrTag>,
    pub created_at: i64,
    pub pubkey: String,
}

/// A tag of an event.
#[derive(Debug, Clone)]
pub struct NostrTag {
    pub tag_type: String,
    pub value: String,
}

/// The reference under which content is published.
pub open spec fn event_reference(content: Seq<char>) -> Seq<char> {
    "nostr_event_"@ + decimal_of(encode_utf8(content).len() as usize as nat)
}

/// A JSON member holding a string.
pub open spec fn jt(k: Seq<char>, v: Seq<char>) -> (Seq<char>, Option<int>, Option<Seq<char>>) {
    (k, None, Some(v))
}

/// A JSON member holding an optional string.
pub open spec fn jot(k: Seq<char>, v: Option<String>) -> (Seq<char>, Option<int>, Option<Seq<char>>) {
    (
        k,
        None,
        match v {
            Some(t) => Some(t@),
            None => None,
        },
    )
}

/// A JSON member holding an optional number.
pub open spec fn jn(k: Seq<char>, v: Option<i64>) -> (Seq<char>, Option<int>, Option<Seq<char>>) {
    (
        k,
        match v {
            Some(n) => Some(n as int),
            None => None,
        },
        None,
    )
}

/// The content published when a task is created.
pub open spec fn created_content(t: Task) -> Seq<char> {
    json_object_of(
        seq![
            jt("task_id"@, uuid_text_of(t.id)),
            jt("title"@, t.title@),
            jot("description"@, t.description),
            jn("reward_sats"@, Some(t.reward_sats)),
            jt("employer_pubkey"@, t.employer_pubkey@),
            jn("deadline"@, t.deadline),
            jn("created_at"@, Some(t.created_at)),
        ],
    )
}

/// The content published when a task is claimed.
pub open spec fn claimed_content(t: Task) -> Seq<char> {
    json_object_of(
        seq![
            jt("task_id"@, uuid_text_of(t.id)),
            jot("worker_pubkey"@, t.worker_pubkey),
            jn("claimed_at"@, t.claimed_at),
        ],
    )
}

/// The content published when a proof is submitted.
pub open spec fn proof_content(t: Task) -> Seq<char> {
    json_object_of(
        seq![
            jt("task_id"@, uuid_text_of(t.id)),
            jot("worker_pubkey"@, t.worker_pubkey),
            jot("proof_url"@, t.proof_url),
            jot("proof_hash"@, t.proof_hash),
            jot("nostr_event_id"@, t.proof_nostr_event_id),
        ],
    )
}

/// The content published when a task is verified.
pub open spec fn verified_content(t: Task) -> Seq<char> {
    json_object_of(
        seq![
            jt("task_id"@, uuid_text_of(t.id)),
            jot("verified_by"@, t.verified_by),
            jn("verified_at"@, t.verified_at),
            jot("verification_reason"@, t.verification_reason),
        ],
    )
}

/// The content published when a task goes to dispute.
pub open spec fn disputed_content(t: Task) -> Seq<char> {
    json_object_of(seq![jt("task_id"@, uuid_text_of(t.id)), jt("state"@, "disputed"@)])
}

/// The content published when a settlement completes.
pub open spec fn settlement_content(t: Task) -> Seq<char> {
    json_object_of(
        seq![
            jt("task_id"@, uuid_text_of(t.id)),
            jn("settled_at"@, t.settled_at),
            jt("final_state"@, state_name(t.state)),
        ],
    )
}

/// The content published when a task is paid.
pub open spec fn paid_content(t: Task) -> Seq<char> {
    json_object_of(
        seq![
            jt("task_id"@, uuid_text_of(t.id)),
            jot("worker_pubkey"@, t.worker_pubkey),
            jn("amount_sats"@, Some(t.reward_sats)),
            jn("paid_at"@, t.settled_at),
        ],
    )
}

/// A JSON member holding a string.
pub fn text_entry(key: &str, value: String) -> (r: JsonEntry)
    ensures
        r.key@ == key@,
        r.value == JsonValue::Text(value),
{
    JsonEntry { key: String::from_str(key), value: JsonValue::Text(value) }
}

/// A JSON member holding an optional string (null when absent).
pub fn opt_text_entry(key: &str, value: Option<String>) -> (r: JsonEntry)
    ensures
        r.key@ == key@,
        r.value == match value {
            Some(t) => JsonValue::Text(t),
            None => JsonValue::Null,
        },
{
    let v = match value {
        Some(t) => JsonValue::Text(t),
        None => JsonValue::Null,
    };
    JsonEntry { key: String::from_str(key), value: v }
}

/// A JSON member holding an optional number (null when absent).
pub fn number_entry(key: &str, value: Option<i64>) -> (r: JsonEntry)
    ensures
        r.key@ == key@,
        r.value == match value {
            Some(n) => JsonValue::Number(n),
            None => JsonValue::Null,
        },
{
    let v = match value {
        Some(n) => JsonValue::Number(n),
        None => JsonValue::Null,
    };
    JsonEntry { key: String::from_str(key), value: v }
}

/// A JSON member holding a task's identifier.
fn id_entry(task: &Task) -> (r: JsonEntry)
    ensures
        entry_view(r) == jt("task_id"@, uuid_text_of(task.id)),
{
    text_entry("task_id", uuid_text(task.id))
}

impl NostrPublisher {
    /// The publisher's configuration.
    pub closed spec fn spec_config(&self) -> NostrPublisherConfig {
        self.config
    }

    /// Create a new publisher.
    pub fn new(config: NostrPublisherConfig) -> (r: Result<Self, EscrowError>)
        ensures
            r matches Ok(p) && p.spec_config() == config,
    {
        Ok(NostrPublisher { config })
    }

    /// Publish the creation of a task.
    pub fn publish_task_created(&self, task: Task) -> (r: Result<String, EscrowError>)
        ensures
            r matches Ok(id) && id@ == event_reference(created_content(task)),
    {
        let ghost t0 = task;
        let mut m: Vec<JsonEntry> = Vec::new();
        m.push(id_entry(&task));
        m.push(text_entry("title", task.title));
        m.push(opt_text_entry("description", task.description));
        m.push(number_entry("reward_sats", Some(task.reward_sats)));
        m.push(text_entry("employer_pubkey", task.employer_pubkey));
        m.push(number_entry("deadline", task.deadline));
        m.push(number_entry("created_at", Some(task.created_at)));
        let content = json_object(&m);
        assert(m@.map_values(|e: JsonEntry| entry_view(e)) =~= seq![
            jt("task_id"@, uuid_text_of(t0.id)),
            jt("title"@, t0.title@),
            jot("description"@, t0.description),
            jn("reward_sats"@, Some(t0.reward_sats)),
            jt("employer_pubkey"@, t0.employer_pubkey@),
            jn("deadline"@, t0.deadline),
            jn("created_at"@, Some(t0.created_at)),
        ]);
        self.publish_event(EscrowEventKind::TaskCreated, content, Vec::new())
    }

    /// Publish the claim of a task.
    pub fn publish_task_claimed(&self, task: Task) -> (r: Result<String, EscrowError>)
        ensures
            r matches Ok(id) && id@ == event_reference(claimed_content(task)),
    {
        let ghost t0 = task;
        let mut m: Vec<JsonEntry> = Vec::new();
        m.push(id_entry(&task));
        m.push(opt_text_entry("worker_pubkey", task.worker_pubkey));
        m.push(number_entry("claimed_at", task.claimed_at));
        let content = json_object(&m);
        assert(m@.map_values(|e: JsonEntry| entry_view(e)) =~= seq![
            jt("task_id"@, uuid_text_of(t0.id)),
            jot("worker_pubkey"@, t0.worker_pubkey),
            jn("claimed_at"@, t0.claimed_at),
        ]);
        self.publish_event(EscrowEventKind::TaskClaimed, content, Vec::new())
    }

    /// Publish the submission of a proof.
    pub fn publish_proof_submitted(&self, task: Task) -> (r: Result<String, EscrowError>)
        ensures
            r matches Ok(id) && id@ == event_reference(proof_content(task)),
    {
        let ghost t0 = task;
        let mut m: Vec<JsonEntry> = Vec::new();
        m.push(id_entry(&task));
        m.push(opt_text_entry("worker_pubkey", task.worker_pubkey));
        m.push(opt_text_entry("proof_url", task.proof_url));
        m.push(opt_text_entry("proof_hash", task.proof_hash));
        m.push(opt_text_entry("nostr_event_id", task.proof_nostr_event_id));
        let content = json_object(&m);
        assert(m@.map_values(|e: JsonEntry| entry_view(e)) =~= seq![
            jt("task_id"@, uuid_text_of(t0.id)),
            jot("worker_pubkey"@, t0.worker_pubkey),
            jot("proof_url"@, t0.proof_url),
            jot("proof_hash"@, t0.proof_hash),
            jot("nostr_event_id"@, t0.proof_nostr_event_id),
        ]);
        self.publish_event(EscrowEventKind::ProofSubmitted, content, Vec::new())
    }

    /// Publish the verification of a task.
    pub fn publish_task_verified(&self, task: Task) -> (r: Result<String, EscrowError>)
        ensures
            r matches Ok(id) && id@ == event_reference(verified_content(task)),
    {
        let ghost t0 = task;
        let mut m: Vec<JsonEntry> = Vec::new();
        m.push(id_entry(&task));
        m.push(opt_text_entry("verified_by", task.verified_by));
        m.push(number_entry("verified_at", task.verified_at));
        m.push(opt_text_entry("verification_reason", task.verification_reason));
        let content = json_object(&m);
        assert(m@.map_values(|e: JsonEntry| entry_view(e)) =~= seq![
            jt("task_id"@, uuid_text_of(t0.id)),
            jot("verified_by"@, t0.verified_by),
            jn("verified_at"@, t0.verified_at),
            jot("verification_reason"@, t0.verification_reason),
        ]);
        self.publish_event(EscrowEventKind::TaskVerified, content, Vec::new())
    }

    /// Publish that a task went to dispute.
    pub fn publish_task_disputed(&self, task: Task) -> (r: Result<String, EscrowError>)
        ensures
            r matches Ok(id) && id@ == event_reference(disputed_content(task)),
    {
        let ghost t0 = task;
        let mut m: Vec<JsonEntry> = Vec::new();
        m.push(id_entry(&task));
        m.push(text_entry("state", String::from_str("disputed")));
        let content = json_object(&m);
        assert(m@.map_values(|e: JsonEntry| entry_view(e)) =~= seq![jt("task_id"@, uuid_text_of(t0.id)), jt("state"@, "disputed"@)]);
        self.publish_event(EscrowEventKind::TaskDisputed, content, Vec::new())
    }

    /// Publish the completion of a settlement.
    pub fn publish_settlement_completed(&self, task: Task) -> (r: Result<String, EscrowError>)
        ensures
            r matches Ok(id) && id@ == event_reference(settlement_content(task)),
    {
        let ghost t0 = task;
        let mut m: Vec<JsonEntry> = Vec::new();
        m.push(id_entry(&task));
        m.push(number_entry("settled_at", task.settled_at));
        m.push(text_entry("final_state", task.state.name()));
        let content = json_object(&m);
        assert(m@.map_values(|e: JsonEntry| entry_view(e)) =~= seq![
            jt("task_id"@, uuid_text_of(t0.id)),
            jn("settled_at"@, t0.settled_at),
            jt("final_state"@, state_name(t0.state)),
        ]);
        self.publish_event(EscrowEventKind::SettlementCompleted, content, Vec::new())
    }

    /// Publish the payment of a task.
    pub fn publish_task_paid(&self, task: Task) -> (r: Result<String, EscrowError>)
        ensures
            r matches Ok(id) && id@ == event_reference(paid_content(task)),
    {
        let ghost t0 = task;
        let mut m: Vec<JsonEntry> = Vec::new();
        m.push(id_entry(&task));
        m.push(opt_text_entry("worker_pubkey", task.worker_pubkey));
        m.push(number_entry("amount_sats", Some(task.reward_sats)));
        m.push(number_entry("paid_at", task.settled_at));
        let content = json_object(&m);
        assert(m@.map_values(|e: JsonEntry| entry_view(e)) =~= seq![
            jt("task_id"@, uuid_text_of(t0.id)),
            jot("worker_pubkey"@, t0.worker_pubkey),
            jn("amount_sats"@, Some(t0.reward_sats)),
            jn("paid_at"@, t0.settled_at),
        ]);
        self.publish_event(EscrowEventKind::TaskPaid, content, Vec::new())
    }

    /// Publish an event of the given kind; returns its reference.
    fn publish_event(&self, kind: EscrowEventKind, content: String, tags: Vec<NostrTag>) -> (r:
        Result<String, EscrowError>)
        ensures
            r matches Ok(id) && id@ == event_reference(content@),
    {
        let n = content.as_str().len();
        Ok(String::from_str("nostr_event_").concat(decimal(n as u64).as_str()))
    }

    /// Subscribe to the events of a task.
    pub fn subscribe_to_task_events(&self, task_id: u128) -> (r: Result<(), EscrowError>)
        ensures
            r is Ok,
    {
        Ok(())
    }

    /// The events of a task received from the network; none are kept.
    pub fn get_task_events(&self, task_id: u128) -> (r: Result<Vec<NostrEvent>, EscrowError>)
        ensures
            r matches Ok(v) && v@.len() == 0,
    {
        Ok(Vec::new())
    }
}

} // verus!
