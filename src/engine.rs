//! Escrow engine: the hold-invoice protocol.
//!
//! A hold invoice is committed against a payment hash and stays live in the
//! active-invoice index until it is either settled, by revealing its
//! preimage and routing the payment to the worker, or cancelled, which
//! returns the funds to the payer. The index is the sole source of truth for
//! whether a hold is still live.

use vstd::prelude::*;
use crate::error::EscrowError;
use crate::external::{decimal, decimal_of, fresh_id, now_secs, uuid_text};
use crate::models::{FundingStatus, HoldInvoiceData, InvoiceSettlementData};
use crate::payment_coordinator::expiry_after;
use crate::EscrowResult;

verus! {

/// Configuration for the escrow engine.
#[derive(Debug, Clone)]
pub struct EscrowEngineConfig {
    /// Invoice expiry time in seconds
    pub invoice_expiry_secs: u64,
    /// Maximum invoice amount in sats
    pub max_invoice_amount_sats: u64,
    /// Webhook URL for invoice events
    pub webhook_url: Option<String>,
}

impl Default for EscrowEngineConfig {
    fn default() -> (r: Self)
        ensures
            r.invoice_expiry_secs == 3600,
            r.max_invoice_amount_sats == 10_000_000,
            r.webhook_url is None,
    {
        EscrowEngineConfig {
            invoice_expiry_secs: 3600,
            max_invoice_amount_sats: 10_000_000,
            webhook_url: None,
        }
    }
}

/// A live hold invoice.
#[derive(Debug)]
pub struct ActiveInvoice {
    pub invoice_hash: String,
    pub hold_invoice_id: String,
    pub amount_sats: u64,
    /// The secret whose revelation settles the hold.
    pub preimage: String,
}

/// A status report on a hold invoice, delivered to whoever subscribed to
/// its payment hash.
#[derive(Debug, Clone)]
pub struct InvoiceStatusUpdate {
    pub invoice_hash: String,
    pub status: FundingStatus,
    pub amount_sats: Option<u64>,
    pub preimage: Option<String>,
    pub timestamp: i64,
}

/// Invoice settlement request.
#[derive(Debug, Clone)]
pub struct SettlementRequest {
    pub hold_invoice_id: String,
    pub worker_invoice: String,
}

/// Node information.
#[derive(Debug, Clone)]
pub struct NodeInfo {
    pub node_id: String,
    pub listening_addresses: Vec<String>,
    pub channels: u32,
    pub capacity_sats: u64,
}

/// Liquidity information.
#[derive(Debug, Clone)]
pub struct LiquidityInfo {
    pub inbound_liquidity_sats: u64,
    pub outbound_liquidity_sats: u64,
    pub max_hold_invoice_sats: u64,
}

/// The hold invoice id that belongs to a payment hash.
pub open spec fn hold_id_of(hash: Seq<char>) -> Seq<char> {
    "hold_"@ + hash
}

/// The invoice text for an amount and a payment hash.
pub open spec fn invoice_text(amount_sats: u64, hash: Seq<char>) -> Seq<char> {
    "lnbc"@ + decimal_of(amount_sats as nat) + "u1"@ + hash
}

/// Manages the hold invoices of the escrow.
pub struct EscrowEngine {
    config: EscrowEngineConfig,
    active_invoices: Vec<ActiveInvoice>,
    subscriptions: Vec<String>,
}

impl EscrowEngine {
    /// The active-invoice index.
    pub closed spec fn active(&self) -> Seq<ActiveInvoice> {
        self.active_invoices@
    }

    /// The payment hashes that status updates are wanted for, in order of
    /// subscription.
    pub closed spec fn subscribed(&self) -> Seq<Seq<char>> {
        self.subscriptions@.map_values(|h: String| h@)
    }

    /// The engine's configuration.
    pub closed spec fn spec_config(&self) -> EscrowEngineConfig {
        self.config
    }

    /// The index position of the live hold with payment hash `hash`.
    pub open spec fn hash_index(&self, hash: Seq<char>) -> Option<int> {
        if exists|i: int| 0 <= i < self.active().len() && self.active()[i].invoice_hash@ == hash {
            Some(
                choose|i: int|
                    0 <= i < self.active().len() && self.active()[i].invoice_hash@ == hash,
            )
        } else {
            None
        }
    }

    /// The index position of the live hold with id `hold_id`.
    pub open spec fn hold_index(&self, hold_id: Seq<char>) -> Option<int> {
        if exists|i: int|
            0 <= i < self.active().len() && self.active()[i].hold_invoice_id@ == hold_id {
            Some(
                choose|i: int|
                    0 <= i < self.active().len() && self.active()[i].hold_invoice_id@ == hold_id,
            )
        } else {
            None
        }
    }

    /// Whether a hold with payment hash `hash` is live.
    pub open spec fn is_live_hash(&self, hash: Seq<char>) -> bool {
        self.hash_index(hash) is Some
    }

    /// Whether the hold with id `hold_id` is live.
    pub open spec fn is_live_hold(&self, hold_id: Seq<char>) -> bool {
        self.hold_index(hold_id) is Some
    }

    /// Well-formedness: payment hashes are unique in the index, each hold id
    /// is derived from its hash, and each preimage is non-empty.
    pub open spec fn wf(&self) -> bool {
        &&& forall|i: int, j: int|
            0 <= i < self.active().len() && 0 <= j < self.active().len() && i != j
                ==> #[trigger] self.active()[i].invoice_hash@ != #[trigger] self.active()[j].invoice_hash@
        &&& forall|i: int|
            0 <= i < self.active().len() ==> #[trigger] self.active()[i].hold_invoice_id@
                == hold_id_of(self.active()[i].invoice_hash@)
        &&& forall|i: int|
            0 <= i < self.active().len() ==> #[trigger] self.active()[i].preimage@.len() > 0
    }

    /// Create a new escrow engine with the given configuration and no live
    /// holds.
    pub fn new(config: EscrowEngineConfig) -> (r: EscrowResult<Self>)
        ensures
            r matches Ok(e) && e.wf() && e.active().len() == 0 && e.spec_config() == config
                && e.subscribed().len() == 0,
    {
        Ok(EscrowEngine { config, active_invoices: Vec::new(), subscriptions: Vec::new() })
    }

    /// `after` is `self` with the live hold `hold_id` taken out of the
    /// index, everything else kept.
    pub open spec fn released(&self, after: &Self, hold_id: Seq<char>) -> bool {
        &&& self.hold_index(hold_id) matches Some(i)
        &&& after.active() == self.active().remove(i)
        &&& after.spec_config() == self.spec_config()
    }

    /// What registering a hold invoice for `amount_sats` did: the payment
    /// hash `d.invoice_hash` was not live before and is now the last entry of
    /// the index, with its hold id, amount and invoice text.
    pub open spec fn issued(&self, after: &Self, amount_sats: u64, d: HoldInvoiceData) -> bool {
        &&& 0 < amount_sats <= self.spec_config().max_invoice_amount_sats
        &&& d.amount_sats == amount_sats
        &&& !self.is_live_hash(d.invoice_hash@)
        &&& d.hold_invoice_id@ == hold_id_of(d.invoice_hash@)
        &&& d.invoice@ == invoice_text(amount_sats, d.invoice_hash@)
        &&& after.spec_config() == self.spec_config()
        &&& after.active().len() == self.active().len() + 1
        &&& after.active().subrange(0, self.active().len() as int) == self.active()
        &&& after.active().last().invoice_hash == d.invoice_hash
        &&& after.active().last().hold_invoice_id == d.hold_invoice_id
        &&& after.active().last().amount_sats == amount_sats
        &&& after.is_live_hold(d.hold_invoice_id@)
    }

    /// The largest invoice amount the engine accepts.
    pub fn max_invoice_amount(&self) -> (r: u64)
        ensures
            r == self.spec_config().max_invoice_amount_sats,
    {
        self.config.max_invoice_amount_sats
    }

    /// Register a hold invoice for `amount_sats` under the payment hash
    /// `hash_` followed by `hash_id`, settled by revealing `preimage`, and
    /// expiring `invoice_expiry_secs` after `now`.
    pub fn register_hold_invoice(
        &mut self,
        amount_sats: u64,
        hash_id: String,
        preimage: String,
        now: i64,
    ) -> (r: EscrowResult<HoldInvoiceData>)
        requires
            old(self).wf(),
        ensures
            final(self).wf(),
            final(self).spec_config() == old(self).spec_config(),
            r is Ok <==> 0 < amount_sats <= old(self).spec_config().max_invoice_amount_sats
                && preimage@.len() > 0 && !old(self).is_live_hash("hash_"@ + hash_id@),
            amount_sats == 0 ==> (r matches Err(EscrowError::Invoice(m)) && m@
                == "Amount must be greater than 0"@),
            amount_sats > old(self).spec_config().max_invoice_amount_sats ==> (r matches Err(
                EscrowError::Invoice(_),
            )),
            0 < amount_sats <= old(self).spec_config().max_invoice_amount_sats && preimage@.len()
                == 0 ==> (r matches Err(e) && e is Crypto),
            0 < amount_sats <= old(self).spec_config().max_invoice_amount_sats && preimage@.len()
                > 0 && old(self).is_live_hash("hash_"@ + hash_id@) ==> (r matches Err(e)
                && e is Internal),
            r is Err ==> *final(self) == *old(self),
            r matches Ok(d) ==> {
                &&& old(self).issued(&*final(self), amount_sats, d)
                &&& d.invoice_hash@ == "hash_"@ + hash_id@
                &&& final(self).active().last().preimage@ == preimage@
                &&& d.expires_at == if now + old(self).spec_config().invoice_expiry_secs
                    > i64::MAX {
                    i64::MAX as int
                } else {
                    now + old(self).spec_config().invoice_expiry_secs
                }
            },
    {
        if amount_sats > self.config.max_invoice_amount_sats {
            return Err(EscrowError::Invoice(String::from_str("Amount exceeds the maximum")));
        }
        if amount_sats == 0 {
            return Err(EscrowError::Invoice(String::from_str("Amount must be greater than 0")));
        }
        if preimage.as_str().is_empty() {
            return Err(EscrowError::Crypto(String::from_str("Preimage cannot be empty")));
        }
        let invoice_hash = String::from_str("hash_").concat(hash_id.as_str());
        if self.find_hash(&invoice_hash).is_some() {
            return Err(EscrowError::Internal(String::from_str("Payment hash already in use")));
        }
        let invoice = String::from_str("lnbc").concat(decimal(amount_sats).as_str()).concat(
            "u1",
        ).concat(invoice_hash.as_str());
        let hold_invoice_id = String::from_str("hold_").concat(invoice_hash.as_str());
        let expires_at = expiry_after(now, self.config.invoice_expiry_secs);
        proof {
            reveal_strlit("u1");
        }
        let ghost old_active = self.active();
        self.active_invoices.push(
            ActiveInvoice {
                invoice_hash: invoice_hash.clone(),
                hold_invoice_id: hold_invoice_id.clone(),
                amount_sats,
                preimage,
            },
        );
        assert(self.active().subrange(0, old_active.len() as int) =~= old_active);
        proof {
            let n = self.active().len() - 1;
            assert(self.active()[n].hold_invoice_id@ == hold_invoice_id@);
        }
        Ok(HoldInvoiceData { invoice, invoice_hash, hold_invoice_id, amount_sats, expires_at })
    }

    /// Create a hold invoice for `amount_sats`, bound to a fresh payment hash
    /// and a fresh preimage, and register it in the active-invoice index.
    /// Only a clash of the drawn hash with a live one makes a valid amount
    /// fail.
    pub fn create_hold_invoice(
        &mut self,
        amount_sats: u64,
        description: String,
        task_id: String,
    ) -> (r: EscrowResult<HoldInvoiceData>)
        requires
            old(self).wf(),
        ensures
            final(self).wf(),
            final(self).spec_config() == old(self).spec_config(),
            amount_sats == 0 ==> (r matches Err(EscrowError::Invoice(m)) && m@
                == "Amount must be greater than 0"@),
            amount_sats > old(self).spec_config().max_invoice_amount_sats ==> (r matches Err(
                EscrowError::Invoice(_),
            )),
            r matches Err(e) ==> *final(self) == *old(self),
            r matches Err(e) ==> (0 < amount_sats <= old(self).spec_config().max_invoice_amount_sats
                ==> e is Internal),
            r matches Err(e) ==> (e is Internal ==> old(self).active().len() > 0),
            0 < amount_sats <= old(self).spec_config().max_invoice_amount_sats && old(
                self,
            ).active().len() == 0 ==> r is Ok,
            r matches Ok(d) ==> old(self).issued(&*final(self), amount_sats, d),
    {
        let hash_id = uuid_text(fresh_id());
        let preimage = uuid_text(fresh_id());
        self.register_hold_invoice(amount_sats, hash_id, preimage, now_secs())
    }

    /// The index position of the live hold with payment hash `hash`.
    fn find_hash(&self, hash: &String) -> (r: Option<usize>)
        requires
            self.wf(),
        ensures
            match r {
                Some(i) => self.hash_index(hash@) == Some(i as int),
                None => self.hash_index(hash@) is None,
            },
    {
        let mut i: usize = 0;
        while i < self.active_invoices.len()
            invariant
                self.wf(),
                i <= self.active().len(),
                forall|j: int| 0 <= j < i ==> self.active()[j].invoice_hash@ != hash@,
            decreases self.active().len() - i,
        {
            if self.active_invoices[i].invoice_hash == *hash {
                assert(self.hash_index(hash@) == Some(i as int));
                return Some(i);
            }
            i = i + 1;
        }
        None
    }

    /// The index position of the live hold with id `hold_id`.
    fn find_hold(&self, hold_id: &str) -> (r: Option<usize>)
        requires
            self.wf(),
        ensures
            match r {
                Some(i) => self.hold_index(hold_id@) == Some(i as int),
                None => self.hold_index(hold_id@) is None,
            },
    {
        let target = String::from_str(hold_id);
        let mut i: usize = 0;
        while i < self.active_invoices.len()
            invariant
                self.wf(),
                i <= self.active().len(),
                target@ == hold_id@,
                forall|j: int| 0 <= j < i ==> self.active()[j].hold_invoice_id@ != hold_id@,
            decreases self.active().len() - i,
        {
            if self.active_invoices[i].hold_invoice_id == target {
                proof {
                    lemma_hold_index_unique(self, i as int);
                }
                return Some(i);
            }
            i = i + 1;
        }
        None
    }

    /// Get the status of a hold invoice.
    pub fn get_invoice_status(&self, invoice_hash: &str) -> (r: EscrowResult<FundingStatus>)
        requires
            self.wf(),
        ensures
            r is Ok <==> self.is_live_hash(invoice_hash@),
            r matches Ok(s) ==> s == FundingStatus::Created,
            r matches Err(e) ==> e is Invoice,
    {
        let hash = String::from_str(invoice_hash);
        if self.find_hash(&hash).is_none() {
            return Err(EscrowError::Invoice(String::from_str("Invoice not found")));
        }
        Ok(FundingStatus::Created)
    }

    /// Settle a hold invoice: reveal its preimage, route the payment to the
    /// worker's invoice, and take the hold out of the active index.
    pub fn settle_hold_invoice(&mut self, hold_invoice_id: &str, worker_invoice: &str) -> (r:
        EscrowResult<InvoiceSettlementData>)
        requires
            old(self).wf(),
        ensures
            final(self).wf(),
            r is Ok <==> old(self).is_live_hold(hold_invoice_id@) && worker_invoice@.len() > 0,
            r matches Err(e) ==> e is Invoice && *final(self) == *old(self),
            r matches Ok(d) ==> {
                &&& old(self).released(&*final(self), hold_invoice_id@)
                &&& old(self).hold_index(hold_invoice_id@) matches Some(i)
                &&& d.invoice_hash == old(self).active()[i].invoice_hash
                &&& d.preimage == old(self).active()[i].preimage
                &&& d.preimage@.len() > 0
                &&& d.amount_sats == old(self).active()[i].amount_sats
                &&& d.paid_to@ == worker_invoice@
            },
    {
        let found = self.find_hold(hold_invoice_id);
        let i = match found {
            Some(i) => i,
            None => {
                return Err(EscrowError::Invoice(String::from_str("Hold invoice not found")));
            },
        };
        if worker_invoice.is_empty() {
            return Err(EscrowError::Invoice(String::from_str("Worker invoice cannot be empty")));
        }
        let ghost before = *self;
        let entry = self.active_invoices.remove(i);
        proof {
            lemma_remove_keeps_wf(&before, self, i as int);
        }
        Ok(
            InvoiceSettlementData {
                invoice_hash: entry.invoice_hash,
                preimage: entry.preimage,
                amount_sats: entry.amount_sats,
                settled_at: now_secs(),
                paid_to: String::from_str(worker_invoice),
            },
        )
    }

    /// Cancel a hold invoice, returning the funds to the payer.
    pub fn cancel_hold_invoice(&mut self, hold_invoice_id: &str) -> (r: EscrowResult<()>)
        requires
            old(self).wf(),
        ensures
            final(self).wf(),
            r is Ok <==> old(self).is_live_hold(hold_invoice_id@),
            r is Ok ==> old(self).released(&*final(self), hold_invoice_id@),
            r matches Err(e) ==> e is Invoice && *final(self) == *old(self),
    {
        let found = self.find_hold(hold_invoice_id);
        match found {
            Some(i) => {
                let ghost before = *self;
                let _entry = self.active_invoices.remove(i);
                proof {
                    lemma_remove_keeps_wf(&before, self, i as int);
                }
                Ok(())
            },
            None => Err(EscrowError::Invoice(String::from_str("Hold invoice not found"))),
        }
    }

    /// Subscribe to status updates for the live hold with payment hash
    /// `invoice_hash`; a hash already subscribed to is not added twice.
    pub fn register_status_callback(&mut self, invoice_hash: String) -> (r: EscrowResult<()>)
        requires
            old(self).wf(),
        ensures
            final(self).wf(),
            final(self).active() == old(self).active(),
            final(self).spec_config() == old(self).spec_config(),
            r is Ok <==> old(self).is_live_hash(invoice_hash@),
            r matches Err(e) ==> e is Invoice && final(self).subscribed() == old(self).subscribed(),
            r is Ok ==> final(self).subscribed() == if old(self).subscribed().contains(
                invoice_hash@,
            ) {
                old(self).subscribed()
            } else {
                old(self).subscribed().push(invoice_hash@)
            },
    {
        if self.find_hash(&invoice_hash).is_none() {
            return Err(EscrowError::Invoice(String::from_str("Invoice not found")));
        }
        let mut i: usize = 0;
        while i < self.subscriptions.len()
            invariant
                *self == *old(self),
                old(self).wf(),
                old(self).is_live_hash(invoice_hash@),
                i <= self.subscriptions@.len(),
                forall|j: int| 0 <= j < i ==> self.subscriptions@[j]@ != invoice_hash@,
            decreases self.subscriptions@.len() - i,
        {
            if self.subscriptions[i] == invoice_hash {
                assert(self.subscribed()[i as int] == invoice_hash@);
                return Ok(());
            }
            i = i + 1;
        }
        proof {
            assert forall|j: int| 0 <= j < self.subscribed().len() implies self.subscribed()[j]
                != invoice_hash@ by {
                assert(self.subscribed()[j] == self.subscriptions@[j]@);
            }
        }
        let ghost before = self.subscriptions@;
        self.subscriptions.push(invoice_hash);
        assert(self.subscriptions@.map_values(|h: String| h@) =~= before.map_values(
            |h: String| h@,
        ).push(self.subscriptions@.last()@));
        Ok(())
    }

    /// The payment hashes subscribed to, in order of subscription.
    pub fn subscribed_hashes(&self) -> (r: Vec<String>)
        ensures
            r@.map_values(|h: String| h@) == self.subscribed(),
    {
        let mut out: Vec<String> = Vec::new();
        let mut i: usize = 0;
        while i < self.subscriptions.len()
            invariant
                i <= self.subscriptions@.len(),
                out@.len() == i,
                forall|j: int| 0 <= j < i ==> #[trigger] out@[j]@ == self.subscriptions@[j]@,
            decreases self.subscriptions@.len() - i,
        {
            out.push(self.subscriptions[i].clone());
            i = i + 1;
        }
        assert(out@.map_values(|h: String| h@) =~= self.subscribed());
        out
    }

    /// The status update at time `now` for the hold with payment hash
    /// `invoice_hash`: a live hold is reported as created, with its amount;
    /// an unknown hash is an error.
    pub fn status_update(&self, invoice_hash: &str, now: i64) -> (r: EscrowResult<
        InvoiceStatusUpdate,
    >)
        requires
            self.wf(),
        ensures
            r is Ok <==> self.is_live_hash(invoice_hash@),
            r matches Err(e) ==> e is Invoice,
            r matches Ok(u) ==> {
                &&& self.hash_index(invoice_hash@) matches Some(i)
                &&& u.invoice_hash@ == invoice_hash@
                &&& u.status == FundingStatus::Created
                &&& u.amount_sats == Some(self.active()[i].amount_sats)
                &&& u.preimage is None
                &&& u.timestamp == now
            },
    {
        let hash = String::from_str(invoice_hash);
        match self.find_hash(&hash) {
            Some(i) => Ok(
                InvoiceStatusUpdate {
                    invoice_hash: hash,
                    status: FundingStatus::Created,
                    amount_sats: Some(self.active_invoices[i].amount_sats),
                    preimage: None,
                    timestamp: now,
                },
            ),
            None => Err(EscrowError::Invoice(String::from_str("Invoice not found"))),
        }
    }

    /// Get node information.
    pub fn get_node_info(&self) -> (r: EscrowResult<NodeInfo>)
        ensures
            r is Ok,
    {
        let mut listening_addresses: Vec<String> = Vec::new();
        listening_addresses.push(String::from_str("127.0.0.1:9735"));
        Ok(
            NodeInfo {
                node_id: String::from_str("local_node"),
                listening_addresses,
                channels: 0,
                capacity_sats: 0,
            },
        )
    }

    /// Get liquidity information.
    pub fn get_liquidity_info(&self) -> (r: EscrowResult<LiquidityInfo>)
        ensures
            r matches Ok(l) && l.max_hold_invoice_sats == self.spec_config().max_invoice_amount_sats,
    {
        Ok(
            LiquidityInfo {
                inbound_liquidity_sats: 1_000_000,
                outbound_liquidity_sats: 1_000_000,
                max_hold_invoice_sats: self.config.max_invoice_amount_sats,
            },
        )
    }
}

/// Hold ids are unique in a well-formed index: the position holding
/// `hold_id` is the one that `hold_index` names.
proof fn lemma_hold_index_unique(e: &EscrowEngine, i: int)
    requires
        e.wf(),
        0 <= i < e.active().len(),
    ensures
        e.hold_index(e.active()[i].hold_invoice_id@) == Some(i),
{
    let h = e.active()[i].hold_invoice_id@;
    assert(e.hold_index(h) is Some);
    let j = e.hold_index(h)->0;
    if j != i {
        reveal_strlit("hold_");
        let a = e.active()[i].invoice_hash@;
        let b = e.active()[j].invoice_hash@;
        assert(a =~= hold_id_of(a).subrange(5, hold_id_of(a).len() as int));
        assert(b =~= hold_id_of(b).subrange(5, hold_id_of(b).len() as int));
    }
}

/// Taking one hold out of a well-formed index keeps it well-formed.
proof fn lemma_remove_keeps_wf(before: &EscrowEngine, after: &EscrowEngine, i: int)
    requires
        before.wf(),
        0 <= i < before.active().len(),
        after.active() == before.active().remove(i),
    ensures
        after.wf(),
{
    assert forall|a: int, b: int|
        0 <= a < after.active().len() && 0 <= b < after.active().len() && a != b implies #[trigger] after.active()[a].invoice_hash@
        != #[trigger] after.active()[b].invoice_hash@ by {
        let a0 = if a < i { a } else { a + 1 };
        let b0 = if b < i { b } else { b + 1 };
        assert(after.active()[a] == before.active()[a0]);
        assert(after.active()[b] == before.active()[b0]);
    }
    assert forall|a: int| 0 <= a < after.active().len() implies #[trigger] after.active()[a].hold_invoice_id@
        == hold_id_of(after.active()[a].invoice_hash@) && after.active()[a].preimage@.len() > 0 by {
        let a0 = if a < i { a } else { a + 1 };
        assert(after.active()[a] == before.active()[a0]);
    }
}

/// A hold is released at most once: once settlement or cancellation has
/// taken it out of a well-formed index, it is no longer live, so a second
/// settlement or cancellation of it fails.
pub proof fn lemma_hold_released_once(before: &EscrowEngine, after: &EscrowEngine, hold_id: Seq<char>)
    requires
        before.wf(),
        before.released(after, hold_id),
    ensures
        after.wf(),
        !after.is_live_hold(hold_id),
{
    let i = before.hold_index(hold_id)->0;
    lemma_remove_keeps_wf(before, after, i);
    lemma_hold_index_unique(before, i);
    if after.is_live_hold(hold_id) {
        let k = after.hold_index(hold_id)->0;
        let k0 = if k < i { k } else { k + 1 };
        assert(after.active()[k] == before.active()[k0]);
        lemma_hold_index_unique(before, k0);
    }
}

} // verus!
