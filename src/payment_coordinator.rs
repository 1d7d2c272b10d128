//! Payment coordinator: picks, prices and drives a funding rail.
//!
//! Eligibility of a rail and its fee are pure functions of the amount, so
//! quotes need no round-trip to any collaborator.

use vstd::prelude::*;
use crate::error::EscrowError;
use crate::external::{decimal, fresh_id, now_secs, uuid_text};
use crate::models::FundingMode;
use crate::EscrowResult;

verus! {

/// Smallest amount for a submarine swap.
pub const MIN_SUBMARINE_SATS: u64 = 10000;

/// Smallest amount for a reverse swap.
pub const MIN_REVERSE_SATS: u64 = 50000;

/// Smallest amount for a multisig escrow.
pub const MIN_MULTISIG_SATS: u64 = 100000;

/// Configuration for the payment coordinator.
#[derive(Debug, Clone)]
pub struct PaymentCoordinatorConfig {
    /// Swap provider API base URL
    pub boltz_api_url: String,
    /// Default payment timeout in seconds
    pub payment_timeout_secs: u64,
    /// Maximum retry attempts for failed payments
    pub max_retry_attempts: u32,
    /// Enable fallback payment methods
    pub enable_fallbacks: bool,
}

impl Default for PaymentCoordinatorConfig {
    fn default() -> (r: Self)
        ensures
            r.boltz_api_url@ == "https://api.boltz.exchange"@,
            r.payment_timeout_secs == 300,
            r.max_retry_attempts == 3,
            r.enable_fallbacks,
    {
        PaymentCoordinatorConfig {
            boltz_api_url: String::from_str("https://api.boltz.exchange"),
            payment_timeout_secs: 300,
            max_retry_attempts: 3,
            enable_fallbacks: true,
        }
    }
}

/// Main payment coordinator.
pub struct PaymentCoordinator {
    config: PaymentCoordinatorConfig,
}

/// Payment request for funding a task.
#[derive(Debug, Clone)]
pub struct PaymentRequest {
    pub task_id: u128,
    pub amount_sats: u64,
    pub preferred_mode: FundingMode,
    pub payer_pubkey: String,
    pub description: String,
}

/// Payment response containing funding details.
#[derive(Debug, Clone)]
pub struct PaymentResponse {
    pub funding_id: u128,
    pub mode: FundingMode,
    pub invoice: Option<String>,
    pub onchain_address: Option<String>,
    pub swap_id: Option<String>,
    pub expires_at: Option<i64>,
    pub estimated_fees_sats: u64,
}

/// Payment status update.
#[derive(Debug, Clone)]
pub struct PaymentStatusUpdate {
    pub funding_id: u128,
    pub status: PaymentStatus,
    pub confirmations: Option<u32>,
    pub transaction_id: Option<String>,
    pub failure_reason: Option<String>,
}

/// Payment status.
#[derive(Debug, Clone, Copy, PartialEq, Eq, Structural)]
pub enum PaymentStatus {
    /// Payment initiated, awaiting confirmation
    Pending,
    /// Payment confirmed but not yet settled
    Confirmed,
    /// Payment completed successfully
    Completed,
    /// Payment failed or expired
    Failed,
    /// Payment cancelled by user
    Cancelled,
}

/// Direction of a swap.
#[derive(Debug, Clone, Copy, PartialEq, Eq, Structural)]
enum SwapDirection {
    /// On-chain funds in, Lightning out.
    Submarine,
    /// Lightning funds in, on-chain out.
    Reverse,
}

/// Request to the swap provider.
struct SwapRequest {
    amount: u64,
    direction: SwapDirection,
    invoice: Option<String>,
    refund_address: Option<String>,
}

/// Response of the swap provider.
struct SwapOffer {
    id: String,
    invoice: String,
    address: String,
    expected_amount: u64,
    timeout_block_height: u32,
}

/// The rails that an amount is eligible for, in order of preference.
pub open spec fn supported_modes(amount_sats: u64) -> Seq<FundingMode> {
    seq![FundingMode::LightningHold, FundingMode::LightningStandard] + (if amount_sats
        >= MIN_SUBMARINE_SATS {
        seq![FundingMode::OnchainSubmarine]
    } else {
        Seq::empty()
    }) + (if amount_sats >= MIN_REVERSE_SATS {
        seq![FundingMode::OnchainReverse]
    } else {
        Seq::empty()
    }) + (if amount_sats >= MIN_MULTISIG_SATS {
        seq![FundingMode::OnchainMultisig]
    } else {
        Seq::empty()
    })
}

/// Whether an amount is eligible for a rail.
pub open spec fn mode_supported(amount_sats: u64, mode: FundingMode) -> bool {
    match mode {
        FundingMode::LightningHold | FundingMode::LightningStandard => true,
        FundingMode::OnchainSubmarine => amount_sats >= MIN_SUBMARINE_SATS,
        FundingMode::OnchainReverse => amount_sats >= MIN_REVERSE_SATS,
        FundingMode::OnchainMultisig => amount_sats >= MIN_MULTISIG_SATS,
    }
}

/// The fee rate of a rail, in tenths of a percent.
pub open spec fn fee_rate_per_mille(mode: FundingMode) -> int {
    match mode {
        FundingMode::LightningHold | FundingMode::LightningStandard => 1,
        FundingMode::OnchainSubmarine => 5,
        FundingMode::OnchainReverse => 3,
        FundingMode::OnchainMultisig => 10,
    }
}

/// The fee of a rail for an amount, rounded down.
pub open spec fn fee_of(amount_sats: u64, mode: FundingMode) -> int {
    (amount_sats * fee_rate_per_mille(mode)) / 1000
}

/// Fees are monotone in the amount: for a fixed rail, a larger amount never
/// costs a smaller fee.
pub proof fn lemma_fees_monotone(a: u64, b: u64, mode: FundingMode)
    requires
        a <= b,
    ensures
        fee_of(a, mode) <= fee_of(b, mode),
{
    let r = fee_rate_per_mille(mode);
    assert(a * r <= b * r) by (nonlinear_arith)
        requires
            a <= b,
            r >= 0,
    ;
    assert((a * r) / 1000 <= (b * r) / 1000) by (nonlinear_arith)
        requires
            a * r <= b * r,
    ;
}

/// `now + secs`, or the largest time if that does not fit.
pub fn expiry_after(now: i64, secs: u64) -> (r: i64)
    ensures
        r == if now + secs > i64::MAX {
            i64::MAX as int
        } else {
            now + secs
        },
{
    if now as i128 + secs as i128 > i64::MAX as i128 {
        i64::MAX
    } else {
        (now as i128 + secs as i128) as i64
    }
}

impl PaymentCoordinator {
    /// The coordinator's configuration.
    pub closed spec fn spec_config(&self) -> PaymentCoordinatorConfig {
        self.config
    }

    /// Create a new payment coordinator.
    pub fn new(config: PaymentCoordinatorConfig) -> (r: Self)
        ensures
            r.spec_config() == config,
    {
        PaymentCoordinator { config }
    }

    /// Create a payment for task funding on the requested rail.
    pub fn create_payment(&self, request: PaymentRequest) -> (r: EscrowResult<PaymentResponse>)
        ensures
            r is Ok <==> mode_supported(request.amount_sats, request.preferred_mode),
            r matches Err(e) ==> e is Payment,
            r matches Ok(p) ==> {
                &&& p.mode == request.preferred_mode
                &&& p.estimated_fees_sats == fee_of(request.amount_sats, request.preferred_mode)
                &&& p.expires_at is Some
                &&& p.invoice is Some <==> p.mode != FundingMode::OnchainSubmarine && p.mode
                    != FundingMode::OnchainMultisig
                &&& p.onchain_address is Some <==> p.mode != FundingMode::LightningHold && p.mode
                    != FundingMode::LightningStandard
                &&& p.swap_id is Some <==> p.mode == FundingMode::OnchainSubmarine || p.mode
                    == FundingMode::OnchainReverse
            },
    {
        if !self.is_supported(request.amount_sats, request.preferred_mode) {
            return Err(
                EscrowError::Payment(String::from_str("Amount is below the minimum for this mode")),
            );
        }
        match request.preferred_mode {
            FundingMode::LightningHold => self.create_lightning_payment(request),
            FundingMode::LightningStandard => self.create_lightning_payment(request),
            FundingMode::OnchainSubmarine => self.create_submarine_swap(request),
            FundingMode::OnchainReverse => self.create_reverse_swap(request),
            FundingMode::OnchainMultisig => self.create_multisig_payment(request),
        }
    }

    /// Whether an amount is eligible for a rail.
    fn is_supported(&self, amount_sats: u64, mode: FundingMode) -> (r: bool)
        ensures
            r == mode_supported(amount_sats, mode),
    {
        match mode {
            FundingMode::LightningHold | FundingMode::LightningStandard => true,
            FundingMode::OnchainSubmarine => amount_sats >= MIN_SUBMARINE_SATS,
            FundingMode::OnchainReverse => amount_sats >= MIN_REVERSE_SATS,
            FundingMode::OnchainMultisig => amount_sats >= MIN_MULTISIG_SATS,
        }
    }

    /// Get payment status.
    pub fn get_payment_status(&self, funding_id: u128) -> (r: EscrowResult<PaymentStatus>)
        ensures
            r == Ok::<PaymentStatus, EscrowError>(PaymentStatus::Pending),
    {
        Ok(PaymentStatus::Pending)
    }

    /// Cancel a payment.
    pub fn cancel_payment(&self, funding_id: u128) -> (r: EscrowResult<()>)
        ensures
            r is Ok,
    {
        Ok(())
    }

    /// A fresh Lightning invoice for an amount.
    fn fresh_invoice(amount_sats: u64) -> (r: String) {
        let hash = String::from_str("pay_").concat(uuid_text(fresh_id()).as_str());
        String::from_str("lnbc").concat(decimal(amount_sats).as_str()).concat("u1").concat(
            hash.as_str(),
        )
    }

    /// Create a Lightning payment.
    fn create_lightning_payment(&self, request: PaymentRequest) -> (r: EscrowResult<
        PaymentResponse,
    >)
        requires
            request.preferred_mode == FundingMode::LightningHold || request.preferred_mode
                == FundingMode::LightningStandard,
        ensures
            r matches Ok(p) && p.mode == request.preferred_mode && p.estimated_fees_sats == fee_of(
                request.amount_sats,
                request.preferred_mode,
            ) && p.expires_at is Some && p.invoice is Some && p.onchain_address is None
                && p.swap_id is None,
    {
        let invoice = Self::fresh_invoice(request.amount_sats);
        Ok(
            PaymentResponse {
                funding_id: fresh_id(),
                mode: request.preferred_mode,
                invoice: Some(invoice),
                onchain_address: None,
                swap_id: None,
                expires_at: Some(expiry_after(now_secs(), self.config.payment_timeout_secs)),
                estimated_fees_sats: self.calculate_fees(request.amount_sats, request.preferred_mode),
            },
        )
    }

    /// Create a submarine swap (on-chain to Lightning).
    fn create_submarine_swap(&self, request: PaymentRequest) -> (r: EscrowResult<PaymentResponse>)
        requires
            request.preferred_mode == FundingMode::OnchainSubmarine,
        ensures
            r matches Ok(p) && p.mode == request.preferred_mode && p.estimated_fees_sats == fee_of(
                request.amount_sats,
                request.preferred_mode,
            ) && p.expires_at is Some && p.invoice is None && p.onchain_address is Some
                && p.swap_id is Some,
    {
        let swap_request = SwapRequest {
            amount: request.amount_sats,
            direction: SwapDirection::Submarine,
            invoice: None,
            refund_address: None,
        };
        let swap_response = self.call_swap_provider(swap_request);
        Ok(
            PaymentResponse {
                funding_id: fresh_id(),
                mode: FundingMode::OnchainSubmarine,
                invoice: None,
                onchain_address: Some(swap_response.address),
                swap_id: Some(swap_response.id),
                expires_at: Some(expiry_after(now_secs(), self.config.payment_timeout_secs)),
                estimated_fees_sats: self.calculate_fees(request.amount_sats, request.preferred_mode),
            },
        )
    }

    /// Create a reverse swap (Lightning to on-chain).
    fn create_reverse_swap(&self, request: PaymentRequest) -> (r: EscrowResult<PaymentResponse>)
        requires
            request.preferred_mode == FundingMode::OnchainReverse,
        ensures
            r matches Ok(p) && p.mode == request.preferred_mode && p.estimated_fees_sats == fee_of(
                request.amount_sats,
                request.preferred_mode,
            ) && p.expires_at is Some && p.invoice is Some && p.onchain_address is Some
                && p.swap_id is Some,
    {
        let invoice = Self::fresh_invoice(request.amount_sats);
        let swap_request = SwapRequest {
            amount: request.amount_sats,
            direction: SwapDirection::Reverse,
            invoice: Some(invoice.clone()),
            refund_address: None,
        };
        let swap_response = self.call_swap_provider(swap_request);
        Ok(
            PaymentResponse {
                funding_id: fresh_id(),
                mode: FundingMode::OnchainReverse,
                invoice: Some(invoice),
                onchain_address: Some(swap_response.address),
                swap_id: Some(swap_response.id),
                expires_at: Some(expiry_after(now_secs(), self.config.payment_timeout_secs)),
                estimated_fees_sats: self.calculate_fees(request.amount_sats, request.preferred_mode),
            },
        )
    }

    /// Create a multisig payment (2-of-3 on-chain escrow).
    fn create_multisig_payment(&self, request: PaymentRequest) -> (r: EscrowResult<
        PaymentResponse,
    >)
        requires
            request.preferred_mode == FundingMode::OnchainMultisig,
        ensures
            r matches Ok(p) && p.mode == request.preferred_mode && p.estimated_fees_sats == fee_of(
                request.amount_sats,
                request.preferred_mode,
            ) && p.expires_at is Some && p.invoice is None && p.onchain_address is Some
                && p.swap_id is None,
    {
        let address = String::from_str("bc1q_multisig_").concat(uuid_text(fresh_id()).as_str());
        Ok(
            PaymentResponse {
                funding_id: fresh_id(),
                mode: FundingMode::OnchainMultisig,
                invoice: None,
                onchain_address: Some(address),
                swap_id: None,
                expires_at: Some(expiry_after(now_secs(), 24 * 3600)),
                estimated_fees_sats: self.calculate_fees(request.amount_sats, request.preferred_mode),
            },
        )
    }

    /// The swap provider's answer to a swap request: a swap id, the lock-up
    /// address, and the invoice it pays or is paid by.
    fn call_swap_provider(&self, request: SwapRequest) -> (r: SwapOffer)
        ensures
            r.expected_amount == request.amount,
    {
        let tag = uuid_text(fresh_id());
        let invoice = match request.invoice {
            Some(i) => i,
            None => Self::fresh_invoice(request.amount),
        };
        SwapOffer {
            id: String::from_str("swap_").concat(tag.as_str()),
            invoice,
            address: String::from_str("bc1q_swap_").concat(tag.as_str()),
            expected_amount: request.amount,
            timeout_block_height: 800000,
        }
    }

    /// Monitor payment status.
    pub fn monitor_payment(&self, funding_id: u128) -> (r: EscrowResult<PaymentStatusUpdate>)
        ensures
            r matches Ok(u) && u.funding_id == funding_id && u.status == PaymentStatus::Pending
                && u.confirmations is None && u.transaction_id is None && u.failure_reason is None,
    {
        Ok(
            PaymentStatusUpdate {
                funding_id,
                status: PaymentStatus::Pending,
                confirmations: None,
                transaction_id: None,
                failure_reason: None,
            },
        )
    }

    /// Get the rails that an amount is eligible for.
    pub fn get_supported_modes(&self, amount_sats: u64) -> (r: Vec<FundingMode>)
        ensures
            r@ == supported_modes(amount_sats),
    {
        let mut modes: Vec<FundingMode> = Vec::new();
        modes.push(FundingMode::LightningHold);
        modes.push(FundingMode::LightningStandard);
        if amount_sats >= MIN_SUBMARINE_SATS {
            modes.push(FundingMode::OnchainSubmarine);
        }
        if amount_sats >= MIN_REVERSE_SATS {
            modes.push(FundingMode::OnchainReverse);
        }
        if amount_sats >= MIN_MULTISIG_SATS {
            modes.push(FundingMode::OnchainMultisig);
        }
        assert(modes@ =~= supported_modes(amount_sats));
        modes
    }

    /// Calculate the fee of a rail for an amount.
    pub fn calculate_fees(&self, amount_sats: u64, mode: FundingMode) -> (r: u64)
        ensures
            r == fee_of(amount_sats, mode),
    {
        let rate: u128 = match mode {
            FundingMode::LightningHold | FundingMode::LightningStandard => 1,
            FundingMode::OnchainSubmarine => 5,
            FundingMode::OnchainReverse => 3,
            FundingMode::OnchainMultisig => 10,
        };
        let fee = (amount_sats as u128 * rate) / 1000;
        assert(fee <= amount_sats) by (nonlinear_arith)
            requires
                fee == (amount_sats as u128 * rate) / 1000,
                rate <= 10,
        ;
        fee as u64
    }
}

impl Default for PaymentCoordinator {
    fn default() -> (r: Self)
        ensures
            r.spec_config().payment_timeout_secs == 300,
    {
        PaymentCoordinator::new(PaymentCoordinatorConfig::default())
    }
}

} // verus!
