//! The plain data of the contract: rules, splits, records, errors, limits.
use crate::address::Address;
use vstd::prelude::*;

verus! {

/// A fee of 100 %, in basis points.
pub const BPS_DENOMINATOR: u32 = 10_000;

/// The smallest fee, in basis points, that can be charged at all.
pub const MIN_FEE_BPS: u32 = 5;

/// The smallest gross amount of a stored payment.
pub const MIN_PAYMENT_AMOUNT: i128 = 100;

/// The longest settlement delay, in ledgers.
pub const MAX_SETTLEMENT_DELAY_LEDGER: u32 = 100_000;

/// A payment entry with this lifetime left, or less, is extended.
pub const PAYMENT_TTL_THRESHOLD: u32 = 17280 * 14;

/// The lifetime an extended payment entry gets.
pub const PAYMENT_TTL_BUMP: u32 = 17280 * 30;

/// A rule entry with this lifetime left, or less, is extended.
pub const RULE_TTL_THRESHOLD: u32 = 17280 * 14;

/// The lifetime an extended rule entry gets.
pub const RULE_TTL_BUMP: u32 = 17280 * 30;

/// A merchant entry with this lifetime left, or less, is extended.
pub const MERCHANT_TTL_THRESHOLD: u32 = 17280 * 14;

/// The lifetime an extended merchant entry gets.
pub const MERCHANT_TTL_BUMP: u32 = 17280 * 30;

/// Instance storage with this lifetime left, or less, is extended.
pub const INSTANCE_TTL_THRESHOLD: u32 = 50_000;

/// The lifetime extended instance storage gets.
pub const INSTANCE_TTL_BUMP: u32 = 100_000;

/// The time between the start of a recovery and its earliest execution.
pub const RECOVERY_DELAY_SECONDS: u64 = 7 * 24 * 60 * 60;

/// How the payments of a merchant are settled.
#[derive(Clone, Copy, Debug, PartialEq, Eq, Structural)]
pub struct SettlementRule {
    /// Platform fee on each payment, in basis points.
    pub platform_fee_bps: u32,
    /// Network fee on each payment, in basis points.
    pub network_fee_bps: u32,
    /// Ledgers to wait before a payment can be settled; `0` settles at once.
    pub settlement_delay_ledger: u32,
    /// Whether settlement happens by itself once the delay is over.
    pub auto_settle: bool,
}

/// How a gross amount divides between platform, network and merchant.
#[derive(Clone, Copy, Debug, PartialEq, Eq, Structural)]
pub struct FeeSplit {
    /// The amount that was divided.
    pub gross_amount: i128,
    /// The platform's share.
    pub platform_fee_amount: i128,
    /// The network's share.
    pub network_fee_amount: i128,
    /// What is left for the merchant.
    pub merchant_amount: i128,
}

/// A stored payment: its split, and the terms it was made under.
#[derive(Clone, Copy, Debug, PartialEq, Eq, Structural)]
pub struct PaymentRecord {
    /// The gross amount.
    pub amount: i128,
    /// The platform's share of `amount`.
    pub platform_fee_amount: i128,
    /// The network's share of `amount`.
    pub network_fee_amount: i128,
    /// The merchant's share of `amount`.
    pub merchant_amount: i128,
    /// The platform fee of the rule in force, in basis points.
    pub platform_fee_bps: u32,
    /// The network fee of the rule in force, in basis points.
    pub network_fee_bps: u32,
    /// The ledger the payment was stored in.
    pub ledger: u32,
    /// The settlement delay of the rule in force.
    pub settlement_delay_ledger: u32,
    /// The auto-settle flag of the rule in force.
    pub auto_settle: bool,
}

/// The fees a governance contract publishes.
#[derive(Clone, Copy, Debug, PartialEq, Eq, Structural)]
pub struct FeeConfig {
    /// Platform fee in basis points.
    pub platform_fee_bps: u32,
    /// Network fee in basis points.
    pub network_fee_bps: u32,
}

/// A recovery under way: who becomes admin, and from when on.
#[derive(Debug, PartialEq)]
pub struct PendingRecovery {
    /// Who is to become admin.
    pub new_admin: Address,
    /// The earliest time at which the recovery can be executed.
    pub execute_after: u64,
}

/// A [`PendingRecovery`] with a text for the address.
pub struct PendingRecoveryView {
    /// Who is to become admin.
    pub new_admin: Seq<char>,
    /// The earliest time at which the recovery can be executed.
    pub execute_after: u64,
}

impl Clone for PendingRecovery {
    fn clone(&self) -> (r: PendingRecovery)
        ensures
            r == *self,
    {
        PendingRecovery { new_admin: self.new_admin.clone(), execute_after: self.execute_after }
    }
}

impl View for PendingRecovery {
    type V = PendingRecoveryView;

    open spec fn view(&self) -> PendingRecoveryView {
        PendingRecoveryView { new_admin: self.new_admin@, execute_after: self.execute_after }
    }
}

/// Why a call is refused.
#[derive(Clone, Copy, Debug, PartialEq, Eq, Structural)]
pub enum SettlementError {
    /// The contract has an admin already.
    AlreadyInitialized,
    /// The contract has not been initialised.
    NotInitialized,
    /// The address whose consent the call needs has not given it.
    Unauthorized,
    /// The merchant is registered already.
    MerchantExists,
    /// The merchant is not registered.
    MerchantMissing,
    /// A fee is over 10 000 basis points, or charged but under the minimum, or
    /// the two fees exceed 10 000 together.
    InvalidFeeBps,
    /// The amount is under the minimum of the call.
    InvalidAmount,
    /// The payment reference is in use.
    DuplicatePaymentReference,
    /// The contract is paused.
    Paused,
    /// The merchant has no rule of its own.
    MerchantRuleNotSet,
    /// The address is empty or the zero address.
    InvalidAddress,
    /// The payment reference is all zeros, which is reserved.
    InvalidPaymentReference,
    /// The settlement delay is over the maximum.
    InvalidSettlementDelay,
    /// The new admin is the current one, no address, or nobody was proposed.
    InvalidAdmin,
    /// The governance address is empty, zero, or no governance contract.
    InvalidGovernance,
    /// The recovery address is empty or the zero address.
    InvalidRecoveryAddress,
    /// No recovery is under way.
    RecoveryNotPending,
    /// The recovery delay is not over.
    RecoveryDelayActive,
    /// Applying a fee to the amount would leave the range of `i128`.
    AmountOverflow,
}

impl SettlementError {
    /// The number under which the error is reported to callers of the contract.
    pub open spec fn spec_code(self) -> u32 {
        match self {
            SettlementError::AlreadyInitialized => 1,
            SettlementError::NotInitialized => 2,
            SettlementError::Unauthorized => 3,
            SettlementError::MerchantExists => 4,
            SettlementError::MerchantMissing => 5,
            SettlementError::InvalidFeeBps => 6,
            SettlementError::InvalidAmount => 7,
            SettlementError::DuplicatePaymentReference => 8,
            SettlementError::Paused => 9,
            SettlementError::MerchantRuleNotSet => 10,
            SettlementError::InvalidAddress => 11,
            SettlementError::InvalidPaymentReference => 12,
            SettlementError::InvalidSettlementDelay => 13,
            SettlementError::InvalidAdmin => 14,
            SettlementError::InvalidGovernance => 15,
            SettlementError::InvalidRecoveryAddress => 16,
            SettlementError::RecoveryNotPending => 17,
            SettlementError::RecoveryDelayActive => 18,
            SettlementError::AmountOverflow => 19,
        }
    }

    /// The number under which the error is reported to callers of the contract.
    pub fn code(self) -> (r: u32)
        ensures
            r == self.spec_code(),
    {
        match self {
            SettlementError::AlreadyInitialized => 1,
            SettlementError::NotInitialized => 2,
            SettlementError::Unauthorized => 3,
            SettlementError::MerchantExists => 4,
            SettlementError::MerchantMissing => 5,
            SettlementError::InvalidFeeBps => 6,
            SettlementError::InvalidAmount => 7,
            SettlementError::DuplicatePaymentReference => 8,
            SettlementError::Paused => 9,
            SettlementError::MerchantRuleNotSet => 10,
            SettlementError::InvalidAddress => 11,
            SettlementError::InvalidPaymentReference => 12,
            SettlementError::InvalidSettlementDelay => 13,
            SettlementError::InvalidAdmin => 14,
            SettlementError::InvalidGovernance => 15,
            SettlementError::InvalidRecoveryAddress => 16,
            SettlementError::RecoveryNotPending => 17,
            SettlementError::RecoveryDelayActive => 18,
            SettlementError::AmountOverflow => 19,
        }
    }
}

/// The rule in force before the admin has set any: 1 % for the platform, no
/// network fee, no delay, no auto-settlement.
pub open spec fn spec_bootstrap_default_rule() -> SettlementRule {
    SettlementRule {
        platform_fee_bps: 100,
        network_fee_bps: 0,
        settlement_delay_ledger: 0,
        auto_settle: false,
    }
}

/// The rule in force before the admin has set any.
#[verifier::when_used_as_spec(spec_bootstrap_default_rule)]
pub fn bootstrap_default_rule() -> (r: SettlementRule)
    ensures
        r == spec_bootstrap_default_rule(),
{
    SettlementRule {
        platform_fee_bps: 100,
        network_fee_bps: 0,
        settlement_delay_ledger: 0,
        auto_settle: false,
    }
}

impl SettlementRule {
    /// A fee is within bounds when it is not charged at all, or lies between
    /// the minimum fee and 100 %.
    pub open spec fn fee_in_bounds(bps: u32) -> bool {
        bps == 0 || MIN_FEE_BPS <= bps <= BPS_DENOMINATOR
    }

    /// Both fees are within bounds, and so is their sum.
    pub open spec fn fees_valid(self) -> bool {
        &&& Self::fee_in_bounds(self.platform_fee_bps)
        &&& Self::fee_in_bounds(self.network_fee_bps)
        &&& self.platform_fee_bps + self.network_fee_bps <= BPS_DENOMINATOR
    }

    /// The settlement delay is within bounds.
    pub open spec fn delay_valid(self) -> bool {
        self.settlement_delay_ledger <= MAX_SETTLEMENT_DELAY_LEDGER
    }

    /// The larger of the two fees.
    pub open spec fn larger_fee(self) -> int {
        if self.platform_fee_bps >= self.network_fee_bps {
            self.platform_fee_bps as int
        } else {
            self.network_fee_bps as int
        }
    }

    /// Why the contract does not take this rule, if it does not.
    pub open spec fn refusal(self) -> Option<SettlementError> {
        if !self.fees_valid() {
            Some(SettlementError::InvalidFeeBps)
        } else if !self.delay_valid() {
            Some(SettlementError::InvalidSettlementDelay)
        } else {
            None
        }
    }

    /// Checks the rule: fees first, then the delay.
    pub fn validate(&self) -> (r: Result<(), SettlementError>)
        ensures
            match self.refusal() {
                Some(e) => r == Err::<(), SettlementError>(e),
                None => r == Ok::<(), SettlementError>(()),
            },
    {
        if self.platform_fee_bps > BPS_DENOMINATOR || self.network_fee_bps > BPS_DENOMINATOR {
            return Err(SettlementError::InvalidFeeBps);
        }
        if 0 < self.platform_fee_bps && self.platform_fee_bps < MIN_FEE_BPS {
            return Err(SettlementError::InvalidFeeBps);
        }
        if 0 < self.network_fee_bps && self.network_fee_bps < MIN_FEE_BPS {
            return Err(SettlementError::InvalidFeeBps);
        }
        if self.platform_fee_bps + self.network_fee_bps > BPS_DENOMINATOR {
            return Err(SettlementError::InvalidFeeBps);
        }
        if self.settlement_delay_ledger > MAX_SETTLEMENT_DELAY_LEDGER {
            return Err(SettlementError::InvalidSettlementDelay);
        }
        Ok(())
    }
}

} // verus!
