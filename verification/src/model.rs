//! What the calls of the contract do, as functions on environments.
//!
//! For each call there is the refusal it meets, if any, and the environment it
//! leaves when it meets none.
use crate::address;
use crate::effects::{DataKeyOf, EffectOf, EntryOf, EventOf};
use crate::env::EnvState;
use crate::fees;
use crate::types;
use crate::types::{
    PaymentRecord, SettlementError, SettlementRule,
    INSTANCE_TTL_BUMP, INSTANCE_TTL_THRESHOLD, MERCHANT_TTL_BUMP, MERCHANT_TTL_THRESHOLD,
    MIN_PAYMENT_AMOUNT, PAYMENT_TTL_BUMP, PAYMENT_TTL_THRESHOLD, RECOVERY_DELAY_SECONDS,
    RULE_TTL_BUMP, RULE_TTL_THRESHOLD,
};
use vstd::prelude::*;

verus! {

/// The bytes of the reserved payment reference.
pub open spec fn reserved_reference() -> Seq<u8> {
    Seq::new(32, |i: int| 0u8)
}

/// The record of a payment of `amount` under `rule`, stored in ledger `ledger`.
pub open spec fn record_of(amount: i128, rule: SettlementRule, ledger: u32) -> PaymentRecord {
    let shares = fees::split(amount as int, rule);
    PaymentRecord {
        amount,
        platform_fee_amount: shares.platform_fee_amount,
        network_fee_amount: shares.network_fee_amount,
        merchant_amount: shares.merchant_amount,
        platform_fee_bps: rule.platform_fee_bps,
        network_fee_bps: rule.network_fee_bps,
        ledger,
        settlement_delay_ledger: rule.settlement_delay_ledger,
        auto_settle: rule.auto_settle,
    }
}

/// The single steps that calls are made of.
impl EnvState {
    /// An entry is written.
    pub open spec fn write(self, entry: EntryOf<Seq<char>>) -> EnvState {
        self.perform(EffectOf::Write(entry))
    }

    /// The entry of a key is erased.
    pub open spec fn erase(self, key: DataKeyOf<Seq<char>>) -> EnvState {
        self.perform(EffectOf::Erase(key))
    }

    /// An event is published.
    pub open spec fn publish(self, event: EventOf<Seq<char>>) -> EnvState {
        self.perform(EffectOf::Publish(event))
    }

    /// The instance storage is kept alive.
    pub open spec fn touch_instance(self) -> EnvState {
        self.perform(
            EffectOf::ExtendInstance {
                threshold: INSTANCE_TTL_THRESHOLD,
                extend_to: INSTANCE_TTL_BUMP,
            },
        )
    }

    /// The mark of a merchant is kept alive.
    pub open spec fn touch_merchant(self, merchant: Seq<char>) -> EnvState {
        self.perform(
            EffectOf::Extend {
                key: DataKeyOf::Merchant(merchant),
                threshold: MERCHANT_TTL_THRESHOLD,
                extend_to: MERCHANT_TTL_BUMP,
            },
        )
    }

    /// The rule of a merchant is kept alive.
    pub open spec fn touch_rule(self, merchant: Seq<char>) -> EnvState {
        self.perform(
            EffectOf::Extend {
                key: DataKeyOf::Rule(merchant),
                threshold: RULE_TTL_THRESHOLD,
                extend_to: RULE_TTL_BUMP,
            },
        )
    }

    /// The global default rule is kept alive.
    pub open spec fn touch_default_rule(self) -> EnvState {
        self.perform(
            EffectOf::Extend {
                key: DataKeyOf::DefaultRule,
                threshold: RULE_TTL_THRESHOLD,
                extend_to: RULE_TTL_BUMP,
            },
        )
    }

    /// A payment is kept alive.
    pub open spec fn touch_payment(self, reference: [u8; 32]) -> EnvState {
        self.perform(
            EffectOf::Extend {
                key: DataKeyOf::Payment(reference),
                threshold: PAYMENT_TTL_THRESHOLD,
                extend_to: PAYMENT_TTL_BUMP,
            },
        )
    }

    /// The default rule, or what stands in for it before one has been set.
    pub open spec fn default_or_bootstrap(self) -> SettlementRule {
        match self.default() {
            Some(rule) => rule,
            None => types::spec_bootstrap_default_rule(),
        }
    }

    /// The rule in force for a merchant: its own, else the global default, else
    /// the bootstrap rule.
    pub open spec fn rule_in_force(self, merchant: Seq<char>) -> SettlementRule {
        match self.rule(merchant) {
            Some(rule) => rule,
            None => self.default_or_bootstrap(),
        }
    }

    /// The rule in force has been looked up: the entry it came from is kept
    /// alive, and the other is not touched. Where it came from neither, that is
    /// published.
    pub open spec fn look_up_rule(self, merchant: Seq<char>) -> EnvState {
        if self.rule(merchant) is Some {
            self.touch_rule(merchant)
        } else if self.default() is Some {
            self.touch_default_rule()
        } else {
            self.publish(EventOf::BootstrapFallback { rule: types::spec_bootstrap_default_rule() })
        }
    }

    /// The rule in force before an update has been looked up: the default is
    /// kept alive where it was that rule.
    pub open spec fn look_up_previous_rule(self, merchant: Seq<char>) -> EnvState {
        if self.rule(merchant) is None && self.default() is Some {
            self.touch_default_rule()
        } else {
            self
        }
    }

    /// A call that needs the consent of `address` is refused without it.
    pub open spec fn unsigned(self, address: Seq<char>) -> Option<SettlementError> {
        if self.signers.contains(address) {
            None
        } else {
            Some(SettlementError::Unauthorized)
        }
    }

    /// A call of the admin is refused before there is one, and without its
    /// consent.
    pub open spec fn not_by_admin(self) -> Option<SettlementError> {
        match self.admin {
            None => Some(SettlementError::NotInitialized),
            Some(admin) => self.unsigned(admin),
        }
    }

    /// A call of the admin is refused while the contract is paused, or for the
    /// reasons of [`Self::not_by_admin`].
    pub open spec fn paused_or_not_by_admin(self) -> Option<SettlementError> {
        if self.is_paused() {
            Some(SettlementError::Paused)
        } else {
            self.not_by_admin()
        }
    }

    /// A governance contract is refused when it names nobody, or did not answer
    /// when asked for its fees.
    pub open spec fn no_governance(self, governance: Seq<char>) -> Option<SettlementError> {
        if address::names_somebody(governance) && self.fee_configs.contains_key(governance) {
            None
        } else {
            Some(SettlementError::InvalidGovernance)
        }
    }

    /// A new admin is refused when it names nobody or is the admin already.
    pub open spec fn no_new_admin(self, new_admin: Seq<char>) -> Option<SettlementError> {
        if !address::names_somebody(new_admin) {
            Some(SettlementError::InvalidAddress)
        } else if self.admin == Some(new_admin) {
            Some(SettlementError::InvalidAdmin)
        } else {
            None
        }
    }
}

/// The first of two refusals.
pub open spec fn or(
    first: Option<SettlementError>,
    second: Option<SettlementError>,
) -> Option<SettlementError> {
    if first is Some {
        first
    } else {
        second
    }
}

/// A refusal that comes when `condition` holds.
pub open spec fn refuse_if(condition: bool, error: SettlementError) -> Option<SettlementError> {
    if condition {
        Some(error)
    } else {
        None
    }
}

/// Roles: who is admin, who governs, who recovers.
impl EnvState {
    /// Why `init` is refused.
    pub open spec fn init_refusal(
        self,
        admin: Seq<char>,
        governance: Seq<char>,
        recovery_address: Seq<char>,
    ) -> Option<SettlementError> {
        or(
            refuse_if(self.admin is Some, SettlementError::AlreadyInitialized),
            or(
                self.unsigned(admin),
                or(
                    self.no_governance(governance),
                    refuse_if(
                        !address::names_somebody(recovery_address),
                        SettlementError::InvalidRecoveryAddress,
                    ),
                ),
            ),
        )
    }

    /// What `init` does.
    pub open spec fn after_init(
        self,
        admin: Seq<char>,
        governance: Seq<char>,
        recovery_address: Seq<char>,
    ) -> EnvState {
        self.write(EntryOf::Admin(admin)).write(EntryOf::Governance(governance)).write(
            EntryOf::RecoveryAddress(recovery_address),
        ).publish(EventOf::Initialized { admin })
    }

    /// Why `update_governance` is refused.
    pub open spec fn update_governance_refusal(self, new_governance: Seq<char>) -> Option<
        SettlementError,
    > {
        or(
            self.not_by_admin(),
            or(
                refuse_if(self.is_paused(), SettlementError::Paused),
                self.no_governance(new_governance),
            ),
        )
    }

    /// What `update_governance` does.
    pub open spec fn after_update_governance(self, new_governance: Seq<char>) -> EnvState {
        self.touch_instance().write(EntryOf::Governance(new_governance)).publish(
            EventOf::GovernanceUpdated { admin: self.admin.unwrap(), governance: new_governance },
        )
    }

    /// Why `initiate_recovery` is refused.
    pub open spec fn initiate_recovery_refusal(self, new_admin: Seq<char>) -> Option<
        SettlementError,
    > {
        or(
            match self.recovery_address {
                None => Some(SettlementError::NotInitialized),
                Some(address) => self.unsigned(address),
            },
            refuse_if(!address::names_somebody(new_admin), SettlementError::InvalidAdmin),
        )
    }

    /// What `initiate_recovery` does.
    pub open spec fn after_initiate_recovery(self, new_admin: Seq<char>) -> EnvState {
        let execute_after = (self.ledger.timestamp + RECOVERY_DELAY_SECONDS) as u64;
        self.touch_instance().write(
            EntryOf::PendingRecovery { new_admin, execute_after },
        ).publish(
            EventOf::RecoveryInitiated {
                recovery_address: self.recovery_address.unwrap(),
                new_admin,
                execute_after,
            },
        )
    }

    /// Why `cancel_recovery` is refused.
    pub open spec fn cancel_recovery_refusal(self) -> Option<SettlementError> {
        or(
            self.not_by_admin(),
            refuse_if(self.pending_recovery is None, SettlementError::RecoveryNotPending),
        )
    }

    /// What `cancel_recovery` does.
    pub open spec fn after_cancel_recovery(self) -> EnvState {
        self.touch_instance().erase(DataKeyOf::PendingRecovery).publish(
            EventOf::RecoveryCancelled { admin: self.admin.unwrap() },
        )
    }

    /// Why `execute_recovery` is refused.
    pub open spec fn execute_recovery_refusal(self) -> Option<SettlementError> {
        match self.pending_recovery {
            None => Some(SettlementError::RecoveryNotPending),
            Some(pending) => refuse_if(
                self.ledger.timestamp < pending.execute_after,
                SettlementError::RecoveryDelayActive,
            ),
        }
    }

    /// What `execute_recovery` does.
    pub open spec fn after_execute_recovery(self) -> EnvState {
        let new_admin = self.pending_recovery.unwrap().new_admin;
        self.write(EntryOf::Admin(new_admin)).erase(DataKeyOf::PendingRecovery).publish(
            EventOf::RecoveryExecuted { new_admin },
        )
    }

    /// Why `transfer_admin` and `propose_admin` are refused.
    pub open spec fn transfer_admin_refusal(self, new_admin: Seq<char>) -> Option<SettlementError> {
        or(self.not_by_admin(), self.no_new_admin(new_admin))
    }

    /// What `transfer_admin` does.
    pub open spec fn after_transfer_admin(self, new_admin: Seq<char>) -> EnvState {
        self.touch_instance().write(EntryOf::Admin(new_admin)).erase(
            DataKeyOf::PendingAdmin,
        ).publish(EventOf::Admin { new_admin })
    }

    /// What `propose_admin` does.
    pub open spec fn after_propose_admin(self, new_admin: Seq<char>) -> EnvState {
        self.touch_instance().write(EntryOf::PendingAdmin(new_admin))
    }

    /// Why `accept_admin` is refused.
    pub open spec fn accept_admin_refusal(self) -> Option<SettlementError> {
        match self.pending_admin {
            None => Some(SettlementError::InvalidAdmin),
            Some(new_admin) => self.unsigned(new_admin),
        }
    }

    /// What `accept_admin` does.
    pub open spec fn after_accept_admin(self) -> EnvState {
        let new_admin = self.pending_admin.unwrap();
        self.write(EntryOf::Admin(new_admin)).erase(DataKeyOf::PendingAdmin).publish(
            EventOf::Admin { new_admin },
        )
    }

    /// Why `cancel_admin_transfer` is refused.
    pub open spec fn cancel_admin_transfer_refusal(self) -> Option<SettlementError> {
        or(
            self.not_by_admin(),
            refuse_if(self.pending_admin is None, SettlementError::InvalidAdmin),
        )
    }

    /// What `cancel_admin_transfer` does.
    pub open spec fn after_cancel_admin_transfer(self) -> EnvState {
        self.touch_instance().erase(DataKeyOf::PendingAdmin)
    }

    /// What `upgrade` does.
    pub open spec fn after_upgrade(self, new_wasm_hash: [u8; 32]) -> EnvState {
        self.touch_instance().publish(
            EventOf::ContractUpgraded { wasm_hash: new_wasm_hash, admin: self.admin.unwrap() },
        ).perform(EffectOf::Upgrade(new_wasm_hash))
    }

    /// What `pause` does.
    pub open spec fn after_pause(self) -> EnvState {
        self.touch_instance().write(EntryOf::Paused(true)).publish(EventOf::Pause)
    }

    /// What `unpause` does.
    pub open spec fn after_unpause(self) -> EnvState {
        self.touch_instance().write(EntryOf::Paused(false)).publish(EventOf::Unpause)
    }
}

/// Merchants and their rules.
impl EnvState {
    /// Why `register_merchant` is refused.
    pub open spec fn register_merchant_refusal(self, merchant: Seq<char>) -> Option<
        SettlementError,
    > {
        or(
            refuse_if(!address::names_somebody(merchant), SettlementError::InvalidAddress),
            or(
                self.not_by_admin(),
                refuse_if(self.merchants.contains_key(merchant), SettlementError::MerchantExists),
            ),
        )
    }

    /// What `register_merchant` does.
    pub open spec fn after_register_merchant(self, merchant: Seq<char>) -> EnvState {
        self.touch_instance().write(EntryOf::Merchant(merchant, true)).touch_merchant(
            merchant,
        ).publish(EventOf::MerchantRegistered { merchant, admin: self.admin.unwrap() })
    }

    /// Why `unregister_merchant` is refused.
    pub open spec fn unregister_merchant_refusal(self, merchant: Seq<char>) -> Option<
        SettlementError,
    > {
        or(
            self.paused_or_not_by_admin(),
            refuse_if(!self.merchants.contains_key(merchant), SettlementError::MerchantMissing),
        )
    }

    /// What `unregister_merchant` does.
    pub open spec fn after_unregister_merchant(self, merchant: Seq<char>) -> EnvState {
        let gone = self.touch_instance().erase(DataKeyOf::Merchant(merchant));
        let cleared = if self.rule(merchant) is Some {
            gone.erase(DataKeyOf::Rule(merchant))
        } else {
            gone
        };
        cleared.publish(EventOf::MerchantUnregistered { merchant, admin: self.admin.unwrap() })
    }

    /// Why `set_settlement_rule` is refused.
    pub open spec fn set_settlement_rule_refusal(
        self,
        merchant: Seq<char>,
        rule: SettlementRule,
    ) -> Option<SettlementError> {
        or(
            self.paused_or_not_by_admin(),
            or(
                refuse_if(!self.registered(merchant), SettlementError::MerchantMissing),
                rule.refusal(),
            ),
        )
    }

    /// What `set_settlement_rule` does.
    pub open spec fn after_set_settlement_rule(
        self,
        merchant: Seq<char>,
        rule: SettlementRule,
    ) -> EnvState {
        self.touch_instance().touch_merchant(merchant).look_up_previous_rule(merchant).write(
            EntryOf::Rule(merchant, rule),
        ).touch_rule(merchant).publish(
            EventOf::SettlementRuleUpdated {
                merchant,
                admin: self.admin.unwrap(),
                previous: self.rule_in_force(merchant),
                current: rule,
            },
        )
    }

    /// Why `clear_settlement_rule` is refused.
    pub open spec fn clear_settlement_rule_refusal(self, merchant: Seq<char>) -> Option<
        SettlementError,
    > {
        or(
            self.paused_or_not_by_admin(),
            refuse_if(self.rule(merchant) is None, SettlementError::MerchantRuleNotSet),
        )
    }

    /// What `clear_settlement_rule` does.
    pub open spec fn after_clear_settlement_rule(self, merchant: Seq<char>) -> EnvState {
        self.touch_instance().erase(DataKeyOf::Rule(merchant)).look_up_rule(merchant).publish(
            EventOf::SettlementRuleCleared {
                merchant,
                admin: self.admin.unwrap(),
                removed: self.rule(merchant).unwrap(),
                fallback: self.default_or_bootstrap(),
            },
        )
    }

    /// Why `set_default_rule` is refused.
    pub open spec fn set_default_rule_refusal(self, new_rule: SettlementRule) -> Option<
        SettlementError,
    > {
        or(self.paused_or_not_by_admin(), new_rule.refusal())
    }

    /// What `set_default_rule` does.
    pub open spec fn after_set_default_rule(self, new_rule: SettlementRule) -> EnvState {
        self.touch_instance().write(EntryOf::DefaultRule(new_rule)).touch_default_rule().publish(
            EventOf::DefaultRuleUpdated {
                admin: self.admin.unwrap(),
                previous: self.default_or_bootstrap(),
                current: new_rule,
            },
        )
    }

    /// What `get_default_rule` does.
    pub open spec fn after_get_default_rule(self) -> EnvState {
        if self.default() is Some {
            self.touch_default_rule()
        } else {
            self
        }
    }

    /// What `get_settlement_rule` does.
    pub open spec fn after_get_settlement_rule(self, merchant: Seq<char>) -> EnvState {
        if self.rule(merchant) is Some {
            self.touch_rule(merchant)
        } else {
            self
        }
    }

    /// What `is_merchant_registered` does.
    pub open spec fn after_is_merchant_registered(self, merchant: Seq<char>) -> EnvState {
        if self.merchants.contains_key(merchant) {
            self.touch_merchant(merchant)
        } else {
            self
        }
    }
}

/// Payments.
impl EnvState {
    /// Why `store_payment_reference` is refused.
    pub open spec fn store_payment_reference_refusal(
        self,
        merchant: Seq<char>,
        reference: [u8; 32],
        amount: i128,
    ) -> Option<SettlementError> {
        if self.is_paused() {
            Some(SettlementError::Paused)
        } else if !self.signers.contains(merchant) {
            Some(SettlementError::Unauthorized)
        } else if !self.registered(merchant) {
            Some(SettlementError::MerchantMissing)
        } else if reference@ == reserved_reference() {
            Some(SettlementError::InvalidPaymentReference)
        } else if amount < MIN_PAYMENT_AMOUNT {
            Some(SettlementError::InvalidAmount)
        } else if self.payment(reference) is Some {
            Some(SettlementError::DuplicatePaymentReference)
        } else if fees::split_overflows(amount as int, self.rule_in_force(merchant)) {
            Some(SettlementError::AmountOverflow)
        } else {
            None
        }
    }

    /// What `store_payment_reference` does.
    pub open spec fn after_store_payment_reference(
        self,
        merchant: Seq<char>,
        reference: [u8; 32],
        amount: i128,
    ) -> EnvState {
        let record = record_of(amount, self.rule_in_force(merchant), self.ledger.sequence);
        self.touch_merchant(merchant).look_up_rule(merchant).write(
            EntryOf::Payment(reference, record),
        ).touch_payment(reference).publish(EventOf::PaymentStored { merchant, reference, record })
    }

    /// Why `calculate_fee_split` is refused.
    pub open spec fn calculate_fee_split_refusal(self, merchant: Seq<char>, amount: i128) -> Option<
        SettlementError,
    > {
        if !self.registered(merchant) {
            Some(SettlementError::MerchantMissing)
        } else if amount <= 0 {
            Some(SettlementError::InvalidAmount)
        } else if fees::split_overflows(amount as int, self.rule_in_force(merchant)) {
            Some(SettlementError::AmountOverflow)
        } else {
            None
        }
    }

    /// What `calculate_fee_split` does.
    pub open spec fn after_calculate_fee_split(self, merchant: Seq<char>) -> EnvState {
        self.touch_merchant(merchant).look_up_rule(merchant)
    }

    /// Whether the payment is stored and has less than the threshold left.
    pub open spec fn payment_runs_out(self, reference: [u8; 32]) -> bool {
        self.payments.contains_key(reference@) && self.ledger.ttl(
            self.payments[reference@].live_until,
        ) < PAYMENT_TTL_THRESHOLD
    }

    /// What `get_payment_reference` does.
    pub open spec fn after_get_payment_reference(self, reference: [u8; 32]) -> EnvState {
        if self.payment_runs_out(reference) {
            self.touch_payment(reference)
        } else {
            self
        }
    }

    /// What `get_payments` does: it reads one reference after the other.
    pub open spec fn after_get_payments(self, references: Seq<[u8; 32]>) -> EnvState
        decreases references.len(),
    {
        if references.len() == 0 {
            self
        } else {
            self.after_get_payments(references.drop_last()).after_get_payment_reference(
                references.last(),
            )
        }
    }

    /// The records of those references that are stored, in the given order.
    pub open spec fn payments_of(self, references: Seq<[u8; 32]>) -> Seq<PaymentRecord> {
        references.filter(|reference: [u8; 32]| self.payment(reference) is Some).map_values(
            |reference: [u8; 32]| self.payment(reference).unwrap(),
        )
    }
}

/// A call of the contract.
pub enum Call {
    /// `init`
    Init { admin: Seq<char>, governance: Seq<char>, recovery_address: Seq<char> },
    /// `get_admin`
    GetAdmin,
    /// `get_governance`
    GetGovernance,
    /// `get_recovery_address`
    GetRecoveryAddress,
    /// `update_governance`
    UpdateGovernance { new_governance: Seq<char> },
    /// `initiate_recovery`
    InitiateRecovery { new_admin: Seq<char> },
    /// `cancel_recovery`
    CancelRecovery,
    /// `execute_recovery`
    ExecuteRecovery,
    /// `transfer_admin`
    TransferAdmin { new_admin: Seq<char> },
    /// `propose_admin`
    ProposeAdmin { new_admin: Seq<char> },
    /// `accept_admin`
    AcceptAdmin,
    /// `cancel_admin_transfer`
    CancelAdminTransfer,
    /// `get_pending_admin`
    GetPendingAdmin,
    /// `upgrade`
    Upgrade { new_wasm_hash: [u8; 32] },
    /// `pause`
    Pause,
    /// `unpause`
    Unpause,
    /// `is_paused`
    IsPaused,
    /// `register_merchant`
    RegisterMerchant { merchant: Seq<char> },
    /// `unregister_merchant`
    UnregisterMerchant { merchant: Seq<char> },
    /// `set_settlement_rule`
    SetSettlementRule { merchant: Seq<char>, rule: SettlementRule },
    /// `clear_settlement_rule`
    ClearSettlementRule { merchant: Seq<char> },
    /// `set_default_rule`
    SetDefaultRule { new_rule: SettlementRule },
    /// `get_default_rule`
    GetDefaultRule,
    /// `get_settlement_rule`
    GetSettlementRule { merchant: Seq<char> },
    /// `is_merchant_registered`
    IsMerchantRegistered { merchant: Seq<char> },
    /// `store_payment_reference`
    StorePaymentReference { merchant: Seq<char>, reference: [u8; 32], amount: i128 },
    /// `calculate_fee_split`
    CalculateFeeSplit { merchant: Seq<char>, amount: i128 },
    /// `get_payment_reference`
    GetPaymentReference { reference: [u8; 32] },
    /// `get_payments`
    GetPayments { references: Seq<[u8; 32]> },
}

/// All calls at once.
impl EnvState {
    /// Why a call is refused, if it is.
    pub open spec fn refusal(self, call: Call) -> Option<SettlementError> {
        match call {
            Call::Init { admin, governance, recovery_address } => self.init_refusal(
                admin,
                governance,
                recovery_address,
            ),
            Call::GetAdmin => refuse_if(self.admin is None, SettlementError::NotInitialized),
            Call::GetGovernance => refuse_if(
                self.governance is None,
                SettlementError::NotInitialized,
            ),
            Call::GetRecoveryAddress => refuse_if(
                self.recovery_address is None,
                SettlementError::NotInitialized,
            ),
            Call::UpdateGovernance { new_governance } => self.update_governance_refusal(
                new_governance,
            ),
            Call::InitiateRecovery { new_admin } => self.initiate_recovery_refusal(new_admin),
            Call::CancelRecovery => self.cancel_recovery_refusal(),
            Call::ExecuteRecovery => self.execute_recovery_refusal(),
            Call::TransferAdmin { new_admin } => self.transfer_admin_refusal(new_admin),
            Call::ProposeAdmin { new_admin } => self.transfer_admin_refusal(new_admin),
            Call::AcceptAdmin => self.accept_admin_refusal(),
            Call::CancelAdminTransfer => self.cancel_admin_transfer_refusal(),
            Call::GetPendingAdmin => None,
            Call::Upgrade { .. } => self.not_by_admin(),
            Call::Pause => self.not_by_admin(),
            Call::Unpause => self.not_by_admin(),
            Call::IsPaused => None,
            Call::RegisterMerchant { merchant } => self.register_merchant_refusal(merchant),
            Call::UnregisterMerchant { merchant } => self.unregister_merchant_refusal(merchant),
            Call::SetSettlementRule { merchant, rule } => self.set_settlement_rule_refusal(
                merchant,
                rule,
            ),
            Call::ClearSettlementRule { merchant } => self.clear_settlement_rule_refusal(merchant),
            Call::SetDefaultRule { new_rule } => self.set_default_rule_refusal(new_rule),
            Call::GetDefaultRule => None,
            Call::GetSettlementRule { .. } => None,
            Call::IsMerchantRegistered { .. } => None,
            Call::StorePaymentReference { merchant, reference, amount } =>
                self.store_payment_reference_refusal(merchant, reference, amount),
            Call::CalculateFeeSplit { merchant, amount } => self.calculate_fee_split_refusal(
                merchant,
                amount,
            ),
            Call::GetPaymentReference { .. } => None,
            Call::GetPayments { .. } => None,
        }
    }

    /// Whether a call is accepted. A recovery cannot start so late that its end
    /// has no time.
    pub open spec fn accepts(self, call: Call) -> bool {
        &&& self.refusal(call) is None
        &&& call is InitiateRecovery ==> self.ledger.timestamp + RECOVERY_DELAY_SECONDS <= u64::MAX
    }

    /// What an accepted call does.
    pub open spec fn after(self, call: Call) -> EnvState {
        match call {
            Call::Init { admin, governance, recovery_address } => self.after_init(
                admin,
                governance,
                recovery_address,
            ),
            Call::GetAdmin => self.touch_instance(),
            Call::GetGovernance => self.touch_instance(),
            Call::GetRecoveryAddress => self.touch_instance(),
            Call::UpdateGovernance { new_governance } => self.after_update_governance(
                new_governance,
            ),
            Call::InitiateRecovery { new_admin } => self.after_initiate_recovery(new_admin),
            Call::CancelRecovery => self.after_cancel_recovery(),
            Call::ExecuteRecovery => self.after_execute_recovery(),
            Call::TransferAdmin { new_admin } => self.after_transfer_admin(new_admin),
            Call::ProposeAdmin { new_admin } => self.after_propose_admin(new_admin),
            Call::AcceptAdmin => self.after_accept_admin(),
            Call::CancelAdminTransfer => self.after_cancel_admin_transfer(),
            Call::GetPendingAdmin => self,
            Call::Upgrade { new_wasm_hash } => self.after_upgrade(new_wasm_hash),
            Call::Pause => self.after_pause(),
            Call::Unpause => self.after_unpause(),
            Call::IsPaused => self,
            Call::RegisterMerchant { merchant } => self.after_register_merchant(merchant),
            Call::UnregisterMerchant { merchant } => self.after_unregister_merchant(merchant),
            Call::SetSettlementRule { merchant, rule } => self.after_set_settlement_rule(
                merchant,
                rule,
            ),
            Call::ClearSettlementRule { merchant } => self.after_clear_settlement_rule(merchant),
            Call::SetDefaultRule { new_rule } => self.after_set_default_rule(new_rule),
            Call::GetDefaultRule => self.after_get_default_rule(),
            Call::GetSettlementRule { merchant } => self.after_get_settlement_rule(merchant),
            Call::IsMerchantRegistered { merchant } => self.after_is_merchant_registered(merchant),
            Call::StorePaymentReference { merchant, reference, amount } =>
                self.after_store_payment_reference(merchant, reference, amount),
            Call::CalculateFeeSplit { merchant, .. } => self.after_calculate_fee_split(merchant),
            Call::GetPaymentReference { reference } => self.after_get_payment_reference(reference),
            Call::GetPayments { references } => self.after_get_payments(references),
        }
    }
}

/// Reading payments changes no record.
pub proof fn lemma_reading_keeps_records(state: EnvState, references: Seq<[u8; 32]>)
    ensures
        forall|reference: [u8; 32]| #[trigger]
            state.after_get_payments(references).payment(reference) == state.payment(reference),
    decreases references.len(),
{
    if references.len() > 0 {
        let before = state.after_get_payments(references.drop_last());
        lemma_reading_keeps_records(state, references.drop_last());
        assert forall|reference: [u8; 32]| #[trigger]
            state.after_get_payments(references).payment(reference) == state.payment(
            reference,
        ) by {
            assert(before.payment(reference) == state.payment(reference));
        }
    }
}

/// The records of one more reference.
pub proof fn lemma_payments_of_push(
    state: EnvState,
    references: Seq<[u8; 32]>,
    reference: [u8; 32],
)
    ensures
        state.payments_of(references.push(reference)) == match state.payment(reference) {
            Some(record) => state.payments_of(references).push(record),
            None => state.payments_of(references),
        },
{
    reveal(Seq::filter);
    assert(references.push(reference).drop_last() =~= references);
    assert(state.payments_of(references.push(reference)) =~= match state.payment(reference) {
        Some(record) => state.payments_of(references).push(record),
        None => state.payments_of(references),
    });
}

} // verus!
