//! What an environment has stored, whatever the lifetimes, and what the calls
//! make of it.
use crate::address;
use crate::effects::{DataKeyOf, EffectOf, EntryOf, EventOf};
use crate::env::{EnvState, Stored};
use crate::fees;
use crate::model;
use crate::model::Call;
use crate::types;
use crate::types::{
    PaymentRecord, PendingRecoveryView, SettlementRule, MIN_PAYMENT_AMOUNT,
    RECOVERY_DELAY_SECONDS,
};
use vstd::prelude::*;

verus! {

/// The terms a payment was made under.
pub open spec fn terms_of(record: PaymentRecord) -> SettlementRule {
    SettlementRule {
        platform_fee_bps: record.platform_fee_bps,
        network_fee_bps: record.network_fee_bps,
        settlement_delay_ledger: record.settlement_delay_ledger,
        auto_settle: record.auto_settle,
    }
}

/// A record is sound when its terms are a rule the contract takes, its amount
/// can be split under them, and its shares are that split.
pub open spec fn record_is_sound(record: PaymentRecord) -> bool {
    &&& record.amount >= MIN_PAYMENT_AMOUNT
    &&& terms_of(record).refusal() is None
    &&& !fees::split_overflows(record.amount as int, terms_of(record))
    &&& record == model::record_of(record.amount, terms_of(record), record.ledger)
}

/// What an environment has stored, without lifetimes.
#[verifier::ext_equal]
pub struct Contents {
    /// The admin.
    pub admin: Option<Seq<char>>,
    /// The governance contract.
    pub governance: Option<Seq<char>>,
    /// The address that may start a recovery.
    pub recovery_address: Option<Seq<char>>,
    /// The recovery under way.
    pub pending_recovery: Option<PendingRecoveryView>,
    /// The admin who was proposed and has not accepted.
    pub pending_admin: Option<Seq<char>>,
    /// The pause flag, once it has been set.
    pub paused: Option<bool>,
    /// The merchants, and whether they are registered.
    pub merchants: Map<Seq<char>, bool>,
    /// The rules of the merchants that have their own.
    pub rules: Map<Seq<char>, SettlementRule>,
    /// The global default rule.
    pub default_rule: Option<SettlementRule>,
    /// The payments, by the bytes of their references.
    pub payments: Map<Seq<u8>, PaymentRecord>,
}

impl EnvState {
    /// What is stored, without lifetimes.
    pub open spec fn contents(self) -> Contents {
        Contents {
            admin: self.admin,
            governance: self.governance,
            recovery_address: self.recovery_address,
            pending_recovery: self.pending_recovery,
            pending_admin: self.pending_admin,
            paused: self.paused,
            merchants: self.merchants.map_values(|stored: Stored<bool>| stored.value),
            rules: self.rules.map_values(|stored: Stored<SettlementRule>| stored.value),
            default_rule: self.default(),
            payments: self.payments.map_values(|stored: Stored<PaymentRecord>| stored.value),
        }
    }
}

/// What calls do to the contents, and what all contents satisfy that calls have
/// led to.
impl Contents {
    /// The rule in force for a merchant.
    pub open spec fn rule_in_force(self, merchant: Seq<char>) -> SettlementRule {
        if self.rules.contains_key(merchant) {
            self.rules[merchant]
        } else {
            match self.default_rule {
                Some(rule) => rule,
                None => types::spec_bootstrap_default_rule(),
            }
        }
    }

    /// What an accepted call makes of the contents, in a ledger with the given
    /// number and time.
    pub open spec fn after(self, call: Call, sequence: u32, timestamp: u64) -> Contents {
        match call {
            Call::Init { admin, governance, recovery_address } => Contents {
                admin: Some(admin),
                governance: Some(governance),
                recovery_address: Some(recovery_address),
                ..self
            },
            Call::UpdateGovernance { new_governance } => Contents {
                governance: Some(new_governance),
                ..self
            },
            Call::InitiateRecovery { new_admin } => Contents {
                pending_recovery: Some(
                    PendingRecoveryView {
                        new_admin,
                        execute_after: (timestamp + RECOVERY_DELAY_SECONDS) as u64,
                    },
                ),
                ..self
            },
            Call::CancelRecovery => Contents { pending_recovery: None, ..self },
            Call::ExecuteRecovery => Contents {
                admin: Some(self.pending_recovery.unwrap().new_admin),
                pending_recovery: None,
                ..self
            },
            Call::TransferAdmin { new_admin } => Contents {
                admin: Some(new_admin),
                pending_admin: None,
                ..self
            },
            Call::ProposeAdmin { new_admin } => Contents {
                pending_admin: Some(new_admin),
                ..self
            },
            Call::AcceptAdmin => Contents {
                admin: self.pending_admin,
                pending_admin: None,
                ..self
            },
            Call::CancelAdminTransfer => Contents { pending_admin: None, ..self },
            Call::Pause => Contents { paused: Some(true), ..self },
            Call::Unpause => Contents { paused: Some(false), ..self },
            Call::RegisterMerchant { merchant } => Contents {
                merchants: self.merchants.insert(merchant, true),
                ..self
            },
            Call::UnregisterMerchant { merchant } => Contents {
                merchants: self.merchants.remove(merchant),
                rules: self.rules.remove(merchant),
                ..self
            },
            Call::SetSettlementRule { merchant, rule } => Contents {
                rules: self.rules.insert(merchant, rule),
                ..self
            },
            Call::ClearSettlementRule { merchant } => Contents {
                rules: self.rules.remove(merchant),
                ..self
            },
            Call::SetDefaultRule { new_rule } => Contents { default_rule: Some(new_rule), ..self },
            Call::StorePaymentReference { merchant, reference, amount } => Contents {
                payments: self.payments.insert(
                    reference@,
                    model::record_of(amount, self.rule_in_force(merchant), sequence),
                ),
                ..self
            },
            _ => self,
        }
    }

    /// The three roles are given together and name somebody. Whatever else is
    /// set in the instance storage, is set once they are.
    pub open spec fn roles_consistent(self) -> bool {
        &&& self.admin is Some <==> self.governance is Some
        &&& self.admin is Some <==> self.recovery_address is Some
        &&& self.governance matches Some(governance) ==> address::names_somebody(governance)
        &&& self.recovery_address matches Some(address) ==> address::names_somebody(address)
        &&& self.pending_recovery matches Some(pending) ==> {
            &&& self.admin is Some
            &&& address::names_somebody(pending.new_admin)
        }
        &&& self.pending_admin matches Some(new_admin) ==> {
            &&& self.admin is Some
            &&& address::names_somebody(new_admin)
        }
        &&& self.paused is Some ==> self.admin is Some
    }

    /// Every merchant names somebody and is registered. Every rule is one the
    /// contract takes, and belongs to a registered merchant.
    pub open spec fn rules_consistent(self) -> bool {
        &&& forall|merchant: Seq<char>| #[trigger]
            self.merchants.contains_key(merchant) ==> address::names_somebody(merchant)
                && self.merchants[merchant]
        &&& forall|merchant: Seq<char>| #[trigger]
            self.rules.contains_key(merchant) ==> self.merchants.contains_key(merchant)
                && self.rules[merchant].refusal() is None
        &&& self.default_rule matches Some(rule) ==> rule.refusal() is None
    }

    /// No payment has the reserved reference, and every record is sound.
    pub open spec fn payments_consistent(self) -> bool {
        forall|reference: Seq<u8>| #[trigger]
            self.payments.contains_key(reference) ==> reference != model::reserved_reference()
                && record_is_sound(self.payments[reference])
    }

    /// All of the above.
    pub open spec fn consistent(self) -> bool {
        &&& self.roles_consistent()
        &&& self.rules_consistent()
        &&& self.payments_consistent()
    }
}

/// Extending lifetimes, publishing and upgrading leave the contents alone.
proof fn lemma_contents_stay(state: EnvState, effect: EffectOf<Seq<char>>)
    requires
        !(effect is Write),
        !(effect is Erase),
    ensures
        state.perform(effect).contents() == state.contents(),
{
    assert(state.perform(effect).contents() =~= state.contents());
}

/// Looking rules up leaves the contents alone.
pub proof fn lemma_look_up_keeps_contents(state: EnvState, merchant: Seq<char>)
    ensures
        state.touch_instance().contents() == state.contents(),
        state.touch_merchant(merchant).contents() == state.contents(),
        state.touch_rule(merchant).contents() == state.contents(),
        state.touch_default_rule().contents() == state.contents(),
        state.look_up_rule(merchant).contents() == state.contents(),
        state.look_up_previous_rule(merchant).contents() == state.contents(),
        state.rule_in_force(merchant) == state.contents().rule_in_force(merchant),
{
    assert(state.touch_instance().contents() =~= state.contents());
    assert(state.touch_merchant(merchant).contents() =~= state.contents());
    assert(state.touch_rule(merchant).contents() =~= state.contents());
    assert(state.touch_default_rule().contents() =~= state.contents());
}

proof fn lemma_contents_after_set_settlement_rule(
    state: EnvState,
    merchant: Seq<char>,
    rule: SettlementRule,
)
    ensures
        state.after_set_settlement_rule(merchant, rule).contents() == (Contents {
            rules: state.contents().rules.insert(merchant, rule),
            ..state.contents()
        }),
{
    let a = state.touch_instance();
    lemma_look_up_keeps_contents(state, merchant);
    let b = a.touch_merchant(merchant);
    lemma_look_up_keeps_contents(a, merchant);
    let c = b.look_up_previous_rule(merchant);
    lemma_look_up_keeps_contents(b, merchant);
    let d = c.write(EntryOf::Rule(merchant, rule));
    assert(d.contents() =~= (Contents {
        rules: c.contents().rules.insert(merchant, rule),
        ..c.contents()
    }));
    let e = d.touch_rule(merchant);
    lemma_look_up_keeps_contents(d, merchant);
    lemma_contents_stay(
        e,
        EffectOf::Publish(
            EventOf::SettlementRuleUpdated {
                merchant,
                admin: state.admin.unwrap(),
                previous: state.rule_in_force(merchant),
                current: rule,
            },
        ),
    );
}

proof fn lemma_contents_after_clear_settlement_rule(state: EnvState, merchant: Seq<char>)
    ensures
        state.after_clear_settlement_rule(merchant).contents() == (Contents {
            rules: state.contents().rules.remove(merchant),
            ..state.contents()
        }),
{
    let a = state.touch_instance();
    lemma_look_up_keeps_contents(state, merchant);
    let b = a.erase(DataKeyOf::Rule(merchant));
    assert(b.contents() =~= (Contents {
        rules: a.contents().rules.remove(merchant),
        ..a.contents()
    }));
    let c = b.look_up_rule(merchant);
    lemma_look_up_keeps_contents(b, merchant);
    lemma_contents_stay(
        c,
        EffectOf::Publish(
            EventOf::SettlementRuleCleared {
                merchant,
                admin: state.admin.unwrap(),
                removed: state.rule(merchant).unwrap(),
                fallback: state.default_or_bootstrap(),
            },
        ),
    );
}

proof fn lemma_contents_after_store_payment(
    state: EnvState,
    merchant: Seq<char>,
    reference: [u8; 32],
    amount: i128,
)
    ensures
        state.after_store_payment_reference(merchant, reference, amount).contents() == (Contents {
            payments: state.contents().payments.insert(
                reference@,
                model::record_of(
                    amount,
                    state.contents().rule_in_force(merchant),
                    state.ledger.sequence,
                ),
            ),
            ..state.contents()
        }),
{
    let record = model::record_of(amount, state.rule_in_force(merchant), state.ledger.sequence);
    let a = state.touch_merchant(merchant);
    lemma_look_up_keeps_contents(state, merchant);
    let b = a.look_up_rule(merchant);
    lemma_look_up_keeps_contents(a, merchant);
    let c = b.write(EntryOf::Payment(reference, record));
    assert(c.contents() =~= (Contents {
        payments: b.contents().payments.insert(reference@, record),
        ..b.contents()
    }));
    let d = c.touch_payment(reference);
    assert(d.contents() =~= c.contents());
    lemma_contents_stay(
        d,
        EffectOf::Publish(EventOf::PaymentStored { merchant, reference, record }),
    );
}

proof fn lemma_contents_after_unregister_merchant(state: EnvState, merchant: Seq<char>)
    ensures
        state.after_unregister_merchant(merchant).contents() == (Contents {
            merchants: state.contents().merchants.remove(merchant),
            rules: state.contents().rules.remove(merchant),
            ..state.contents()
        }),
{
    let a = state.touch_instance();
    lemma_look_up_keeps_contents(state, merchant);
    let b = a.erase(DataKeyOf::Merchant(merchant));
    assert(b.contents() =~= (Contents {
        merchants: a.contents().merchants.remove(merchant),
        ..a.contents()
    }));
    let c = if state.rule(merchant) is Some {
        b.erase(DataKeyOf::Rule(merchant))
    } else {
        b
    };
    assert(c.contents() =~= (Contents {
        rules: b.contents().rules.remove(merchant),
        ..b.contents()
    }));
    lemma_contents_stay(
        c,
        EffectOf::Publish(EventOf::MerchantUnregistered { merchant, admin: state.admin.unwrap() }),
    );
}

proof fn lemma_contents_after_register_merchant(state: EnvState, merchant: Seq<char>)
    ensures
        state.after_register_merchant(merchant).contents() == (Contents {
            merchants: state.contents().merchants.insert(merchant, true),
            ..state.contents()
        }),
{
    let a = state.touch_instance();
    lemma_look_up_keeps_contents(state, merchant);
    let b = a.write(EntryOf::Merchant(merchant, true));
    assert(b.contents() =~= (Contents {
        merchants: a.contents().merchants.insert(merchant, true),
        ..a.contents()
    }));
    let c = b.touch_merchant(merchant);
    lemma_look_up_keeps_contents(b, merchant);
    lemma_contents_stay(
        c,
        EffectOf::Publish(EventOf::MerchantRegistered { merchant, admin: state.admin.unwrap() }),
    );
}

proof fn lemma_reading_keeps_contents(state: EnvState, references: Seq<[u8; 32]>)
    ensures
        state.after_get_payments(references).contents() == state.contents(),
    decreases references.len(),
{
    if references.len() > 0 {
        let before = state.after_get_payments(references.drop_last());
        lemma_reading_keeps_contents(state, references.drop_last());
        assert(before.after_get_payment_reference(references.last()).contents()
            =~= before.contents());
    }
}

/// The calls that change who is admin.
spec fn moves_admin(call: Call) -> bool {
    call is Init || call is ExecuteRecovery || call is TransferAdmin || call is AcceptAdmin
}

/// The other calls that write to the instance storage.
spec fn writes_instance(call: Call) -> bool {
    ||| call is UpdateGovernance
    ||| call is InitiateRecovery
    ||| call is CancelRecovery
    ||| call is ProposeAdmin
    ||| call is CancelAdminTransfer
    ||| call is Pause
    ||| call is Unpause
}

/// The calls that write, or look up a rule, in the persistent storage.
spec fn works_on_entries(call: Call) -> bool {
    ||| call is RegisterMerchant
    ||| call is UnregisterMerchant
    ||| call is SetSettlementRule
    ||| call is ClearSettlementRule
    ||| call is SetDefaultRule
    ||| call is StorePaymentReference
    ||| call is CalculateFeeSplit
    ||| call is GetPayments
}

proof fn lemma_contents_after_moving_admin(state: EnvState, call: Call)
    requires
        moves_admin(call),
        state.accepts(call),
    ensures
        state.after(call).contents() == state.contents().after(
            call,
            state.ledger.sequence,
            state.ledger.timestamp,
        ),
{
    assert(state.after(call).contents() =~= state.contents().after(
        call,
        state.ledger.sequence,
        state.ledger.timestamp,
    ));
}

proof fn lemma_contents_after_writing_instance(state: EnvState, call: Call)
    requires
        writes_instance(call),
        state.accepts(call),
    ensures
        state.after(call).contents() == state.contents().after(
            call,
            state.ledger.sequence,
            state.ledger.timestamp,
        ),
{
    assert(state.after(call).contents() =~= state.contents().after(
        call,
        state.ledger.sequence,
        state.ledger.timestamp,
    ));
}

proof fn lemma_contents_after_working_on_entries(state: EnvState, call: Call)
    requires
        works_on_entries(call),
    ensures
        state.after(call).contents() == state.contents().after(
            call,
            state.ledger.sequence,
            state.ledger.timestamp,
        ),
{
    match call {
        Call::GetPayments { references } => lemma_reading_keeps_contents(state, references),
        Call::SetSettlementRule { merchant, rule } => lemma_contents_after_set_settlement_rule(
            state,
            merchant,
            rule,
        ),
        Call::ClearSettlementRule { merchant } => lemma_contents_after_clear_settlement_rule(
            state,
            merchant,
        ),
        Call::StorePaymentReference { merchant, reference, amount } =>
            lemma_contents_after_store_payment(state, merchant, reference, amount),
        Call::UnregisterMerchant { merchant } => lemma_contents_after_unregister_merchant(
            state,
            merchant,
        ),
        Call::RegisterMerchant { merchant } => lemma_contents_after_register_merchant(
            state,
            merchant,
        ),
        Call::CalculateFeeSplit { merchant, .. } => {
            lemma_look_up_keeps_contents(state, merchant);
            lemma_look_up_keeps_contents(state.touch_merchant(merchant), merchant);
        },
        _ => {
            assert(state.after(call).contents() =~= state.contents().after(
                call,
                state.ledger.sequence,
                state.ledger.timestamp,
            ));
        },
    }
}

proof fn lemma_contents_after_the_rest(state: EnvState, call: Call)
    requires
        !moves_admin(call),
        !writes_instance(call),
        !works_on_entries(call),
    ensures
        state.after(call).contents() == state.contents(),
{
    assert(state.after(call).contents() =~= state.contents());
}

/// What a call stores and takes away, in one line for each call.
pub proof fn law_contents_after(state: EnvState, call: Call)
    requires
        state.accepts(call),
    ensures
        state.after(call).contents() == state.contents().after(
            call,
            state.ledger.sequence,
            state.ledger.timestamp,
        ),
{
    if moves_admin(call) {
        lemma_contents_after_moving_admin(state, call);
    } else if writes_instance(call) {
        lemma_contents_after_writing_instance(state, call);
    } else if works_on_entries(call) {
        lemma_contents_after_working_on_entries(state, call);
    } else {
        lemma_contents_after_the_rest(state, call);
    }
}

} // verus!
