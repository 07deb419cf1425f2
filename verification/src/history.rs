//! What calls leave behind: the journal, the events in it, the lifetimes of the
//! entries. And whole lives of a contract, call after call.
use crate::effects::{DataKeyOf, EffectOf, EventOf};
use crate::env::{EnvState, LedgerInfo};
use crate::model;
use crate::model::Call;
use crate::types;
use crate::types::{FeeConfig, SettlementRule, RECOVERY_DELAY_SECONDS};
use vstd::prelude::*;

verus! {

/// The journal.
impl EnvState {
    /// What the host makes of a list of effects.
    pub open spec fn replay(self, effects: Seq<EffectOf<Seq<char>>>) -> EnvState
        decreases effects.len(),
    {
        if effects.len() == 0 {
            self
        } else {
            self.replay(effects.drop_last()).perform(effects.last())
        }
    }

    /// The effects noted since the journal had `start` of them.
    pub open spec fn effects_since(self, start: nat) -> Seq<EffectOf<Seq<char>>> {
        self.journal.skip(start as int)
    }

    /// The events published so far.
    pub open spec fn events(self) -> Seq<EventOf<Seq<char>>> {
        events_in(self.journal)
    }
}

/// The events among some effects, in order.
pub open spec fn events_in(effects: Seq<EffectOf<Seq<char>>>) -> Seq<EventOf<Seq<char>>>
    decreases effects.len(),
{
    if effects.len() == 0 {
        Seq::empty()
    } else {
        match effects.last() {
            EffectOf::Publish(event) => events_in(effects.drop_last()).push(event),
            _ => events_in(effects.drop_last()),
        }
    }
}

/// One step in the life of the contract.
pub enum Step {
    /// Somebody makes a call.
    Make(Call),
    /// A new invocation begins: in another ledger, authorised by others, with
    /// other answers from governance contracts.
    Turn {
        ledger: LedgerInfo,
        signers: Set<Seq<char>>,
        fee_configs: Map<Seq<char>, Option<FeeConfig>>,
    },
}

/// Whole lives, and what is published in them.
impl EnvState {
    /// The environment after one step. A refused call changes nothing.
    pub open spec fn step(self, step: Step) -> EnvState {
        match step {
            Step::Make(call) => if self.accepts(call) {
                self.after(call)
            } else {
                self
            },
            Step::Turn { ledger, signers, fee_configs } => EnvState {
                ledger,
                signers,
                fee_configs,
                ..self
            },
        }
    }

    /// The environment after many steps.
    pub open spec fn run(self, steps: Seq<Step>) -> EnvState
        decreases steps.len(),
    {
        if steps.len() == 0 {
            self
        } else {
            self.run(steps.drop_last()).step(steps.last())
        }
    }

    /// Whether ledgers follow one another: no step goes back to a ledger with a
    /// smaller number.
    pub open spec fn in_order(self, steps: Seq<Step>) -> bool
        decreases steps.len(),
    {
        steps.len() > 0 ==> {
            &&& self.in_order(steps.drop_last())
            &&& steps.last() matches Step::Turn { ledger, .. } ==> self.run(
                steps.drop_last(),
            ).ledger.sequence <= ledger.sequence
        }
    }

    /// The event of a rule that comes from neither entry.
    pub open spec fn fallback_events(self, merchant: Seq<char>) -> Seq<EventOf<Seq<char>>> {
        if self.rule(merchant) is None && self.default() is None {
            seq![EventOf::BootstrapFallback { rule: types::spec_bootstrap_default_rule() }]
        } else {
            seq![]
        }
    }

    /// The events an accepted call publishes, in order.
    pub open spec fn published_by(self, call: Call) -> Seq<EventOf<Seq<char>>> {
        let admin = self.admin.unwrap();
        match call {
            Call::Init { admin, .. } => seq![EventOf::Initialized { admin }],
            Call::UpdateGovernance { new_governance } => seq![
                EventOf::GovernanceUpdated { admin, governance: new_governance },
            ],
            Call::InitiateRecovery { new_admin } => seq![
                EventOf::RecoveryInitiated {
                    recovery_address: self.recovery_address.unwrap(),
                    new_admin,
                    execute_after: (self.ledger.timestamp + RECOVERY_DELAY_SECONDS) as u64,
                },
            ],
            Call::CancelRecovery => seq![EventOf::RecoveryCancelled { admin }],
            Call::ExecuteRecovery => seq![
                EventOf::RecoveryExecuted { new_admin: self.pending_recovery.unwrap().new_admin },
            ],
            Call::TransferAdmin { new_admin } => seq![EventOf::Admin { new_admin }],
            Call::AcceptAdmin => seq![EventOf::Admin { new_admin: self.pending_admin.unwrap() }],
            Call::Upgrade { new_wasm_hash } => seq![
                EventOf::ContractUpgraded { wasm_hash: new_wasm_hash, admin },
            ],
            Call::Pause => seq![EventOf::Pause],
            Call::Unpause => seq![EventOf::Unpause],
            Call::RegisterMerchant { merchant } => seq![
                EventOf::MerchantRegistered { merchant, admin },
            ],
            Call::UnregisterMerchant { merchant } => seq![
                EventOf::MerchantUnregistered { merchant, admin },
            ],
            Call::SetSettlementRule { merchant, rule } => seq![
                EventOf::SettlementRuleUpdated {
                    merchant,
                    admin,
                    previous: self.rule_in_force(merchant),
                    current: rule,
                },
            ],
            Call::ClearSettlementRule { merchant } => {
                let cleared = EventOf::SettlementRuleCleared {
                    merchant,
                    admin,
                    removed: self.rule(merchant).unwrap(),
                    fallback: self.default_or_bootstrap(),
                };
                if self.default() is Some {
                    seq![cleared]
                } else {
                    seq![
                        EventOf::BootstrapFallback { rule: types::spec_bootstrap_default_rule() },
                        cleared,
                    ]
                }
            },
            Call::SetDefaultRule { new_rule } => seq![
                EventOf::DefaultRuleUpdated {
                    admin,
                    previous: self.default_or_bootstrap(),
                    current: new_rule,
                },
            ],
            Call::StorePaymentReference { merchant, reference, amount } => self.fallback_events(
                merchant,
            ).push(
                EventOf::PaymentStored {
                    merchant,
                    reference,
                    record: model::record_of(
                        amount,
                        self.rule_in_force(merchant),
                        self.ledger.sequence,
                    ),
                },
            ),
            Call::CalculateFeeSplit { merchant, .. } => self.fallback_events(merchant),
            _ => seq![],
        }
    }
}

/// `after` came from `before` by the effects its journal has noted since.
#[verifier::opaque]
pub open spec fn leads_to(before: EnvState, after: EnvState) -> bool {
    &&& before.journal.is_prefix_of(after.journal)
    &&& after == before.replay(after.effects_since(before.journal.len()))
    &&& after.ledger == before.ledger
    &&& after.signers == before.signers
    &&& after.fee_configs == before.fee_configs
}

proof fn lemma_leads_nowhere(state: EnvState)
    ensures
        leads_to(state, state),
{
    reveal(leads_to);
    assert(state.effects_since(state.journal.len()) =~= Seq::empty());
}

broadcast proof fn lemma_leads_on(before: EnvState, state: EnvState, effect: EffectOf<Seq<char>>)
    requires
        leads_to(before, state),
    ensures
        #[trigger] leads_to(before, state.perform(effect)),
{
    reveal(leads_to);
    let after = state.perform(effect);
    let start = before.journal.len();
    assert(after.effects_since(start).drop_last() =~= state.effects_since(start));
    assert(after.effects_since(start).last() == effect);
}

proof fn lemma_reading_leads_on(before: EnvState, state: EnvState, references: Seq<[u8; 32]>)
    requires
        leads_to(before, state),
    ensures
        leads_to(before, state.after_get_payments(references)),
    decreases references.len(),
{
    broadcast use lemma_leads_on;

    if references.len() > 0 {
        lemma_reading_leads_on(before, state, references.drop_last());
    }
}

/// The journal accounts for every change: a call adds to it, and a host that
/// does what was added makes the same change. Nothing else of the environment
/// changes.
pub proof fn law_journal_accounts_for_every_change(state: EnvState, call: Call)
    ensures
        ({
            let after = state.after(call);
            &&& state.journal.is_prefix_of(after.journal)
            &&& after == state.replay(after.effects_since(state.journal.len()))
            &&& after.ledger == state.ledger
            &&& after.signers == state.signers
            &&& after.fee_configs == state.fee_configs
        }),
{
    broadcast use lemma_leads_on;

    lemma_leads_nowhere(state);
    assert(leads_to(state, state.after(call))) by {
        if let Call::GetPayments { references } = call {
            lemma_reading_leads_on(state, state, references);
        }
    }
    reveal(leads_to);
}

broadcast proof fn lemma_events_on(state: EnvState, effect: EffectOf<Seq<char>>)
    ensures
        #[trigger] state.perform(effect).events() == match effect {
            EffectOf::Publish(event) => state.events().push(event),
            _ => state.events(),
        },
{
    assert(state.perform(effect).journal.drop_last() =~= state.journal);
}

proof fn lemma_reading_publishes_nothing(state: EnvState, references: Seq<[u8; 32]>)
    ensures
        state.after_get_payments(references).events() == state.events(),
    decreases references.len(),
{
    broadcast use lemma_events_on;

    if references.len() > 0 {
        lemma_reading_publishes_nothing(state, references.drop_last());
    }
}

proof fn lemma_events_of_clearing(state: EnvState, merchant: Seq<char>)
    ensures
        state.after_clear_settlement_rule(merchant).events() == state.events()
            + state.published_by(Call::ClearSettlementRule { merchant }),
{
    broadcast use lemma_events_on;

    assert(state.after_clear_settlement_rule(merchant).events() =~= state.events()
        + state.published_by(Call::ClearSettlementRule { merchant }));
}

proof fn lemma_events_of_storing(
    state: EnvState,
    merchant: Seq<char>,
    reference: [u8; 32],
    amount: i128,
)
    ensures
        state.after_store_payment_reference(merchant, reference, amount).events() == state.events()
            + state.published_by(Call::StorePaymentReference { merchant, reference, amount }),
{
    broadcast use lemma_events_on;

    assert(state.after_store_payment_reference(merchant, reference, amount).events()
        =~= state.events() + state.published_by(
        Call::StorePaymentReference { merchant, reference, amount },
    ));
}

proof fn lemma_events_of_setting(state: EnvState, merchant: Seq<char>, rule: SettlementRule)
    ensures
        state.after_set_settlement_rule(merchant, rule).events() == state.events()
            + state.published_by(Call::SetSettlementRule { merchant, rule }),
{
    broadcast use lemma_events_on;

    assert(state.after_set_settlement_rule(merchant, rule).events() =~= state.events()
        + state.published_by(Call::SetSettlementRule { merchant, rule }));
}

proof fn lemma_events_of_unregistering(state: EnvState, merchant: Seq<char>)
    ensures
        state.after_unregister_merchant(merchant).events() == state.events() + state.published_by(
            Call::UnregisterMerchant { merchant },
        ),
{
    broadcast use lemma_events_on;

    assert(state.after_unregister_merchant(merchant).events() =~= state.events()
        + state.published_by(Call::UnregisterMerchant { merchant }));
}

/// Which events a call publishes. A payment, a rule and a merchant each make
/// one, and a rule that comes from neither entry makes one more.
pub proof fn law_published_events(state: EnvState, call: Call)
    requires
        state.accepts(call),
    ensures
        state.after(call).events() == state.events() + state.published_by(call),
{
    broadcast use lemma_events_on;

    let after = state.after(call);
    let all = state.events() + state.published_by(call);
    match call {
        Call::GetPayments { references } => {
            lemma_reading_publishes_nothing(state, references);
            assert(after.events() =~= all);
        },
        Call::ClearSettlementRule { merchant } => {
            lemma_events_of_clearing(state, merchant);
        },
        Call::StorePaymentReference { merchant, reference, amount } => {
            lemma_events_of_storing(state, merchant, reference, amount);
        },
        Call::SetSettlementRule { merchant, rule } => {
            lemma_events_of_setting(state, merchant, rule);
        },
        Call::UnregisterMerchant { merchant } => {
            lemma_events_of_unregistering(state, merchant);
        },
        _ => {
            assert(after.events() =~= all);
        },
    }
}

/// The entry of `key`, if `before` has it, lives at least as long in `after`.
#[verifier::opaque]
pub open spec fn lives_on(before: EnvState, after: EnvState, key: DataKeyOf<Seq<char>>) -> bool {
    &&& after.ledger == before.ledger
    &&& before.live_until(key) matches Some(last) ==> after.live_until(key) is Some
        && after.live_until(key).unwrap() >= last
}

/// Whether a key belongs to the instance storage.
pub open spec fn in_instance(key: DataKeyOf<Seq<char>>) -> bool {
    !(key is Merchant) && !(key is Rule) && !(key is DefaultRule) && !(key is Payment)
}

broadcast proof fn lemma_lives_on(
    before: EnvState,
    state: EnvState,
    effect: EffectOf<Seq<char>>,
    key: DataKeyOf<Seq<char>>,
)
    requires
        before.ledger.valid(),
        lives_on(before, state, key),
        effect == EffectOf::Erase(key) ==> in_instance(key),
    ensures
        #[trigger] lives_on(before, state.perform(effect), key),
{
    reveal(lives_on);
    if let EffectOf::Erase(DataKeyOf::Payment(reference)) = effect {
        if let DataKeyOf::Payment(other) = key {
            if reference@ == other@ {
                assert(reference =~= other);
            }
        }
    }
}

proof fn lemma_reading_lives_on(
    before: EnvState,
    references: Seq<[u8; 32]>,
    key: DataKeyOf<Seq<char>>,
)
    requires
        before.ledger.valid(),
    ensures
        lives_on(before, before.after_get_payments(references), key),
    decreases references.len(),
{
    broadcast use lemma_lives_on;

    if references.len() == 0 {
        reveal(lives_on);
    } else {
        lemma_reading_lives_on(before, references.drop_last(), key);
    }
}

/// Whether a call takes the entry of `key` away.
pub open spec fn takes_away(call: Call, key: DataKeyOf<Seq<char>>) -> bool {
    match call {
        Call::UnregisterMerchant { merchant } => key == DataKeyOf::Merchant(merchant) || key
            == DataKeyOf::Rule(merchant),
        Call::ClearSettlementRule { merchant } => key == DataKeyOf::Rule(merchant),
        _ => false,
    }
}

/// No call shortens the life of an entry, except that a merchant is taken out
/// of the register with its rule, and a rule is cleared.
pub proof fn law_lifetimes_never_shrink(state: EnvState, call: Call, key: DataKeyOf<Seq<char>>)
    requires
        state.ledger.valid(),
    ensures
        takes_away(call, key) ==> state.after(call).live_until(key) is None,
        !takes_away(call, key) ==> (state.live_until(key) matches Some(last) ==> (state.after(
            call,
        ).live_until(key) matches Some(new_last) && new_last >= last)),
{
    if !takes_away(call, key) {
        broadcast use lemma_lives_on;

        assert(lives_on(state, state, key)) by {
            reveal(lives_on);
        }
        assert(lives_on(state, state.after(call), key)) by {
            if let Call::GetPayments { references } = call {
                lemma_reading_lives_on(state, references, key);
            }
        }
        reveal(lives_on);
    }
}

} // verus!
