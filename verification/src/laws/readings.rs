//! What is read from an environment, field by field, and what the rules, the
//! fees and the lifetimes are made of.
use crate::address;
use crate::address::Address;
use crate::effects::{
    DataKey, DataKeyOf, Datum, DatumView, Effect, EffectOf, Entry, EntryOf, Event, EventOf, Topic,
    TopicView,
};
use crate::env;
use crate::env::{EnvState, LedgerInfo, Stored};
use crate::fees;
use crate::model;
use crate::types;
use crate::types::{
    PaymentRecord, PendingRecovery, SettlementError, SettlementRule, BPS_DENOMINATOR,
    INSTANCE_TTL_BUMP, INSTANCE_TTL_THRESHOLD, MAX_SETTLEMENT_DELAY_LEDGER, MERCHANT_TTL_BUMP,
    MERCHANT_TTL_THRESHOLD, MIN_FEE_BPS, MIN_PAYMENT_AMOUNT, PAYMENT_TTL_BUMP,
    PAYMENT_TTL_THRESHOLD, RECOVERY_DELAY_SECONDS, RULE_TTL_BUMP, RULE_TTL_THRESHOLD,
};
use vstd::prelude::*;

verus! {

/// The limits: fees of 5 to 10 000 basis points, payments of 100 units or more,
/// delays of up to 100 000 ledgers, seven days to a recovery. With a ledger
/// every five seconds, entries are extended to thirty days once they have
/// fourteen or less.
pub proof fn law_limits()
    ensures
        BPS_DENOMINATOR == 10_000,
        MIN_FEE_BPS == 5,
        MIN_PAYMENT_AMOUNT == 100,
        MAX_SETTLEMENT_DELAY_LEDGER == 100_000,
        RECOVERY_DELAY_SECONDS == 604_800,
        PAYMENT_TTL_THRESHOLD == 241_920 && PAYMENT_TTL_BUMP == 518_400,
        RULE_TTL_THRESHOLD == 241_920 && RULE_TTL_BUMP == 518_400,
        MERCHANT_TTL_THRESHOLD == 241_920 && MERCHANT_TTL_BUMP == 518_400,
        INSTANCE_TTL_THRESHOLD == 50_000 && INSTANCE_TTL_BUMP == 100_000,
{
}

/// An address names somebody unless it is empty or the zero address.
pub proof fn law_who_is_somebody(address: Seq<char>)
    ensures
        address::names_somebody(address) <==> address.len() > 0 && address
            != "GAAAAAAAAAAAAAAAAAAAAAAAAAAAAAAAAAAAAAAAAAAAAAAAAAAAAWHF"@,
{
}

/// A rule is taken exactly when each fee is zero or between 5 and 10 000 basis
/// points, the two do not exceed 10 000 together, and the delay does not exceed
/// 100 000 ledgers. Fees out of bounds are the first complaint, the delay is the
/// second, and there is no third.
pub proof fn law_which_rules_are_taken(rule: SettlementRule)
    ensures
        ({
            let platform = rule.platform_fee_bps;
            let network = rule.network_fee_bps;
            let fees_good = (platform == 0 || 5 <= platform <= 10_000) && (network == 0 || 5
                <= network <= 10_000) && platform + network <= 10_000;
            let delay_good = rule.settlement_delay_ledger <= 100_000;
            &&& rule.refusal() is None <==> fees_good && delay_good
            &&& rule.refusal() == Some(SettlementError::InvalidFeeBps) <==> !fees_good
            &&& rule.refusal() == Some(SettlementError::InvalidSettlementDelay) <==> fees_good
                && !delay_good
        }),
{
}

/// The two fees are judged alike: swapping them changes no verdict. And the
/// auto-settle flag has no say.
pub proof fn law_fees_are_judged_alike(rule: SettlementRule, auto_settle: bool)
    ensures
        rule.refusal() == (SettlementRule {
            platform_fee_bps: rule.network_fee_bps,
            network_fee_bps: rule.platform_fee_bps,
            settlement_delay_ledger: rule.settlement_delay_ledger,
            auto_settle,
        }).refusal(),
{
}

/// Before any rule is set, the platform takes 1 %, the network nothing, and
/// settlement is at once and by hand.
pub proof fn law_bootstrap_rule()
    ensures
        types::spec_bootstrap_default_rule().platform_fee_bps == 100,
        types::spec_bootstrap_default_rule().network_fee_bps == 0,
        types::spec_bootstrap_default_rule().settlement_delay_ledger == 0,
        types::spec_bootstrap_default_rule().auto_settle == false,
{
}

/// A split: each fee is the least whole amount that covers its own basis points
/// of the gross amount, and the merchant gets exactly what they leave.
pub proof fn law_split_is_the_least_cover(amount: i128, rule: SettlementRule)
    requires
        0 <= amount,
        !fees::split_overflows(amount as int, rule),
    ensures
        ({
            let s = fees::split(amount as int, rule);
            &&& s.gross_amount == amount
            &&& s.platform_fee_amount * 10_000 >= amount * rule.platform_fee_bps
            &&& (s.platform_fee_amount - 1) * 10_000 < amount * rule.platform_fee_bps
            &&& s.network_fee_amount * 10_000 >= amount * rule.network_fee_bps
            &&& (s.network_fee_amount - 1) * 10_000 < amount * rule.network_fee_bps
            &&& s.merchant_amount == amount - s.platform_fee_amount - s.network_fee_amount
        }),
{
    fees::lemma_split_fits(amount as int, rule);
}

/// An amount is too large for a rule exactly when one of the fees that is
/// charged, with its rounding term, leaves the range before the division.
pub proof fn law_which_amounts_overflow(amount: i128, rule: SettlementRule)
    requires
        0 <= amount,
    ensures
        fees::split_overflows(amount as int, rule) <==> {
            ||| rule.platform_fee_bps > 0 && amount * rule.platform_fee_bps + 9_999 > i128::MAX
            ||| rule.network_fee_bps > 0 && amount * rule.network_fee_bps + 9_999 > i128::MAX
        },
{
    super::law_overflow_test_is_exact(amount, rule);
}

/// What single readings mean: the mark, the rule, the default, the payment and
/// the pause flag are what is stored, and a missing one is missing.
pub proof fn law_readings(state: EnvState, merchant: Seq<char>, reference: [u8; 32])
    ensures
        state.registered(merchant) <==> state.merchants.contains_key(merchant)
            && state.merchants[merchant].value,
        state.rule(merchant) is Some <==> state.rules.contains_key(merchant),
        state.rules.contains_key(merchant) ==> state.rule(merchant) == Some(
            state.rules[merchant].value,
        ),
        state.default() is Some <==> state.default_rule is Some,
        state.default_rule matches Some(stored) ==> state.default() == Some(stored.value),
        state.payment(reference) is Some <==> state.payments.contains_key(reference@),
        state.payments.contains_key(reference@) ==> state.payment(reference) == Some(
            state.payments[reference@].value,
        ),
        state.is_paused() <==> state.paused == Some(true),
{
}

/// The rule in force: the merchant's own, else the default, else the rule that
/// takes 1 % for the platform and nothing else.
pub proof fn law_rule_in_force(state: EnvState, merchant: Seq<char>)
    ensures
        state.rules.contains_key(merchant) ==> state.rule_in_force(merchant)
            == state.rules[merchant].value,
        !state.rules.contains_key(merchant) && state.default_rule is Some ==> state.rule_in_force(
            merchant,
        ) == state.default_rule.unwrap().value,
        !state.rules.contains_key(merchant) && state.default_rule is None ==> {
            let rule = state.rule_in_force(merchant);
            &&& rule.platform_fee_bps == 100
            &&& rule.network_fee_bps == 0
            &&& rule.settlement_delay_ledger == 0
            &&& !rule.auto_settle
        },
        state.default_rule matches Some(stored) ==> state.default_or_bootstrap() == stored.value,
        state.default_rule is None ==> state.default_or_bootstrap() == (SettlementRule {
            platform_fee_bps: 100,
            network_fee_bps: 0,
            settlement_delay_ledger: 0,
            auto_settle: false,
        }),
{
}

/// A record is a snapshot: the amount and the ledger as given, the four terms of
/// the rule as they are, and the shares of the split.
pub proof fn law_record_is_a_snapshot(amount: i128, rule: SettlementRule, ledger: u32)
    ensures
        ({
            let record = model::record_of(amount, rule, ledger);
            let shares = fees::split(amount as int, rule);
            &&& record.amount == amount
            &&& record.ledger == ledger
            &&& record.platform_fee_bps == rule.platform_fee_bps
            &&& record.network_fee_bps == rule.network_fee_bps
            &&& record.settlement_delay_ledger == rule.settlement_delay_ledger
            &&& record.auto_settle == rule.auto_settle
            &&& record.platform_fee_amount == shares.platform_fee_amount
            &&& record.network_fee_amount == shares.network_fee_amount
            &&& record.merchant_amount == shares.merchant_amount
        }),
{
}

/// A single reference gives its record or nothing. With
/// [`law_batches_can_be_joined`](super::law_batches_can_be_joined) this fixes
/// what any batch gives.
pub proof fn law_batch_of_one(state: EnvState, reference: [u8; 32])
    ensures
        state.payments.contains_key(reference@) ==> state.payments_of(seq![reference]) == seq![
            state.payments[reference@].value,
        ],
        !state.payments.contains_key(reference@) ==> state.payments_of(seq![reference])
            == Seq::<PaymentRecord>::empty(),
        state.payments_of(Seq::empty()) == Seq::<PaymentRecord>::empty(),
{
    reveal(Seq::filter);
    let none: Seq<[u8; 32]> = Seq::empty();
    assert(state.payments_of(none) =~= Seq::<PaymentRecord>::empty());
    assert(seq![reference] =~= none.push(reference));
    model::lemma_payments_of_push(state, none, reference);
    assert(Seq::<PaymentRecord>::empty().push(state.payments[reference@].value) =~= seq![
        state.payments[reference@].value,
    ]);
}

/// Where all references are stored, a batch gives the record of each, in order.
pub proof fn law_batch_of_stored(state: EnvState, references: Seq<[u8; 32]>)
    requires
        forall|i: int|
            0 <= i < references.len() ==> state.payments.contains_key(
                (#[trigger] references[i])@,
            ),
    ensures
        state.payments_of(references).len() == references.len(),
        forall|i: int|
            0 <= i < references.len() ==> #[trigger] state.payments_of(references)[i]
                == state.payments[references[i]@].value,
    decreases references.len(),
{
    reveal(Seq::filter);
    if references.len() == 0 {
        assert(state.payments_of(references) =~= Seq::<PaymentRecord>::empty());
    } else {
        let rest = references.drop_last();
        assert forall|i: int| 0 <= i < rest.len() implies state.payments.contains_key(
            (#[trigger] rest[i])@,
        ) by {
            assert(rest[i] == references[i]);
        }
        law_batch_of_stored(state, rest);
        assert(references =~= rest.push(references.last()));
        assert(state.payments.contains_key(references[references.len() - 1]@));
        model::lemma_payments_of_push(state, rest, references.last());
    }
}

/// A ledger is one of which every lifetime ends at a number. A new entry lives
/// for the shortest time there is. An extension is granted to an entry that has
/// the threshold left, or less, up to the longest time there is, and never takes
/// anything away.
pub proof fn law_lifetimes(ledger: LedgerInfo, live_until: u32, threshold: u32, extend_to: u32)
    ensures
        ledger.valid() <==> ledger.sequence + ledger.min_ttl <= u32::MAX && ledger.sequence
            + ledger.max_ttl <= u32::MAX,
        ledger.valid() ==> ledger.fresh() == ledger.sequence + ledger.min_ttl,
        ledger.ttl(live_until) == live_until - ledger.sequence,
        ({
            let extended = ledger.extended(live_until, threshold, extend_to);
            let longest = if extend_to <= ledger.max_ttl {
                ledger.sequence + extend_to
            } else {
                ledger.sequence + ledger.max_ttl
            };
            let due = live_until <= ledger.sequence + threshold;
            &&& ledger.valid() && due && live_until < longest ==> extended == longest
            &&& !due || live_until >= longest ==> extended == live_until
        }),
{
}

/// Which keys have a lifetime of their own, and which it is.
pub proof fn law_lifetime_of_a_key(state: EnvState, merchant: Seq<char>, reference: [u8; 32])
    ensures
        state.live_until(DataKeyOf::Merchant(merchant)) == (if state.merchants.contains_key(
            merchant,
        ) {
            Some(state.merchants[merchant].live_until)
        } else {
            None
        }),
        state.live_until(DataKeyOf::Rule(merchant)) == (if state.rules.contains_key(merchant) {
            Some(state.rules[merchant].live_until)
        } else {
            None
        }),
        state.live_until(DataKeyOf::Payment(reference)) == (if state.payments.contains_key(
            reference@,
        ) {
            Some(state.payments[reference@].live_until)
        } else {
            None
        }),
        state.default_rule matches Some(stored) ==> state.live_until(DataKeyOf::DefaultRule)
            == Some(stored.live_until),
        state.default_rule is None ==> state.live_until(DataKeyOf::DefaultRule) is None,
        state.live_until(DataKeyOf::Admin) is None,
        state.live_until(DataKeyOf::RecoveryAddress) is None,
        state.live_until(DataKeyOf::PendingRecovery) is None,
        state.live_until(DataKeyOf::PendingAdmin) is None,
        state.live_until(DataKeyOf::Governance) is None,
        state.live_until(DataKeyOf::Paused) is None,
{
}

/// A new environment has nothing stored, nobody who signed, no answer and
/// nothing to do.
pub proof fn law_blank(ledger: LedgerInfo)
    ensures
        ({
            let blank = EnvState::blank(ledger);
            &&& blank.ledger == ledger
            &&& blank.signers == Set::<Seq<char>>::empty()
            &&& blank.fee_configs.dom() == Set::<Seq<char>>::empty()
            &&& blank.admin is None && blank.governance is None
            &&& blank.recovery_address is None && blank.pending_recovery is None
            &&& blank.pending_admin is None && blank.paused is None
            &&& blank.merchants.dom() == Set::<Seq<char>>::empty()
            &&& blank.rules.dom() == Set::<Seq<char>>::empty()
            &&& blank.default_rule is None
            &&& blank.payments.dom() == Set::<Seq<u8>>::empty()
            &&& blank.journal.len() == 0
            &&& ledger.valid() ==> blank.instance_live_until == ledger.sequence + ledger.min_ttl
        }),
{
    assert(EnvState::blank(ledger).fee_configs.dom() =~= Set::<Seq<char>>::empty());
    assert(EnvState::blank(ledger).merchants.dom() =~= Set::<Seq<char>>::empty());
    assert(EnvState::blank(ledger).rules.dom() =~= Set::<Seq<char>>::empty());
    assert(EnvState::blank(ledger).payments.dom() =~= Set::<Seq<u8>>::empty());
}

/// An entry that is taken over from the host, or written, is what is read
/// afterwards, and nothing else changes. An entry that was there keeps its
/// lifetime; a new one gets the given one.
pub proof fn law_written_entries(
    state: EnvState,
    who: Seq<char>,
    flag: bool,
    time: u64,
    rule: SettlementRule,
    reference: [u8; 32],
    record: PaymentRecord,
    last: u32,
)
    ensures
        state.written(EntryOf::Admin(who), last) == (EnvState { admin: Some(who), ..state }),
        state.written(EntryOf::RecoveryAddress(who), last) == (EnvState {
            recovery_address: Some(who),
            ..state
        }),
        ({
            let after = state.written(
                EntryOf::PendingRecovery { new_admin: who, execute_after: time },
                last,
            );
            &&& after == EnvState { pending_recovery: after.pending_recovery, ..state }
            &&& after.pending_recovery is Some
            &&& after.pending_recovery.unwrap().new_admin == who
            &&& after.pending_recovery.unwrap().execute_after == time
        }),
        state.written(EntryOf::PendingAdmin(who), last) == (EnvState {
            pending_admin: Some(who),
            ..state
        }),
        state.written(EntryOf::Governance(who), last) == (EnvState {
            governance: Some(who),
            ..state
        }),
        state.written(EntryOf::Paused(flag), last) == (EnvState { paused: Some(flag), ..state }),
        state.written(EntryOf::Merchant(who, flag), last) == (EnvState {
            merchants: state.merchants.insert(
                who,
                Stored {
                    value: flag,
                    live_until: if state.merchants.contains_key(who) {
                        state.merchants[who].live_until
                    } else {
                        last
                    },
                },
            ),
            ..state
        }),
        state.written(EntryOf::Rule(who, rule), last) == (EnvState {
            rules: state.rules.insert(
                who,
                Stored {
                    value: rule,
                    live_until: if state.rules.contains_key(who) {
                        state.rules[who].live_until
                    } else {
                        last
                    },
                },
            ),
            ..state
        }),
        state.written(EntryOf::DefaultRule(rule), last) == (EnvState {
            default_rule: Some(
                Stored {
                    value: rule,
                    live_until: if state.default_rule is Some {
                        state.default_rule.unwrap().live_until
                    } else {
                        last
                    },
                },
            ),
            ..state
        }),
        state.written(EntryOf::Payment(reference, record), last) == (EnvState {
            payments: state.payments.insert(
                reference@,
                Stored {
                    value: record,
                    live_until: if state.payments.contains_key(reference@) {
                        state.payments[reference@].live_until
                    } else {
                        last
                    },
                },
            ),
            ..state
        }),
{
}

/// An entry that is erased is gone, and nothing else changes.
pub proof fn law_erased_entries(state: EnvState, who: Seq<char>, reference: [u8; 32])
    ensures
        state.erased(DataKeyOf::Admin) == (EnvState { admin: None, ..state }),
        state.erased(DataKeyOf::RecoveryAddress) == (EnvState { recovery_address: None, ..state }),
        state.erased(DataKeyOf::PendingRecovery) == (EnvState { pending_recovery: None, ..state }),
        state.erased(DataKeyOf::PendingAdmin) == (EnvState { pending_admin: None, ..state }),
        state.erased(DataKeyOf::Governance) == (EnvState { governance: None, ..state }),
        state.erased(DataKeyOf::Paused) == (EnvState { paused: None, ..state }),
        state.erased(DataKeyOf::Merchant(who)) == (EnvState {
            merchants: state.merchants.remove(who),
            ..state
        }),
        state.erased(DataKeyOf::Rule(who)) == (EnvState {
            rules: state.rules.remove(who),
            ..state
        }),
        state.erased(DataKeyOf::DefaultRule) == (EnvState { default_rule: None, ..state }),
        state.erased(DataKeyOf::Payment(reference)) == (EnvState {
            payments: state.payments.remove(reference@),
            ..state
        }),
{
}

/// An extension moves the lifetime of the one entry it names, if that entry is
/// there, and nothing else. Keys of the instance storage have none to move.
pub proof fn law_prolonged_entries(
    state: EnvState,
    who: Seq<char>,
    reference: [u8; 32],
    threshold: u32,
    extend_to: u32,
)
    ensures
        ({
            let after = state.prolonged(DataKeyOf::Merchant(who), threshold, extend_to);
            let stored = state.merchants[who];
            if state.merchants.contains_key(who) {
                after == EnvState {
                    merchants: state.merchants.insert(
                        who,
                        Stored {
                            value: stored.value,
                            live_until: state.ledger.extended(
                                stored.live_until,
                                threshold,
                                extend_to,
                            ),
                        },
                    ),
                    ..state
                }
            } else {
                after == state
            }
        }),
        ({
            let after = state.prolonged(DataKeyOf::Rule(who), threshold, extend_to);
            let stored = state.rules[who];
            if state.rules.contains_key(who) {
                after == EnvState {
                    rules: state.rules.insert(
                        who,
                        Stored {
                            value: stored.value,
                            live_until: state.ledger.extended(
                                stored.live_until,
                                threshold,
                                extend_to,
                            ),
                        },
                    ),
                    ..state
                }
            } else {
                after == state
            }
        }),
        ({
            let after = state.prolonged(DataKeyOf::DefaultRule, threshold, extend_to);
            if state.default_rule is Some {
                let stored = state.default_rule.unwrap();
                after == EnvState {
                    default_rule: Some(
                        Stored {
                            value: stored.value,
                            live_until: state.ledger.extended(
                                stored.live_until,
                                threshold,
                                extend_to,
                            ),
                        },
                    ),
                    ..state
                }
            } else {
                after == state
            }
        }),
        ({
            let after = state.prolonged(DataKeyOf::Payment(reference), threshold, extend_to);
            let stored = state.payments[reference@];
            if state.payments.contains_key(reference@) {
                after == EnvState {
                    payments: state.payments.insert(
                        reference@,
                        Stored {
                            value: stored.value,
                            live_until: state.ledger.extended(
                                stored.live_until,
                                threshold,
                                extend_to,
                            ),
                        },
                    ),
                    ..state
                }
            } else {
                after == state
            }
        }),
        state.prolonged(DataKeyOf::Admin, threshold, extend_to) == state,
        state.prolonged(DataKeyOf::RecoveryAddress, threshold, extend_to) == state,
        state.prolonged(DataKeyOf::PendingRecovery, threshold, extend_to) == state,
        state.prolonged(DataKeyOf::PendingAdmin, threshold, extend_to) == state,
        state.prolonged(DataKeyOf::Governance, threshold, extend_to) == state,
        state.prolonged(DataKeyOf::Paused, threshold, extend_to) == state,
{
}

/// Whatever is done is noted at the end of the journal, and done: events and
/// upgrades change nothing that is stored.
pub proof fn law_performed_effects(
    state: EnvState,
    entry: EntryOf<Seq<char>>,
    key: DataKeyOf<Seq<char>>,
    event: EventOf<Seq<char>>,
    hash: [u8; 32],
    threshold: u32,
    extend_to: u32,
)
    ensures
        state.perform(EffectOf::Write(entry)) == (EnvState {
            journal: state.journal.push(EffectOf::Write(entry)),
            ..state.written(entry, state.ledger.fresh())
        }),
        state.perform(EffectOf::Erase(key)) == (EnvState {
            journal: state.journal.push(EffectOf::Erase(key)),
            ..state.erased(key)
        }),
        state.perform(EffectOf::Extend { key, threshold, extend_to }) == (EnvState {
            journal: state.journal.push(EffectOf::Extend { key, threshold, extend_to }),
            ..state.prolonged(key, threshold, extend_to)
        }),
        state.perform(EffectOf::ExtendInstance { threshold, extend_to }) == (EnvState {
            instance_live_until: state.ledger.extended(
                state.instance_live_until,
                threshold,
                extend_to,
            ),
            journal: state.journal.push(EffectOf::ExtendInstance { threshold, extend_to }),
            ..state
        }),
        state.perform(EffectOf::Publish(event)) == (EnvState {
            journal: state.journal.push(EffectOf::Publish(event)),
            ..state
        }),
        state.perform(EffectOf::Upgrade(hash)) == (EnvState {
            journal: state.journal.push(EffectOf::Upgrade(hash)),
            ..state
        }),
{
}

/// Errors have the numbers under which callers know them.
pub proof fn law_error_numbers()
    ensures
        SettlementError::AlreadyInitialized.spec_code() == 1,
        SettlementError::NotInitialized.spec_code() == 2,
        SettlementError::Unauthorized.spec_code() == 3,
        SettlementError::MerchantExists.spec_code() == 4,
        SettlementError::MerchantMissing.spec_code() == 5,
        SettlementError::InvalidFeeBps.spec_code() == 6,
        SettlementError::InvalidAmount.spec_code() == 7,
        SettlementError::DuplicatePaymentReference.spec_code() == 8,
        SettlementError::Paused.spec_code() == 9,
        SettlementError::MerchantRuleNotSet.spec_code() == 10,
        SettlementError::InvalidAddress.spec_code() == 11,
        SettlementError::InvalidPaymentReference.spec_code() == 12,
        SettlementError::InvalidSettlementDelay.spec_code() == 13,
        SettlementError::InvalidAdmin.spec_code() == 14,
        SettlementError::InvalidGovernance.spec_code() == 15,
        SettlementError::InvalidRecoveryAddress.spec_code() == 16,
        SettlementError::RecoveryNotPending.spec_code() == 17,
        SettlementError::RecoveryDelayActive.spec_code() == 18,
        SettlementError::AmountOverflow.spec_code() == 19,
{
}

/// What each event is called, what it can be found by, and what it carries, in
/// this order.
pub proof fn law_events(event: EventOf<Seq<char>>)
    ensures
        match event {
            EventOf::Initialized { admin } => {
                &&& event.name() == "initialized"@
                &&& event.topics() == seq![TopicView::Name("initialized"@)]
                &&& event.data() == seq![DatumView::Address(admin)]
            },
            EventOf::GovernanceUpdated { admin, governance } => {
                &&& event.name() == "governance_updated"@
                &&& event.topics() == seq![TopicView::Name("governance_updated"@)]
                &&& event.data() == seq![DatumView::Address(admin), DatumView::Address(governance)]
            },
            EventOf::RecoveryInitiated { recovery_address, new_admin, execute_after } => {
                &&& event.name() == "recovery_initiated"@
                &&& event.topics() == seq![TopicView::Name("recovery_initiated"@)]
                &&& event.data() == seq![
                    DatumView::Address(recovery_address),
                    DatumView::Address(new_admin),
                    DatumView::Time(execute_after),
                ]
            },
            EventOf::RecoveryCancelled { admin } => {
                &&& event.name() == "recovery_cancelled"@
                &&& event.topics() == seq![TopicView::Name("recovery_cancelled"@)]
                &&& event.data() == seq![DatumView::Address(admin)]
            },
            EventOf::RecoveryExecuted { new_admin } => {
                &&& event.name() == "recovery_executed"@
                &&& event.topics() == seq![TopicView::Name("recovery_executed"@)]
                &&& event.data() == seq![DatumView::Address(new_admin)]
            },
            EventOf::Admin { new_admin } => {
                &&& event.name() == "admin"@
                &&& event.topics() == seq![TopicView::Name("admin"@)]
                &&& event.data() == seq![DatumView::Address(new_admin)]
            },
            EventOf::ContractUpgraded { wasm_hash, admin } => {
                &&& event.name() == "contract_upgraded"@
                &&& event.topics() == seq![
                    TopicView::Name("contract_upgraded"@),
                    TopicView::Hash(wasm_hash),
                ]
                &&& event.data() == seq![DatumView::Address(admin)]
            },
            EventOf::Pause => {
                &&& event.name() == "pause"@
                &&& event.topics() == seq![TopicView::Name("pause"@)]
                &&& event.data() == seq![DatumView::Flag(true)]
            },
            EventOf::Unpause => {
                &&& event.name() == "unpause"@
                &&& event.topics() == seq![TopicView::Name("unpause"@)]
                &&& event.data() == seq![DatumView::Flag(false)]
            },
            EventOf::MerchantRegistered { merchant, admin } => {
                &&& event.name() == "merchant_registered"@
                &&& event.topics() == seq![
                    TopicView::Name("merchant_registered"@),
                    TopicView::Address(merchant),
                ]
                &&& event.data() == seq![DatumView::Address(admin)]
            },
            EventOf::MerchantUnregistered { merchant, admin } => {
                &&& event.name() == "merchant_unregistered"@
                &&& event.topics() == seq![
                    TopicView::Name("merchant_unregistered"@),
                    TopicView::Address(merchant),
                ]
                &&& event.data() == seq![DatumView::Address(admin)]
            },
            EventOf::SettlementRuleUpdated { merchant, admin, previous, current } => {
                &&& event.name() == "settlement_rule_updated"@
                &&& event.topics() == seq![
                    TopicView::Name("settlement_rule_updated"@),
                    TopicView::Address(merchant),
                ]
                &&& event.data() == seq![
                    DatumView::Address(admin),
                    DatumView::Rule(previous),
                    DatumView::Rule(current),
                ]
            },
            EventOf::SettlementRuleCleared { merchant, admin, removed, fallback } => {
                &&& event.name() == "settlement_rule_cleared"@
                &&& event.topics() == seq![
                    TopicView::Name("settlement_rule_cleared"@),
                    TopicView::Address(merchant),
                ]
                &&& event.data() == seq![
                    DatumView::Address(admin),
                    DatumView::Rule(removed),
                    DatumView::Rule(fallback),
                ]
            },
            EventOf::DefaultRuleUpdated { admin, previous, current } => {
                &&& event.name() == "default_rule_updated"@
                &&& event.topics() == seq![TopicView::Name("default_rule_updated"@)]
                &&& event.data() == seq![
                    DatumView::Address(admin),
                    DatumView::Rule(previous),
                    DatumView::Rule(current),
                ]
            },
            EventOf::BootstrapFallback { rule } => {
                &&& event.name() == "bootstrap_fallback"@
                &&& event.topics() == seq![TopicView::Name("bootstrap_fallback"@)]
                &&& event.data() == seq![DatumView::Rule(rule)]
            },
            EventOf::PaymentStored { merchant, reference, record } => {
                &&& event.name() == "payment_stored"@
                &&& event.topics() == seq![
                    TopicView::Name("payment_stored"@),
                    TopicView::Address(merchant),
                ]
                &&& event.data() == seq![
                    DatumView::Reference(reference),
                    DatumView::Record(record),
                ]
            },
        },
{
}

/// Mathematical values keep what they stand for: an event, an entry, a key, an
/// effect, a topic or a datum becomes the same with texts for addresses.
pub proof fn law_views_of_events(event: Event)
    ensures
        match event {
            EventOf::Initialized { admin } => event@ == EventOf::<Seq<char>>::Initialized {
                admin: admin@,
            },
            EventOf::GovernanceUpdated { admin, governance } =>
                event@ == EventOf::<Seq<char>>::GovernanceUpdated {
                    admin: admin@,
                    governance: governance@,
                },
            EventOf::RecoveryInitiated { recovery_address, new_admin, execute_after } =>
                event@ == EventOf::<Seq<char>>::RecoveryInitiated {
                    recovery_address: recovery_address@,
                    new_admin: new_admin@,
                    execute_after,
                },
            EventOf::RecoveryCancelled { admin } =>
                event@ == EventOf::<Seq<char>>::RecoveryCancelled {
                    admin: admin@,
                },
            EventOf::RecoveryExecuted { new_admin } =>
                event@ == EventOf::<Seq<char>>::RecoveryExecuted {
                    new_admin: new_admin@,
                },
            EventOf::Admin { new_admin } => event@ == EventOf::<Seq<char>>::Admin {
                new_admin: new_admin@,
            },
            EventOf::ContractUpgraded { wasm_hash, admin } =>
                event@ == EventOf::<Seq<char>>::ContractUpgraded {
                    wasm_hash,
                    admin: admin@,
                },
            EventOf::Pause => event@ == EventOf::<Seq<char>>::Pause,
            EventOf::Unpause => event@ == EventOf::<Seq<char>>::Unpause,
            EventOf::MerchantRegistered { merchant, admin } =>
                event@ == EventOf::<Seq<char>>::MerchantRegistered {
                    merchant: merchant@,
                    admin: admin@,
                },
            EventOf::MerchantUnregistered { merchant, admin } =>
                event@ == EventOf::<Seq<char>>::MerchantUnregistered {
                    merchant: merchant@,
                    admin: admin@,
                },
            EventOf::SettlementRuleUpdated { merchant, admin, previous, current } =>
                event@ == EventOf::<Seq<char>>::SettlementRuleUpdated {
                    merchant: merchant@,
                    admin: admin@,
                    previous,
                    current,
                },
            EventOf::SettlementRuleCleared { merchant, admin, removed, fallback } =>
                event@ == EventOf::<Seq<char>>::SettlementRuleCleared {
                    merchant: merchant@,
                    admin: admin@,
                    removed,
                    fallback,
                },
            EventOf::DefaultRuleUpdated { admin, previous, current } =>
                event@ == EventOf::<Seq<char>>::DefaultRuleUpdated {
                    admin: admin@,
                    previous,
                    current,
                },
            EventOf::BootstrapFallback { rule } =>
                event@ == EventOf::<Seq<char>>::BootstrapFallback {
                    rule,
                },
            EventOf::PaymentStored { merchant, reference, record } =>
                event@ == EventOf::<Seq<char>>::PaymentStored {
                    merchant: merchant@,
                    reference,
                    record,
                },
        },
{
}

/// The same of entries, keys and effects.
pub proof fn law_views_of_effects(entry: Entry, key: DataKey, effect: Effect)
    ensures
        match entry {
            EntryOf::Admin(who) => entry@ == EntryOf::<Seq<char>>::Admin(who@),
            EntryOf::RecoveryAddress(who) => entry@ == EntryOf::<Seq<char>>::RecoveryAddress(who@),
            EntryOf::PendingRecovery { new_admin, execute_after } => entry@ == EntryOf::<
                Seq<char>,
            >::PendingRecovery { new_admin: new_admin@, execute_after },
            EntryOf::PendingAdmin(who) => entry@ == EntryOf::<Seq<char>>::PendingAdmin(who@),
            EntryOf::Governance(who) => entry@ == EntryOf::<Seq<char>>::Governance(who@),
            EntryOf::Paused(flag) => entry@ == EntryOf::<Seq<char>>::Paused(flag),
            EntryOf::Merchant(who, flag) => entry@ == EntryOf::<Seq<char>>::Merchant(who@, flag),
            EntryOf::Rule(who, rule) => entry@ == EntryOf::<Seq<char>>::Rule(who@, rule),
            EntryOf::DefaultRule(rule) => entry@ == EntryOf::<Seq<char>>::DefaultRule(rule),
            EntryOf::Payment(reference, record) => entry@ == EntryOf::<Seq<char>>::Payment(
                reference,
                record,
            ),
        },
        match key {
            DataKeyOf::Admin => key@ == DataKeyOf::<Seq<char>>::Admin,
            DataKeyOf::RecoveryAddress => key@ == DataKeyOf::<Seq<char>>::RecoveryAddress,
            DataKeyOf::PendingRecovery => key@ == DataKeyOf::<Seq<char>>::PendingRecovery,
            DataKeyOf::PendingAdmin => key@ == DataKeyOf::<Seq<char>>::PendingAdmin,
            DataKeyOf::Governance => key@ == DataKeyOf::<Seq<char>>::Governance,
            DataKeyOf::Paused => key@ == DataKeyOf::<Seq<char>>::Paused,
            DataKeyOf::Merchant(who) => key@ == DataKeyOf::<Seq<char>>::Merchant(who@),
            DataKeyOf::Rule(who) => key@ == DataKeyOf::<Seq<char>>::Rule(who@),
            DataKeyOf::DefaultRule => key@ == DataKeyOf::<Seq<char>>::DefaultRule,
            DataKeyOf::Payment(reference) => key@ == DataKeyOf::<Seq<char>>::Payment(reference),
        },
        match effect {
            EffectOf::Write(entry) => effect@ == EffectOf::<Seq<char>>::Write(entry@),
            EffectOf::Erase(key) => effect@ == EffectOf::<Seq<char>>::Erase(key@),
            EffectOf::Extend { key, threshold, extend_to } => effect@ == EffectOf::<
                Seq<char>,
            >::Extend { key: key@, threshold, extend_to },
            EffectOf::ExtendInstance { threshold, extend_to } => effect@ == EffectOf::<
                Seq<char>,
            >::ExtendInstance { threshold, extend_to },
            EffectOf::Publish(event) => effect@ == EffectOf::<Seq<char>>::Publish(event@),
            EffectOf::Upgrade(hash) => effect@ == EffectOf::<Seq<char>>::Upgrade(hash),
        },
{
}

/// The same of addresses, recoveries, topics and data.
pub proof fn law_views_of_parts(
    address: Address,
    pending: PendingRecovery,
    topic: Topic,
    datum: Datum,
)
    ensures
        address@ == address.strkey@,
        env::text_of(Some(address)) == Some(address@),
        env::text_of(None) is None,
        pending@.new_admin == pending.new_admin@,
        pending@.execute_after == pending.execute_after,
        match topic {
            Topic::Name(name) => topic@ == TopicView::Name(name@),
            Topic::Address(who) => topic@ == TopicView::Address(who@),
            Topic::Hash(hash) => topic@ == TopicView::Hash(hash),
        },
        match datum {
            Datum::Address(who) => datum@ == DatumView::Address(who@),
            Datum::Time(time) => datum@ == DatumView::Time(time),
            Datum::Flag(flag) => datum@ == DatumView::Flag(flag),
            Datum::Rule(rule) => datum@ == DatumView::Rule(rule),
            Datum::Reference(reference) => datum@ == DatumView::Reference(reference),
            Datum::Record(record) => datum@ == DatumView::Record(record),
        },
{
}

} // verus!
