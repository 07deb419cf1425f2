//! What holds of the contract as a whole.
use crate::contents;
use crate::contents::Contents;
use crate::effects::{DataKeyOf, EffectOf, EntryOf, EventOf, TopicView};
use crate::env::{EnvState, LedgerInfo};
use crate::fees;
use crate::history;
use crate::history::Step;
use crate::model;
use crate::model::Call;
use crate::types;
use crate::types::{
    SettlementError, SettlementRule, BPS_DENOMINATOR, INSTANCE_TTL_BUMP, INSTANCE_TTL_THRESHOLD,
    MAX_SETTLEMENT_DELAY_LEDGER, MERCHANT_TTL_BUMP, MERCHANT_TTL_THRESHOLD, MIN_PAYMENT_AMOUNT,
    PAYMENT_TTL_BUMP, PAYMENT_TTL_THRESHOLD, RECOVERY_DELAY_SECONDS, RULE_TTL_BUMP,
    RULE_TTL_THRESHOLD,
};
use vstd::prelude::*;

pub mod outcomes;
pub mod readings;
pub mod refusals;

verus! {

/// A fee is the smallest whole amount that covers its basis points: it is never
/// collected short, and never a whole unit over.
pub proof fn law_fee_is_least_cover(amount: int, bps: int)
    ensures
        fees::fee(amount, bps) * BPS_DENOMINATOR >= amount * bps,
        (fees::fee(amount, bps) - 1) * BPS_DENOMINATOR < amount * bps,
{
}

/// Nothing is charged at a fee of zero, everything at 100 %, and any positive
/// fee on a positive amount is at least one unit.
pub proof fn law_fee_extremes(amount: int, bps: int)
    ensures
        fees::fee(amount, 0) == 0,
        fees::fee(amount, BPS_DENOMINATOR as int) == amount,
        amount > 0 && bps > 0 ==> fees::fee(amount, bps) >= 1,
{
    assert(amount * 0 == 0);
    if amount > 0 && bps > 0 {
        assert(amount * bps >= 1) by (nonlinear_arith)
            requires
                amount > 0,
                bps > 0,
        ;
    }
}

/// A larger payment or a larger rate never means a smaller fee.
pub proof fn law_fee_is_monotonic(amount: int, larger_amount: int, bps: int, larger_bps: int)
    requires
        0 <= amount <= larger_amount,
        0 <= bps <= larger_bps,
    ensures
        fees::fee(amount, bps) <= fees::fee(larger_amount, larger_bps),
{
    assert(amount * bps <= larger_amount * larger_bps) by (nonlinear_arith)
        requires
            0 <= amount <= larger_amount,
            0 <= bps <= larger_bps,
    ;
}

/// The shares of a split add up to the gross amount.
pub proof fn law_split_adds_up(amount: i128, rule: SettlementRule)
    requires
        0 <= amount,
        !fees::split_overflows(amount as int, rule),
    ensures
        ({
            let s = fees::split(amount as int, rule);
            &&& s.gross_amount == amount
            &&& s.platform_fee_amount + s.network_fee_amount + s.merchant_amount == s.gross_amount
            &&& s.platform_fee_amount == fees::fee(amount as int, rule.platform_fee_bps as int)
            &&& s.network_fee_amount == fees::fee(amount as int, rule.network_fee_bps as int)
        }),
{
    fees::lemma_split_fits(amount as int, rule);
}

/// The merchant bears the rounding of both fees and no more: it gets less than
/// two units under its exact share.
pub proof fn law_merchant_bears_the_rounding(amount: i128, rule: SettlementRule)
    requires
        0 <= amount,
        !fees::split_overflows(amount as int, rule),
    ensures
        ({
            let merchant = fees::split(amount as int, rule).merchant_amount as int;
            let share = amount * (BPS_DENOMINATOR - rule.platform_fee_bps - rule.network_fee_bps);
            share - 2 * BPS_DENOMINATOR < merchant * BPS_DENOMINATOR <= share
        }),
{
    law_split_adds_up(amount, rule);
    let p = rule.platform_fee_bps as int;
    let n = rule.network_fee_bps as int;
    let d = BPS_DENOMINATOR as int;
    law_fee_is_least_cover(amount as int, p);
    law_fee_is_least_cover(amount as int, n);
    assert(amount * (d - p - n) == amount * d - amount * p - amount * n) by (nonlinear_arith);
}

/// Under a rule the contract takes, a merchant is never charged more than one
/// unit beyond what was paid, and neither fee exceeds the payment.
pub proof fn law_valid_rule_bounds_the_split(amount: i128, rule: SettlementRule)
    requires
        0 <= amount,
        rule.fees_valid(),
        !fees::split_overflows(amount as int, rule),
    ensures
        ({
            let s = fees::split(amount as int, rule);
            &&& -1 <= s.merchant_amount <= amount
            &&& 0 <= s.platform_fee_amount <= amount
            &&& 0 <= s.network_fee_amount <= amount
        }),
{
    law_split_adds_up(amount, rule);
    law_merchant_bears_the_rounding(amount, rule);
    let p = rule.platform_fee_bps as int;
    let n = rule.network_fee_bps as int;
    let d = BPS_DENOMINATOR as int;
    let a = amount as int;
    assert(0 <= a * (d - p - n)) by (nonlinear_arith)
        requires
            0 <= a,
            p + n <= d,
    ;
    law_fee_is_monotonic(0, a, 0, p);
    law_fee_is_monotonic(0, a, 0, n);
    law_fee_is_monotonic(a, a, p, d);
    law_fee_is_monotonic(a, a, n, d);
    law_fee_extremes(a, d);
    law_fee_extremes(0, d);
}

/// The test for overflow is exact: it holds just when some fee, with its
/// rounding term, does not fit before the division.
pub proof fn law_overflow_test_is_exact(amount: i128, rule: SettlementRule)
    requires
        0 <= amount,
    ensures
        fees::split_overflows(amount as int, rule) <==> {
            ||| amount * rule.platform_fee_bps + (BPS_DENOMINATOR - 1) > i128::MAX
                && rule.platform_fee_bps > 0
            ||| amount * rule.network_fee_bps + (BPS_DENOMINATOR - 1) > i128::MAX
                && rule.network_fee_bps > 0
        },
{
    let p = rule.platform_fee_bps as int;
    let n = rule.network_fee_bps as int;
    let a = amount as int;
    assert(p <= n ==> a * p <= a * n) by (nonlinear_arith)
        requires
            0 <= a,
    ;
    assert(n <= p ==> a * n <= a * p) by (nonlinear_arith)
        requires
            0 <= a,
    ;
}

/// The bootstrap rule is a rule the contract would take.
pub proof fn law_bootstrap_rule_is_valid()
    ensures
        types::spec_bootstrap_default_rule().refusal() is None,
{
}

/// A new environment is consistent.
pub proof fn law_blank_is_consistent(ledger: LedgerInfo)
    ensures
        EnvState::blank(ledger).contents().consistent(),
{
}

/// Every call keeps consistent contents consistent.
pub proof fn law_calls_keep_consistency(state: EnvState, call: Call)
    requires
        state.contents().consistent(),
        state.accepts(call),
    ensures
        state.after(call).contents().consistent(),
{
    contents::law_contents_after(state, call);
    lemma_roles_stay_consistent(state, call);
    lemma_rules_stay_consistent(state, call);
    lemma_payments_stay_consistent(state, call);
}

proof fn lemma_roles_stay_consistent(state: EnvState, call: Call)
    requires
        state.contents().roles_consistent(),
        state.accepts(call),
    ensures
        state.contents().after(
            call,
            state.ledger.sequence,
            state.ledger.timestamp,
        ).roles_consistent(),
{
}

proof fn lemma_rules_stay_consistent(state: EnvState, call: Call)
    requires
        state.contents().rules_consistent(),
        state.accepts(call),
    ensures
        state.contents().after(
            call,
            state.ledger.sequence,
            state.ledger.timestamp,
        ).rules_consistent(),
{
}

proof fn lemma_payments_stay_consistent(state: EnvState, call: Call)
    requires
        state.contents().rules_consistent(),
        state.contents().payments_consistent(),
        state.accepts(call),
    ensures
        state.contents().after(
            call,
            state.ledger.sequence,
            state.ledger.timestamp,
        ).payments_consistent(),
{
    law_bootstrap_rule_is_valid();
    if let Call::StorePaymentReference { merchant, reference, amount } = call {
        let rule = state.contents().rule_in_force(merchant);
        assert(rule == state.rule_in_force(merchant));
        assert(rule.refusal() is None);
        let record = model::record_of(amount, rule, state.ledger.sequence);
        assert(contents::terms_of(record) == rule);
        assert(contents::record_is_sound(record));
    }
}

/// Whatever happens to a new contract, its contents stay consistent.
pub proof fn law_every_life_is_consistent(ledger: LedgerInfo, steps: Seq<Step>)
    ensures
        EnvState::blank(ledger).run(steps).contents().consistent(),
    decreases steps.len(),
{
    if steps.len() == 0 {
        law_blank_is_consistent(ledger);
    } else {
        law_every_life_is_consistent(ledger, steps.drop_last());
        let before = EnvState::blank(ledger).run(steps.drop_last());
        match steps.last() {
            Step::Make(call) => {
                if before.accepts(call) {
                    law_calls_keep_consistency(before, call);
                }
            },
            Step::Turn { .. } => {
                assert(before.step(steps.last()).contents() == before.contents());
            },
        }
    }
}

/// The shares of a stored payment add up to its amount, neither fee exceeds it,
/// and the merchant is charged at most one unit of rounding beyond it.
pub proof fn law_stored_shares_add_up(state: EnvState, reference: [u8; 32])
    requires
        state.contents().consistent(),
        state.payment(reference) is Some,
    ensures
        ({
            let record = state.payment(reference).unwrap();
            &&& record.platform_fee_amount + record.network_fee_amount + record.merchant_amount
                == record.amount
            &&& record.amount >= MIN_PAYMENT_AMOUNT
            &&& 0 <= record.platform_fee_amount <= record.amount
            &&& 0 <= record.network_fee_amount <= record.amount
            &&& -1 <= record.merchant_amount <= record.amount
        }),
{
    let record = state.payment(reference).unwrap();
    assert(state.contents().payments.contains_key(reference@));
    assert(contents::record_is_sound(record));
    law_split_adds_up(record.amount, contents::terms_of(record));
    law_valid_rule_bounds_the_split(record.amount, contents::terms_of(record));
}

/// No record is from a ledger to come: in a life whose ledgers follow one
/// another, a payment was stored in the current ledger or an earlier one.
pub proof fn law_records_are_of_the_past(
    ledger: LedgerInfo,
    steps: Seq<Step>,
    reference: [u8; 32],
)
    requires
        EnvState::blank(ledger).in_order(steps),
    ensures
        ({
            let state = EnvState::blank(ledger).run(steps);
            state.payment(reference) matches Some(record) ==> record.ledger
                <= state.ledger.sequence
        }),
    decreases steps.len(),
{
    if steps.len() > 0 {
        law_records_are_of_the_past(ledger, steps.drop_last(), reference);
        let before = EnvState::blank(ledger).run(steps.drop_last());
        if let Step::Make(call) = steps.last() {
            if before.accepts(call) {
                lemma_call_keeps_records_of_the_past(before, call, reference);
            }
        }
    }
}

proof fn lemma_call_keeps_records_of_the_past(state: EnvState, call: Call, reference: [u8; 32])
    requires
        state.accepts(call),
        state.payment(reference) matches Some(record) ==> record.ledger <= state.ledger.sequence,
    ensures
        state.after(call).ledger == state.ledger,
        state.after(call).payment(reference) matches Some(record) ==> record.ledger
            <= state.ledger.sequence,
{
    let after = state.after(call);
    history::law_journal_accounts_for_every_change(state, call);
    contents::law_contents_after(state, call);
    assert(after.payment(reference) is Some ==> after.contents().payments.contains_key(reference@)
        && after.contents().payments[reference@] == after.payment(reference).unwrap());
    assert(state.contents().payments.contains_key(reference@) ==> state.payment(reference) == Some(
        state.contents().payments[reference@],
    ));
}

/// What `get_payment_reference` gives back in any life whose ledgers follow one
/// another: a payment of at least the minimum under a reference that is not
/// reserved, with shares that add up, fees that are the least to cover their
/// basis points, a delay within bounds, and a ledger that is not to come.
pub proof fn law_payments_read_are_sound(
    ledger: LedgerInfo,
    steps: Seq<Step>,
    reference: [u8; 32],
)
    requires
        EnvState::blank(ledger).in_order(steps),
    ensures
        ({
            let state = EnvState::blank(ledger).run(steps);
            state.payment(reference) matches Some(record) ==> {
                let platform = record.amount * record.platform_fee_bps;
                let network = record.amount * record.network_fee_bps;
                &&& reference@ != model::reserved_reference()
                &&& record.amount >= MIN_PAYMENT_AMOUNT
                &&& record.platform_fee_amount + record.network_fee_amount + record.merchant_amount
                    == record.amount
                &&& record.platform_fee_amount * BPS_DENOMINATOR >= platform
                &&& (record.platform_fee_amount - 1) * BPS_DENOMINATOR < platform
                &&& record.network_fee_amount * BPS_DENOMINATOR >= network
                &&& (record.network_fee_amount - 1) * BPS_DENOMINATOR < network
                &&& record.settlement_delay_ledger <= MAX_SETTLEMENT_DELAY_LEDGER
                &&& record.ledger <= state.ledger.sequence
            }
        }),
{
    let state = EnvState::blank(ledger).run(steps);
    law_every_life_is_consistent(ledger, steps);
    law_records_are_of_the_past(ledger, steps, reference);
    if let Some(record) = state.payment(reference) {
        let terms = contents::terms_of(record);
        assert(state.contents().payments.contains_key(reference@));
        assert(contents::record_is_sound(record));
        law_split_adds_up(record.amount, terms);
        law_fee_is_least_cover(record.amount as int, terms.platform_fee_bps as int);
        law_fee_is_least_cover(record.amount as int, terms.network_fee_bps as int);
    }
}

/// A stored payment is final: no call changes or removes it.
pub proof fn law_payments_are_final(state: EnvState, call: Call, reference: [u8; 32])
    requires
        state.accepts(call),
        state.payment(reference) is Some,
    ensures
        state.after(call).payment(reference) == state.payment(reference),
{
    contents::law_contents_after(state, call);
    let after = state.after(call);
    assert(state.contents().payments.contains_key(reference@));
    assert(state.contents().payments[reference@] == state.payments[reference@].value);
    assert(after.contents().payments.contains_key(reference@));
    assert(after.contents().payments[reference@] == after.payments[reference@].value);
}

/// A stored payment is final for good: no course of events changes it.
pub proof fn law_payments_are_final_for_good(
    state: EnvState,
    steps: Seq<Step>,
    reference: [u8; 32],
)
    requires
        state.payment(reference) is Some,
    ensures
        state.run(steps).payment(reference) == state.payment(reference),
    decreases steps.len(),
{
    if steps.len() > 0 {
        law_payments_are_final_for_good(state, steps.drop_last(), reference);
        let before = state.run(steps.drop_last());
        if let Step::Make(call) = steps.last() {
            if before.accepts(call) {
                law_payments_are_final(before, call, reference);
            }
        }
    }
}

/// Whether a step stores a payment under `reference`, or tries to.
pub open spec fn stores_under(step: Step, reference: [u8; 32]) -> bool {
    step matches Step::Make(Call::StorePaymentReference { reference: other, .. }) && other
        == reference
}

/// A reference under which nothing is stored reads as `None` until something is.
pub proof fn law_payments_do_not_appear(state: EnvState, steps: Seq<Step>, reference: [u8; 32])
    requires
        state.payment(reference) is None,
        forall|i: int|
            0 <= i < steps.len() ==> !stores_under(#[trigger] steps[i], reference),
    ensures
        state.run(steps).payment(reference) is None,
    decreases steps.len(),
{
    if steps.len() > 0 {
        let rest = steps.drop_last();
        assert forall|i: int| 0 <= i < rest.len() implies !stores_under(
            #[trigger] rest[i],
            reference,
        ) by {
            assert(rest[i] == steps[i]);
        }
        law_payments_do_not_appear(state, rest, reference);
        let before = state.run(rest);
        assert(!stores_under(steps[steps.len() - 1], reference));
        if let Step::Make(call) = steps.last() {
            if before.accepts(call) {
                let after = before.after(call);
                contents::law_contents_after(before, call);
                if let Call::StorePaymentReference { reference: other, .. } = call {
                    if other@ == reference@ {
                        assert(other =~= reference);
                    }
                }
                assert(!before.contents().payments.contains_key(reference@));
                assert(!after.contents().payments.contains_key(reference@));
            }
        }
    }
}

/// A reference never stored reads as `None` in every life of a contract.
pub proof fn law_never_stored_reads_none(
    ledger: LedgerInfo,
    steps: Seq<Step>,
    reference: [u8; 32],
)
    requires
        forall|i: int|
            0 <= i < steps.len() ==> !stores_under(#[trigger] steps[i], reference),
    ensures
        EnvState::blank(ledger).run(steps).payment(reference) is None,
{
    law_payments_do_not_appear(EnvState::blank(ledger), steps, reference);
}

/// What `store_payment_reference` stored, `get_payment_reference` gives back
/// from then on, whatever happens in between; and the reference cannot be used
/// again.
pub proof fn law_stored_payment_reads_back(
    state: EnvState,
    merchant: Seq<char>,
    reference: [u8; 32],
    amount: i128,
    steps: Seq<Step>,
    other: Seq<char>,
    other_amount: i128,
)
    requires
        state.accepts(Call::StorePaymentReference { merchant, reference, amount }),
    ensures
        ({
            let later = state.after_store_payment_reference(merchant, reference, amount).run(steps);
            &&& later.payment(reference) == Some(
                model::record_of(amount, state.rule_in_force(merchant), state.ledger.sequence),
            )
            &&& later.payments_of(seq![reference]) == seq![
                model::record_of(amount, state.rule_in_force(merchant), state.ledger.sequence),
            ]
            &&& later.store_payment_reference_refusal(other, reference, other_amount) is Some
        }),
{
    let call = Call::StorePaymentReference { merchant, reference, amount };
    let stored = state.after_store_payment_reference(merchant, reference, amount);
    contents::law_contents_after(state, call);
    assert(stored.contents().payments.contains_key(reference@));
    assert(stored.contents().payments[reference@] == stored.payments[reference@].value);
    assert(state.rule_in_force(merchant) == state.contents().rule_in_force(merchant));
    law_payments_are_final_for_good(stored, steps, reference);
    let later = stored.run(steps);
    let none: Seq<[u8; 32]> = seq![];
    assert(seq![reference] =~= none.push(reference));
    model::lemma_payments_of_push(later, none, reference);
    reveal(Seq::filter);
    assert(later.payments_of(none) =~= seq![]);
}

/// A payment is stored only while the contract is not paused, for a registered
/// merchant who consents.
pub proof fn law_payments_need_the_merchant(state: EnvState, call: Call)
    requires
        state.accepts(call),
        state.after(call).contents().payments != state.contents().payments,
    ensures
        call matches Call::StorePaymentReference { merchant, reference, amount } && {
            &&& state.signers.contains(merchant)
            &&& state.registered(merchant)
            &&& !state.is_paused()
            &&& amount >= MIN_PAYMENT_AMOUNT
            &&& reference@ != model::reserved_reference()
            &&& state.payment(reference) is None
        },
{
    contents::law_contents_after(state, call);
}

/// The admin changes in four ways only: the first one is installed with its own
/// consent, the admin hands the role over, the one it proposed accepts, or a
/// recovery whose delay is over is executed.
pub proof fn law_admin_changes_hands(state: EnvState, call: Call)
    requires
        state.accepts(call),
        state.after(call).admin != state.admin,
    ensures
        match call {
            Call::Init { admin, .. } => {
                &&& state.admin is None
                &&& state.signers.contains(admin)
                &&& state.after(call).admin == Some(admin)
            },
            Call::TransferAdmin { new_admin } => {
                &&& state.admin matches Some(admin) && state.signers.contains(admin)
                &&& state.after(call).admin == Some(new_admin)
            },
            Call::AcceptAdmin => {
                &&& state.pending_admin matches Some(new_admin) && state.signers.contains(new_admin)
                &&& state.after(call).admin == state.pending_admin
            },
            Call::ExecuteRecovery => state.pending_recovery matches Some(pending) && {
                &&& pending.execute_after <= state.ledger.timestamp
                &&& state.after(call).admin == Some(pending.new_admin)
            },
            _ => false,
        },
{
    contents::law_contents_after(state, call);
}

/// Once there is an admin, merchants, rules, the pause and the governance
/// contract change only with its consent.
pub proof fn law_configuration_needs_the_admin(state: EnvState, call: Call)
    requires
        state.accepts(call),
        !(call is Init),
    ensures
        ({
            let before = state.contents();
            let after = state.after(call).contents();
            ||| after.governance != before.governance
            ||| after.paused != before.paused
            ||| after.merchants != before.merchants
            ||| after.rules != before.rules
            ||| after.default_rule != before.default_rule
        }) ==> (state.admin matches Some(admin) && state.signers.contains(admin)),
{
    contents::law_contents_after(state, call);
}

/// A recovery is started only by the recovery address, and that address never
/// changes once there is an admin.
pub proof fn law_recovery_address_is_fixed(state: EnvState, call: Call)
    requires
        state.accepts(call),
        state.admin is Some,
    ensures
        state.after(call).recovery_address == state.recovery_address,
        call is InitiateRecovery ==> (state.recovery_address matches Some(address)
            && state.signers.contains(address)),
{
    contents::law_contents_after(state, call);
}

/// An initialised contract stays initialised, and `init` is refused after any call.
pub proof fn law_initialised_once(state: EnvState, call: Call)
    requires
        state.accepts(call),
        state.admin is Some,
    ensures
        state.after(call).admin is Some,
        forall|admin: Seq<char>, governance: Seq<char>, recovery_address: Seq<char>|
            #[trigger] state.after(call).init_refusal(admin, governance, recovery_address) == Some(
                SettlementError::AlreadyInitialized,
            ),
{
    contents::law_contents_after(state, call);
}

/// The contract is initialised once and for all: whatever happens afterwards,
/// there is an admin, the recovery address is the one given then, and `init` is
/// refused.
pub proof fn law_initialised_for_good(
    state: EnvState,
    steps: Seq<Step>,
    admin: Seq<char>,
    governance: Seq<char>,
    recovery_address: Seq<char>,
)
    requires
        state.admin is Some,
    ensures
        ({
            let later = state.run(steps);
            &&& later.admin is Some
            &&& later.recovery_address == state.recovery_address
            &&& later.init_refusal(admin, governance, recovery_address) == Some(
                SettlementError::AlreadyInitialized,
            )
        }),
    decreases steps.len(),
{
    if steps.len() > 0 {
        law_initialised_for_good(state, steps.drop_last(), admin, governance, recovery_address);
        let before = state.run(steps.drop_last());
        if let Step::Make(call) = steps.last() {
            if before.accepts(call) {
                law_initialised_once(before, call);
                law_recovery_address_is_fixed(before, call);
            }
        }
    }
}

/// While the contract is paused, the governance contract, the rules and the
/// payments cannot be touched and no merchant can be removed.
pub proof fn law_pause_blocks(state: EnvState, call: Call)
    requires
        state.is_paused(),
        ({
            ||| call is UpdateGovernance
            ||| call is UnregisterMerchant
            ||| call is SetSettlementRule
            ||| call is ClearSettlementRule
            ||| call is SetDefaultRule
            ||| call is StorePaymentReference
        }),
    ensures
        state.refusal(call) is Some,
        !(call is UpdateGovernance) ==> state.refusal(call) == Some(SettlementError::Paused),
        state.not_by_admin() is None ==> state.refusal(call) == Some(SettlementError::Paused),
{
}

/// A pause blocks nothing else: any other call is refused or not as if there
/// were none.
pub proof fn law_pause_blocks_nothing_else(state: EnvState, call: Call, paused: Option<bool>)
    requires
        !(call is UpdateGovernance),
        !(call is UnregisterMerchant),
        !(call is SetSettlementRule),
        !(call is ClearSettlementRule),
        !(call is SetDefaultRule),
        !(call is StorePaymentReference),
    ensures
        (EnvState { paused, ..state }).refusal(call) == state.refusal(call),
{
}

/// `pause` pauses and `unpause` ends the pause, and neither changes anything
/// else that is stored.
pub proof fn law_pause_and_unpause(state: EnvState)
    ensures
        state.after_pause().is_paused(),
        !state.after_unpause().is_paused(),
        state.after_pause().contents() == (Contents { paused: Some(true), ..state.contents() }),
        state.after_unpause().contents() == (Contents { paused: Some(false), ..state.contents() }),
{
    assert(state.after_pause().contents() =~= (Contents {
        paused: Some(true),
        ..state.contents()
    }));
    assert(state.after_unpause().contents() =~= (Contents {
        paused: Some(false),
        ..state.contents()
    }));
}

/// A recovery can be executed once its delay is over and not before, and then
/// makes the one it named admin.
pub proof fn law_recovery_waits_out_its_delay(
    state: EnvState,
    new_admin: Seq<char>,
    later: EnvState,
)
    requires
        state.accepts(Call::InitiateRecovery { new_admin }),
        later.pending_recovery == state.after_initiate_recovery(new_admin).pending_recovery,
    ensures
        later.ledger.timestamp < state.ledger.timestamp + RECOVERY_DELAY_SECONDS
            ==> later.execute_recovery_refusal() == Some(SettlementError::RecoveryDelayActive),
        later.ledger.timestamp >= state.ledger.timestamp + RECOVERY_DELAY_SECONDS ==> {
            &&& later.execute_recovery_refusal() is None
            &&& later.after_execute_recovery().admin == Some(new_admin)
            &&& later.after_execute_recovery().pending_recovery is None
        },
{
}

/// A recovery that was cancelled or executed is over: it cannot be executed
/// (again).
pub proof fn law_recovery_ends(state: EnvState, later: EnvState)
    requires
        later.pending_recovery == state.after_cancel_recovery().pending_recovery
            || later.pending_recovery == state.after_execute_recovery().pending_recovery,
    ensures
        later.execute_recovery_refusal() == Some(SettlementError::RecoveryNotPending),
{
}

/// Whether a step starts a recovery, or tries to.
pub open spec fn starts_recovery(step: Step) -> bool {
    step matches Step::Make(call) && call is InitiateRecovery
}

/// Where no recovery is under way, none is until one is started.
pub proof fn law_recoveries_do_not_start_themselves(state: EnvState, steps: Seq<Step>)
    requires
        state.pending_recovery is None,
        forall|i: int| 0 <= i < steps.len() ==> !starts_recovery(#[trigger] steps[i]),
    ensures
        state.run(steps).pending_recovery is None,
        state.run(steps).execute_recovery_refusal() == Some(SettlementError::RecoveryNotPending),
    decreases steps.len(),
{
    if steps.len() > 0 {
        let rest = steps.drop_last();
        assert forall|i: int| 0 <= i < rest.len() implies !starts_recovery(#[trigger] rest[i]) by {
            assert(rest[i] == steps[i]);
        }
        law_recoveries_do_not_start_themselves(state, rest);
        let before = state.run(rest);
        assert(!starts_recovery(steps[steps.len() - 1]));
        if let Step::Make(call) = steps.last() {
            if before.accepts(call) {
                contents::law_contents_after(before, call);
                assert(before.after(call).contents().pending_recovery is None);
            }
        }
    }
}

/// A recovery that was cancelled or executed is over for good: whatever happens
/// afterwards, there is none to execute until a new one is started.
pub proof fn law_recovery_stays_over(state: EnvState, steps: Seq<Step>)
    requires
        forall|i: int| 0 <= i < steps.len() ==> !starts_recovery(#[trigger] steps[i]),
    ensures
        ({
            let cancelled = state.after_cancel_recovery().run(steps);
            let executed = state.after_execute_recovery().run(steps);
            &&& cancelled.pending_recovery is None
            &&& cancelled.execute_recovery_refusal() == Some(SettlementError::RecoveryNotPending)
            &&& executed.pending_recovery is None
            &&& executed.execute_recovery_refusal() == Some(SettlementError::RecoveryNotPending)
        }),
{
    law_recoveries_do_not_start_themselves(state.after_cancel_recovery(), steps);
    law_recoveries_do_not_start_themselves(state.after_execute_recovery(), steps);
}

/// A transfer, and the acceptance of a proposal, leave no proposal behind.
pub proof fn law_transfer_ends_the_proposal(state: EnvState, new_admin: Seq<char>)
    ensures
        state.after_transfer_admin(new_admin).pending_admin is None,
        state.after_transfer_admin(new_admin).admin == Some(new_admin),
        state.after_propose_admin(new_admin).pending_admin == Some(new_admin),
        state.after_propose_admin(new_admin).admin == state.admin,
        state.after_propose_admin(new_admin).after_accept_admin().admin == Some(new_admin),
        state.after_accept_admin().pending_admin is None,
        state.after_cancel_admin_transfer().pending_admin is None,
        state.after_cancel_admin_transfer().admin == state.admin,
{
}

/// A rule that was set is the rule in force for that merchant, and for no other.
pub proof fn law_set_rule_takes_effect(
    state: EnvState,
    merchant: Seq<char>,
    rule: SettlementRule,
    other: Seq<char>,
)
    ensures
        ({
            let after = state.after_set_settlement_rule(merchant, rule);
            &&& after.rule(merchant) == Some(rule)
            &&& after.rule_in_force(merchant) == rule
            &&& other != merchant ==> after.rule(other) == state.rule(other)
            &&& other != merchant ==> after.rule_in_force(other) == state.rule_in_force(other)
        }),
{
}

/// A merchant whose rule was cleared falls back on the default, and no other
/// merchant is concerned.
pub proof fn law_cleared_rule_falls_back(state: EnvState, merchant: Seq<char>, other: Seq<char>)
    ensures
        ({
            let after = state.after_clear_settlement_rule(merchant);
            &&& after.rule(merchant) is None
            &&& after.rule_in_force(merchant) == state.default_or_bootstrap()
            &&& other != merchant ==> after.rule(other) == state.rule(other)
            &&& other != merchant ==> after.rule_in_force(other) == state.rule_in_force(other)
        }),
{
}

/// Clearing a rule undoes setting it, for a merchant that had none.
pub proof fn law_clearing_undoes_setting(state: EnvState, merchant: Seq<char>, rule: SettlementRule)
    requires
        state.accepts(Call::SetSettlementRule { merchant, rule }),
        state.rule(merchant) is None,
    ensures
        ({
            let set = state.after_set_settlement_rule(merchant, rule);
            &&& set.clear_settlement_rule_refusal(merchant) is None
            &&& set.after_clear_settlement_rule(merchant).contents() == state.contents()
        }),
{
    let set = state.after_set_settlement_rule(merchant, rule);
    contents::law_contents_after(state, Call::SetSettlementRule { merchant, rule });
    contents::law_contents_after(set, Call::ClearSettlementRule { merchant });
    assert(set.after_clear_settlement_rule(merchant).contents().rules =~= state.contents().rules);
}

/// A default that was set is in force for every merchant without a rule of its
/// own, and for no other.
pub proof fn law_default_rule_takes_effect(
    state: EnvState,
    new_rule: SettlementRule,
    merchant: Seq<char>,
)
    ensures
        ({
            let after = state.after_set_default_rule(new_rule);
            &&& after.default() == Some(new_rule)
            &&& after.rule(merchant) == state.rule(merchant)
            &&& after.rule_in_force(merchant) == match state.rule(merchant) {
                Some(rule) => rule,
                None => new_rule,
            }
        }),
{
}

/// A registered merchant is registered, and cannot be registered again.
pub proof fn law_registered_once(state: EnvState, merchant: Seq<char>)
    requires
        state.accepts(Call::RegisterMerchant { merchant }),
    ensures
        state.after_register_merchant(merchant).registered(merchant),
        state.after_register_merchant(merchant).register_merchant_refusal(merchant) == Some(
            SettlementError::MerchantExists,
        ),
{
}

/// A merchant that was taken out of the register has neither mark nor rule. It
/// gets no rule and no payment, has no rule to clear, and cannot be taken out
/// again.
pub proof fn law_unregistered_merchant_is_gone(
    state: EnvState,
    merchant: Seq<char>,
    rule: SettlementRule,
    reference: [u8; 32],
    amount: i128,
)
    requires
        state.accepts(Call::UnregisterMerchant { merchant }),
    ensures
        ({
            let after = state.after_unregister_merchant(merchant);
            &&& !after.registered(merchant)
            &&& after.rule(merchant) is None
            &&& after.rule_in_force(merchant) == state.default_or_bootstrap()
            &&& after.unregister_merchant_refusal(merchant) == Some(
                SettlementError::MerchantMissing,
            )
            &&& after.set_settlement_rule_refusal(merchant, rule) == Some(
                SettlementError::MerchantMissing,
            )
            &&& after.clear_settlement_rule_refusal(merchant) == Some(
                SettlementError::MerchantRuleNotSet,
            )
            &&& after.store_payment_reference_refusal(merchant, reference, amount) is Some
            &&& after.calculate_fee_split_refusal(merchant, amount) == Some(
                SettlementError::MerchantMissing,
            )
        }),
{
}

/// Taking a merchant out of the register undoes registering it.
pub proof fn law_unregistering_undoes_registering(state: EnvState, merchant: Seq<char>)
    requires
        state.accepts(Call::RegisterMerchant { merchant }),
        !state.is_paused(),
        state.rule(merchant) is None,
    ensures
        ({
            let registered = state.after_register_merchant(merchant);
            &&& registered.unregister_merchant_refusal(merchant) is None
            &&& registered.after_unregister_merchant(merchant).contents() == state.contents()
        }),
{
    let registered = state.after_register_merchant(merchant);
    contents::law_contents_after(state, Call::RegisterMerchant { merchant });
    contents::law_contents_after(registered, Call::UnregisterMerchant { merchant });
    let after = registered.after_unregister_merchant(merchant).contents();
    assert(after.merchants =~= state.contents().merchants);
    assert(after.rules =~= state.contents().rules);
}

/// The split a merchant is quoted is the split a payment is stored with, and a
/// payment that can be stored can be quoted.
pub proof fn law_quote_is_kept(
    state: EnvState,
    merchant: Seq<char>,
    reference: [u8; 32],
    amount: i128,
)
    requires
        state.accepts(Call::StorePaymentReference { merchant, reference, amount }),
    ensures
        state.calculate_fee_split_refusal(merchant, amount) is None,
        ({
            let quote = fees::split(amount as int, state.rule_in_force(merchant));
            let after = state.after_store_payment_reference(merchant, reference, amount);
            after.payment(reference) matches Some(record) && {
                &&& record.amount == quote.gross_amount
                &&& record.platform_fee_amount == quote.platform_fee_amount
                &&& record.network_fee_amount == quote.network_fee_amount
                &&& record.merchant_amount == quote.merchant_amount
            }
        }),
{
    fees::lemma_split_fits(amount as int, state.rule_in_force(merchant));
}

/// Reading payments in two batches gives what reading them in one gives.
pub proof fn law_batches_can_be_joined(
    state: EnvState,
    first: Seq<[u8; 32]>,
    second: Seq<[u8; 32]>,
)
    ensures
        state.payments_of(first + second) == state.payments_of(first) + state.payments_of(second),
        state.payments_of(first).len() <= first.len(),
    decreases first.len() + second.len(),
{
    if second.len() > 0 {
        let rest = second.drop_last();
        law_batches_can_be_joined(state, first, rest);
        assert(first + second =~= (first + rest).push(second.last()));
        assert(second =~= rest.push(second.last()));
        model::lemma_payments_of_push(state, first + rest, second.last());
        model::lemma_payments_of_push(state, rest, second.last());
        assert(state.payments_of(first + second) =~= state.payments_of(first)
            + state.payments_of(second));
    } else {
        reveal(Seq::filter);
        assert(first + second =~= first);
        assert(state.payments_of(second) =~= Seq::empty());
        if first.len() > 0 {
            law_batches_can_be_joined(state, first.drop_last(), second);
            assert(first =~= first.drop_last().push(first.last()));
            model::lemma_payments_of_push(state, first.drop_last(), first.last());
        }
    }
}

/// The calls that only read.
pub open spec fn only_reads(call: Call) -> bool {
    ||| call is GetAdmin
    ||| call is GetGovernance
    ||| call is GetRecoveryAddress
    ||| call is GetPendingAdmin
    ||| call is IsPaused
    ||| call is GetDefaultRule
    ||| call is GetSettlementRule
    ||| call is IsMerchantRegistered
    ||| call is CalculateFeeSplit
    ||| call is GetPaymentReference
    ||| call is GetPayments
}

/// A call that only reads changes nothing that is stored. It may extend
/// lifetimes, and tell that a rule came from neither entry.
pub proof fn law_reading_changes_nothing_stored(state: EnvState, call: Call)
    requires
        state.accepts(call),
        only_reads(call),
    ensures
        state.after(call).contents() == state.contents(),
{
    contents::law_contents_after(state, call);
}

/// An extension never takes ledgers away, does nothing to an entry with more
/// than the threshold left, and otherwise leaves what was asked for or the
/// longest lifetime there is.
pub proof fn law_extension(ledger: LedgerInfo, live_until: u32, threshold: u32, extend_to: u32)
    requires
        ledger.valid(),
    ensures
        ({
            let extended = ledger.extended(live_until, threshold, extend_to);
            &&& extended >= live_until
            &&& ledger.ttl(live_until) > threshold ==> extended == live_until
            &&& ledger.ttl(live_until) <= threshold ==> ledger.ttl(extended) >= extend_to
                || ledger.ttl(extended) >= ledger.max_ttl
            &&& ledger.ttl(extended) <= ledger.max_ttl || extended == live_until
        }),
{
}

/// Whether a lifetime is as good as an extension by `threshold` and `extend_to`
/// makes it.
pub open spec fn kept_alive(
    ledger: LedgerInfo,
    live_until: Option<u32>,
    threshold: u32,
    extend_to: u32,
) -> bool {
    live_until matches Some(last) && {
        ||| ledger.ttl(last) > threshold
        ||| ledger.ttl(last) >= extend_to
        ||| ledger.ttl(last) >= ledger.max_ttl
    }
}

/// Storing a payment keeps alive all it rests on: the payment, the mark of the
/// merchant, and the rule the split was made by.
pub proof fn law_payments_keep_entries_alive(
    state: EnvState,
    merchant: Seq<char>,
    reference: [u8; 32],
    amount: i128,
)
    requires
        state.ledger.valid(),
        state.accepts(Call::StorePaymentReference { merchant, reference, amount }),
    ensures
        ({
            let after = state.after_store_payment_reference(merchant, reference, amount);
            let ledger = state.ledger;
            let payment = after.live_until(DataKeyOf::Payment(reference));
            let mark = after.live_until(DataKeyOf::Merchant(merchant));
            let rule = after.live_until(DataKeyOf::Rule(merchant));
            let default_rule = after.live_until(DataKeyOf::DefaultRule);
            &&& kept_alive(ledger, payment, PAYMENT_TTL_THRESHOLD, PAYMENT_TTL_BUMP)
            &&& kept_alive(ledger, mark, MERCHANT_TTL_THRESHOLD, MERCHANT_TTL_BUMP)
            &&& state.rule(merchant) is Some ==> kept_alive(
                ledger,
                rule,
                RULE_TTL_THRESHOLD,
                RULE_TTL_BUMP,
            )
            &&& state.rule(merchant) is None && state.default() is Some ==> kept_alive(
                ledger,
                default_rule,
                RULE_TTL_THRESHOLD,
                RULE_TTL_BUMP,
            )
        }),
{
}

/// A rule or a merchant that was just set, or read, is kept alive.
pub proof fn law_use_keeps_rules_alive(state: EnvState, merchant: Seq<char>, rule: SettlementRule)
    requires
        state.ledger.valid(),
    ensures
        ({
            let ledger = state.ledger;
            let mark = DataKeyOf::Merchant(merchant);
            let own = DataKeyOf::Rule(merchant);
            let default_rule = DataKeyOf::DefaultRule;
            &&& kept_alive(
                ledger,
                state.after_register_merchant(merchant).live_until(mark),
                MERCHANT_TTL_THRESHOLD,
                MERCHANT_TTL_BUMP,
            )
            &&& kept_alive(
                ledger,
                state.after_set_settlement_rule(merchant, rule).live_until(own),
                RULE_TTL_THRESHOLD,
                RULE_TTL_BUMP,
            )
            &&& kept_alive(
                ledger,
                state.after_set_default_rule(rule).live_until(default_rule),
                RULE_TTL_THRESHOLD,
                RULE_TTL_BUMP,
            )
            &&& state.merchants.contains_key(merchant) ==> kept_alive(
                ledger,
                state.after_is_merchant_registered(merchant).live_until(mark),
                MERCHANT_TTL_THRESHOLD,
                MERCHANT_TTL_BUMP,
            )
            &&& state.rule(merchant) is Some ==> kept_alive(
                ledger,
                state.after_get_settlement_rule(merchant).live_until(own),
                RULE_TTL_THRESHOLD,
                RULE_TTL_BUMP,
            )
            &&& state.default() is Some ==> kept_alive(
                ledger,
                state.after_get_default_rule().live_until(default_rule),
                RULE_TTL_THRESHOLD,
                RULE_TTL_BUMP,
            )
        }),
{
}

/// A payment that is read has at least the threshold left afterwards, or what
/// an extension gives; one that is not running out is not touched.
pub proof fn law_reading_keeps_payments_alive(state: EnvState, reference: [u8; 32])
    requires
        state.ledger.valid(),
        state.payment(reference) is Some,
    ensures
        ({
            let after = state.after_get_payment_reference(reference);
            let last = after.live_until(DataKeyOf::Payment(reference)).unwrap();
            &&& state.ledger.ttl(last) >= PAYMENT_TTL_THRESHOLD || state.ledger.ttl(last)
                >= state.ledger.max_ttl
            &&& !state.payment_runs_out(reference) ==> after == state
        }),
{
}

/// The calls that keep the instance storage alive: those of the admin, the
/// start of a recovery, and the reading of the three roles.
pub open spec fn touches_instance(call: Call) -> bool {
    ||| call is GetAdmin
    ||| call is GetGovernance
    ||| call is GetRecoveryAddress
    ||| call is UpdateGovernance
    ||| call is InitiateRecovery
    ||| call is CancelRecovery
    ||| call is TransferAdmin
    ||| call is ProposeAdmin
    ||| call is CancelAdminTransfer
    ||| call is Upgrade
    ||| call is Pause
    ||| call is Unpause
    ||| call is RegisterMerchant
    ||| call is UnregisterMerchant
    ||| call is SetSettlementRule
    ||| call is ClearSettlementRule
    ||| call is SetDefaultRule
}

/// Those calls do, and no call shortens its life.
pub proof fn law_instance_is_kept_alive(state: EnvState, call: Call)
    requires
        state.ledger.valid(),
    ensures
        state.after(call).instance_live_until >= state.instance_live_until,
        touches_instance(call) ==> kept_alive(
            state.ledger,
            Some(state.after(call).instance_live_until),
            INSTANCE_TTL_THRESHOLD,
            INSTANCE_TTL_BUMP,
        ),
        !touches_instance(call) ==> state.after(call).instance_live_until
            == state.instance_live_until,
{
    if let Call::GetPayments { references } = call {
        lemma_reading_leaves_the_instance(state, references);
    }
}

proof fn lemma_reading_leaves_the_instance(state: EnvState, references: Seq<[u8; 32]>)
    ensures
        state.after_get_payments(references).instance_live_until == state.instance_live_until,
    decreases references.len(),
{
    if references.len() > 0 {
        lemma_reading_leaves_the_instance(state, references.drop_last());
    }
}

/// Errors are told apart by their numbers, which run from 1 to 19.
pub proof fn law_error_codes(one: SettlementError, other: SettlementError)
    ensures
        1 <= one.spec_code() <= 19,
        one.spec_code() == other.spec_code() ==> one == other,
{
}

/// An upgrade replaces the code and nothing else: every entry survives with its
/// value and its lifetime.
pub proof fn law_upgrade_replaces_code_only(state: EnvState, new_wasm_hash: [u8; 32])
    ensures
        ({
            let after = state.after_upgrade(new_wasm_hash);
            &&& after.contents() == state.contents()
            &&& after.merchants == state.merchants
            &&& after.rules == state.rules
            &&& after.default_rule == state.default_rule
            &&& after.payments == state.payments
            &&& after.journal.last() == EffectOf::<Seq<char>>::Upgrade(new_wasm_hash)
        }),
{
}

/// Looking a rule up touches the entry it comes from and no other; where it
/// comes from neither, no entry is touched.
pub proof fn law_look_up_touches_one_entry(
    state: EnvState,
    merchant: Seq<char>,
    key: DataKeyOf<Seq<char>>,
)
    ensures
        ({
            let after = state.look_up_rule(merchant);
            let source = if state.rule(merchant) is Some {
                Some(DataKeyOf::Rule(merchant))
            } else if state.default() is Some {
                Some(DataKeyOf::DefaultRule)
            } else {
                None
            };
            &&& source != Some(key) ==> after.live_until(key) == state.live_until(key)
            &&& after.instance_live_until == state.instance_live_until
            &&& after.contents() == state.contents()
        }),
{
    contents::lemma_look_up_keeps_contents(state, merchant);
}

/// Writing an entry that is there leaves its lifetime as it was; only an
/// extension moves it.
pub proof fn law_writing_does_not_extend(
    state: EnvState,
    entry: EntryOf<Seq<char>>,
    key: DataKeyOf<Seq<char>>,
)
    requires
        state.live_until(key) is Some,
    ensures
        state.write(entry).live_until(key) == state.live_until(key),
{
}

/// What the names of events are made of, and what tells each from the others:
/// its length, and a character or two where others are as long.
proof fn lemma_event_name(event: EventOf<Seq<char>>)
    ensures
        1 <= event.name().len() <= 32,
        forall|i: int|
            0 <= i < event.name().len() ==> ('a' <= #[trigger] event.name()[i] <= 'z'
                || event.name()[i] == '_'),
        ({
            let name = event.name();
            match event {
                EventOf::Initialized { .. } => name.len() == 11,
                EventOf::GovernanceUpdated { .. } => name.len() == 18 && name[0] == 'g',
                EventOf::RecoveryInitiated { .. } => name.len() == 18 && name[0] == 'r'
                    && name[9] == 'i',
                EventOf::RecoveryCancelled { .. } => name.len() == 18 && name[0] == 'r'
                    && name[9] == 'c',
                EventOf::RecoveryExecuted { .. } => name.len() == 17 && name[0] == 'r',
                EventOf::Admin { .. } => name.len() == 5 && name[0] == 'a',
                EventOf::ContractUpgraded { .. } => name.len() == 17 && name[0] == 'c',
                EventOf::Pause => name.len() == 5 && name[0] == 'p',
                EventOf::Unpause => name.len() == 7,
                EventOf::MerchantRegistered { .. } => name.len() == 19,
                EventOf::MerchantUnregistered { .. } => name.len() == 21,
                EventOf::SettlementRuleUpdated { .. } => name.len() == 23 && name[16] == 'u',
                EventOf::SettlementRuleCleared { .. } => name.len() == 23 && name[16] == 'c',
                EventOf::DefaultRuleUpdated { .. } => name.len() == 20,
                EventOf::BootstrapFallback { .. } => name.len() == 18 && name[0] == 'b',
                EventOf::PaymentStored { .. } => name.len() == 14,
            }
        }),
{
    reveal_strlit("initialized");
    reveal_strlit("governance_updated");
    reveal_strlit("recovery_initiated");
    reveal_strlit("recovery_cancelled");
    reveal_strlit("recovery_executed");
    reveal_strlit("admin");
    reveal_strlit("contract_upgraded");
    reveal_strlit("pause");
    reveal_strlit("unpause");
    reveal_strlit("merchant_registered");
    reveal_strlit("merchant_unregistered");
    reveal_strlit("settlement_rule_updated");
    reveal_strlit("settlement_rule_cleared");
    reveal_strlit("default_rule_updated");
    reveal_strlit("bootstrap_fallback");
    reveal_strlit("payment_stored");
}

/// The name of an event has no more than 32 characters, all of them lower-case
/// letters or underscores, so that the host takes it for a symbol. It is the
/// first topic.
pub proof fn law_event_names_are_symbols(event: EventOf<Seq<char>>)
    ensures
        1 <= event.name().len() <= 32,
        forall|i: int|
            0 <= i < event.name().len() ==> ('a' <= #[trigger] event.name()[i] <= 'z'
                || event.name()[i] == '_'),
        event.topics()[0] == TopicView::Name(event.name()),
{
    lemma_event_name(event);
}

/// Events are told apart by their names.
pub proof fn law_event_names_are_distinct(event: EventOf<Seq<char>>, other: EventOf<Seq<char>>)
    requires
        event.name() == other.name(),
    ensures
        event is Initialized <==> other is Initialized,
        event is GovernanceUpdated <==> other is GovernanceUpdated,
        event is RecoveryInitiated <==> other is RecoveryInitiated,
        event is RecoveryCancelled <==> other is RecoveryCancelled,
        event is RecoveryExecuted <==> other is RecoveryExecuted,
        event is Admin <==> other is Admin,
        event is ContractUpgraded <==> other is ContractUpgraded,
        event is Pause <==> other is Pause,
        event is Unpause <==> other is Unpause,
        event is MerchantRegistered <==> other is MerchantRegistered,
        event is MerchantUnregistered <==> other is MerchantUnregistered,
        event is SettlementRuleUpdated <==> other is SettlementRuleUpdated,
        event is SettlementRuleCleared <==> other is SettlementRuleCleared,
        event is DefaultRuleUpdated <==> other is DefaultRuleUpdated,
        event is BootstrapFallback <==> other is BootstrapFallback,
        event is PaymentStored <==> other is PaymentStored,
{
    lemma_event_name(event);
    lemma_event_name(other);
}

} // verus!
