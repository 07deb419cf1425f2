//! When each call is refused, and why: every condition on the fields of the
//! environment, and no other.
use crate::address;
use crate::env::EnvState;
use crate::fees;
use crate::types::{SettlementError, SettlementRule};
use vstd::prelude::*;

verus! {

/// Consent is needed of the one who is asked for it, and of nobody else. The
/// admin is asked once there is one. A governance contract has to name somebody
/// and to have answered.
pub proof fn law_consent(state: EnvState, who: Seq<char>)
    ensures
        state.unsigned(who) is None <==> state.signers.contains(who),
        state.unsigned(who) == Some(SettlementError::Unauthorized) <==> !state.signers.contains(
            who,
        ),
        state.not_by_admin() is None <==> state.admin is Some && state.signers.contains(
            state.admin.unwrap(),
        ),
        state.not_by_admin() == Some(SettlementError::NotInitialized) <==> state.admin is None,
        state.not_by_admin() == Some(SettlementError::Unauthorized) <==> state.admin is Some
            && !state.signers.contains(state.admin.unwrap()),
        state.no_governance(who) is None <==> address::names_somebody(who)
            && state.fee_configs.contains_key(who),
        state.no_governance(who) == Some(SettlementError::InvalidGovernance) <==> !(
        address::names_somebody(who) && state.fee_configs.contains_key(who)),
{
}

/// `init` is accepted while there is no admin, with the consent of the new one,
/// for a governance contract that answered and a recovery address that names
/// somebody.
pub proof fn law_init_refusals(
    state: EnvState,
    admin: Seq<char>,
    governance: Seq<char>,
    recovery_address: Seq<char>,
)
    ensures
        ({
            let refusal = state.init_refusal(admin, governance, recovery_address);
            let first = state.admin is None;
            let signed = state.signers.contains(admin);
            let governed = address::names_somebody(governance) && state.fee_configs.contains_key(
                governance,
            );
            let recoverable = address::names_somebody(recovery_address);
            &&& refusal is None <==> first && signed && governed && recoverable
            &&& refusal == Some(SettlementError::AlreadyInitialized) <==> !first
            &&& refusal == Some(SettlementError::Unauthorized) <==> first && !signed
            &&& refusal == Some(SettlementError::InvalidGovernance) <==> first && signed
                && !governed
            &&& refusal == Some(SettlementError::InvalidRecoveryAddress) <==> first && signed
                && governed && !recoverable
        }),
{
}

/// `update_governance` is accepted from a consenting admin, without a pause, for
/// a contract that answered.
pub proof fn law_update_governance_refusals(state: EnvState, new_governance: Seq<char>)
    ensures
        ({
            let refusal = state.update_governance_refusal(new_governance);
            let signed = state.admin is Some && state.signers.contains(state.admin.unwrap());
            let paused = state.paused == Some(true);
            let governed = address::names_somebody(new_governance)
                && state.fee_configs.contains_key(new_governance);
            &&& refusal is None <==> signed && !paused && governed
            &&& refusal == Some(SettlementError::NotInitialized) <==> state.admin is None
            &&& refusal == Some(SettlementError::Unauthorized) <==> state.admin is Some && !signed
            &&& refusal == Some(SettlementError::Paused) <==> signed && paused
            &&& refusal == Some(SettlementError::InvalidGovernance) <==> signed && !paused
                && !governed
        }),
{
}

/// `initiate_recovery` is accepted from the consenting recovery address, for
/// somebody, paused or not, whether a recovery is under way or not.
pub proof fn law_initiate_recovery_refusals(state: EnvState, new_admin: Seq<char>)
    ensures
        ({
            let refusal = state.initiate_recovery_refusal(new_admin);
            let known = state.recovery_address is Some;
            let signed = known && state.signers.contains(state.recovery_address.unwrap());
            let somebody = address::names_somebody(new_admin);
            &&& refusal is None <==> signed && somebody
            &&& refusal == Some(SettlementError::NotInitialized) <==> !known
            &&& refusal == Some(SettlementError::Unauthorized) <==> known && !signed
            &&& refusal == Some(SettlementError::InvalidAdmin) <==> signed && !somebody
        }),
{
}

/// `cancel_recovery` is accepted from a consenting admin while a recovery is
/// under way. `execute_recovery` is accepted from anybody, once the time of the
/// recovery has come.
pub proof fn law_recovery_refusals(state: EnvState)
    ensures
        ({
            let refusal = state.cancel_recovery_refusal();
            let signed = state.admin is Some && state.signers.contains(state.admin.unwrap());
            let pending = state.pending_recovery is Some;
            &&& refusal is None <==> signed && pending
            &&& refusal == Some(SettlementError::NotInitialized) <==> state.admin is None
            &&& refusal == Some(SettlementError::Unauthorized) <==> state.admin is Some && !signed
            &&& refusal == Some(SettlementError::RecoveryNotPending) <==> signed && !pending
        }),
        ({
            let refusal = state.execute_recovery_refusal();
            let pending = state.pending_recovery is Some;
            let due = pending && state.pending_recovery.unwrap().execute_after
                <= state.ledger.timestamp;
            &&& refusal is None <==> due
            &&& refusal == Some(SettlementError::RecoveryNotPending) <==> !pending
            &&& refusal == Some(SettlementError::RecoveryDelayActive) <==> pending && !due
        }),
{
}

/// `transfer_admin` and `propose_admin` are accepted from a consenting admin,
/// for somebody else. Whether that one consents is not asked.
pub proof fn law_transfer_admin_refusals(state: EnvState, new_admin: Seq<char>)
    ensures
        ({
            let refusal = state.transfer_admin_refusal(new_admin);
            let signed = state.admin is Some && state.signers.contains(state.admin.unwrap());
            let somebody = address::names_somebody(new_admin);
            let another = state.admin != Some(new_admin);
            &&& refusal is None <==> signed && somebody && another
            &&& refusal == Some(SettlementError::NotInitialized) <==> state.admin is None
            &&& refusal == Some(SettlementError::Unauthorized) <==> state.admin is Some && !signed
            &&& refusal == Some(SettlementError::InvalidAddress) <==> signed && !somebody
            &&& refusal == Some(SettlementError::InvalidAdmin) <==> signed && somebody && !another
        }),
{
}

/// `accept_admin` is accepted from the one who was proposed.
/// `cancel_admin_transfer` is accepted from a consenting admin while somebody is
/// proposed.
pub proof fn law_proposal_refusals(state: EnvState)
    ensures
        ({
            let refusal = state.accept_admin_refusal();
            let proposed = state.pending_admin is Some;
            let signed = proposed && state.signers.contains(state.pending_admin.unwrap());
            &&& refusal is None <==> signed
            &&& refusal == Some(SettlementError::InvalidAdmin) <==> !proposed
            &&& refusal == Some(SettlementError::Unauthorized) <==> proposed && !signed
        }),
        ({
            let refusal = state.cancel_admin_transfer_refusal();
            let signed = state.admin is Some && state.signers.contains(state.admin.unwrap());
            let proposed = state.pending_admin is Some;
            &&& refusal is None <==> signed && proposed
            &&& refusal == Some(SettlementError::NotInitialized) <==> state.admin is None
            &&& refusal == Some(SettlementError::Unauthorized) <==> state.admin is Some && !signed
            &&& refusal == Some(SettlementError::InvalidAdmin) <==> signed && !proposed
        }),
{
}

/// `register_merchant` is accepted from a consenting admin, for somebody who has
/// no mark yet, whoever else has signed or not, paused or not.
pub proof fn law_register_merchant_refusals(state: EnvState, merchant: Seq<char>)
    ensures
        ({
            let refusal = state.register_merchant_refusal(merchant);
            let somebody = address::names_somebody(merchant);
            let signed = state.admin is Some && state.signers.contains(state.admin.unwrap());
            let marked = state.merchants.contains_key(merchant);
            &&& refusal is None <==> somebody && signed && !marked
            &&& refusal == Some(SettlementError::InvalidAddress) <==> !somebody
            &&& refusal == Some(SettlementError::NotInitialized) <==> somebody && state.admin
                is None
            &&& refusal == Some(SettlementError::Unauthorized) <==> somebody && state.admin is Some
                && !signed
            &&& refusal == Some(SettlementError::MerchantExists) <==> somebody && signed && marked
        }),
{
}

/// `unregister_merchant` is accepted from a consenting admin, without a pause,
/// for a merchant that has a mark.
pub proof fn law_unregister_merchant_refusals(state: EnvState, merchant: Seq<char>)
    ensures
        ({
            let refusal = state.unregister_merchant_refusal(merchant);
            let paused = state.paused == Some(true);
            let signed = state.admin is Some && state.signers.contains(state.admin.unwrap());
            let marked = state.merchants.contains_key(merchant);
            &&& refusal is None <==> !paused && signed && marked
            &&& refusal == Some(SettlementError::Paused) <==> paused
            &&& refusal == Some(SettlementError::NotInitialized) <==> !paused && state.admin is None
            &&& refusal == Some(SettlementError::Unauthorized) <==> !paused && state.admin is Some
                && !signed
            &&& refusal == Some(SettlementError::MerchantMissing) <==> !paused && signed && !marked
        }),
{
}

/// `set_settlement_rule` is accepted from a consenting admin, without a pause,
/// for a registered merchant and a rule within bounds. What rule was in force
/// before, and whether the merchant has signed, is not asked.
pub proof fn law_set_settlement_rule_refusals(
    state: EnvState,
    merchant: Seq<char>,
    rule: SettlementRule,
)
    ensures
        ({
            let refusal = state.set_settlement_rule_refusal(merchant, rule);
            let paused = state.paused == Some(true);
            let signed = state.admin is Some && state.signers.contains(state.admin.unwrap());
            let registered = state.merchants.contains_key(merchant)
                && state.merchants[merchant].value;
            let platform = rule.platform_fee_bps;
            let network = rule.network_fee_bps;
            let fees_good = (platform == 0 || 5 <= platform <= 10_000) && (network == 0 || 5
                <= network <= 10_000) && platform + network <= 10_000;
            let delay_good = rule.settlement_delay_ledger <= 100_000;
            let asked = !paused && signed && registered;
            &&& refusal is None <==> asked && fees_good && delay_good
            &&& refusal == Some(SettlementError::Paused) <==> paused
            &&& refusal == Some(SettlementError::NotInitialized) <==> !paused && state.admin is None
            &&& refusal == Some(SettlementError::Unauthorized) <==> !paused && state.admin is Some
                && !signed
            &&& refusal == Some(SettlementError::MerchantMissing) <==> !paused && signed
                && !registered
            &&& refusal == Some(SettlementError::InvalidFeeBps) <==> asked && !fees_good
            &&& refusal == Some(SettlementError::InvalidSettlementDelay) <==> asked && fees_good
                && !delay_good
        }),
{
}

/// `clear_settlement_rule` is accepted from a consenting admin, without a pause,
/// for a merchant with a rule of its own.
pub proof fn law_clear_settlement_rule_refusals(state: EnvState, merchant: Seq<char>)
    ensures
        ({
            let refusal = state.clear_settlement_rule_refusal(merchant);
            let paused = state.paused == Some(true);
            let signed = state.admin is Some && state.signers.contains(state.admin.unwrap());
            let ruled = state.rules.contains_key(merchant);
            &&& refusal is None <==> !paused && signed && ruled
            &&& refusal == Some(SettlementError::Paused) <==> paused
            &&& refusal == Some(SettlementError::NotInitialized) <==> !paused && state.admin is None
            &&& refusal == Some(SettlementError::Unauthorized) <==> !paused && state.admin is Some
                && !signed
            &&& refusal == Some(SettlementError::MerchantRuleNotSet) <==> !paused && signed
                && !ruled
        }),
{
}

/// `set_default_rule` is accepted from a consenting admin, without a pause, for
/// a rule within bounds.
pub proof fn law_set_default_rule_refusals(state: EnvState, rule: SettlementRule)
    ensures
        ({
            let refusal = state.set_default_rule_refusal(rule);
            let paused = state.paused == Some(true);
            let signed = state.admin is Some && state.signers.contains(state.admin.unwrap());
            let platform = rule.platform_fee_bps;
            let network = rule.network_fee_bps;
            let fees_good = (platform == 0 || 5 <= platform <= 10_000) && (network == 0 || 5
                <= network <= 10_000) && platform + network <= 10_000;
            let delay_good = rule.settlement_delay_ledger <= 100_000;
            let asked = !paused && signed;
            &&& refusal is None <==> asked && fees_good && delay_good
            &&& refusal == Some(SettlementError::Paused) <==> paused
            &&& refusal == Some(SettlementError::NotInitialized) <==> !paused && state.admin is None
            &&& refusal == Some(SettlementError::Unauthorized) <==> !paused && state.admin is Some
                && !signed
            &&& refusal == Some(SettlementError::InvalidFeeBps) <==> asked && !fees_good
            &&& refusal == Some(SettlementError::InvalidSettlementDelay) <==> asked && fees_good
                && !delay_good
        }),
{
}

/// `store_payment_reference` is accepted from a consenting, registered merchant,
/// without a pause, under a free reference that is not all zeros, for an amount
/// of at least 100 units that the rule in force can be applied to.
pub proof fn law_store_payment_refusals(
    state: EnvState,
    merchant: Seq<char>,
    reference: [u8; 32],
    amount: i128,
)
    ensures
        ({
            let refusal = state.store_payment_reference_refusal(merchant, reference, amount);
            let paused = state.paused == Some(true);
            let signed = state.signers.contains(merchant);
            let registered = state.merchants.contains_key(merchant)
                && state.merchants[merchant].value;
            let zeros = forall|i: int| 0 <= i < 32 ==> #[trigger] reference@[i] == 0;
            let taken = state.payments.contains_key(reference@);
            let rule = state.rule_in_force(merchant);
            let fits = (rule.platform_fee_bps == 0 || amount * rule.platform_fee_bps + 9_999
                <= i128::MAX) && (rule.network_fee_bps == 0 || amount * rule.network_fee_bps + 9_999
                <= i128::MAX);
            let known = !paused && signed && registered;
            &&& refusal is None <==> known && !zeros && amount >= 100 && !taken && fits
            &&& refusal == Some(SettlementError::Paused) <==> paused
            &&& refusal == Some(SettlementError::Unauthorized) <==> !paused && !signed
            &&& refusal == Some(SettlementError::MerchantMissing) <==> !paused && signed
                && !registered
            &&& refusal == Some(SettlementError::InvalidPaymentReference) <==> known && zeros
            &&& refusal == Some(SettlementError::InvalidAmount) <==> known && !zeros && amount < 100
            &&& refusal == Some(SettlementError::DuplicatePaymentReference) <==> known && !zeros
                && amount >= 100 && taken
            &&& refusal == Some(SettlementError::AmountOverflow) <==> known && !zeros && amount
                >= 100 && !taken && !fits
        }),
{
    if amount >= 0 {
        super::law_overflow_test_is_exact(amount, state.rule_in_force(merchant));
    }
    let reserved = crate::model::reserved_reference();
    if forall|i: int| 0 <= i < 32 ==> #[trigger] reference@[i] == 0 {
        assert(reference@ =~= reserved);
    } else {
        let i = choose|i: int| 0 <= i < 32 && #[trigger] reference@[i] != 0;
        assert(reference@[i] != reserved[i]);
    }
}

/// A quote is given for a registered merchant and any positive amount that the
/// rule in force can be applied to. Nobody's consent is asked, and neither the
/// pause, nor the admin, nor the time makes a difference.
pub proof fn law_calculate_fee_split_refusals(
    state: EnvState,
    merchant: Seq<char>,
    amount: i128,
    signers: Set<Seq<char>>,
    paused: Option<bool>,
)
    ensures
        ({
            let refusal = state.calculate_fee_split_refusal(merchant, amount);
            let registered = state.merchants.contains_key(merchant)
                && state.merchants[merchant].value;
            let rule = state.rule_in_force(merchant);
            let fits = (rule.platform_fee_bps == 0 || amount * rule.platform_fee_bps + 9_999
                <= i128::MAX) && (rule.network_fee_bps == 0 || amount * rule.network_fee_bps + 9_999
                <= i128::MAX);
            &&& refusal is None <==> registered && amount > 0 && fits
            &&& refusal is None <==> registered && amount > 0 && !fees::split_overflows(
                amount as int,
                rule,
            )
            &&& refusal == Some(SettlementError::MerchantMissing) <==> !registered
            &&& refusal == Some(SettlementError::InvalidAmount) <==> registered && amount <= 0
            &&& refusal == Some(SettlementError::AmountOverflow) <==> registered && amount > 0
                && !fits
            &&& (EnvState { signers, paused, ..state }).calculate_fee_split_refusal(
                merchant,
                amount,
            ) == refusal
        }),
{
    if amount > 0 {
        super::law_overflow_test_is_exact(amount, state.rule_in_force(merchant));
    }
}

} // verus!
