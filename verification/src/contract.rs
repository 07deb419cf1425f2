//! The calls of the contract.
use crate::address::Address;
use crate::effects::{DataKeyOf, EffectOf, EntryOf, EventOf};
use crate::env;
use crate::env::Env;
use crate::fees;
use crate::model;
use crate::types::{
    bootstrap_default_rule, FeeSplit, PaymentRecord, PendingRecovery, SettlementError,
    SettlementRule, INSTANCE_TTL_BUMP, INSTANCE_TTL_THRESHOLD, MERCHANT_TTL_BUMP,
    MERCHANT_TTL_THRESHOLD, MIN_PAYMENT_AMOUNT, PAYMENT_TTL_BUMP, PAYMENT_TTL_THRESHOLD,
    RECOVERY_DELAY_SECONDS, RULE_TTL_BUMP, RULE_TTL_THRESHOLD,
};
use vstd::prelude::*;

verus! {

fn touch_instance(env: &mut Env)
    requires
        old(env).wf(),
    ensures
        final(env).wf(),
        final(env)@ == old(env)@.touch_instance(),
{
    env.perform(
        EffectOf::ExtendInstance {
            threshold: INSTANCE_TTL_THRESHOLD,
            extend_to: INSTANCE_TTL_BUMP,
        },
    );
}

fn touch_merchant(env: &mut Env, merchant: &Address)
    requires
        old(env).wf(),
    ensures
        final(env).wf(),
        final(env)@ == old(env)@.touch_merchant(merchant@),
{
    env.perform(
        EffectOf::Extend {
            key: DataKeyOf::Merchant(merchant.clone()),
            threshold: MERCHANT_TTL_THRESHOLD,
            extend_to: MERCHANT_TTL_BUMP,
        },
    );
}

fn touch_rule(env: &mut Env, merchant: &Address)
    requires
        old(env).wf(),
    ensures
        final(env).wf(),
        final(env)@ == old(env)@.touch_rule(merchant@),
{
    env.perform(
        EffectOf::Extend {
            key: DataKeyOf::Rule(merchant.clone()),
            threshold: RULE_TTL_THRESHOLD,
            extend_to: RULE_TTL_BUMP,
        },
    );
}

fn touch_default_rule(env: &mut Env)
    requires
        old(env).wf(),
    ensures
        final(env).wf(),
        final(env)@ == old(env)@.touch_default_rule(),
{
    env.perform(
        EffectOf::Extend {
            key: DataKeyOf::DefaultRule,
            threshold: RULE_TTL_THRESHOLD,
            extend_to: RULE_TTL_BUMP,
        },
    );
}

fn touch_payment(env: &mut Env, reference: &[u8; 32])
    requires
        old(env).wf(),
    ensures
        final(env).wf(),
        final(env)@ == old(env)@.touch_payment(*reference),
{
    env.perform(
        EffectOf::Extend {
            key: DataKeyOf::Payment(*reference),
            threshold: PAYMENT_TTL_THRESHOLD,
            extend_to: PAYMENT_TTL_BUMP,
        },
    );
}

/// Reads the admin and keeps the instance storage alive.
pub fn read_admin(env: &mut Env) -> (r: Result<Address, SettlementError>)
    requires
        old(env).wf(),
    ensures
        final(env).wf(),
        match old(env)@.admin {
            Some(admin) => {
                &&& r matches Ok(a) && a@ == admin
                &&& final(env)@ == old(env)@.touch_instance()
            },
            None => {
                &&& r == Err::<Address, SettlementError>(SettlementError::NotInitialized)
                &&& final(env)@ == old(env)@
            },
        },
{
    match env.admin() {
        Some(admin) => {
            touch_instance(env);
            Ok(admin)
        },
        None => Err(SettlementError::NotInitialized),
    }
}

/// Reads the governance contract and keeps the instance storage alive.
pub fn read_governance(env: &mut Env) -> (r: Result<Address, SettlementError>)
    requires
        old(env).wf(),
    ensures
        final(env).wf(),
        match old(env)@.governance {
            Some(governance) => {
                &&& r matches Ok(a) && a@ == governance
                &&& final(env)@ == old(env)@.touch_instance()
            },
            None => {
                &&& r == Err::<Address, SettlementError>(SettlementError::NotInitialized)
                &&& final(env)@ == old(env)@
            },
        },
{
    match env.governance() {
        Some(governance) => {
            touch_instance(env);
            Ok(governance)
        },
        None => Err(SettlementError::NotInitialized),
    }
}

/// Reads the recovery address and keeps the instance storage alive.
pub fn read_recovery_address(env: &mut Env) -> (r: Result<Address, SettlementError>)
    requires
        old(env).wf(),
    ensures
        final(env).wf(),
        match old(env)@.recovery_address {
            Some(address) => {
                &&& r matches Ok(a) && a@ == address
                &&& final(env)@ == old(env)@.touch_instance()
            },
            None => {
                &&& r == Err::<Address, SettlementError>(SettlementError::NotInitialized)
                &&& final(env)@ == old(env)@
            },
        },
{
    match env.recovery_address() {
        Some(address) => {
            touch_instance(env);
            Ok(address)
        },
        None => Err(SettlementError::NotInitialized),
    }
}

/// Reads the recovery under way.
pub fn read_pending_recovery(env: &Env) -> (r: Result<PendingRecovery, SettlementError>)
    ensures
        match env@.pending_recovery {
            Some(pending) => r matches Ok(p) && p@ == pending,
            None => r == Err::<PendingRecovery, SettlementError>(
                SettlementError::RecoveryNotPending,
            ),
        },
{
    match env.pending_recovery() {
        Some(pending) => Ok(pending),
        None => Err(SettlementError::RecoveryNotPending),
    }
}

/// Refuses, with `error`, an address that names nobody.
pub fn validate_nonzero_address(address: &Address, error: SettlementError) -> (r: Result<
    (),
    SettlementError,
>)
    ensures
        crate::address::names_somebody(address@) ==> r == Ok::<(), SettlementError>(()),
        !crate::address::names_somebody(address@) ==> r == Err::<(), SettlementError>(error),
{
    if address.is_valid() {
        Ok(())
    } else {
        Err(error)
    }
}

/// Refuses a governance contract that names nobody or did not answer when asked
/// for its fees.
pub fn validate_governance(env: &Env, governance: &Address) -> (r: Result<(), SettlementError>)
    requires
        env.wf(),
    ensures
        match env@.no_governance(governance@) {
            Some(e) => r == Err::<(), SettlementError>(e),
            None => r == Ok::<(), SettlementError>(()),
        },
{
    if governance.is_valid() && env.has_fee_config(governance) {
        Ok(())
    } else {
        Err(SettlementError::InvalidGovernance)
    }
}

/// Refuses a call that `address` did not authorise.
pub fn require_auth(env: &Env, address: &Address) -> (r: Result<(), SettlementError>)
    requires
        env.wf(),
    ensures
        match env@.unsigned(address@) {
            Some(e) => r == Err::<(), SettlementError>(e),
            None => r == Ok::<(), SettlementError>(()),
        },
{
    if env.is_authorized(address) {
        Ok(())
    } else {
        Err(SettlementError::Unauthorized)
    }
}

/// The admin, if it authorised the call.
pub fn require_admin(env: &Env) -> (r: Result<Address, SettlementError>)
    requires
        env.wf(),
    ensures
        match env@.not_by_admin() {
            Some(e) => r == Err::<Address, SettlementError>(e),
            None => r matches Ok(a) && env@.admin == Some(a@),
        },
{
    match env.admin() {
        Some(admin) => {
            require_auth(env, &admin)?;
            Ok(admin)
        },
        None => Err(SettlementError::NotInitialized),
    }
}

/// Whether the contract is paused.
pub fn is_paused(env: &Env) -> (r: bool)
    ensures
        r == env@.is_paused(),
{
    match env.paused() {
        Some(paused) => paused,
        None => false,
    }
}

/// Refuses a call while the contract is paused.
pub fn assert_not_paused(env: &Env) -> (r: Result<(), SettlementError>)
    ensures
        env@.is_paused() ==> r == Err::<(), SettlementError>(SettlementError::Paused),
        !env@.is_paused() ==> r == Ok::<(), SettlementError>(()),
{
    if is_paused(env) {
        Err(SettlementError::Paused)
    } else {
        Ok(())
    }
}

/// Whether the merchant is marked as registered.
fn holds_registration(env: &Env, merchant: &Address) -> (r: bool)
    requires
        env.wf(),
    ensures
        r == env@.registered(merchant@),
{
    match env.merchant(merchant) {
        Some(registered) => registered,
        None => false,
    }
}

/// Whether the merchant is registered. Keeps its mark alive.
pub fn is_merchant_registered_internal(env: &mut Env, merchant: &Address) -> (r: bool)
    requires
        old(env).wf(),
    ensures
        final(env).wf(),
        r == old(env)@.registered(merchant@),
        final(env)@ == old(env)@.after_is_merchant_registered(merchant@),
{
    match env.merchant(merchant) {
        Some(registered) => {
            touch_merchant(env, merchant);
            registered
        },
        None => false,
    }
}

/// The rule in force for a merchant, without touching any entry.
fn peek_rule(env: &Env, merchant: &Address) -> (r: SettlementRule)
    requires
        env.wf(),
    ensures
        r == env@.rule_in_force(merchant@),
{
    match env.rule(merchant) {
        Some(rule) => rule,
        None => match env.default_rule() {
            Some(rule) => rule,
            None => bootstrap_default_rule(),
        },
    }
}

/// The rule in force for a merchant: its own, else the global default, else the
/// bootstrap rule. Keeps the entry it comes from alive; publishes that it comes
/// from neither.
pub fn read_rule_or_default(env: &mut Env, merchant: &Address) -> (r: SettlementRule)
    requires
        old(env).wf(),
    ensures
        final(env).wf(),
        r == old(env)@.rule_in_force(merchant@),
        final(env)@ == old(env)@.look_up_rule(merchant@),
{
    if let Some(rule) = env.rule(merchant) {
        touch_rule(env, merchant);
        return rule;
    }
    if let Some(rule) = env.default_rule() {
        touch_default_rule(env);
        return rule;
    }
    env.perform(EffectOf::Publish(EventOf::BootstrapFallback { rule: bootstrap_default_rule() }));
    bootstrap_default_rule()
}

/// Whether a reference is the reserved one, all zeros.
fn is_reserved(reference: &[u8; 32]) -> (r: bool)
    ensures
        r == (reference@ == model::reserved_reference()),
{
    let mut i: usize = 0;
    while i < 32
        invariant
            i <= 32,
            forall|j: int| 0 <= j < i ==> reference@[j] == 0,
        decreases 32 - i,
    {
        if reference[i] != 0 {
            assert(reference@[i as int] != model::reserved_reference()[i as int]);
            return false;
        }
        i += 1;
    }
    assert(reference@ =~= model::reserved_reference());
    true
}

/// The settlement contract.
pub struct SettlementContract;

/// Roles: who is admin, who governs, who recovers.
impl SettlementContract {
    /// Gives the contract its first admin, its governance contract and its
    /// recovery address. Needs the consent of `admin`.
    ///
    /// Refused once the contract has an admin, and for a governance contract that
    /// does not answer when asked for its fees.
    pub fn init(
        env: &mut Env,
        admin: Address,
        governance: Address,
        recovery_address: Address,
    ) -> (r: Result<(), SettlementError>)
        requires
            old(env).wf(),
        ensures
            final(env).wf(),
            match old(env)@.init_refusal(admin@, governance@, recovery_address@) {
                Some(e) => {
                    &&& r == Err::<(), SettlementError>(e)
                    &&& final(env)@ == old(env)@
                },
                None => {
                    &&& r == Ok::<(), SettlementError>(())
                    &&& final(env)@ == old(env)@.after_init(admin@, governance@, recovery_address@)
                },
            },
    {
        if env.admin().is_some() {
            return Err(SettlementError::AlreadyInitialized);
        }
        require_auth(env, &admin)?;
        validate_governance(env, &governance)?;
        validate_nonzero_address(&recovery_address, SettlementError::InvalidRecoveryAddress)?;
        env.perform(EffectOf::Write(EntryOf::Admin(admin.clone())));
        env.perform(EffectOf::Write(EntryOf::Governance(governance)));
        env.perform(EffectOf::Write(EntryOf::RecoveryAddress(recovery_address)));
        env.perform(EffectOf::Publish(EventOf::Initialized { admin }));
        Ok(())
    }

    /// The admin. Keeps the instance storage alive.
    pub fn get_admin(env: &mut Env) -> (r: Result<Address, SettlementError>)
        requires
            old(env).wf(),
        ensures
            final(env).wf(),
            match old(env)@.admin {
                Some(text) => {
                    &&& r matches Ok(address) && address@ == text
                    &&& final(env)@ == old(env)@.touch_instance()
                },
                None => {
                    &&& r == Err::<Address, SettlementError>(SettlementError::NotInitialized)
                    &&& final(env)@ == old(env)@
                },
            },
    {
        read_admin(env)
    }

    /// The governance contract. Keeps the instance storage alive.
    pub fn get_governance(env: &mut Env) -> (r: Result<Address, SettlementError>)
        requires
            old(env).wf(),
        ensures
            final(env).wf(),
            match old(env)@.governance {
                Some(text) => {
                    &&& r matches Ok(address) && address@ == text
                    &&& final(env)@ == old(env)@.touch_instance()
                },
                None => {
                    &&& r == Err::<Address, SettlementError>(SettlementError::NotInitialized)
                    &&& final(env)@ == old(env)@
                },
            },
    {
        read_governance(env)
    }

    /// The address that may start a recovery. Keeps the instance storage alive.
    pub fn get_recovery_address(env: &mut Env) -> (r: Result<Address, SettlementError>)
        requires
            old(env).wf(),
        ensures
            final(env).wf(),
            match old(env)@.recovery_address {
                Some(text) => {
                    &&& r matches Ok(address) && address@ == text
                    &&& final(env)@ == old(env)@.touch_instance()
                },
                None => {
                    &&& r == Err::<Address, SettlementError>(SettlementError::NotInitialized)
                    &&& final(env)@ == old(env)@
                },
            },
    {
        read_recovery_address(env)
    }

    /// Replaces the governance contract. A call of the admin.
    pub fn update_governance(
        env: &mut Env,
        new_governance: Address,
    ) -> (r: Result<(), SettlementError>)
        requires
            old(env).wf(),
        ensures
            final(env).wf(),
            match old(env)@.update_governance_refusal(new_governance@) {
                Some(e) => {
                    &&& r == Err::<(), SettlementError>(e)
                    &&& final(env)@ == old(env)@
                },
                None => {
                    &&& r == Ok::<(), SettlementError>(())
                    &&& final(env)@ == old(env)@.after_update_governance(new_governance@)
                },
            },
    {
        let admin = require_admin(env)?;
        assert_not_paused(env)?;
        validate_governance(env, &new_governance)?;
        touch_instance(env);
        env.perform(EffectOf::Write(EntryOf::Governance(new_governance.clone())));
        env.perform(
            EffectOf::Publish(EventOf::GovernanceUpdated { admin, governance: new_governance }),
        );
        Ok(())
    }

    /// Starts a recovery, after which `new_admin` becomes admin. A call of the
    /// recovery address. A recovery that is under way is replaced.
    pub fn initiate_recovery(env: &mut Env, new_admin: Address) -> (r: Result<(), SettlementError>)
        requires
            old(env).wf(),
            old(env)@.initiate_recovery_refusal(new_admin@) is None
                ==> old(env)@.ledger.timestamp + RECOVERY_DELAY_SECONDS <= u64::MAX,
        ensures
            final(env).wf(),
            match old(env)@.initiate_recovery_refusal(new_admin@) {
                Some(e) => {
                    &&& r == Err::<(), SettlementError>(e)
                    &&& final(env)@ == old(env)@
                },
                None => {
                    &&& r == Ok::<(), SettlementError>(())
                    &&& final(env)@ == old(env)@.after_initiate_recovery(new_admin@)
                },
            },
    {
        let recovery_address = match env.recovery_address() {
            Some(address) => address,
            None => {
                return Err(SettlementError::NotInitialized);
            },
        };
        require_auth(env, &recovery_address)?;
        validate_nonzero_address(&new_admin, SettlementError::InvalidAdmin)?;
        let execute_after: u64 = env.ledger().timestamp + RECOVERY_DELAY_SECONDS;
        touch_instance(env);
        env.perform(
            EffectOf::Write(
                EntryOf::PendingRecovery { new_admin: new_admin.clone(), execute_after },
            ),
        );
        env.perform(
            EffectOf::Publish(
                EventOf::RecoveryInitiated { recovery_address, new_admin, execute_after },
            ),
        );
        Ok(())
    }

    /// Cancels the recovery under way. A call of the admin.
    pub fn cancel_recovery(env: &mut Env) -> (r: Result<(), SettlementError>)
        requires
            old(env).wf(),
        ensures
            final(env).wf(),
            match old(env)@.cancel_recovery_refusal() {
                Some(e) => {
                    &&& r == Err::<(), SettlementError>(e)
                    &&& final(env)@ == old(env)@
                },
                None => {
                    &&& r == Ok::<(), SettlementError>(())
                    &&& final(env)@ == old(env)@.after_cancel_recovery()
                },
            },
    {
        let admin = require_admin(env)?;
        if env.pending_recovery().is_none() {
            return Err(SettlementError::RecoveryNotPending);
        }
        touch_instance(env);
        env.perform(EffectOf::Erase(DataKeyOf::PendingRecovery));
        env.perform(EffectOf::Publish(EventOf::RecoveryCancelled { admin }));
        Ok(())
    }

    /// Executes the recovery under way, once its delay is over. Anybody may call it.
    pub fn execute_recovery(env: &mut Env) -> (r: Result<(), SettlementError>)
        requires
            old(env).wf(),
        ensures
            final(env).wf(),
            match old(env)@.execute_recovery_refusal() {
                Some(e) => {
                    &&& r == Err::<(), SettlementError>(e)
                    &&& final(env)@ == old(env)@
                },
                None => {
                    &&& r == Ok::<(), SettlementError>(())
                    &&& final(env)@ == old(env)@.after_execute_recovery()
                },
            },
    {
        let pending = read_pending_recovery(env)?;
        if env.ledger().timestamp < pending.execute_after {
            return Err(SettlementError::RecoveryDelayActive);
        }
        let new_admin = pending.new_admin;
        env.perform(EffectOf::Write(EntryOf::Admin(new_admin.clone())));
        env.perform(EffectOf::Erase(DataKeyOf::PendingRecovery));
        env.perform(EffectOf::Publish(EventOf::RecoveryExecuted { new_admin }));
        Ok(())
    }

    /// Makes `new_admin` the admin at once. A call of the admin. Drops a proposal
    /// that has not been accepted.
    pub fn transfer_admin(env: &mut Env, new_admin: Address) -> (r: Result<(), SettlementError>)
        requires
            old(env).wf(),
        ensures
            final(env).wf(),
            match old(env)@.transfer_admin_refusal(new_admin@) {
                Some(e) => {
                    &&& r == Err::<(), SettlementError>(e)
                    &&& final(env)@ == old(env)@
                },
                None => {
                    &&& r == Ok::<(), SettlementError>(())
                    &&& final(env)@ == old(env)@.after_transfer_admin(new_admin@)
                },
            },
    {
        let admin = require_admin(env)?;
        validate_nonzero_address(&new_admin, SettlementError::InvalidAddress)?;
        if new_admin == admin {
            return Err(SettlementError::InvalidAdmin);
        }
        touch_instance(env);
        env.perform(EffectOf::Write(EntryOf::Admin(new_admin.clone())));
        env.perform(EffectOf::Erase(DataKeyOf::PendingAdmin));
        env.perform(EffectOf::Publish(EventOf::Admin { new_admin }));
        Ok(())
    }

    /// Proposes `new_admin`, who becomes admin by accepting. A call of the admin.
    pub fn propose_admin(env: &mut Env, new_admin: Address) -> (r: Result<(), SettlementError>)
        requires
            old(env).wf(),
        ensures
            final(env).wf(),
            match old(env)@.transfer_admin_refusal(new_admin@) {
                Some(e) => {
                    &&& r == Err::<(), SettlementError>(e)
                    &&& final(env)@ == old(env)@
                },
                None => {
                    &&& r == Ok::<(), SettlementError>(())
                    &&& final(env)@ == old(env)@.after_propose_admin(new_admin@)
                },
            },
    {
        let admin = require_admin(env)?;
        validate_nonzero_address(&new_admin, SettlementError::InvalidAddress)?;
        if new_admin == admin {
            return Err(SettlementError::InvalidAdmin);
        }
        touch_instance(env);
        env.perform(EffectOf::Write(EntryOf::PendingAdmin(new_admin)));
        Ok(())
    }

    /// Makes the proposed admin the admin. A call of the proposed admin.
    pub fn accept_admin(env: &mut Env) -> (r: Result<(), SettlementError>)
        requires
            old(env).wf(),
        ensures
            final(env).wf(),
            match old(env)@.accept_admin_refusal() {
                Some(e) => {
                    &&& r == Err::<(), SettlementError>(e)
                    &&& final(env)@ == old(env)@
                },
                None => {
                    &&& r == Ok::<(), SettlementError>(())
                    &&& final(env)@ == old(env)@.after_accept_admin()
                },
            },
    {
        let new_admin = match env.pending_admin() {
            Some(new_admin) => new_admin,
            None => {
                return Err(SettlementError::InvalidAdmin);
            },
        };
        require_auth(env, &new_admin)?;
        env.perform(EffectOf::Write(EntryOf::Admin(new_admin.clone())));
        env.perform(EffectOf::Erase(DataKeyOf::PendingAdmin));
        env.perform(EffectOf::Publish(EventOf::Admin { new_admin }));
        Ok(())
    }

    /// Takes the proposal of a new admin back. A call of the admin.
    pub fn cancel_admin_transfer(env: &mut Env) -> (r: Result<(), SettlementError>)
        requires
            old(env).wf(),
        ensures
            final(env).wf(),
            match old(env)@.cancel_admin_transfer_refusal() {
                Some(e) => {
                    &&& r == Err::<(), SettlementError>(e)
                    &&& final(env)@ == old(env)@
                },
                None => {
                    &&& r == Ok::<(), SettlementError>(())
                    &&& final(env)@ == old(env)@.after_cancel_admin_transfer()
                },
            },
    {
        let _admin = require_admin(env)?;
        if env.pending_admin().is_none() {
            return Err(SettlementError::InvalidAdmin);
        }
        touch_instance(env);
        env.perform(EffectOf::Erase(DataKeyOf::PendingAdmin));
        Ok(())
    }

    /// The proposed admin, if there is one.
    pub fn get_pending_admin(env: &Env) -> (r: Option<Address>)
        ensures
            env::text_of(r) == env@.pending_admin,
    {
        env.pending_admin()
    }

    /// Replaces the code of the contract. A call of the admin.
    pub fn upgrade(env: &mut Env, new_wasm_hash: [u8; 32]) -> (r: Result<(), SettlementError>)
        requires
            old(env).wf(),
        ensures
            final(env).wf(),
            match old(env)@.not_by_admin() {
                Some(e) => {
                    &&& r == Err::<(), SettlementError>(e)
                    &&& final(env)@ == old(env)@
                },
                None => {
                    &&& r == Ok::<(), SettlementError>(())
                    &&& final(env)@ == old(env)@.after_upgrade(new_wasm_hash)
                },
            },
    {
        let admin = require_admin(env)?;
        touch_instance(env);
        env.perform(
            EffectOf::Publish(EventOf::ContractUpgraded { wasm_hash: new_wasm_hash, admin }),
        );
        env.perform(EffectOf::Upgrade(new_wasm_hash));
        Ok(())
    }

    /// Pauses the contract. A call of the admin.
    pub fn pause(env: &mut Env) -> (r: Result<(), SettlementError>)
        requires
            old(env).wf(),
        ensures
            final(env).wf(),
            match old(env)@.not_by_admin() {
                Some(e) => {
                    &&& r == Err::<(), SettlementError>(e)
                    &&& final(env)@ == old(env)@
                },
                None => {
                    &&& r == Ok::<(), SettlementError>(())
                    &&& final(env)@ == old(env)@.after_pause()
                },
            },
    {
        let _admin = require_admin(env)?;
        touch_instance(env);
        env.perform(EffectOf::Write(EntryOf::Paused(true)));
        env.perform(EffectOf::Publish(EventOf::Pause));
        Ok(())
    }

    /// Ends the pause of the contract. A call of the admin.
    pub fn unpause(env: &mut Env) -> (r: Result<(), SettlementError>)
        requires
            old(env).wf(),
        ensures
            final(env).wf(),
            match old(env)@.not_by_admin() {
                Some(e) => {
                    &&& r == Err::<(), SettlementError>(e)
                    &&& final(env)@ == old(env)@
                },
                None => {
                    &&& r == Ok::<(), SettlementError>(())
                    &&& final(env)@ == old(env)@.after_unpause()
                },
            },
    {
        let _admin = require_admin(env)?;
        touch_instance(env);
        env.perform(EffectOf::Write(EntryOf::Paused(false)));
        env.perform(EffectOf::Publish(EventOf::Unpause));
        Ok(())
    }

    /// Whether the contract is paused.
    pub fn is_paused(env: &Env) -> (r: bool)
        ensures
            r == env@.is_paused(),
    {
        is_paused(env)
    }
}

/// Merchants and their rules.
impl SettlementContract {
    /// Registers a merchant. A call of the admin, which a pause does not block.
    pub fn register_merchant(env: &mut Env, merchant: Address) -> (r: Result<(), SettlementError>)
        requires
            old(env).wf(),
        ensures
            final(env).wf(),
            match old(env)@.register_merchant_refusal(merchant@) {
                Some(e) => {
                    &&& r == Err::<(), SettlementError>(e)
                    &&& final(env)@ == old(env)@
                },
                None => {
                    &&& r == Ok::<(), SettlementError>(())
                    &&& final(env)@ == old(env)@.after_register_merchant(merchant@)
                },
            },
    {
        validate_nonzero_address(&merchant, SettlementError::InvalidAddress)?;
        let admin = require_admin(env)?;
        if env.merchant(&merchant).is_some() {
            return Err(SettlementError::MerchantExists);
        }
        touch_instance(env);
        env.perform(EffectOf::Write(EntryOf::Merchant(merchant.clone(), true)));
        touch_merchant(env, &merchant);
        env.perform(EffectOf::Publish(EventOf::MerchantRegistered { merchant, admin }));
        Ok(())
    }

    /// Takes a merchant out of the register, together with its rule. A call of
    /// the admin.
    pub fn unregister_merchant(env: &mut Env, merchant: Address) -> (r: Result<(), SettlementError>)
        requires
            old(env).wf(),
        ensures
            final(env).wf(),
            match old(env)@.unregister_merchant_refusal(merchant@) {
                Some(e) => {
                    &&& r == Err::<(), SettlementError>(e)
                    &&& final(env)@ == old(env)@
                },
                None => {
                    &&& r == Ok::<(), SettlementError>(())
                    &&& final(env)@ == old(env)@.after_unregister_merchant(merchant@)
                },
            },
    {
        assert_not_paused(env)?;
        let admin = require_admin(env)?;
        if env.merchant(&merchant).is_none() {
            return Err(SettlementError::MerchantMissing);
        }
        let has_rule = env.rule(&merchant).is_some();
        touch_instance(env);
        env.perform(EffectOf::Erase(DataKeyOf::Merchant(merchant.clone())));
        if has_rule {
            env.perform(EffectOf::Erase(DataKeyOf::Rule(merchant.clone())));
        }
        env.perform(EffectOf::Publish(EventOf::MerchantUnregistered { merchant, admin }));
        Ok(())
    }

    /// Gives a merchant a rule of its own. A call of the admin.
    ///
    /// The event carries the rule that was in force before, which is the global
    /// default or the bootstrap rule where the merchant had none.
    pub fn set_settlement_rule(
        env: &mut Env,
        merchant: Address,
        rule: SettlementRule,
    ) -> (r: Result<(), SettlementError>)
        requires
            old(env).wf(),
        ensures
            final(env).wf(),
            match old(env)@.set_settlement_rule_refusal(merchant@, rule) {
                Some(e) => {
                    &&& r == Err::<(), SettlementError>(e)
                    &&& final(env)@ == old(env)@
                },
                None => {
                    &&& r == Ok::<(), SettlementError>(())
                    &&& final(env)@ == old(env)@.after_set_settlement_rule(merchant@, rule)
                },
            },
    {
        assert_not_paused(env)?;
        let admin = require_admin(env)?;
        if !holds_registration(env, &merchant) {
            return Err(SettlementError::MerchantMissing);
        }
        rule.validate()?;
        let previous = peek_rule(env, &merchant);
        let default_in_force = env.rule(&merchant).is_none() && env.default_rule().is_some();
        touch_instance(env);
        touch_merchant(env, &merchant);
        if default_in_force {
            touch_default_rule(env);
        }
        env.perform(EffectOf::Write(EntryOf::Rule(merchant.clone(), rule)));
        touch_rule(env, &merchant);
        env.perform(
            EffectOf::Publish(
                EventOf::SettlementRuleUpdated { merchant, admin, previous, current: rule },
            ),
        );
        Ok(())
    }

    /// Takes the rule of a merchant back. A call of the admin. The merchant falls
    /// back to the global default, or to the bootstrap rule.
    pub fn clear_settlement_rule(
        env: &mut Env,
        merchant: Address,
    ) -> (r: Result<(), SettlementError>)
        requires
            old(env).wf(),
        ensures
            final(env).wf(),
            match old(env)@.clear_settlement_rule_refusal(merchant@) {
                Some(e) => {
                    &&& r == Err::<(), SettlementError>(e)
                    &&& final(env)@ == old(env)@
                },
                None => {
                    &&& r == Ok::<(), SettlementError>(())
                    &&& final(env)@ == old(env)@.after_clear_settlement_rule(merchant@)
                },
            },
    {
        assert_not_paused(env)?;
        let admin = require_admin(env)?;
        let removed = match env.rule(&merchant) {
            Some(rule) => rule,
            None => {
                return Err(SettlementError::MerchantRuleNotSet);
            },
        };
        touch_instance(env);
        env.perform(EffectOf::Erase(DataKeyOf::Rule(merchant.clone())));
        let fallback = read_rule_or_default(env, &merchant);
        env.perform(
            EffectOf::Publish(
                EventOf::SettlementRuleCleared { merchant, admin, removed, fallback },
            ),
        );
        Ok(())
    }

    /// Sets the global default rule. A call of the admin.
    ///
    /// The event carries the default that was in force before, which is the
    /// bootstrap rule where none had been set.
    pub fn set_default_rule(
        env: &mut Env,
        new_rule: SettlementRule,
    ) -> (r: Result<(), SettlementError>)
        requires
            old(env).wf(),
        ensures
            final(env).wf(),
            match old(env)@.set_default_rule_refusal(new_rule) {
                Some(e) => {
                    &&& r == Err::<(), SettlementError>(e)
                    &&& final(env)@ == old(env)@
                },
                None => {
                    &&& r == Ok::<(), SettlementError>(())
                    &&& final(env)@ == old(env)@.after_set_default_rule(new_rule)
                },
            },
    {
        assert_not_paused(env)?;
        let admin = require_admin(env)?;
        new_rule.validate()?;
        let previous = match env.default_rule() {
            Some(rule) => rule,
            None => bootstrap_default_rule(),
        };
        touch_instance(env);
        env.perform(EffectOf::Write(EntryOf::DefaultRule(new_rule)));
        touch_default_rule(env);
        env.perform(
            EffectOf::Publish(EventOf::DefaultRuleUpdated { admin, previous, current: new_rule }),
        );
        Ok(())
    }

    /// The global default rule, if one has been set. Keeps it alive.
    pub fn get_default_rule(env: &mut Env) -> (r: Option<SettlementRule>)
        requires
            old(env).wf(),
        ensures
            final(env).wf(),
            r == old(env)@.default(),
            final(env)@ == old(env)@.after_get_default_rule(),
    {
        match env.default_rule() {
            Some(rule) => {
                touch_default_rule(env);
                Some(rule)
            },
            None => None,
        }
    }

    /// The rule of a merchant, if it has its own. Keeps it alive.
    pub fn get_settlement_rule(env: &mut Env, merchant: Address) -> (r: Option<SettlementRule>)
        requires
            old(env).wf(),
        ensures
            final(env).wf(),
            r == old(env)@.rule(merchant@),
            final(env)@ == old(env)@.after_get_settlement_rule(merchant@),
    {
        match env.rule(&merchant) {
            Some(rule) => {
                touch_rule(env, &merchant);
                Some(rule)
            },
            None => None,
        }
    }

    /// Whether the merchant is registered. Keeps its mark alive.
    pub fn is_merchant_registered(env: &mut Env, merchant: Address) -> (r: bool)
        requires
            old(env).wf(),
        ensures
            final(env).wf(),
            r == old(env)@.registered(merchant@),
            final(env)@ == old(env)@.after_is_merchant_registered(merchant@),
    {
        is_merchant_registered_internal(env, &merchant)
    }
}

/// Payments.
impl SettlementContract {
    /// Stores a payment of `amount` to `merchant` under `reference`, with its
    /// split under the rule in force. A call of the merchant.
    ///
    /// Publishes one event, which carries the reference and the whole record. It
    /// comes second where neither the merchant nor the contract has a rule set:
    /// the fallback on the bootstrap rule is published before it.
    pub fn store_payment_reference(
        env: &mut Env,
        merchant: Address,
        reference: [u8; 32],
        amount: i128,
    ) -> (r: Result<FeeSplit, SettlementError>)
        requires
            old(env).wf(),
        ensures
            final(env).wf(),
            match old(env)@.store_payment_reference_refusal(merchant@, reference, amount) {
                Some(e) => {
                    &&& r == Err::<FeeSplit, SettlementError>(e)
                    &&& final(env)@ == old(env)@
                },
                None => {
                    &&& r == Ok::<FeeSplit, SettlementError>(
                        fees::split(amount as int, old(env)@.rule_in_force(merchant@)),
                    )
                    &&& final(env)@ == old(env)@.after_store_payment_reference(
                        merchant@,
                        reference,
                        amount,
                    )
                },
            },
    {
        assert_not_paused(env)?;
        require_auth(env, &merchant)?;
        if !holds_registration(env, &merchant) {
            return Err(SettlementError::MerchantMissing);
        }
        if is_reserved(&reference) {
            return Err(SettlementError::InvalidPaymentReference);
        }
        if amount < MIN_PAYMENT_AMOUNT {
            return Err(SettlementError::InvalidAmount);
        }
        if env.payment(&reference).is_some() {
            return Err(SettlementError::DuplicatePaymentReference);
        }
        let rule = peek_rule(env, &merchant);
        let split = fees::calculate_split(amount, &rule)?;
        let record = PaymentRecord {
            amount,
            platform_fee_amount: split.platform_fee_amount,
            network_fee_amount: split.network_fee_amount,
            merchant_amount: split.merchant_amount,
            platform_fee_bps: rule.platform_fee_bps,
            network_fee_bps: rule.network_fee_bps,
            ledger: env.ledger().sequence,
            settlement_delay_ledger: rule.settlement_delay_ledger,
            auto_settle: rule.auto_settle,
        };
        touch_merchant(env, &merchant);
        let _rule = read_rule_or_default(env, &merchant);
        env.perform(EffectOf::Write(EntryOf::Payment(reference, record)));
        touch_payment(env, &reference);
        env.perform(EffectOf::Publish(EventOf::PaymentStored { merchant, reference, record }));
        Ok(split)
    }

    /// The split of `amount` for `merchant` under the rule in force. Stores no
    /// payment.
    pub fn calculate_fee_split(
        env: &mut Env,
        merchant: Address,
        amount: i128,
    ) -> (r: Result<FeeSplit, SettlementError>)
        requires
            old(env).wf(),
        ensures
            final(env).wf(),
            match old(env)@.calculate_fee_split_refusal(merchant@, amount) {
                Some(e) => {
                    &&& r == Err::<FeeSplit, SettlementError>(e)
                    &&& final(env)@ == old(env)@
                },
                None => {
                    &&& r == Ok::<FeeSplit, SettlementError>(
                        fees::split(amount as int, old(env)@.rule_in_force(merchant@)),
                    )
                    &&& final(env)@ == old(env)@.after_calculate_fee_split(merchant@)
                },
            },
    {
        if !holds_registration(env, &merchant) {
            return Err(SettlementError::MerchantMissing);
        }
        if amount <= 0 {
            return Err(SettlementError::InvalidAmount);
        }
        let rule = peek_rule(env, &merchant);
        let split = fees::calculate_split(amount, &rule)?;
        touch_merchant(env, &merchant);
        let _rule = read_rule_or_default(env, &merchant);
        Ok(split)
    }

    /// The record of a payment, if it is stored. Keeps alive a payment that has
    /// less than the threshold left.
    pub fn get_payment_reference(env: &mut Env, reference: [u8; 32]) -> (r: Option<PaymentRecord>)
        requires
            old(env).wf(),
        ensures
            final(env).wf(),
            r == old(env)@.payment(reference),
            final(env)@ == old(env)@.after_get_payment_reference(reference),
    {
        let record = env.payment(&reference);
        if let Some(live_until) = env.live_until(&DataKeyOf::Payment(reference)) {
            let left: i64 = live_until as i64 - env.ledger().sequence as i64;
            if left < PAYMENT_TTL_THRESHOLD as i64 {
                touch_payment(env, &reference);
            }
        }
        record
    }

    /// The records of those references that are stored, in the given order.
    pub fn get_payments(env: &mut Env, references: Vec<[u8; 32]>) -> (r: Vec<PaymentRecord>)
        requires
            old(env).wf(),
        ensures
            final(env).wf(),
            r@ == old(env)@.payments_of(references@),
            final(env)@ == old(env)@.after_get_payments(references@),
    {
        let mut payments: Vec<PaymentRecord> = Vec::new();
        let mut i: usize = 0;
        proof {
            reveal(Seq::filter);
            assert(env@.payments_of(references@.take(0)) =~= Seq::<PaymentRecord>::empty());
        }
        while i < references.len()
            invariant
                env.wf(),
                i <= references@.len(),
                env@ == old(env)@.after_get_payments(references@.take(i as int)),
                payments@ == old(env)@.payments_of(references@.take(i as int)),
            decreases references@.len() - i,
        {
            proof {
                let seen = references@.take(i as int);
                assert(references@.take(i + 1) =~= seen.push(references@[i as int]));
                assert(references@.take(i + 1).drop_last() =~= seen);
                model::lemma_reading_keeps_records(old(env)@, seen);
                model::lemma_payments_of_push(old(env)@, seen, references@[i as int]);
            }
            let found = Self::get_payment_reference(env, references[i]);
            if let Some(payment) = found {
                payments.push(payment);
            }
            i += 1;
        }
        assert(references@.take(i as int) =~= references@);
        payments
    }
}

} // verus!
