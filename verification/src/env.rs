//! The environment of a call: what the host handed over, and what it has to do.
use crate::address::Address;
use crate::effects::{DataKey, DataKeyOf, Effect, EffectOf, Entry, EntryOf};
use crate::table::Table;
use crate::types::{
    FeeConfig, PaymentRecord, PendingRecovery, PendingRecoveryView, SettlementRule,
};
use vstd::prelude::*;

verus! {

/// The ledger a call runs in.
#[derive(Clone, Copy, Debug, PartialEq, Eq, Structural)]
pub struct LedgerInfo {
    /// The number of the ledger.
    pub sequence: u32,
    /// The time at which the ledger closes, in seconds.
    pub timestamp: u64,
    /// The lifetime of a new entry, in ledgers from the current one.
    pub min_ttl: u32,
    /// The longest lifetime of an entry, in ledgers from the current one.
    pub max_ttl: u32,
}

impl LedgerInfo {
    /// Every lifetime ends at a ledger that has a number.
    pub open spec fn valid(self) -> bool {
        &&& self.sequence + self.min_ttl <= u32::MAX
        &&& self.sequence + self.max_ttl <= u32::MAX
    }

    /// The last ledger of a new entry.
    pub open spec fn fresh(self) -> u32 {
        (self.sequence + self.min_ttl) as u32
    }

    /// The ledgers an entry has left.
    pub open spec fn ttl(self, live_until: u32) -> int {
        live_until - self.sequence
    }

    /// The last ledger of an entry after an extension: an entry with
    /// `threshold` ledgers left, or less, gets `extend_to` ledgers from now, but
    /// no more than the longest lifetime, and never fewer than it had.
    pub open spec fn extended(self, live_until: u32, threshold: u32, extend_to: u32) -> u32 {
        let granted = if extend_to <= self.max_ttl { extend_to } else { self.max_ttl };
        if self.ttl(live_until) <= threshold && self.ttl(live_until) < granted {
            (self.sequence + granted) as u32
        } else {
            live_until
        }
    }

    fn fresh_live_until(&self) -> (r: u32)
        requires
            self.valid(),
        ensures
            r == self.fresh(),
    {
        self.sequence + self.min_ttl
    }

    fn extended_live_until(&self, live_until: u32, threshold: u32, extend_to: u32) -> (r: u32)
        requires
            self.valid(),
        ensures
            r == self.extended(live_until, threshold, extend_to),
    {
        let granted: u32 = if extend_to <= self.max_ttl { extend_to } else { self.max_ttl };
        let left: i64 = live_until as i64 - self.sequence as i64;
        if left <= threshold as i64 && left < granted as i64 {
            self.sequence + granted
        } else {
            live_until
        }
    }
}

/// A stored value, and the last ledger it lives in.
#[derive(Copy, Debug, PartialEq, Eq)]
pub struct Stored<V> {
    /// The value.
    pub value: V,
    /// The last ledger it lives in.
    pub live_until: u32,
}

impl<V: Copy> Clone for Stored<V> {
    fn clone(&self) -> (r: Stored<V>)
        ensures
            r == *self,
    {
        Stored { value: self.value, live_until: self.live_until }
    }
}

/// What an [`Env`] holds, as mathematical values. Addresses are texts.
///
/// Lifetimes are kept account of, not enforced: an entry whose lifetime is over
/// is archived, not lost, and the host ends a call that needs it before the
/// entry has been restored.
#[verifier::ext_equal]
pub struct EnvState {
    /// The ledger of the call.
    pub ledger: LedgerInfo,
    /// The addresses that authorised the call.
    pub signers: Set<Seq<char>>,
    /// What the contracts that could be asked for their fees answered.
    pub fee_configs: Map<Seq<char>, Option<FeeConfig>>,
    /// The admin.
    pub admin: Option<Seq<char>>,
    /// The governance contract.
    pub governance: Option<Seq<char>>,
    /// The address that may start a recovery.
    pub recovery_address: Option<Seq<char>>,
    /// The recovery under way.
    pub pending_recovery: Option<PendingRecoveryView>,
    /// The admin who was proposed and has not accepted.
    pub pending_admin: Option<Seq<char>>,
    /// The pause flag, once it has been set.
    pub paused: Option<bool>,
    /// The last ledger of the instance storage.
    pub instance_live_until: u32,
    /// The merchants, and whether they are registered.
    pub merchants: Map<Seq<char>, Stored<bool>>,
    /// The rules of the merchants that have their own.
    pub rules: Map<Seq<char>, Stored<SettlementRule>>,
    /// The global default rule.
    pub default_rule: Option<Stored<SettlementRule>>,
    /// The payments, by the bytes of their references.
    pub payments: Map<Seq<u8>, Stored<PaymentRecord>>,
    /// What the host has to do, in order.
    pub journal: Seq<EffectOf<Seq<char>>>,
}

/// `m` with `value` under `key`. An entry that was there keeps its lifetime, a
/// new one lives until ledger `fresh`.
pub open spec fn put<K, V>(m: Map<K, Stored<V>>, key: K, value: V, fresh: u32) -> Map<
    K,
    Stored<V>,
> {
    let live_until = if m.contains_key(key) { m[key].live_until } else { fresh };
    m.insert(key, Stored { value, live_until })
}

/// `m` with the lifetime of the entry under `key` extended, if there is one.
pub open spec fn prolong<K, V>(
    m: Map<K, Stored<V>>,
    key: K,
    ledger: LedgerInfo,
    threshold: u32,
    extend_to: u32,
) -> Map<K, Stored<V>> {
    if m.contains_key(key) {
        m.insert(
            key,
            Stored {
                value: m[key].value,
                live_until: ledger.extended(m[key].live_until, threshold, extend_to),
            },
        )
    } else {
        m
    }
}

impl EnvState {
    /// An environment without entries, signers or answers.
    pub open spec fn blank(ledger: LedgerInfo) -> EnvState {
        EnvState {
            ledger,
            signers: Set::empty(),
            fee_configs: Map::empty(),
            admin: None,
            governance: None,
            recovery_address: None,
            pending_recovery: None,
            pending_admin: None,
            paused: None,
            instance_live_until: ledger.fresh(),
            merchants: Map::empty(),
            rules: Map::empty(),
            default_rule: None,
            payments: Map::empty(),
            journal: Seq::empty(),
        }
    }

    /// The rule of the merchant, if it has its own.
    pub open spec fn rule(self, merchant: Seq<char>) -> Option<SettlementRule> {
        if self.rules.contains_key(merchant) {
            Some(self.rules[merchant].value)
        } else {
            None
        }
    }

    /// The global default rule, if one has been set.
    pub open spec fn default(self) -> Option<SettlementRule> {
        match self.default_rule {
            Some(stored) => Some(stored.value),
            None => None,
        }
    }

    /// The record of the payment, if it is stored.
    pub open spec fn payment(self, reference: [u8; 32]) -> Option<PaymentRecord> {
        if self.payments.contains_key(reference@) {
            Some(self.payments[reference@].value)
        } else {
            None
        }
    }

    /// Whether the merchant is marked as registered.
    pub open spec fn registered(self, merchant: Seq<char>) -> bool {
        self.merchants.contains_key(merchant) && self.merchants[merchant].value
    }

    /// Whether the contract is paused.
    pub open spec fn is_paused(self) -> bool {
        self.paused == Some(true)
    }

    /// The last ledger of the entry, if the key has an entry with a lifetime of
    /// its own.
    pub open spec fn live_until(self, key: DataKeyOf<Seq<char>>) -> Option<u32> {
        match key {
            DataKeyOf::Merchant(merchant) => if self.merchants.contains_key(merchant) {
                Some(self.merchants[merchant].live_until)
            } else {
                None
            },
            DataKeyOf::Rule(merchant) => if self.rules.contains_key(merchant) {
                Some(self.rules[merchant].live_until)
            } else {
                None
            },
            DataKeyOf::DefaultRule => match self.default_rule {
                Some(stored) => Some(stored.live_until),
                None => None,
            },
            DataKeyOf::Payment(reference) => if self.payments.contains_key(reference@) {
                Some(self.payments[reference@].live_until)
            } else {
                None
            },
            _ => None,
        }
    }

    /// The environment with an entry written. A new entry with a lifetime of
    /// its own lives until ledger `fresh`.
    pub open spec fn written(self, entry: EntryOf<Seq<char>>, fresh: u32) -> EnvState {
        match entry {
            EntryOf::Admin(admin) => EnvState { admin: Some(admin), ..self },
            EntryOf::RecoveryAddress(address) => EnvState {
                recovery_address: Some(address),
                ..self
            },
            EntryOf::PendingRecovery { new_admin, execute_after } => EnvState {
                pending_recovery: Some(PendingRecoveryView { new_admin, execute_after }),
                ..self
            },
            EntryOf::PendingAdmin(admin) => EnvState { pending_admin: Some(admin), ..self },
            EntryOf::Governance(governance) => EnvState { governance: Some(governance), ..self },
            EntryOf::Paused(paused) => EnvState { paused: Some(paused), ..self },
            EntryOf::Merchant(merchant, registered) => EnvState {
                merchants: put(self.merchants, merchant, registered, fresh),
                ..self
            },
            EntryOf::Rule(merchant, rule) => EnvState {
                rules: put(self.rules, merchant, rule, fresh),
                ..self
            },
            EntryOf::DefaultRule(rule) => EnvState {
                default_rule: Some(
                    Stored {
                        value: rule,
                        live_until: match self.default_rule {
                            Some(stored) => stored.live_until,
                            None => fresh,
                        },
                    },
                ),
                ..self
            },
            EntryOf::Payment(reference, record) => EnvState {
                payments: put(self.payments, reference@, record, fresh),
                ..self
            },
        }
    }

    /// The environment with the entry of a key erased.
    pub open spec fn erased(self, key: DataKeyOf<Seq<char>>) -> EnvState {
        match key {
            DataKeyOf::Admin => EnvState { admin: None, ..self },
            DataKeyOf::RecoveryAddress => EnvState { recovery_address: None, ..self },
            DataKeyOf::PendingRecovery => EnvState { pending_recovery: None, ..self },
            DataKeyOf::PendingAdmin => EnvState { pending_admin: None, ..self },
            DataKeyOf::Governance => EnvState { governance: None, ..self },
            DataKeyOf::Paused => EnvState { paused: None, ..self },
            DataKeyOf::Merchant(merchant) => EnvState {
                merchants: self.merchants.remove(merchant),
                ..self
            },
            DataKeyOf::Rule(merchant) => EnvState { rules: self.rules.remove(merchant), ..self },
            DataKeyOf::DefaultRule => EnvState { default_rule: None, ..self },
            DataKeyOf::Payment(reference) => EnvState {
                payments: self.payments.remove(reference@),
                ..self
            },
        }
    }

    /// The environment with the lifetime of one entry extended. Keys of the
    /// instance storage have no lifetime of their own.
    pub open spec fn prolonged(
        self,
        key: DataKeyOf<Seq<char>>,
        threshold: u32,
        extend_to: u32,
    ) -> EnvState {
        match key {
            DataKeyOf::Merchant(merchant) => EnvState {
                merchants: prolong(self.merchants, merchant, self.ledger, threshold, extend_to),
                ..self
            },
            DataKeyOf::Rule(merchant) => EnvState {
                rules: prolong(self.rules, merchant, self.ledger, threshold, extend_to),
                ..self
            },
            DataKeyOf::DefaultRule => EnvState {
                default_rule: match self.default_rule {
                    Some(stored) => Some(
                        Stored {
                            value: stored.value,
                            live_until: self.ledger.extended(
                                stored.live_until,
                                threshold,
                                extend_to,
                            ),
                        },
                    ),
                    None => None,
                },
                ..self
            },
            DataKeyOf::Payment(reference) => EnvState {
                payments: prolong(self.payments, reference@, self.ledger, threshold, extend_to),
                ..self
            },
            _ => self,
        }
    }

    /// The environment after the host has done one thing, and the journal has
    /// noted it.
    pub open spec fn perform(self, effect: EffectOf<Seq<char>>) -> EnvState {
        let done = match effect {
            EffectOf::Write(entry) => self.written(entry, self.ledger.fresh()),
            EffectOf::Erase(key) => self.erased(key),
            EffectOf::Extend { key, threshold, extend_to } => self.prolonged(
                key,
                threshold,
                extend_to,
            ),
            EffectOf::ExtendInstance { threshold, extend_to } => EnvState {
                instance_live_until: self.ledger.extended(
                    self.instance_live_until,
                    threshold,
                    extend_to,
                ),
                ..self
            },
            EffectOf::Publish(_) => self,
            EffectOf::Upgrade(_) => self,
        };
        EnvState { journal: self.journal.push(effect), ..done }
    }
}

/// The environment of a call.
#[derive(Debug)]
pub struct Env {
    ledger: LedgerInfo,
    signers: Table<Address, ()>,
    fee_configs: Table<Address, Option<FeeConfig>>,
    admin: Option<Address>,
    governance: Option<Address>,
    recovery_address: Option<Address>,
    pending_recovery: Option<PendingRecovery>,
    pending_admin: Option<Address>,
    paused: Option<bool>,
    instance_live_until: u32,
    merchants: Table<Address, Stored<bool>>,
    rules: Table<Address, Stored<SettlementRule>>,
    default_rule: Option<Stored<SettlementRule>>,
    payments: Table<[u8; 32], Stored<PaymentRecord>>,
    journal: Vec<Effect>,
}

/// The text of an address that may be missing.
pub open spec fn text_of(address: Option<Address>) -> Option<Seq<char>> {
    match address {
        Some(address) => Some(address@),
        None => None,
    }
}

fn copy_of(address: &Option<Address>) -> (r: Option<Address>)
    ensures
        text_of(r) == text_of(*address),
{
    match address {
        Some(address) => Some(address.clone()),
        None => None,
    }
}

impl View for Env {
    type V = EnvState;

    closed spec fn view(&self) -> EnvState {
        EnvState {
            ledger: self.ledger,
            signers: self.signers@.dom(),
            fee_configs: self.fee_configs@,
            admin: text_of(self.admin),
            governance: text_of(self.governance),
            recovery_address: text_of(self.recovery_address),
            pending_recovery: match self.pending_recovery {
                Some(pending) => Some(pending@),
                None => None,
            },
            pending_admin: text_of(self.pending_admin),
            paused: self.paused,
            instance_live_until: self.instance_live_until,
            merchants: self.merchants@,
            rules: self.rules@,
            default_rule: self.default_rule,
            payments: self.payments@,
            journal: self.journal@.map_values(|effect: Effect| effect@),
        }
    }
}

impl Env {
    /// The tables have one row to a key, and the ledger is valid.
    pub closed spec fn wf(&self) -> bool {
        &&& self.ledger.valid()
        &&& self.signers.wf()
        &&& self.fee_configs.wf()
        &&& self.merchants.wf()
        &&& self.rules.wf()
        &&& self.payments.wf()
    }

    /// An environment without entries, signers or answers.
    pub fn new(ledger: LedgerInfo) -> (r: Env)
        requires
            ledger.valid(),
        ensures
            r.wf(),
            r@ == EnvState::blank(ledger),
    {
        let r = Env {
            ledger,
            signers: Table::new(),
            fee_configs: Table::new(),
            admin: None,
            governance: None,
            recovery_address: None,
            pending_recovery: None,
            pending_admin: None,
            paused: None,
            instance_live_until: ledger.fresh_live_until(),
            merchants: Table::new(),
            rules: Table::new(),
            default_rule: None,
            payments: Table::new(),
            journal: Vec::new(),
        };
        assert(r@ =~= EnvState::blank(ledger));
        r
    }

    /// The ledger of the call.
    pub fn ledger(&self) -> (r: LedgerInfo)
        requires
            self.wf(),
        ensures
            r == self@.ledger,
            r.valid(),
    {
        self.ledger
    }

    /// Moves on to another call, in `ledger`. Nobody has authorised it yet, and
    /// no contract has been asked.
    pub fn begin_call(&mut self, ledger: LedgerInfo)
        requires
            old(self).wf(),
            ledger.valid(),
        ensures
            final(self).wf(),
            final(self)@ == (EnvState {
                ledger,
                signers: Set::empty(),
                fee_configs: Map::empty(),
                ..old(self)@
            }),
    {
        self.ledger = ledger;
        self.signers = Table::new();
        self.fee_configs = Table::new();
        assert(self@ =~= (EnvState {
            ledger,
            signers: Set::empty(),
            fee_configs: Map::empty(),
            ..old(self)@
        }));
    }

    /// Notes that `address` authorised the call.
    pub fn authorize(&mut self, address: Address)
        requires
            old(self).wf(),
        ensures
            final(self).wf(),
            final(self)@ == (EnvState { signers: old(self)@.signers.insert(address@), ..old(self)@
            }),
    {
        self.signers.set(address, ());
        assert(self@ =~= (EnvState {
            signers: old(self)@.signers.insert(address@),
            ..old(self)@
        }));
    }

    /// Notes what the contract at `address` answered when asked for its fees.
    pub fn answer_fee_config(&mut self, address: Address, config: Option<FeeConfig>)
        requires
            old(self).wf(),
        ensures
            final(self).wf(),
            final(self)@ == (EnvState {
                fee_configs: old(self)@.fee_configs.insert(address@, config),
                ..old(self)@
            }),
    {
        self.fee_configs.set(address, config);
    }

    /// Sets the last ledger of the instance storage, as the host reports it.
    pub fn set_instance_live_until(&mut self, live_until: u32)
        requires
            old(self).wf(),
        ensures
            final(self).wf(),
            final(self)@ == (EnvState { instance_live_until: live_until, ..old(self)@ }),
    {
        self.instance_live_until = live_until;
    }

    /// Takes over an entry that the host holds. A new entry with a lifetime of
    /// its own lives until ledger `live_until`.
    pub fn load(&mut self, entry: &Entry, live_until: u32)
        requires
            old(self).wf(),
        ensures
            final(self).wf(),
            final(self)@ == old(self)@.written(entry@, live_until),
    {
        match entry {
            EntryOf::Admin(admin) => {
                self.admin = Some(admin.clone());
            },
            EntryOf::RecoveryAddress(address) => {
                self.recovery_address = Some(address.clone());
            },
            EntryOf::PendingRecovery { new_admin, execute_after } => {
                self.pending_recovery = Some(
                    PendingRecovery { new_admin: new_admin.clone(), execute_after: *execute_after },
                );
            },
            EntryOf::PendingAdmin(admin) => {
                self.pending_admin = Some(admin.clone());
            },
            EntryOf::Governance(governance) => {
                self.governance = Some(governance.clone());
            },
            EntryOf::Paused(paused) => {
                self.paused = Some(*paused);
            },
            EntryOf::Merchant(merchant, registered) => {
                let live_until: u32 = match self.merchants.get(merchant) {
                    Some(stored) => stored.live_until,
                    None => live_until,
                };
                self.merchants.set(merchant.clone(), Stored { value: *registered, live_until });
            },
            EntryOf::Rule(merchant, rule) => {
                let live_until: u32 = match self.rules.get(merchant) {
                    Some(stored) => stored.live_until,
                    None => live_until,
                };
                self.rules.set(merchant.clone(), Stored { value: *rule, live_until });
            },
            EntryOf::DefaultRule(rule) => {
                let live_until: u32 = match self.default_rule {
                    Some(stored) => stored.live_until,
                    None => live_until,
                };
                self.default_rule = Some(Stored { value: *rule, live_until });
            },
            EntryOf::Payment(reference, record) => {
                let live_until: u32 = match self.payments.get(reference) {
                    Some(stored) => stored.live_until,
                    None => live_until,
                };
                self.payments.set(*reference, Stored { value: *record, live_until });
            },
        }
        assert(self@ =~= old(self)@.written(entry@, live_until));
    }

    fn erase(&mut self, key: &DataKey)
        requires
            old(self).wf(),
        ensures
            final(self).wf(),
            final(self)@ == old(self)@.erased(key@),
    {
        match key {
            DataKeyOf::Admin => {
                self.admin = None;
            },
            DataKeyOf::RecoveryAddress => {
                self.recovery_address = None;
            },
            DataKeyOf::PendingRecovery => {
                self.pending_recovery = None;
            },
            DataKeyOf::PendingAdmin => {
                self.pending_admin = None;
            },
            DataKeyOf::Governance => {
                self.governance = None;
            },
            DataKeyOf::Paused => {
                self.paused = None;
            },
            DataKeyOf::Merchant(merchant) => {
                self.merchants.remove(merchant);
            },
            DataKeyOf::Rule(merchant) => {
                self.rules.remove(merchant);
            },
            DataKeyOf::DefaultRule => {
                self.default_rule = None;
            },
            DataKeyOf::Payment(reference) => {
                self.payments.remove(reference);
            },
        }
        assert(self@ =~= old(self)@.erased(key@));
    }

    fn prolong(&mut self, key: &DataKey, threshold: u32, extend_to: u32)
        requires
            old(self).wf(),
        ensures
            final(self).wf(),
            final(self)@ == old(self)@.prolonged(key@, threshold, extend_to),
    {
        match key {
            DataKeyOf::Merchant(merchant) => {
                if let Some(stored) = self.merchants.get(merchant) {
                    let live_until: u32 = self.ledger.extended_live_until(
                        stored.live_until,
                        threshold,
                        extend_to,
                    );
                    self.merchants.set(
                        merchant.clone(),
                        Stored { value: stored.value, live_until },
                    );
                }
            },
            DataKeyOf::Rule(merchant) => {
                if let Some(stored) = self.rules.get(merchant) {
                    let live_until: u32 = self.ledger.extended_live_until(
                        stored.live_until,
                        threshold,
                        extend_to,
                    );
                    self.rules.set(merchant.clone(), Stored { value: stored.value, live_until });
                }
            },
            DataKeyOf::DefaultRule => {
                if let Some(stored) = self.default_rule {
                    let live_until: u32 = self.ledger.extended_live_until(
                        stored.live_until,
                        threshold,
                        extend_to,
                    );
                    self.default_rule = Some(Stored { value: stored.value, live_until });
                }
            },
            DataKeyOf::Payment(reference) => {
                if let Some(stored) = self.payments.get(reference) {
                    let live_until: u32 = self.ledger.extended_live_until(
                        stored.live_until,
                        threshold,
                        extend_to,
                    );
                    self.payments.set(*reference, Stored { value: stored.value, live_until });
                }
            },
            _ => {},
        }
        assert(self@ =~= old(self)@.prolonged(key@, threshold, extend_to));
    }

    /// Does one thing, and notes it in the journal for the host to do as well.
    pub fn perform(&mut self, effect: Effect)
        requires
            old(self).wf(),
        ensures
            final(self).wf(),
            final(self)@ == old(self)@.perform(effect@),
    {
        let fresh: u32 = self.ledger.fresh_live_until();
        match &effect {
            EffectOf::Write(entry) => {
                self.load(entry, fresh);
            },
            EffectOf::Erase(key) => {
                self.erase(key);
            },
            EffectOf::Extend { key, threshold, extend_to } => {
                self.prolong(key, *threshold, *extend_to);
            },
            EffectOf::ExtendInstance { threshold, extend_to } => {
                self.instance_live_until =
                self.ledger.extended_live_until(self.instance_live_until, *threshold, *extend_to);
            },
            EffectOf::Publish(_) => {},
            EffectOf::Upgrade(_) => {},
        }
        let ghost done = self@;
        self.journal.push(effect);
        assert(self@.journal =~= done.journal.push(effect@));
        assert(self@ =~= (EnvState { journal: done.journal.push(effect@), ..done }));
    }

    /// What the host has to do, in order.
    pub fn journal(&self) -> (r: &Vec<Effect>)
        ensures
            r@.map_values(|effect: Effect| effect@) == self@.journal,
    {
        &self.journal
    }

    /// Whether `address` authorised the call.
    pub fn is_authorized(&self, address: &Address) -> (r: bool)
        requires
            self.wf(),
        ensures
            r == self@.signers.contains(address@),
    {
        self.signers.get(address).is_some()
    }

    /// Whether the contract at `address` answered when asked for its fees.
    pub fn has_fee_config(&self, address: &Address) -> (r: bool)
        requires
            self.wf(),
        ensures
            r == self@.fee_configs.contains_key(address@),
    {
        self.fee_configs.get(address).is_some()
    }

    /// The admin.
    pub fn admin(&self) -> (r: Option<Address>)
        ensures
            text_of(r) == self@.admin,
    {
        copy_of(&self.admin)
    }

    /// The governance contract.
    pub fn governance(&self) -> (r: Option<Address>)
        ensures
            text_of(r) == self@.governance,
    {
        copy_of(&self.governance)
    }

    /// The address that may start a recovery.
    pub fn recovery_address(&self) -> (r: Option<Address>)
        ensures
            text_of(r) == self@.recovery_address,
    {
        copy_of(&self.recovery_address)
    }

    /// The admin who was proposed and has not accepted.
    pub fn pending_admin(&self) -> (r: Option<Address>)
        ensures
            text_of(r) == self@.pending_admin,
    {
        copy_of(&self.pending_admin)
    }

    /// The recovery under way.
    pub fn pending_recovery(&self) -> (r: Option<PendingRecovery>)
        ensures
            match r {
                Some(pending) => self@.pending_recovery == Some(pending@),
                None => self@.pending_recovery is None,
            },
    {
        match &self.pending_recovery {
            Some(pending) => Some(pending.clone()),
            None => None,
        }
    }

    /// The pause flag, once it has been set.
    pub fn paused(&self) -> (r: Option<bool>)
        ensures
            r == self@.paused,
    {
        self.paused
    }

    /// The mark of the merchant, if it has one.
    pub fn merchant(&self, merchant: &Address) -> (r: Option<bool>)
        requires
            self.wf(),
        ensures
            r is Some <==> self@.merchants.contains_key(merchant@),
            r matches Some(registered) ==> registered == self@.merchants[merchant@].value,
    {
        match self.merchants.get(merchant) {
            Some(stored) => Some(stored.value),
            None => None,
        }
    }

    /// The rule of the merchant, if it has its own.
    pub fn rule(&self, merchant: &Address) -> (r: Option<SettlementRule>)
        requires
            self.wf(),
        ensures
            r == self@.rule(merchant@),
    {
        match self.rules.get(merchant) {
            Some(stored) => Some(stored.value),
            None => None,
        }
    }

    /// The global default rule, if one has been set.
    pub fn default_rule(&self) -> (r: Option<SettlementRule>)
        ensures
            r == self@.default(),
    {
        match self.default_rule {
            Some(stored) => Some(stored.value),
            None => None,
        }
    }

    /// The record of the payment, if it is stored.
    pub fn payment(&self, reference: &[u8; 32]) -> (r: Option<PaymentRecord>)
        requires
            self.wf(),
        ensures
            r == self@.payment(*reference),
    {
        match self.payments.get(reference) {
            Some(stored) => Some(stored.value),
            None => None,
        }
    }

    /// The last ledger of the entry, if the key has an entry with a lifetime of
    /// its own.
    pub fn live_until(&self, key: &DataKey) -> (r: Option<u32>)
        requires
            self.wf(),
        ensures
            r == self@.live_until(key@),
    {
        match key {
            DataKeyOf::Merchant(merchant) => match self.merchants.get(merchant) {
                Some(stored) => Some(stored.live_until),
                None => None,
            },
            DataKeyOf::Rule(merchant) => match self.rules.get(merchant) {
                Some(stored) => Some(stored.live_until),
                None => None,
            },
            DataKeyOf::DefaultRule => match self.default_rule {
                Some(stored) => Some(stored.live_until),
                None => None,
            },
            DataKeyOf::Payment(reference) => match self.payments.get(reference) {
                Some(stored) => Some(stored.live_until),
                None => None,
            },
            _ => None,
        }
    }

    /// The last ledger of the instance storage.
    pub fn instance_live_until(&self) -> (r: u32)
        ensures
            r == self@.instance_live_until,
    {
        self.instance_live_until
    }
}

} // verus!
