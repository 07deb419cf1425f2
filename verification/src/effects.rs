//! What a call tells the host to do: write and erase entries, extend their
//! lifetimes, publish events, replace the code.
use crate::address::Address;
use crate::types::{PaymentRecord, SettlementRule};
use vstd::prelude::*;

verus! {

/// The key of a storage entry. `A` is the type addresses have.
///
/// The entries of the first six keys make up the instance storage and share
/// one lifetime. Each of the others has a lifetime of its own.
#[derive(Debug, PartialEq)]
pub enum DataKeyOf<A> {
    /// The admin.
    Admin,
    /// The address that may start a recovery.
    RecoveryAddress,
    /// The recovery under way.
    PendingRecovery,
    /// The admin who was proposed and has not accepted.
    PendingAdmin,
    /// The governance contract.
    Governance,
    /// The pause flag.
    Paused,
    /// The mark of a registered merchant.
    Merchant(A),
    /// The rule of a merchant.
    Rule(A),
    /// The global default rule.
    DefaultRule,
    /// A payment, by its reference.
    Payment([u8; 32]),
}

/// A storage key.
pub type DataKey = DataKeyOf<Address>;

impl View for DataKeyOf<Address> {
    type V = DataKeyOf<Seq<char>>;

    open spec fn view(&self) -> DataKeyOf<Seq<char>> {
        match self {
            DataKeyOf::Admin => DataKeyOf::Admin,
            DataKeyOf::RecoveryAddress => DataKeyOf::RecoveryAddress,
            DataKeyOf::PendingRecovery => DataKeyOf::PendingRecovery,
            DataKeyOf::PendingAdmin => DataKeyOf::PendingAdmin,
            DataKeyOf::Governance => DataKeyOf::Governance,
            DataKeyOf::Paused => DataKeyOf::Paused,
            DataKeyOf::Merchant(merchant) => DataKeyOf::Merchant(merchant@),
            DataKeyOf::Rule(merchant) => DataKeyOf::Rule(merchant@),
            DataKeyOf::DefaultRule => DataKeyOf::DefaultRule,
            DataKeyOf::Payment(reference) => DataKeyOf::Payment(*reference),
        }
    }
}

/// A storage entry: a key with the value kept under it.
#[derive(Debug, PartialEq)]
pub enum EntryOf<A> {
    /// The admin.
    Admin(A),
    /// The address that may start a recovery.
    RecoveryAddress(A),
    /// The recovery under way.
    PendingRecovery {
        /// Who is to become admin.
        new_admin: A,
        /// The earliest time of execution.
        execute_after: u64,
    },
    /// The admin who was proposed and has not accepted.
    PendingAdmin(A),
    /// The governance contract.
    Governance(A),
    /// The pause flag.
    Paused(bool),
    /// A merchant, and whether it is registered.
    Merchant(A, bool),
    /// The rule of a merchant.
    Rule(A, SettlementRule),
    /// The global default rule.
    DefaultRule(SettlementRule),
    /// A payment.
    Payment([u8; 32], PaymentRecord),
}

/// A storage entry.
pub type Entry = EntryOf<Address>;

impl View for EntryOf<Address> {
    type V = EntryOf<Seq<char>>;

    open spec fn view(&self) -> EntryOf<Seq<char>> {
        match self {
            EntryOf::Admin(admin) => EntryOf::Admin(admin@),
            EntryOf::RecoveryAddress(address) => EntryOf::RecoveryAddress(address@),
            EntryOf::PendingRecovery { new_admin, execute_after } => EntryOf::PendingRecovery {
                new_admin: new_admin@,
                execute_after: *execute_after,
            },
            EntryOf::PendingAdmin(admin) => EntryOf::PendingAdmin(admin@),
            EntryOf::Governance(governance) => EntryOf::Governance(governance@),
            EntryOf::Paused(paused) => EntryOf::Paused(*paused),
            EntryOf::Merchant(merchant, registered) => EntryOf::Merchant(merchant@, *registered),
            EntryOf::Rule(merchant, rule) => EntryOf::Rule(merchant@, *rule),
            EntryOf::DefaultRule(rule) => EntryOf::DefaultRule(*rule),
            EntryOf::Payment(reference, record) => EntryOf::Payment(*reference, *record),
        }
    }
}

/// An event of the contract.
#[derive(Debug, PartialEq)]
pub enum EventOf<A> {
    /// The contract got its first admin.
    Initialized {
        /// The admin.
        admin: A,
    },
    /// The governance contract changed.
    GovernanceUpdated {
        /// The admin who changed it.
        admin: A,
        /// The new governance contract.
        governance: A,
    },
    /// A recovery was started.
    RecoveryInitiated {
        /// Who started it.
        recovery_address: A,
        /// Who is to become admin.
        new_admin: A,
        /// The earliest time of execution.
        execute_after: u64,
    },
    /// The pending recovery was cancelled.
    RecoveryCancelled {
        /// The admin who cancelled it.
        admin: A,
    },
    /// The pending recovery was executed.
    RecoveryExecuted {
        /// The new admin.
        new_admin: A,
    },
    /// The admin role moved.
    Admin {
        /// The new admin.
        new_admin: A,
    },
    /// The code of the contract was replaced.
    ContractUpgraded {
        /// The hash of the new code.
        wasm_hash: [u8; 32],
        /// The admin who replaced it.
        admin: A,
    },
    /// The contract was paused.
    Pause,
    /// The contract was unpaused.
    Unpause,
    /// A merchant was registered.
    MerchantRegistered {
        /// The merchant.
        merchant: A,
        /// The admin who registered it.
        admin: A,
    },
    /// A merchant was taken out of the register.
    MerchantUnregistered {
        /// The merchant.
        merchant: A,
        /// The admin who took it out.
        admin: A,
    },
    /// A merchant got a rule of its own.
    SettlementRuleUpdated {
        /// The merchant.
        merchant: A,
        /// The admin who set the rule.
        admin: A,
        /// The rule in force before.
        previous: SettlementRule,
        /// The rule now in force.
        current: SettlementRule,
    },
    /// The rule of a merchant was taken back.
    SettlementRuleCleared {
        /// The merchant.
        merchant: A,
        /// The admin who took it back.
        admin: A,
        /// The rule that was taken back.
        removed: SettlementRule,
        /// The rule now in force.
        fallback: SettlementRule,
    },
    /// The global default rule changed.
    DefaultRuleUpdated {
        /// The admin who changed it.
        admin: A,
        /// The default before.
        previous: SettlementRule,
        /// The new default.
        current: SettlementRule,
    },
    /// A rule was looked up before any had been set.
    BootstrapFallback {
        /// The rule used in its place.
        rule: SettlementRule,
    },
    /// A payment was stored.
    PaymentStored {
        /// The merchant who was paid.
        merchant: A,
        /// The reference of the payment.
        reference: [u8; 32],
        /// The record, with the whole split.
        record: PaymentRecord,
    },
}

/// An event of the contract.
pub type Event = EventOf<Address>;

impl View for EventOf<Address> {
    type V = EventOf<Seq<char>>;

    open spec fn view(&self) -> EventOf<Seq<char>> {
        match self {
            EventOf::Initialized { admin } => EventOf::Initialized {
                admin: admin@,
            },
            EventOf::GovernanceUpdated { admin, governance } => EventOf::GovernanceUpdated {
                admin: admin@,
                governance: governance@,
            },
            EventOf::RecoveryInitiated { recovery_address, new_admin, execute_after } =>
                EventOf::RecoveryInitiated {
                    recovery_address: recovery_address@,
                    new_admin: new_admin@,
                    execute_after: *execute_after,
                },
            EventOf::RecoveryCancelled { admin } => EventOf::RecoveryCancelled {
                admin: admin@,
            },
            EventOf::RecoveryExecuted { new_admin } => EventOf::RecoveryExecuted {
                new_admin: new_admin@,
            },
            EventOf::Admin { new_admin } => EventOf::Admin {
                new_admin: new_admin@,
            },
            EventOf::ContractUpgraded { wasm_hash, admin } => EventOf::ContractUpgraded {
                wasm_hash: *wasm_hash,
                admin: admin@,
            },
            EventOf::Pause => EventOf::Pause,
            EventOf::Unpause => EventOf::Unpause,
            EventOf::MerchantRegistered { merchant, admin } => EventOf::MerchantRegistered {
                merchant: merchant@,
                admin: admin@,
            },
            EventOf::MerchantUnregistered { merchant, admin } => EventOf::MerchantUnregistered {
                merchant: merchant@,
                admin: admin@,
            },
            EventOf::SettlementRuleUpdated { merchant, admin, previous, current } =>
                EventOf::SettlementRuleUpdated {
                    merchant: merchant@,
                    admin: admin@,
                    previous: *previous,
                    current: *current,
                },
            EventOf::SettlementRuleCleared { merchant, admin, removed, fallback } =>
                EventOf::SettlementRuleCleared {
                    merchant: merchant@,
                    admin: admin@,
                    removed: *removed,
                    fallback: *fallback,
                },
            EventOf::DefaultRuleUpdated { admin, previous, current } =>
                EventOf::DefaultRuleUpdated {
                    admin: admin@,
                    previous: *previous,
                    current: *current,
                },
            EventOf::BootstrapFallback { rule } => EventOf::BootstrapFallback {
                rule: *rule,
            },
            EventOf::PaymentStored { merchant, reference, record } => EventOf::PaymentStored {
                merchant: merchant@,
                reference: *reference,
                record: *record,
            },
        }
    }
}

/// What an event can be filtered by.
#[derive(Debug, PartialEq)]
pub enum Topic {
    /// The name of the event.
    Name(String),
    /// The address the event is about.
    Address(Address),
    /// The hash the event is about.
    Hash([u8; 32]),
}

/// A [`Topic`] with texts for addresses.
pub enum TopicView {
    /// The name of the event.
    Name(Seq<char>),
    /// The address the event is about.
    Address(Seq<char>),
    /// The hash the event is about.
    Hash([u8; 32]),
}

impl View for Topic {
    type V = TopicView;

    open spec fn view(&self) -> TopicView {
        match self {
            Topic::Name(name) => TopicView::Name(name@),
            Topic::Address(address) => TopicView::Address(address@),
            Topic::Hash(hash) => TopicView::Hash(*hash),
        }
    }
}

/// What an event carries.
#[derive(Debug, PartialEq)]
pub enum Datum {
    /// An address: who made the call, or who got a role.
    Address(Address),
    /// A time, in seconds.
    Time(u64),
    /// A flag.
    Flag(bool),
    /// A settlement rule.
    Rule(SettlementRule),
    /// The reference of a payment.
    Reference([u8; 32]),
    /// The record of a payment.
    Record(PaymentRecord),
}

/// A [`Datum`] with texts for addresses.
pub enum DatumView {
    /// An address: who made the call, or who got a role.
    Address(Seq<char>),
    /// A time, in seconds.
    Time(u64),
    /// A flag.
    Flag(bool),
    /// A settlement rule.
    Rule(SettlementRule),
    /// The reference of a payment.
    Reference([u8; 32]),
    /// The record of a payment.
    Record(PaymentRecord),
}

impl View for Datum {
    type V = DatumView;

    open spec fn view(&self) -> DatumView {
        match self {
            Datum::Address(address) => DatumView::Address(address@),
            Datum::Time(time) => DatumView::Time(*time),
            Datum::Flag(flag) => DatumView::Flag(*flag),
            Datum::Rule(rule) => DatumView::Rule(*rule),
            Datum::Reference(reference) => DatumView::Reference(*reference),
            Datum::Record(record) => DatumView::Record(*record),
        }
    }
}

impl EventOf<Seq<char>> {
    /// The name of the event.
    pub open spec fn name(self) -> Seq<char> {
        match self {
            EventOf::Initialized { .. } => "initialized"@,
            EventOf::GovernanceUpdated { .. } => "governance_updated"@,
            EventOf::RecoveryInitiated { .. } => "recovery_initiated"@,
            EventOf::RecoveryCancelled { .. } => "recovery_cancelled"@,
            EventOf::RecoveryExecuted { .. } => "recovery_executed"@,
            EventOf::Admin { .. } => "admin"@,
            EventOf::ContractUpgraded { .. } => "contract_upgraded"@,
            EventOf::Pause => "pause"@,
            EventOf::Unpause => "unpause"@,
            EventOf::MerchantRegistered { .. } => "merchant_registered"@,
            EventOf::MerchantUnregistered { .. } => "merchant_unregistered"@,
            EventOf::SettlementRuleUpdated { .. } => "settlement_rule_updated"@,
            EventOf::SettlementRuleCleared { .. } => "settlement_rule_cleared"@,
            EventOf::DefaultRuleUpdated { .. } => "default_rule_updated"@,
            EventOf::BootstrapFallback { .. } => "bootstrap_fallback"@,
            EventOf::PaymentStored { .. } => "payment_stored"@,
        }
    }

    /// The topics of the event: its name, then what it is about, if anything.
    pub open spec fn topics(self) -> Seq<TopicView> {
        let name = TopicView::Name(self.name());
        match self {
            EventOf::ContractUpgraded { wasm_hash, .. } => seq![name, TopicView::Hash(wasm_hash)],
            EventOf::MerchantRegistered { merchant, .. } => seq![
                name,
                TopicView::Address(merchant),
            ],
            EventOf::MerchantUnregistered { merchant, .. } => seq![
                name,
                TopicView::Address(merchant),
            ],
            EventOf::SettlementRuleUpdated { merchant, .. } => seq![
                name,
                TopicView::Address(merchant),
            ],
            EventOf::SettlementRuleCleared { merchant, .. } => seq![
                name,
                TopicView::Address(merchant),
            ],
            EventOf::PaymentStored { merchant, .. } => seq![name, TopicView::Address(merchant)],
            _ => seq![name],
        }
    }

    /// The data of the event, in order: a single datum by itself, several as a
    /// tuple.
    pub open spec fn data(self) -> Seq<DatumView> {
        match self {
            EventOf::Initialized { admin } => seq![DatumView::Address(admin)],
            EventOf::GovernanceUpdated { admin, governance } => seq![
                DatumView::Address(admin),
                DatumView::Address(governance),
            ],
            EventOf::RecoveryInitiated { recovery_address, new_admin, execute_after } => seq![
                DatumView::Address(recovery_address),
                DatumView::Address(new_admin),
                DatumView::Time(execute_after),
            ],
            EventOf::RecoveryCancelled { admin } => seq![DatumView::Address(admin)],
            EventOf::RecoveryExecuted { new_admin } => seq![DatumView::Address(new_admin)],
            EventOf::Admin { new_admin } => seq![DatumView::Address(new_admin)],
            EventOf::ContractUpgraded { admin, .. } => seq![DatumView::Address(admin)],
            EventOf::Pause => seq![DatumView::Flag(true)],
            EventOf::Unpause => seq![DatumView::Flag(false)],
            EventOf::MerchantRegistered { admin, .. } => seq![DatumView::Address(admin)],
            EventOf::MerchantUnregistered { admin, .. } => seq![DatumView::Address(admin)],
            EventOf::SettlementRuleUpdated { admin, previous, current, .. } => seq![
                DatumView::Address(admin),
                DatumView::Rule(previous),
                DatumView::Rule(current),
            ],
            EventOf::SettlementRuleCleared { admin, removed, fallback, .. } => seq![
                DatumView::Address(admin),
                DatumView::Rule(removed),
                DatumView::Rule(fallback),
            ],
            EventOf::DefaultRuleUpdated { admin, previous, current } => seq![
                DatumView::Address(admin),
                DatumView::Rule(previous),
                DatumView::Rule(current),
            ],
            EventOf::BootstrapFallback { rule } => seq![DatumView::Rule(rule)],
            EventOf::PaymentStored { reference, record, .. } => seq![
                DatumView::Reference(reference),
                DatumView::Record(record),
            ],
        }
    }
}

impl EventOf<Address> {
    /// The name of the event.
    pub fn name(&self) -> (r: String)
        ensures
            r@ == self@.name(),
    {
        match self {
            EventOf::Initialized { .. } => "initialized".to_owned(),
            EventOf::GovernanceUpdated { .. } => "governance_updated".to_owned(),
            EventOf::RecoveryInitiated { .. } => "recovery_initiated".to_owned(),
            EventOf::RecoveryCancelled { .. } => "recovery_cancelled".to_owned(),
            EventOf::RecoveryExecuted { .. } => "recovery_executed".to_owned(),
            EventOf::Admin { .. } => "admin".to_owned(),
            EventOf::ContractUpgraded { .. } => "contract_upgraded".to_owned(),
            EventOf::Pause => "pause".to_owned(),
            EventOf::Unpause => "unpause".to_owned(),
            EventOf::MerchantRegistered { .. } => "merchant_registered".to_owned(),
            EventOf::MerchantUnregistered { .. } => "merchant_unregistered".to_owned(),
            EventOf::SettlementRuleUpdated { .. } => "settlement_rule_updated".to_owned(),
            EventOf::SettlementRuleCleared { .. } => "settlement_rule_cleared".to_owned(),
            EventOf::DefaultRuleUpdated { .. } => "default_rule_updated".to_owned(),
            EventOf::BootstrapFallback { .. } => "bootstrap_fallback".to_owned(),
            EventOf::PaymentStored { .. } => "payment_stored".to_owned(),
        }
    }

    /// The topics of the event: its name, then what it is about, if anything.
    pub fn topics(&self) -> (r: Vec<Topic>)
        ensures
            r@.map_values(|topic: Topic| topic@) == self@.topics(),
    {
        let mut topics: Vec<Topic> = Vec::new();
        topics.push(Topic::Name(self.name()));
        match self {
            EventOf::ContractUpgraded { wasm_hash, .. } => topics.push(Topic::Hash(*wasm_hash)),
            EventOf::MerchantRegistered { merchant, .. } => topics.push(
                Topic::Address(merchant.clone()),
            ),
            EventOf::MerchantUnregistered { merchant, .. } => topics.push(
                Topic::Address(merchant.clone()),
            ),
            EventOf::SettlementRuleUpdated { merchant, .. } => topics.push(
                Topic::Address(merchant.clone()),
            ),
            EventOf::SettlementRuleCleared { merchant, .. } => topics.push(
                Topic::Address(merchant.clone()),
            ),
            EventOf::PaymentStored { merchant, .. } => topics.push(
                Topic::Address(merchant.clone()),
            ),
            _ => {},
        }
        assert(topics@.map_values(|topic: Topic| topic@) =~= self@.topics());
        topics
    }

    /// The data of the event, in order: a single datum by itself, several as a
    /// tuple.
    pub fn data(&self) -> (r: Vec<Datum>)
        ensures
            r@.map_values(|datum: Datum| datum@) == self@.data(),
    {
        let mut data: Vec<Datum> = Vec::new();
        match self {
            EventOf::Initialized { admin } => {
                data.push(Datum::Address(admin.clone()));
            },
            EventOf::GovernanceUpdated { admin, governance } => {
                data.push(Datum::Address(admin.clone()));
                data.push(Datum::Address(governance.clone()));
            },
            EventOf::RecoveryInitiated { recovery_address, new_admin, execute_after } => {
                data.push(Datum::Address(recovery_address.clone()));
                data.push(Datum::Address(new_admin.clone()));
                data.push(Datum::Time(*execute_after));
            },
            EventOf::RecoveryCancelled { admin } => {
                data.push(Datum::Address(admin.clone()));
            },
            EventOf::RecoveryExecuted { new_admin } => {
                data.push(Datum::Address(new_admin.clone()));
            },
            EventOf::Admin { new_admin } => {
                data.push(Datum::Address(new_admin.clone()));
            },
            EventOf::ContractUpgraded { admin, .. } => {
                data.push(Datum::Address(admin.clone()));
            },
            EventOf::Pause => {
                data.push(Datum::Flag(true));
            },
            EventOf::Unpause => {
                data.push(Datum::Flag(false));
            },
            EventOf::MerchantRegistered { admin, .. } => {
                data.push(Datum::Address(admin.clone()));
            },
            EventOf::MerchantUnregistered { admin, .. } => {
                data.push(Datum::Address(admin.clone()));
            },
            EventOf::SettlementRuleUpdated { admin, previous, current, .. } => {
                data.push(Datum::Address(admin.clone()));
                data.push(Datum::Rule(*previous));
                data.push(Datum::Rule(*current));
            },
            EventOf::SettlementRuleCleared { admin, removed, fallback, .. } => {
                data.push(Datum::Address(admin.clone()));
                data.push(Datum::Rule(*removed));
                data.push(Datum::Rule(*fallback));
            },
            EventOf::DefaultRuleUpdated { admin, previous, current } => {
                data.push(Datum::Address(admin.clone()));
                data.push(Datum::Rule(*previous));
                data.push(Datum::Rule(*current));
            },
            EventOf::BootstrapFallback { rule } => {
                data.push(Datum::Rule(*rule));
            },
            EventOf::PaymentStored { reference, record, .. } => {
                data.push(Datum::Reference(*reference));
                data.push(Datum::Record(*record));
            },
        }
        assert(data@.map_values(|datum: Datum| datum@) =~= self@.data());
        data
    }
}

/// One thing the host has to do.
#[derive(Debug, PartialEq)]
pub enum EffectOf<A> {
    /// Write an entry, in place of what its key held.
    Write(EntryOf<A>),
    /// Erase the entry of a key, if it has one.
    Erase(DataKeyOf<A>),
    /// Extend the lifetime of an entry that has `threshold` ledgers left, or
    /// less, to `extend_to` ledgers from now.
    Extend {
        /// The key of the entry.
        key: DataKeyOf<A>,
        /// The lifetime at which the extension takes effect.
        threshold: u32,
        /// The lifetime the entry gets.
        extend_to: u32,
    },
    /// Extend the lifetime of the instance storage in the same way.
    ExtendInstance {
        /// The lifetime at which the extension takes effect.
        threshold: u32,
        /// The lifetime the instance storage gets.
        extend_to: u32,
    },
    /// Publish an event.
    Publish(EventOf<A>),
    /// Run the code with this hash from the next call on.
    Upgrade([u8; 32]),
}

/// One thing the host has to do.
pub type Effect = EffectOf<Address>;

impl View for EffectOf<Address> {
    type V = EffectOf<Seq<char>>;

    open spec fn view(&self) -> EffectOf<Seq<char>> {
        match self {
            EffectOf::Write(entry) => EffectOf::Write(entry@),
            EffectOf::Erase(key) => EffectOf::Erase(key@),
            EffectOf::Extend { key, threshold, extend_to } => EffectOf::Extend {
                key: key@,
                threshold: *threshold,
                extend_to: *extend_to,
            },
            EffectOf::ExtendInstance { threshold, extend_to } => EffectOf::ExtendInstance {
                threshold: *threshold,
                extend_to: *extend_to,
            },
            EffectOf::Publish(event) => EffectOf::Publish(event@),
            EffectOf::Upgrade(hash) => EffectOf::Upgrade(*hash),
        }
    }
}

} // verus!
