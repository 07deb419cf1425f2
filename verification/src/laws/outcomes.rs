//! What each accepted call leaves behind: every field of the environment that
//! it changes, and that it changes no other.
use crate::effects::{DataKeyOf, EffectOf, EntryOf, EventOf};
use crate::env::{EnvState, Stored};
use crate::fees;
use crate::types::{
    SettlementRule, INSTANCE_TTL_BUMP, INSTANCE_TTL_THRESHOLD, MERCHANT_TTL_BUMP,
    MERCHANT_TTL_THRESHOLD, PAYMENT_TTL_BUMP, PAYMENT_TTL_THRESHOLD, RECOVERY_DELAY_SECONDS,
    RULE_TTL_BUMP, RULE_TTL_THRESHOLD,
};
use vstd::prelude::*;

verus! {

/// Reading one of the three roles extends the life of the instance storage, and
/// does nothing else.
pub proof fn law_reading_a_role(state: EnvState)
    ensures
        state.touch_instance() == (EnvState {
            instance_live_until: state.ledger.extended(state.instance_live_until, 50_000, 100_000),
            journal: state.journal.push(
                EffectOf::ExtendInstance { threshold: 50_000, extend_to: 100_000 },
            ),
            ..state
        }),
{
}

/// `init` installs the three it was given, each in its own role, and announces
/// the admin.
pub proof fn law_init_outcome(
    state: EnvState,
    admin: Seq<char>,
    governance: Seq<char>,
    recovery_address: Seq<char>,
)
    ensures
        ({
            let after = state.after_init(admin, governance, recovery_address);
            &&& after.admin == Some(admin)
            &&& after.governance == Some(governance)
            &&& after.recovery_address == Some(recovery_address)
            &&& after == EnvState {
                admin: Some(admin),
                governance: Some(governance),
                recovery_address: Some(recovery_address),
                journal: state.journal + seq![
                    EffectOf::Write(EntryOf::Admin(admin)),
                    EffectOf::Write(EntryOf::Governance(governance)),
                    EffectOf::Write(EntryOf::RecoveryAddress(recovery_address)),
                    EffectOf::Publish(EventOf::Initialized { admin }),
                ],
                ..state
            }
        }),
{
    let after = state.after_init(admin, governance, recovery_address);
    assert(after.journal =~= state.journal + seq![
        EffectOf::Write(EntryOf::Admin(admin)),
        EffectOf::Write(EntryOf::Governance(governance)),
        EffectOf::Write(EntryOf::RecoveryAddress(recovery_address)),
        EffectOf::Publish(EventOf::Initialized { admin }),
    ]);
}

/// `update_governance` replaces the governance contract, and announces it.
pub proof fn law_update_governance_outcome(state: EnvState, new_governance: Seq<char>)
    ensures
        ({
            let after = state.after_update_governance(new_governance);
            after == EnvState {
                governance: Some(new_governance),
                instance_live_until: state.ledger.extended(
                    state.instance_live_until,
                    INSTANCE_TTL_THRESHOLD,
                    INSTANCE_TTL_BUMP,
                ),
                journal: state.journal + seq![
                    EffectOf::ExtendInstance {
                        threshold: INSTANCE_TTL_THRESHOLD,
                        extend_to: INSTANCE_TTL_BUMP,
                    },
                    EffectOf::Write(EntryOf::Governance(new_governance)),
                    EffectOf::Publish(
                        EventOf::GovernanceUpdated {
                            admin: state.admin.unwrap(),
                            governance: new_governance,
                        },
                    ),
                ],
                ..state
            }
        }),
{
    assert(state.after_update_governance(new_governance).journal =~= state.journal + seq![
        EffectOf::ExtendInstance {
            threshold: INSTANCE_TTL_THRESHOLD,
            extend_to: INSTANCE_TTL_BUMP,
        },
        EffectOf::Write(EntryOf::Governance(new_governance)),
        EffectOf::Publish(
            EventOf::GovernanceUpdated {
                admin: state.admin.unwrap(),
                governance: new_governance,
            },
        ),
    ]);
}

/// `initiate_recovery` puts a recovery under way that names the new admin and
/// may be executed seven days from now, and announces both with the address
/// that started it.
pub proof fn law_initiate_recovery_outcome(state: EnvState, new_admin: Seq<char>)
    requires
        state.ledger.timestamp + RECOVERY_DELAY_SECONDS <= u64::MAX,
    ensures
        ({
            let after = state.after_initiate_recovery(new_admin);
            let execute_after = (state.ledger.timestamp + 604_800) as u64;
            &&& after.pending_recovery is Some
            &&& after.pending_recovery.unwrap().new_admin == new_admin
            &&& after.pending_recovery.unwrap().execute_after == state.ledger.timestamp + 604_800
            &&& after == EnvState {
                pending_recovery: after.pending_recovery,
                instance_live_until: state.ledger.extended(
                    state.instance_live_until,
                    INSTANCE_TTL_THRESHOLD,
                    INSTANCE_TTL_BUMP,
                ),
                journal: state.journal + seq![
                    EffectOf::ExtendInstance {
                        threshold: INSTANCE_TTL_THRESHOLD,
                        extend_to: INSTANCE_TTL_BUMP,
                    },
                    EffectOf::Write(EntryOf::PendingRecovery { new_admin, execute_after }),
                    EffectOf::Publish(
                        EventOf::RecoveryInitiated {
                            recovery_address: state.recovery_address.unwrap(),
                            new_admin,
                            execute_after,
                        },
                    ),
                ],
                ..state
            }
        }),
{
    let execute_after = (state.ledger.timestamp + 604_800) as u64;
    assert(state.after_initiate_recovery(new_admin).journal =~= state.journal + seq![
        EffectOf::ExtendInstance {
            threshold: INSTANCE_TTL_THRESHOLD,
            extend_to: INSTANCE_TTL_BUMP,
        },
        EffectOf::Write(EntryOf::PendingRecovery { new_admin, execute_after }),
        EffectOf::Publish(
            EventOf::RecoveryInitiated {
                recovery_address: state.recovery_address.unwrap(),
                new_admin,
                execute_after,
            },
        ),
    ]);
}

/// `cancel_recovery` ends the recovery and leaves the admin.
pub proof fn law_cancel_recovery_outcome(state: EnvState)
    ensures
        ({
            let after = state.after_cancel_recovery();
            after == EnvState {
                pending_recovery: None,
                instance_live_until: state.ledger.extended(
                    state.instance_live_until,
                    INSTANCE_TTL_THRESHOLD,
                    INSTANCE_TTL_BUMP,
                ),
                journal: state.journal + seq![
                    EffectOf::ExtendInstance {
                        threshold: INSTANCE_TTL_THRESHOLD,
                        extend_to: INSTANCE_TTL_BUMP,
                    },
                    EffectOf::Erase(DataKeyOf::PendingRecovery),
                    EffectOf::Publish(EventOf::RecoveryCancelled { admin: state.admin.unwrap() }),
                ],
                ..state
            }
        }),
{
    assert(state.after_cancel_recovery().journal =~= state.journal + seq![
        EffectOf::ExtendInstance {
            threshold: INSTANCE_TTL_THRESHOLD,
            extend_to: INSTANCE_TTL_BUMP,
        },
        EffectOf::Erase(DataKeyOf::PendingRecovery),
        EffectOf::Publish(EventOf::RecoveryCancelled { admin: state.admin.unwrap() }),
    ]);
}

/// `execute_recovery` makes the one the recovery named admin, and ends it. The
/// other roles, a proposal and the life of the instance storage stay.
pub proof fn law_execute_recovery_outcome(state: EnvState)
    requires
        state.pending_recovery is Some,
    ensures
        ({
            let new_admin = state.pending_recovery.unwrap().new_admin;
            state.after_execute_recovery() == EnvState {
                admin: Some(new_admin),
                pending_recovery: None,
                journal: state.journal + seq![
                    EffectOf::Write(EntryOf::Admin(new_admin)),
                    EffectOf::Erase(DataKeyOf::PendingRecovery),
                    EffectOf::Publish(EventOf::RecoveryExecuted { new_admin }),
                ],
                ..state
            }
        }),
{
    let new_admin = state.pending_recovery.unwrap().new_admin;
    assert(state.after_execute_recovery().journal =~= state.journal + seq![
        EffectOf::Write(EntryOf::Admin(new_admin)),
        EffectOf::Erase(DataKeyOf::PendingRecovery),
        EffectOf::Publish(EventOf::RecoveryExecuted { new_admin }),
    ]);
}

/// `transfer_admin` makes the new admin the admin, and drops a proposal.
pub proof fn law_transfer_admin_outcome(state: EnvState, new_admin: Seq<char>)
    ensures
        ({
            let after = state.after_transfer_admin(new_admin);
            after == EnvState {
                admin: Some(new_admin),
                pending_admin: None,
                instance_live_until: state.ledger.extended(
                    state.instance_live_until,
                    INSTANCE_TTL_THRESHOLD,
                    INSTANCE_TTL_BUMP,
                ),
                journal: state.journal + seq![
                    EffectOf::ExtendInstance {
                        threshold: INSTANCE_TTL_THRESHOLD,
                        extend_to: INSTANCE_TTL_BUMP,
                    },
                    EffectOf::Write(EntryOf::Admin(new_admin)),
                    EffectOf::Erase(DataKeyOf::PendingAdmin),
                    EffectOf::Publish(EventOf::Admin { new_admin }),
                ],
                ..state
            }
        }),
{
    assert(state.after_transfer_admin(new_admin).journal =~= state.journal + seq![
        EffectOf::ExtendInstance {
            threshold: INSTANCE_TTL_THRESHOLD,
            extend_to: INSTANCE_TTL_BUMP,
        },
        EffectOf::Write(EntryOf::Admin(new_admin)),
        EffectOf::Erase(DataKeyOf::PendingAdmin),
        EffectOf::Publish(EventOf::Admin { new_admin }),
    ]);
}

/// `propose_admin` notes who is proposed and leaves the admin. It announces nothing.
pub proof fn law_propose_admin_outcome(state: EnvState, new_admin: Seq<char>)
    ensures
        ({
            let after = state.after_propose_admin(new_admin);
            after == EnvState {
                pending_admin: Some(new_admin),
                instance_live_until: state.ledger.extended(
                    state.instance_live_until,
                    INSTANCE_TTL_THRESHOLD,
                    INSTANCE_TTL_BUMP,
                ),
                journal: state.journal + seq![
                    EffectOf::ExtendInstance {
                        threshold: INSTANCE_TTL_THRESHOLD,
                        extend_to: INSTANCE_TTL_BUMP,
                    },
                    EffectOf::Write(EntryOf::PendingAdmin(new_admin)),
                ],
                ..state
            }
        }),
{
    assert(state.after_propose_admin(new_admin).journal =~= state.journal + seq![
        EffectOf::ExtendInstance {
            threshold: INSTANCE_TTL_THRESHOLD,
            extend_to: INSTANCE_TTL_BUMP,
        },
        EffectOf::Write(EntryOf::PendingAdmin(new_admin)),
    ]);
}

/// `accept_admin` makes the one who was proposed admin, and drops the proposal.
pub proof fn law_accept_admin_outcome(state: EnvState)
    requires
        state.pending_admin is Some,
    ensures
        ({
            let new_admin = state.pending_admin.unwrap();
            state.after_accept_admin() == EnvState {
                admin: Some(new_admin),
                pending_admin: None,
                journal: state.journal + seq![
                    EffectOf::Write(EntryOf::Admin(new_admin)),
                    EffectOf::Erase(DataKeyOf::PendingAdmin),
                    EffectOf::Publish(EventOf::Admin { new_admin }),
                ],
                ..state
            }
        }),
{
    let new_admin = state.pending_admin.unwrap();
    assert(state.after_accept_admin().journal =~= state.journal + seq![
        EffectOf::Write(EntryOf::Admin(new_admin)),
        EffectOf::Erase(DataKeyOf::PendingAdmin),
        EffectOf::Publish(EventOf::Admin { new_admin }),
    ]);
}

/// `cancel_admin_transfer` drops the proposal. It announces nothing.
pub proof fn law_cancel_admin_transfer_outcome(state: EnvState)
    ensures
        ({
            let after = state.after_cancel_admin_transfer();
            after == EnvState {
                pending_admin: None,
                instance_live_until: state.ledger.extended(
                    state.instance_live_until,
                    INSTANCE_TTL_THRESHOLD,
                    INSTANCE_TTL_BUMP,
                ),
                journal: state.journal + seq![
                    EffectOf::ExtendInstance {
                        threshold: INSTANCE_TTL_THRESHOLD,
                        extend_to: INSTANCE_TTL_BUMP,
                    },
                    EffectOf::Erase(DataKeyOf::PendingAdmin),
                ],
                ..state
            }
        }),
{
    assert(state.after_cancel_admin_transfer().journal =~= state.journal + seq![
        EffectOf::ExtendInstance {
            threshold: INSTANCE_TTL_THRESHOLD,
            extend_to: INSTANCE_TTL_BUMP,
        },
        EffectOf::Erase(DataKeyOf::PendingAdmin),
    ]);
}

/// `upgrade` announces the hash it was given, and then asks for that code.
pub proof fn law_upgrade_outcome(state: EnvState, new_wasm_hash: [u8; 32])
    ensures
        ({
            let after = state.after_upgrade(new_wasm_hash);
            after == EnvState {
                instance_live_until: state.ledger.extended(
                    state.instance_live_until,
                    INSTANCE_TTL_THRESHOLD,
                    INSTANCE_TTL_BUMP,
                ),
                journal: state.journal + seq![
                    EffectOf::ExtendInstance {
                        threshold: INSTANCE_TTL_THRESHOLD,
                        extend_to: INSTANCE_TTL_BUMP,
                    },
                    EffectOf::Publish(
                        EventOf::ContractUpgraded {
                            wasm_hash: new_wasm_hash,
                            admin: state.admin.unwrap(),
                        },
                    ),
                    EffectOf::Upgrade(new_wasm_hash),
                ],
                ..state
            }
        }),
{
    assert(state.after_upgrade(new_wasm_hash).journal =~= state.journal + seq![
        EffectOf::ExtendInstance {
            threshold: INSTANCE_TTL_THRESHOLD,
            extend_to: INSTANCE_TTL_BUMP,
        },
        EffectOf::Publish(
            EventOf::ContractUpgraded {
                wasm_hash: new_wasm_hash,
                admin: state.admin.unwrap(),
            },
        ),
        EffectOf::Upgrade(new_wasm_hash),
    ]);
}

/// `pause` sets the pause flag, and nothing else that is stored.
pub proof fn law_pause_outcome(state: EnvState)
    ensures
        ({
            let after = state.after_pause();
            after == EnvState {
                paused: Some(true),
                instance_live_until: state.ledger.extended(
                    state.instance_live_until,
                    INSTANCE_TTL_THRESHOLD,
                    INSTANCE_TTL_BUMP,
                ),
                journal: state.journal + seq![
                    EffectOf::ExtendInstance {
                        threshold: INSTANCE_TTL_THRESHOLD,
                        extend_to: INSTANCE_TTL_BUMP,
                    },
                    EffectOf::Write(EntryOf::Paused(true)),
                    EffectOf::Publish(EventOf::Pause),
                ],
                ..state
            }
        }),
{
    assert(state.after_pause().journal =~= state.journal + seq![
        EffectOf::ExtendInstance {
            threshold: INSTANCE_TTL_THRESHOLD,
            extend_to: INSTANCE_TTL_BUMP,
        },
        EffectOf::Write(EntryOf::Paused(true)),
        EffectOf::Publish(EventOf::Pause),
    ]);
}

/// `unpause` takes the pause flag back, and changes nothing else that is stored.
pub proof fn law_unpause_outcome(state: EnvState)
    ensures
        ({
            let after = state.after_unpause();
            after == EnvState {
                paused: Some(false),
                instance_live_until: state.ledger.extended(
                    state.instance_live_until,
                    INSTANCE_TTL_THRESHOLD,
                    INSTANCE_TTL_BUMP,
                ),
                journal: state.journal + seq![
                    EffectOf::ExtendInstance {
                        threshold: INSTANCE_TTL_THRESHOLD,
                        extend_to: INSTANCE_TTL_BUMP,
                    },
                    EffectOf::Write(EntryOf::Paused(false)),
                    EffectOf::Publish(EventOf::Unpause),
                ],
                ..state
            }
        }),
{
    assert(state.after_unpause().journal =~= state.journal + seq![
        EffectOf::ExtendInstance {
            threshold: INSTANCE_TTL_THRESHOLD,
            extend_to: INSTANCE_TTL_BUMP,
        },
        EffectOf::Write(EntryOf::Paused(false)),
        EffectOf::Publish(EventOf::Unpause),
    ]);
}

/// `register_merchant` marks the merchant as registered, with the lifetime of a
/// new entry that was extended at once, and announces it.
pub proof fn law_register_merchant_outcome(state: EnvState, merchant: Seq<char>)
    requires
        !state.merchants.contains_key(merchant),
    ensures
        ({
            let after = state.after_register_merchant(merchant);
            after == EnvState {
                merchants: state.merchants.insert(
                    merchant,
                    Stored {
                        value: true,
                        live_until: state.ledger.extended(
                            state.ledger.fresh(),
                            MERCHANT_TTL_THRESHOLD,
                            MERCHANT_TTL_BUMP,
                        ),
                    },
                ),
                instance_live_until: state.ledger.extended(
                    state.instance_live_until,
                    INSTANCE_TTL_THRESHOLD,
                    INSTANCE_TTL_BUMP,
                ),
                journal: state.journal + seq![
                    EffectOf::ExtendInstance {
                        threshold: INSTANCE_TTL_THRESHOLD,
                        extend_to: INSTANCE_TTL_BUMP,
                    },
                    EffectOf::Write(EntryOf::Merchant(merchant, true)),
                    EffectOf::Extend {
                        key: DataKeyOf::Merchant(merchant),
                        threshold: MERCHANT_TTL_THRESHOLD,
                        extend_to: MERCHANT_TTL_BUMP,
                    },
                    EffectOf::Publish(
                        EventOf::MerchantRegistered { merchant, admin: state.admin.unwrap() },
                    ),
                ],
                ..state
            }
        }),
{
    assert(state.after_register_merchant(merchant).merchants =~= state.merchants.insert(
        merchant,
        Stored {
            value: true,
            live_until: state.ledger.extended(
                state.ledger.fresh(),
                MERCHANT_TTL_THRESHOLD,
                MERCHANT_TTL_BUMP,
            ),
        },
    ));
    assert(state.after_register_merchant(merchant).journal =~= state.journal + seq![
        EffectOf::ExtendInstance {
            threshold: INSTANCE_TTL_THRESHOLD,
            extend_to: INSTANCE_TTL_BUMP,
        },
        EffectOf::Write(EntryOf::Merchant(merchant, true)),
        EffectOf::Extend {
            key: DataKeyOf::Merchant(merchant),
            threshold: MERCHANT_TTL_THRESHOLD,
            extend_to: MERCHANT_TTL_BUMP,
        },
        EffectOf::Publish(
            EventOf::MerchantRegistered { merchant, admin: state.admin.unwrap() },
        ),
    ]);
}

/// `unregister_merchant` takes the mark and the rule of the merchant away, those
/// of no other, and announces the one removal.
pub proof fn law_unregister_merchant_outcome(state: EnvState, merchant: Seq<char>)
    ensures
        ({
            let after = state.after_unregister_merchant(merchant);
            let done = after.journal.skip(state.journal.len() as int);
            let gone = EffectOf::<Seq<char>>::Publish(
                EventOf::MerchantUnregistered { merchant, admin: state.admin.unwrap() },
            );
            let touched = EffectOf::<Seq<char>>::ExtendInstance {
                threshold: INSTANCE_TTL_THRESHOLD,
                extend_to: INSTANCE_TTL_BUMP,
            };
            &&& after == EnvState {
                merchants: state.merchants.remove(merchant),
                rules: state.rules.remove(merchant),
                instance_live_until: state.ledger.extended(
                    state.instance_live_until,
                    INSTANCE_TTL_THRESHOLD,
                    INSTANCE_TTL_BUMP,
                ),
                journal: state.journal + done,
                ..state
            }
            &&& state.rules.contains_key(merchant) ==> done == seq![
                touched,
                EffectOf::Erase(DataKeyOf::Merchant(merchant)),
                EffectOf::Erase(DataKeyOf::Rule(merchant)),
                gone,
            ]
            &&& !state.rules.contains_key(merchant) ==> done == seq![
                touched,
                EffectOf::Erase(DataKeyOf::Merchant(merchant)),
                gone,
            ]
        }),
{
    let after = state.after_unregister_merchant(merchant);
    let done = after.journal.skip(state.journal.len() as int);
    assert(after.journal =~= state.journal + done);
    assert(after.rules =~= state.rules.remove(merchant));
    let touched = EffectOf::<Seq<char>>::ExtendInstance {
        threshold: INSTANCE_TTL_THRESHOLD,
        extend_to: INSTANCE_TTL_BUMP,
    };
    let gone = EffectOf::<Seq<char>>::Publish(
        EventOf::MerchantUnregistered { merchant, admin: state.admin.unwrap() },
    );
    if state.rules.contains_key(merchant) {
        assert(done =~= seq![
            touched,
            EffectOf::Erase(DataKeyOf::Merchant(merchant)),
            EffectOf::Erase(DataKeyOf::Rule(merchant)),
            gone,
        ]);
    } else {
        assert(done =~= seq![touched, EffectOf::Erase(DataKeyOf::Merchant(merchant)), gone]);
    }
}

/// Looking a rule up extends the life of the entry it comes from; where it comes
/// from neither, that is announced. Nothing else happens.
pub proof fn law_look_up_outcome(state: EnvState, merchant: Seq<char>)
    ensures
        ({
            let after = state.look_up_rule(merchant);
            let own = state.rules[merchant];
            if state.rules.contains_key(merchant) {
                after == EnvState {
                    rules: state.rules.insert(
                        merchant,
                        Stored {
                            value: own.value,
                            live_until: state.ledger.extended(
                                own.live_until,
                                RULE_TTL_THRESHOLD,
                                RULE_TTL_BUMP,
                            ),
                        },
                    ),
                    journal: state.journal.push(
                        EffectOf::Extend {
                            key: DataKeyOf::Rule(merchant),
                            threshold: RULE_TTL_THRESHOLD,
                            extend_to: RULE_TTL_BUMP,
                        },
                    ),
                    ..state
                }
            } else if state.default_rule is Some {
                let shared = state.default_rule.unwrap();
                after == EnvState {
                    default_rule: Some(
                        Stored {
                            value: shared.value,
                            live_until: state.ledger.extended(
                                shared.live_until,
                                RULE_TTL_THRESHOLD,
                                RULE_TTL_BUMP,
                            ),
                        },
                    ),
                    journal: state.journal.push(
                        EffectOf::Extend {
                            key: DataKeyOf::DefaultRule,
                            threshold: RULE_TTL_THRESHOLD,
                            extend_to: RULE_TTL_BUMP,
                        },
                    ),
                    ..state
                }
            } else {
                after == EnvState {
                    journal: state.journal.push(
                        EffectOf::Publish(
                            EventOf::BootstrapFallback {
                                rule: SettlementRule {
                                    platform_fee_bps: 100,
                                    network_fee_bps: 0,
                                    settlement_delay_ledger: 0,
                                    auto_settle: false,
                                },
                            },
                        ),
                    ),
                    ..state
                }
            }
        }),
{
}

/// `set_settlement_rule` gives the merchant exactly the rule that was handed in,
/// extends the lives of the entries it used, and announces the rule in force
/// before and the rule now. A default that was in force is one of those entries.
pub proof fn law_set_settlement_rule_outcome(
    state: EnvState,
    merchant: Seq<char>,
    rule: SettlementRule,
)
    requires
        state.merchants.contains_key(merchant),
    ensures
        ({
            let after = state.after_set_settlement_rule(merchant, rule);
            let mark = state.merchants[merchant];
            let from_default = !state.rules.contains_key(merchant) && state.default_rule is Some;
            let done = after.journal.skip(state.journal.len() as int);
            &&& after == EnvState {
                merchants: state.merchants.insert(
                    merchant,
                    Stored {
                        value: mark.value,
                        live_until: state.ledger.extended(
                            mark.live_until,
                            MERCHANT_TTL_THRESHOLD,
                            MERCHANT_TTL_BUMP,
                        ),
                    },
                ),
                rules: state.rules.insert(
                    merchant,
                    Stored {
                        value: rule,
                        live_until: state.ledger.extended(
                            if state.rules.contains_key(merchant) {
                                state.rules[merchant].live_until
                            } else {
                                state.ledger.fresh()
                            },
                            RULE_TTL_THRESHOLD,
                            RULE_TTL_BUMP,
                        ),
                    },
                ),
                default_rule: if from_default {
                    Some(
                        Stored {
                            value: state.default_rule.unwrap().value,
                            live_until: state.ledger.extended(
                                state.default_rule.unwrap().live_until,
                                RULE_TTL_THRESHOLD,
                                RULE_TTL_BUMP,
                            ),
                        },
                    )
                } else {
                    state.default_rule
                },
                instance_live_until: state.ledger.extended(
                    state.instance_live_until,
                    INSTANCE_TTL_THRESHOLD,
                    INSTANCE_TTL_BUMP,
                ),
                journal: state.journal + done,
                ..state
            }
            &&& done == seq![
                EffectOf::ExtendInstance {
                    threshold: INSTANCE_TTL_THRESHOLD,
                    extend_to: INSTANCE_TTL_BUMP,
                },
                EffectOf::Extend {
                    key: DataKeyOf::Merchant(merchant),
                    threshold: MERCHANT_TTL_THRESHOLD,
                    extend_to: MERCHANT_TTL_BUMP,
                },
            ] + (if from_default {
                seq![
                    EffectOf::Extend {
                        key: DataKeyOf::DefaultRule,
                        threshold: RULE_TTL_THRESHOLD,
                        extend_to: RULE_TTL_BUMP,
                    },
                ]
            } else {
                seq![]
            }) + seq![
                EffectOf::Write(EntryOf::Rule(merchant, rule)),
                EffectOf::Extend {
                    key: DataKeyOf::Rule(merchant),
                    threshold: RULE_TTL_THRESHOLD,
                    extend_to: RULE_TTL_BUMP,
                },
                EffectOf::Publish(
                    EventOf::SettlementRuleUpdated {
                        merchant,
                        admin: state.admin.unwrap(),
                        previous: state.rule_in_force(merchant),
                        current: rule,
                    },
                ),
            ]
        }),
{
    let after = state.after_set_settlement_rule(merchant, rule);
    let done = after.journal.skip(state.journal.len() as int);
    assert(after.journal =~= state.journal + done);
    assert(after.rules =~= state.rules.insert(
        merchant,
        Stored {
            value: rule,
            live_until: state.ledger.extended(
                if state.rules.contains_key(merchant) {
                    state.rules[merchant].live_until
                } else {
                    state.ledger.fresh()
                },
                RULE_TTL_THRESHOLD,
                RULE_TTL_BUMP,
            ),
        },
    ));
}

/// `clear_settlement_rule` takes the rule of the merchant away and nobody
/// else's, and announces the rule taken away and the one now in force, which is
/// the default, kept alive, or the bootstrap rule, announced first.
pub proof fn law_clear_settlement_rule_outcome(state: EnvState, merchant: Seq<char>)
    requires
        state.rules.contains_key(merchant),
    ensures
        ({
            let after = state.after_clear_settlement_rule(merchant);
            let bootstrap = SettlementRule {
                platform_fee_bps: 100,
                network_fee_bps: 0,
                settlement_delay_ledger: 0,
                auto_settle: false,
            };
            let done = after.journal.skip(state.journal.len() as int);
            &&& after == EnvState {
                rules: state.rules.remove(merchant),
                default_rule: if state.default_rule is Some {
                    Some(
                        Stored {
                            value: state.default_rule.unwrap().value,
                            live_until: state.ledger.extended(
                                state.default_rule.unwrap().live_until,
                                RULE_TTL_THRESHOLD,
                                RULE_TTL_BUMP,
                            ),
                        },
                    )
                } else {
                    None
                },
                instance_live_until: state.ledger.extended(
                    state.instance_live_until,
                    INSTANCE_TTL_THRESHOLD,
                    INSTANCE_TTL_BUMP,
                ),
                journal: state.journal + done,
                ..state
            }
            &&& done == seq![
                EffectOf::ExtendInstance {
                    threshold: INSTANCE_TTL_THRESHOLD,
                    extend_to: INSTANCE_TTL_BUMP,
                },
                EffectOf::Erase(DataKeyOf::Rule(merchant)),
                if state.default_rule is Some {
                    EffectOf::Extend {
                        key: DataKeyOf::DefaultRule,
                        threshold: RULE_TTL_THRESHOLD,
                        extend_to: RULE_TTL_BUMP,
                    }
                } else {
                    EffectOf::Publish(EventOf::BootstrapFallback { rule: bootstrap })
                },
                EffectOf::Publish(
                    EventOf::SettlementRuleCleared {
                        merchant,
                        admin: state.admin.unwrap(),
                        removed: state.rules[merchant].value,
                        fallback: if state.default_rule is Some {
                            state.default_rule.unwrap().value
                        } else {
                            bootstrap
                        },
                    },
                ),
            ]
        }),
{
    let after = state.after_clear_settlement_rule(merchant);
    assert(after.journal =~= state.journal + after.journal.skip(state.journal.len() as int));
}

/// `set_default_rule` makes exactly the rule that was handed in the default, and
/// announces the default before, or the bootstrap rule, and the default now. It
/// touches no rule of a merchant.
pub proof fn law_set_default_rule_outcome(state: EnvState, new_rule: SettlementRule)
    ensures
        ({
            let after = state.after_set_default_rule(new_rule);
            let done = after.journal.skip(state.journal.len() as int);
            &&& after == EnvState {
                default_rule: Some(
                    Stored {
                        value: new_rule,
                        live_until: state.ledger.extended(
                            if state.default_rule is Some {
                                state.default_rule.unwrap().live_until
                            } else {
                                state.ledger.fresh()
                            },
                            RULE_TTL_THRESHOLD,
                            RULE_TTL_BUMP,
                        ),
                    },
                ),
                instance_live_until: state.ledger.extended(
                    state.instance_live_until,
                    INSTANCE_TTL_THRESHOLD,
                    INSTANCE_TTL_BUMP,
                ),
                journal: state.journal + done,
                ..state
            }
            &&& done == seq![
                EffectOf::ExtendInstance {
                    threshold: INSTANCE_TTL_THRESHOLD,
                    extend_to: INSTANCE_TTL_BUMP,
                },
                EffectOf::Write(EntryOf::DefaultRule(new_rule)),
                EffectOf::Extend {
                    key: DataKeyOf::DefaultRule,
                    threshold: RULE_TTL_THRESHOLD,
                    extend_to: RULE_TTL_BUMP,
                },
                EffectOf::Publish(
                    EventOf::DefaultRuleUpdated {
                        admin: state.admin.unwrap(),
                        previous: if state.default_rule is Some {
                            state.default_rule.unwrap().value
                        } else {
                            SettlementRule {
                                platform_fee_bps: 100,
                                network_fee_bps: 0,
                                settlement_delay_ledger: 0,
                                auto_settle: false,
                            }
                        },
                        current: new_rule,
                    },
                ),
            ]
        }),
{
    let after = state.after_set_default_rule(new_rule);
    assert(after.journal =~= state.journal + after.journal.skip(state.journal.len() as int));
}

/// Reading the default, a rule or a mark extends the life of that entry where it
/// is there, and does nothing where it is not.
pub proof fn law_reading_outcomes(state: EnvState, merchant: Seq<char>)
    ensures
        ({
            let after = state.after_get_default_rule();
            if state.default_rule is Some {
                after == EnvState {
                    default_rule: Some(
                        Stored {
                            value: state.default_rule.unwrap().value,
                            live_until: state.ledger.extended(
                                state.default_rule.unwrap().live_until,
                                RULE_TTL_THRESHOLD,
                                RULE_TTL_BUMP,
                            ),
                        },
                    ),
                    journal: state.journal.push(
                        EffectOf::Extend {
                            key: DataKeyOf::DefaultRule,
                            threshold: RULE_TTL_THRESHOLD,
                            extend_to: RULE_TTL_BUMP,
                        },
                    ),
                    ..state
                }
            } else {
                after == state
            }
        }),
        ({
            let after = state.after_get_settlement_rule(merchant);
            if state.rules.contains_key(merchant) {
                after == EnvState {
                    rules: state.rules.insert(
                        merchant,
                        Stored {
                            value: state.rules[merchant].value,
                            live_until: state.ledger.extended(
                                state.rules[merchant].live_until,
                                RULE_TTL_THRESHOLD,
                                RULE_TTL_BUMP,
                            ),
                        },
                    ),
                    journal: state.journal.push(
                        EffectOf::Extend {
                            key: DataKeyOf::Rule(merchant),
                            threshold: RULE_TTL_THRESHOLD,
                            extend_to: RULE_TTL_BUMP,
                        },
                    ),
                    ..state
                }
            } else {
                after == state
            }
        }),
        ({
            let after = state.after_is_merchant_registered(merchant);
            if state.merchants.contains_key(merchant) {
                after == EnvState {
                    merchants: state.merchants.insert(
                        merchant,
                        Stored {
                            value: state.merchants[merchant].value,
                            live_until: state.ledger.extended(
                                state.merchants[merchant].live_until,
                                MERCHANT_TTL_THRESHOLD,
                                MERCHANT_TTL_BUMP,
                            ),
                        },
                    ),
                    journal: state.journal.push(
                        EffectOf::Extend {
                            key: DataKeyOf::Merchant(merchant),
                            threshold: MERCHANT_TTL_THRESHOLD,
                            extend_to: MERCHANT_TTL_BUMP,
                        },
                    ),
                    ..state
                }
            } else {
                after == state
            }
        }),
{
}

/// A payment that is read and has less than the threshold left is extended; any
/// other is left alone. A batch reads one reference after the other.
pub proof fn law_reading_payments_outcome(
    state: EnvState,
    reference: [u8; 32],
    references: Seq<[u8; 32]>,
)
    ensures
        ({
            let after = state.after_get_payment_reference(reference);
            let stored = state.payments[reference@];
            if state.payments.contains_key(reference@) && stored.live_until - state.ledger.sequence
                < 241_920 {
                after == EnvState {
                    payments: state.payments.insert(
                        reference@,
                        Stored {
                            value: stored.value,
                            live_until: state.ledger.extended(stored.live_until, 241_920, 518_400),
                        },
                    ),
                    journal: state.journal.push(
                        EffectOf::Extend {
                            key: DataKeyOf::Payment(reference),
                            threshold: PAYMENT_TTL_THRESHOLD,
                            extend_to: PAYMENT_TTL_BUMP,
                        },
                    ),
                    ..state
                }
            } else {
                after == state
            }
        }),
        state.after_get_payments(Seq::empty()) == state,
        state.after_get_payments(references.push(reference)) == state.after_get_payments(
            references,
        ).after_get_payment_reference(reference),
{
    assert(references.push(reference).drop_last() =~= references);
}

/// A quote extends the life of the mark and of the entry the rule comes from,
/// and announces a rule that comes from neither. It stores nothing.
pub proof fn law_quote_outcome(state: EnvState, merchant: Seq<char>)
    requires
        state.merchants.contains_key(merchant),
    ensures
        ({
            let after = state.after_calculate_fee_split(merchant);
            let mark = state.merchants[merchant];
            let looked_up = state.look_up_rule(merchant);
            &&& after == EnvState {
                merchants: state.merchants.insert(
                    merchant,
                    Stored {
                        value: mark.value,
                        live_until: state.ledger.extended(
                            mark.live_until,
                            MERCHANT_TTL_THRESHOLD,
                            MERCHANT_TTL_BUMP,
                        ),
                    },
                ),
                rules: looked_up.rules,
                default_rule: looked_up.default_rule,
                journal: state.journal + seq![
                    EffectOf::Extend {
                        key: DataKeyOf::Merchant(merchant),
                        threshold: MERCHANT_TTL_THRESHOLD,
                        extend_to: MERCHANT_TTL_BUMP,
                    },
                    looked_up.journal.last(),
                ],
                ..state
            }
            &&& looked_up.journal.len() == state.journal.len() + 1
        }),
{
    assert(state.after_calculate_fee_split(merchant).journal =~= state.journal + seq![
        EffectOf::Extend {
            key: DataKeyOf::Merchant(merchant),
            threshold: MERCHANT_TTL_THRESHOLD,
            extend_to: MERCHANT_TTL_BUMP,
        },
        state.look_up_rule(merchant).journal.last(),
    ]);
}

/// A stored payment is a snapshot of the call: the amount that was given, the
/// ledger it was given in, the four terms of the rule in force before the call,
/// fees that are the least to cover their basis points, and the rest for the
/// merchant.
pub proof fn law_stored_payment_is_a_snapshot(
    state: EnvState,
    merchant: Seq<char>,
    reference: [u8; 32],
    amount: i128,
)
    requires
        state.store_payment_reference_refusal(merchant, reference, amount) is None,
    ensures
        ({
            let after = state.after_store_payment_reference(merchant, reference, amount);
            let record = after.payments[reference@].value;
            let rule = if state.rules.contains_key(merchant) {
                state.rules[merchant].value
            } else if state.default_rule is Some {
                state.default_rule.unwrap().value
            } else {
                SettlementRule {
                    platform_fee_bps: 100,
                    network_fee_bps: 0,
                    settlement_delay_ledger: 0,
                    auto_settle: false,
                }
            };
            &&& after.payments.contains_key(reference@)
            &&& record.amount == amount
            &&& record.ledger == state.ledger.sequence
            &&& record.platform_fee_bps == rule.platform_fee_bps
            &&& record.network_fee_bps == rule.network_fee_bps
            &&& record.settlement_delay_ledger == rule.settlement_delay_ledger
            &&& record.auto_settle == rule.auto_settle
            &&& record.platform_fee_amount * 10_000 >= amount * rule.platform_fee_bps
            &&& (record.platform_fee_amount - 1) * 10_000 < amount * rule.platform_fee_bps
            &&& record.network_fee_amount * 10_000 >= amount * rule.network_fee_bps
            &&& (record.network_fee_amount - 1) * 10_000 < amount * rule.network_fee_bps
            &&& record.merchant_amount == amount - record.platform_fee_amount
                - record.network_fee_amount
        }),
{
    fees::lemma_split_fits(amount as int, state.rule_in_force(merchant));
}

/// `store_payment_reference` adds the one payment and changes no other. It
/// extends the lives of the payment, of the mark and of the entry the rule comes
/// from, and announces the payment with its record, after a rule that comes from
/// neither entry.
pub proof fn law_store_payment_outcome(
    state: EnvState,
    merchant: Seq<char>,
    reference: [u8; 32],
    amount: i128,
)
    requires
        state.merchants.contains_key(merchant),
        !state.payments.contains_key(reference@),
    ensures
        ({
            let after = state.after_store_payment_reference(merchant, reference, amount);
            let record = after.payments[reference@].value;
            let mark = state.merchants[merchant];
            let looked_up = state.look_up_rule(merchant);
            after == EnvState {
                merchants: state.merchants.insert(
                    merchant,
                    Stored {
                        value: mark.value,
                        live_until: state.ledger.extended(
                            mark.live_until,
                            MERCHANT_TTL_THRESHOLD,
                            MERCHANT_TTL_BUMP,
                        ),
                    },
                ),
                rules: looked_up.rules,
                default_rule: looked_up.default_rule,
                payments: state.payments.insert(
                    reference@,
                    Stored {
                        value: record,
                        live_until: state.ledger.extended(
                            state.ledger.fresh(),
                            PAYMENT_TTL_THRESHOLD,
                            PAYMENT_TTL_BUMP,
                        ),
                    },
                ),
                journal: state.journal + seq![
                    EffectOf::Extend {
                        key: DataKeyOf::Merchant(merchant),
                        threshold: MERCHANT_TTL_THRESHOLD,
                        extend_to: MERCHANT_TTL_BUMP,
                    },
                    looked_up.journal.last(),
                    EffectOf::Write(EntryOf::Payment(reference, record)),
                    EffectOf::Extend {
                        key: DataKeyOf::Payment(reference),
                        threshold: PAYMENT_TTL_THRESHOLD,
                        extend_to: PAYMENT_TTL_BUMP,
                    },
                    EffectOf::Publish(EventOf::PaymentStored { merchant, reference, record }),
                ],
                ..state
            }
        }),
{
    let after = state.after_store_payment_reference(merchant, reference, amount);
    let record = after.payments[reference@].value;
    assert(after.payments =~= state.payments.insert(
        reference@,
        Stored {
            value: record,
            live_until: state.ledger.extended(
                state.ledger.fresh(),
                PAYMENT_TTL_THRESHOLD,
                PAYMENT_TTL_BUMP,
            ),
        },
    ));
    assert(after.journal =~= state.journal + seq![
        EffectOf::Extend {
            key: DataKeyOf::Merchant(merchant),
            threshold: MERCHANT_TTL_THRESHOLD,
            extend_to: MERCHANT_TTL_BUMP,
        },
        state.look_up_rule(merchant).journal.last(),
        EffectOf::Write(EntryOf::Payment(reference, record)),
        EffectOf::Extend {
            key: DataKeyOf::Payment(reference),
            threshold: PAYMENT_TTL_THRESHOLD,
            extend_to: PAYMENT_TTL_BUMP,
        },
        EffectOf::Publish(EventOf::PaymentStored { merchant, reference, record }),
    ]);
}

/// A payment that can be stored can be quoted first, and after the quote it can
/// be stored still, under the same rule.
pub proof fn law_quoting_first_changes_nothing(
    state: EnvState,
    merchant: Seq<char>,
    reference: [u8; 32],
    amount: i128,
)
    requires
        state.store_payment_reference_refusal(merchant, reference, amount) is None,
    ensures
        state.calculate_fee_split_refusal(merchant, amount) is None,
        state.after_calculate_fee_split(merchant).store_payment_reference_refusal(
            merchant,
            reference,
            amount,
        ) is None,
        state.after_calculate_fee_split(merchant).rule_in_force(merchant) == state.rule_in_force(
            merchant,
        ),
{
}

} // verus!
