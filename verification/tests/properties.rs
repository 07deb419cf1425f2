use settlement::address::Address;
use settlement::contract::SettlementContract;
use settlement::effects::{DataKey, DataKeyOf, Datum, EffectOf, EntryOf, Event, EventOf, Topic};
use settlement::env::{Env, LedgerInfo};
use settlement::fees::calculate_split;
use settlement::types::{
    bootstrap_default_rule, FeeConfig, PaymentRecord, SettlementError, SettlementRule,
    INSTANCE_TTL_BUMP, INSTANCE_TTL_THRESHOLD, MERCHANT_TTL_BUMP, PAYMENT_TTL_BUMP,
    PAYMENT_TTL_THRESHOLD, RECOVERY_DELAY_SECONDS, RULE_TTL_BUMP, RULE_TTL_THRESHOLD,
};

const ZERO_ADDRESS: &str = "GAAAAAAAAAAAAAAAAAAAAAAAAAAAAAAAAAAAAAAAAAAAAAAAAAAAAWHF";

fn account(name: &str) -> Address {
    Address::from_string(format!("G{:A<55}", name))
}

fn governance() -> Address {
    Address::from_string(format!("C{:A<55}", "GOVERNANCE"))
}

fn zero() -> Address {
    Address::from_string(ZERO_ADDRESS.to_string())
}

fn ledger(sequence: u32, timestamp: u64) -> LedgerInfo {
    LedgerInfo {
        sequence,
        timestamp,
        min_ttl: 4_095,
        max_ttl: 6_311_999,
    }
}

fn rule(platform: u32, network: u32) -> SettlementRule {
    SettlementRule {
        platform_fee_bps: platform,
        network_fee_bps: network,
        settlement_delay_ledger: 0,
        auto_settle: false,
    }
}

fn authorize_all(env: &mut Env) {
    for name in ["ADMIN", "RECOVERY", "MERCHANT", "OTHER", "NEWADMIN"] {
        env.authorize(account(name));
    }
    env.answer_fee_config(governance(), None);
}

/// An initialised contract with one registered merchant.
fn setup() -> Env {
    let mut env = Env::new(ledger(0, 0));
    authorize_all(&mut env);
    SettlementContract::init(&mut env, account("ADMIN"), governance(), account("RECOVERY"))
        .unwrap();
    SettlementContract::register_merchant(&mut env, account("MERCHANT")).unwrap();
    env
}

fn advance(env: &mut Env, ledgers: u32, seconds: u64) {
    let now = env.ledger();
    env.begin_call(ledger(now.sequence + ledgers, now.timestamp + seconds));
    authorize_all(env);
}

fn events(env: &Env) -> Vec<&Event> {
    let mut found = Vec::new();
    for effect in env.journal() {
        if let EffectOf::Publish(event) = effect {
            found.push(event);
        }
    }
    found
}

fn ttl(env: &Env, key: DataKey) -> u32 {
    env.live_until(&key).unwrap() - env.ledger().sequence
}

// Fees.

#[test]
fn fees_are_rounded_up_at_the_expense_of_the_merchant() {
    let split = calculate_split(101, &rule(250, 50)).unwrap();
    assert_eq!(split.gross_amount, 101);
    assert_eq!(split.platform_fee_amount, 3); // 2.525
    assert_eq!(split.network_fee_amount, 1); // 0.505
    assert_eq!(split.merchant_amount, 97);
}

#[test]
fn exact_fees_are_not_rounded() {
    let split = calculate_split(10_000, &rule(250, 50)).unwrap();
    assert_eq!(split.platform_fee_amount, 250);
    assert_eq!(split.network_fee_amount, 50);
    assert_eq!(split.merchant_amount, 9_700);
}

#[test]
fn tiny_amounts_can_leave_the_merchant_one_unit_short() {
    let split = calculate_split(1, &rule(5_000, 5_000)).unwrap();
    assert_eq!(split.platform_fee_amount, 1);
    assert_eq!(split.network_fee_amount, 1);
    assert_eq!(split.merchant_amount, -1);
}

#[test]
fn nothing_is_split_into_nothing() {
    let split = calculate_split(0, &rule(250, 50)).unwrap();
    assert_eq!(split.platform_fee_amount, 0);
    assert_eq!(split.network_fee_amount, 0);
    assert_eq!(split.merchant_amount, 0);
}

#[test]
fn larger_amounts_and_larger_fees_cost_no_less() {
    let mut previous = 0;
    for amount in 0..500 {
        let split = calculate_split(amount, &rule(333, 0)).unwrap();
        assert!(split.platform_fee_amount >= previous);
        assert!(split.platform_fee_amount * 10_000 >= amount * 333);
        assert!((split.platform_fee_amount - 1) * 10_000 < amount * 333);
        previous = split.platform_fee_amount;
    }
    let cheap = calculate_split(12_345, &rule(100, 0)).unwrap();
    let dear = calculate_split(12_345, &rule(101, 0)).unwrap();
    assert_eq!(cheap.platform_fee_amount, 124);
    assert_eq!(dear.platform_fee_amount, 125);
}

#[test]
fn the_network_fee_counts_for_the_overflow_test() {
    let largest = (i128::MAX - 9_999) / 700;
    assert!(calculate_split(largest, &rule(100, 700)).is_ok());
    assert_eq!(
        calculate_split(largest + 1, &rule(100, 700)),
        Err(SettlementError::AmountOverflow)
    );
}

#[test]
fn rules_are_checked_fees_first() {
    assert_eq!(rule(5, 5).validate(), Ok(()));
    assert_eq!(rule(0, 10_000).validate(), Ok(()));
    assert_eq!(rule(100, 4).validate(), Err(SettlementError::InvalidFeeBps));
    assert_eq!(rule(0, 10_001).validate(), Err(SettlementError::InvalidFeeBps));
    assert_eq!(
        rule(5_001, 5_000).validate(),
        Err(SettlementError::InvalidFeeBps)
    );
    let late = SettlementRule {
        settlement_delay_ledger: 100_001,
        ..rule(4, 0)
    };
    assert_eq!(late.validate(), Err(SettlementError::InvalidFeeBps));
    assert_eq!(bootstrap_default_rule().validate(), Ok(()));
}

#[test]
fn the_default_rule_has_the_same_limit_on_the_sum() {
    let mut env = setup();
    assert_eq!(
        SettlementContract::set_default_rule(&mut env, rule(6_000, 5_000)),
        Err(SettlementError::InvalidFeeBps)
    );
}

// Payments.

#[test]
fn a_stored_payment_carries_its_split_and_terms() {
    let mut env = setup();
    let terms = SettlementRule {
        platform_fee_bps: 250,
        network_fee_bps: 50,
        settlement_delay_ledger: 7,
        auto_settle: true,
    };
    SettlementContract::set_settlement_rule(&mut env, account("MERCHANT"), terms).unwrap();
    advance(&mut env, 12, 60);

    let quote =
        SettlementContract::calculate_fee_split(&mut env, account("MERCHANT"), 20_000).unwrap();
    let split =
        SettlementContract::store_payment_reference(&mut env, account("MERCHANT"), [7; 32], 20_000)
            .unwrap();
    assert_eq!(split, quote);
    assert_eq!(split.platform_fee_amount, 500);
    assert_eq!(split.network_fee_amount, 100);
    assert_eq!(split.merchant_amount, 19_400);

    assert_eq!(
        SettlementContract::get_payment_reference(&mut env, [7; 32]),
        Some(PaymentRecord {
            amount: 20_000,
            platform_fee_amount: 500,
            network_fee_amount: 100,
            merchant_amount: 19_400,
            platform_fee_bps: 250,
            network_fee_bps: 50,
            ledger: 12,
            settlement_delay_ledger: 7,
            auto_settle: true,
        })
    );
}

#[test]
fn a_payment_keeps_the_ledger_it_was_stored_in() {
    let mut env = setup();
    advance(&mut env, 12, 60);
    SettlementContract::store_payment_reference(&mut env, account("MERCHANT"), [7; 32], 500)
        .unwrap();
    for _ in 0..3 {
        advance(&mut env, 10, 50);
        let record = SettlementContract::get_payment_reference(&mut env, [7; 32]).unwrap();
        assert_eq!(record.ledger, 12);
        assert!(record.ledger <= env.ledger().sequence);
    }
}

#[test]
fn a_reference_never_stored_reads_as_nothing() {
    let mut env = setup();
    SettlementContract::store_payment_reference(&mut env, account("MERCHANT"), [1; 32], 500)
        .unwrap();
    SettlementContract::set_default_rule(&mut env, rule(200, 50)).unwrap();
    advance(&mut env, 10, 50);
    SettlementContract::store_payment_reference(&mut env, account("MERCHANT"), [3; 32], 500)
        .unwrap();
    assert_eq!(
        SettlementContract::get_payment_reference(&mut env, [2; 32]),
        None
    );
}

#[test]
fn payments_outlive_their_rule_and_their_merchant() {
    let mut env = setup();
    SettlementContract::set_settlement_rule(&mut env, account("MERCHANT"), rule(250, 50)).unwrap();
    SettlementContract::store_payment_reference(&mut env, account("MERCHANT"), [7; 32], 20_000)
        .unwrap();
    let stored = SettlementContract::get_payment_reference(&mut env, [7; 32]);

    SettlementContract::set_settlement_rule(&mut env, account("MERCHANT"), rule(300, 60)).unwrap();
    assert_eq!(
        SettlementContract::get_payment_reference(&mut env, [7; 32]),
        stored
    );
    SettlementContract::unregister_merchant(&mut env, account("MERCHANT")).unwrap();
    assert_eq!(
        SettlementContract::get_payment_reference(&mut env, [7; 32]),
        stored
    );
    SettlementContract::register_merchant(&mut env, account("OTHER")).unwrap();
    assert_eq!(
        SettlementContract::store_payment_reference(&mut env, account("OTHER"), [7; 32], 500),
        Err(SettlementError::DuplicatePaymentReference)
    );
}

#[test]
fn a_payment_under_the_bootstrap_rule_publishes_two_events() {
    let mut env = setup();
    let before = events(&env).len();
    SettlementContract::store_payment_reference(&mut env, account("MERCHANT"), [1; 32], 10_000)
        .unwrap();
    let all = events(&env);
    assert_eq!(all.len(), before + 2);
    assert_eq!(
        *all[before],
        EventOf::BootstrapFallback {
            rule: bootstrap_default_rule()
        }
    );
    assert_eq!(all[before + 1].name(), "payment_stored");
    assert_eq!(
        all[before + 1].topics(),
        vec![
            Topic::Name("payment_stored".to_string()),
            Topic::Address(account("MERCHANT"))
        ]
    );
}

#[test]
fn storing_a_payment_does_these_things_in_this_order() {
    let mut env = setup();
    SettlementContract::set_settlement_rule(&mut env, account("MERCHANT"), rule(250, 50)).unwrap();
    let before = env.journal().len();
    SettlementContract::store_payment_reference(&mut env, account("MERCHANT"), [9; 32], 20_000)
        .unwrap();
    let record = env.payment(&[9; 32]).unwrap();
    let done = &env.journal()[before..];
    assert_eq!(done.len(), 5);
    assert_eq!(
        done[0],
        EffectOf::Extend {
            key: DataKeyOf::Merchant(account("MERCHANT")),
            threshold: 241_920,
            extend_to: 518_400
        }
    );
    assert_eq!(
        done[1],
        EffectOf::Extend {
            key: DataKeyOf::Rule(account("MERCHANT")),
            threshold: 241_920,
            extend_to: 518_400
        }
    );
    assert_eq!(
        done[2],
        EffectOf::Write(EntryOf::Payment([9; 32], record))
    );
    assert_eq!(
        done[3],
        EffectOf::Extend {
            key: DataKeyOf::Payment([9; 32]),
            threshold: 241_920,
            extend_to: 518_400
        }
    );
    assert_eq!(
        done[4],
        EffectOf::Publish(EventOf::PaymentStored {
            merchant: account("MERCHANT"),
            reference: [9; 32],
            record
        })
    );
}

#[test]
fn batches_can_be_joined() {
    let mut env = setup();
    for i in 1..=4 {
        SettlementContract::store_payment_reference(
            &mut env,
            account("MERCHANT"),
            [i; 32],
            100 * i as i128,
        )
        .unwrap();
    }
    let mut joined = SettlementContract::get_payments(&mut env, vec![[4; 32], [99; 32]]);
    joined.extend(SettlementContract::get_payments(
        &mut env,
        vec![[1; 32], [4; 32]],
    ));
    let whole =
        SettlementContract::get_payments(&mut env, vec![[4; 32], [99; 32], [1; 32], [4; 32]]);
    assert_eq!(whole, joined);
    assert_eq!(whole.len(), 3);
    assert_eq!(whole[0].amount, 400);
    assert_eq!(whole[1].amount, 100);
    assert_eq!(whole[2].amount, 400);
}

#[test]
fn a_quote_takes_any_positive_amount() {
    let mut env = setup();
    let split = SettlementContract::calculate_fee_split(&mut env, account("MERCHANT"), 1).unwrap();
    assert_eq!(split.platform_fee_amount, 1);
    assert_eq!(split.merchant_amount, 0);
    assert_eq!(
        SettlementContract::calculate_fee_split(&mut env, account("MERCHANT"), 0),
        Err(SettlementError::InvalidAmount)
    );
    assert_eq!(
        SettlementContract::calculate_fee_split(&mut env, account("OTHER"), 100),
        Err(SettlementError::MerchantMissing)
    );
}

// Rules and merchants.

#[test]
fn the_rule_of_one_merchant_is_no_concern_of_another() {
    let mut env = setup();
    SettlementContract::register_merchant(&mut env, account("OTHER")).unwrap();
    SettlementContract::set_settlement_rule(&mut env, account("MERCHANT"), rule(250, 50)).unwrap();
    assert_eq!(
        SettlementContract::get_settlement_rule(&mut env, account("OTHER")),
        None
    );
    let split = SettlementContract::calculate_fee_split(&mut env, account("OTHER"), 10_000).unwrap();
    assert_eq!(split.platform_fee_amount, 100);
}

#[test]
fn a_merchant_that_comes_back_starts_without_a_rule() {
    let mut env = setup();
    SettlementContract::set_settlement_rule(&mut env, account("MERCHANT"), rule(250, 50)).unwrap();
    let before = events(&env).len();
    SettlementContract::unregister_merchant(&mut env, account("MERCHANT")).unwrap();
    assert_eq!(events(&env).len(), before + 1);
    assert_eq!(
        SettlementContract::set_settlement_rule(&mut env, account("MERCHANT"), rule(250, 50)),
        Err(SettlementError::MerchantMissing)
    );
    SettlementContract::register_merchant(&mut env, account("MERCHANT")).unwrap();
    assert_eq!(
        SettlementContract::get_settlement_rule(&mut env, account("MERCHANT")),
        None
    );
}

#[test]
fn an_empty_address_is_nobody() {
    let mut env = setup();
    let empty = Address::from_string(String::new());
    assert!(!empty.is_valid());
    assert!(!zero().is_valid());
    assert!(account("MERCHANT").is_valid());
    assert_eq!(account("MERCHANT").to_string().len(), 56);
    assert_eq!(
        SettlementContract::register_merchant(&mut env, empty),
        Err(SettlementError::InvalidAddress)
    );
}

// Roles.

#[test]
fn initialisation_checks_consent_then_governance_then_recovery() {
    let mut env = Env::new(ledger(0, 0));
    assert_eq!(
        SettlementContract::init(&mut env, account("ADMIN"), zero(), zero()),
        Err(SettlementError::Unauthorized)
    );
    env.authorize(account("ADMIN"));
    assert_eq!(
        SettlementContract::init(&mut env, account("ADMIN"), governance(), zero()),
        Err(SettlementError::InvalidGovernance)
    );
    env.answer_fee_config(
        governance(),
        Some(FeeConfig {
            platform_fee_bps: 100,
            network_fee_bps: 10,
        }),
    );
    assert_eq!(
        SettlementContract::init(&mut env, account("ADMIN"), governance(), zero()),
        Err(SettlementError::InvalidRecoveryAddress)
    );
    assert_eq!(env.journal().len(), 0);
    assert_eq!(
        SettlementContract::init(&mut env, account("ADMIN"), governance(), account("RECOVERY")),
        Ok(())
    );
    assert_eq!(env.journal().len(), 4);
}

#[test]
fn roles_cannot_be_read_before_they_are_given() {
    let mut env = Env::new(ledger(0, 0));
    assert_eq!(
        SettlementContract::get_governance(&mut env),
        Err(SettlementError::NotInitialized)
    );
    assert_eq!(
        SettlementContract::get_recovery_address(&mut env),
        Err(SettlementError::NotInitialized)
    );
    assert_eq!(
        SettlementContract::initiate_recovery(&mut env, account("NEWADMIN")),
        Err(SettlementError::NotInitialized)
    );
    assert_eq!(
        SettlementContract::pause(&mut env),
        Err(SettlementError::NotInitialized)
    );
}

#[test]
fn governance_must_answer_and_name_somebody() {
    let mut env = setup();
    assert_eq!(
        SettlementContract::update_governance(&mut env, account("OTHER")),
        Err(SettlementError::InvalidGovernance)
    );
    env.answer_fee_config(zero(), None);
    assert_eq!(
        SettlementContract::update_governance(&mut env, zero()),
        Err(SettlementError::InvalidGovernance)
    );
    env.answer_fee_config(account("OTHER"), None);
    assert_eq!(
        SettlementContract::update_governance(&mut env, account("OTHER")),
        Ok(())
    );
    assert_eq!(
        **events(&env).last().unwrap(),
        EventOf::GovernanceUpdated {
            admin: account("ADMIN"),
            governance: account("OTHER")
        }
    );
}

#[test]
fn the_admin_cannot_be_replaced_by_itself() {
    let mut env = setup();
    assert_eq!(
        SettlementContract::transfer_admin(&mut env, account("ADMIN")),
        Err(SettlementError::InvalidAdmin)
    );
    assert_eq!(
        SettlementContract::propose_admin(&mut env, account("ADMIN")),
        Err(SettlementError::InvalidAdmin)
    );
    assert_eq!(
        SettlementContract::propose_admin(&mut env, zero()),
        Err(SettlementError::InvalidAddress)
    );
}

#[test]
fn nobody_can_accept_what_was_not_proposed() {
    let mut env = setup();
    assert_eq!(
        SettlementContract::accept_admin(&mut env),
        Err(SettlementError::InvalidAdmin)
    );
    assert_eq!(
        SettlementContract::cancel_admin_transfer(&mut env),
        Err(SettlementError::InvalidAdmin)
    );
    SettlementContract::propose_admin(&mut env, account("NEWADMIN")).unwrap();
    env.begin_call(ledger(0, 0));
    env.authorize(account("ADMIN"));
    assert_eq!(
        SettlementContract::accept_admin(&mut env),
        Err(SettlementError::Unauthorized)
    );
}

#[test]
fn a_transfer_drops_the_proposal() {
    let mut env = setup();
    SettlementContract::propose_admin(&mut env, account("NEWADMIN")).unwrap();
    SettlementContract::transfer_admin(&mut env, account("OTHER")).unwrap();
    assert_eq!(SettlementContract::get_pending_admin(&env), None);
    assert_eq!(
        SettlementContract::get_admin(&mut env),
        Ok(account("OTHER"))
    );
}

#[test]
fn a_recovery_waits_out_its_delay() {
    let mut env = setup();
    assert_eq!(
        SettlementContract::execute_recovery(&mut env),
        Err(SettlementError::RecoveryNotPending)
    );
    SettlementContract::initiate_recovery(&mut env, account("NEWADMIN")).unwrap();
    assert_eq!(
        **events(&env).last().unwrap(),
        EventOf::RecoveryInitiated {
            recovery_address: account("RECOVERY"),
            new_admin: account("NEWADMIN"),
            execute_after: 604_800
        }
    );
    advance(&mut env, 1, RECOVERY_DELAY_SECONDS - 1);
    assert_eq!(
        SettlementContract::execute_recovery(&mut env),
        Err(SettlementError::RecoveryDelayActive)
    );
    advance(&mut env, 1, 1);
    assert_eq!(SettlementContract::execute_recovery(&mut env), Ok(()));
    assert_eq!(
        **events(&env).last().unwrap(),
        EventOf::RecoveryExecuted {
            new_admin: account("NEWADMIN")
        }
    );
    assert_eq!(
        SettlementContract::execute_recovery(&mut env),
        Err(SettlementError::RecoveryNotPending)
    );
}

#[test]
fn a_cancelled_recovery_is_over() {
    let mut env = setup();
    assert_eq!(
        SettlementContract::cancel_recovery(&mut env),
        Err(SettlementError::RecoveryNotPending)
    );
    SettlementContract::initiate_recovery(&mut env, account("NEWADMIN")).unwrap();
    SettlementContract::cancel_recovery(&mut env).unwrap();
    assert_eq!(
        **events(&env).last().unwrap(),
        EventOf::RecoveryCancelled {
            admin: account("ADMIN")
        }
    );
    advance(&mut env, 1, RECOVERY_DELAY_SECONDS);
    assert_eq!(
        SettlementContract::execute_recovery(&mut env),
        Err(SettlementError::RecoveryNotPending)
    );
    assert_eq!(
        SettlementContract::get_admin(&mut env),
        Ok(account("ADMIN"))
    );
}

#[test]
fn a_recovery_can_be_refused_at_the_end_of_time() {
    let mut env = Env::new(ledger(0, u64::MAX));
    assert_eq!(
        SettlementContract::initiate_recovery(&mut env, account("NEWADMIN")),
        Err(SettlementError::NotInitialized)
    );

    let mut env = setup();
    env.begin_call(ledger(0, u64::MAX));
    assert_eq!(
        SettlementContract::initiate_recovery(&mut env, account("NEWADMIN")),
        Err(SettlementError::Unauthorized)
    );
    env.authorize(account("RECOVERY"));
    assert_eq!(
        SettlementContract::initiate_recovery(&mut env, zero()),
        Err(SettlementError::InvalidAdmin)
    );

    // The latest time at which a recovery still has an end.
    env.begin_call(ledger(0, u64::MAX - RECOVERY_DELAY_SECONDS));
    env.authorize(account("RECOVERY"));
    assert_eq!(
        SettlementContract::initiate_recovery(&mut env, account("NEWADMIN")),
        Ok(())
    );
    assert_eq!(env.pending_recovery().unwrap().execute_after, u64::MAX);
}

#[test]
fn a_cancelled_recovery_stays_over_whatever_happens() {
    let mut env = setup();
    SettlementContract::initiate_recovery(&mut env, account("NEWADMIN")).unwrap();
    SettlementContract::cancel_recovery(&mut env).unwrap();
    SettlementContract::pause(&mut env).unwrap();
    SettlementContract::transfer_admin(&mut env, account("OTHER")).unwrap();
    SettlementContract::unpause(&mut env).unwrap();
    advance(&mut env, 100, 2 * RECOVERY_DELAY_SECONDS);
    assert_eq!(
        SettlementContract::execute_recovery(&mut env),
        Err(SettlementError::RecoveryNotPending)
    );
    SettlementContract::initiate_recovery(&mut env, account("NEWADMIN")).unwrap();
    advance(&mut env, 100, RECOVERY_DELAY_SECONDS);
    assert_eq!(SettlementContract::execute_recovery(&mut env), Ok(()));
}

#[test]
fn only_the_recovery_address_starts_a_recovery() {
    let mut env = setup();
    assert_eq!(
        SettlementContract::initiate_recovery(&mut env, zero()),
        Err(SettlementError::InvalidAdmin)
    );
    env.begin_call(ledger(0, 0));
    env.authorize(account("ADMIN"));
    assert_eq!(
        SettlementContract::initiate_recovery(&mut env, account("NEWADMIN")),
        Err(SettlementError::Unauthorized)
    );
}

#[test]
fn a_pause_blocks_rules_and_payments_but_no_role() {
    let mut env = setup();
    SettlementContract::pause(&mut env).unwrap();
    assert_eq!(*events(&env).last().unwrap(), &EventOf::Pause);
    assert_eq!(
        SettlementContract::unregister_merchant(&mut env, account("MERCHANT")),
        Err(SettlementError::Paused)
    );
    assert_eq!(
        SettlementContract::clear_settlement_rule(&mut env, account("MERCHANT")),
        Err(SettlementError::Paused)
    );
    assert_eq!(
        SettlementContract::update_governance(&mut env, governance()),
        Err(SettlementError::Paused)
    );
    assert_eq!(
        SettlementContract::store_payment_reference(&mut env, account("MERCHANT"), [1; 32], 100),
        Err(SettlementError::Paused)
    );
    assert!(
        SettlementContract::calculate_fee_split(&mut env, account("MERCHANT"), 100).is_ok()
    );
    assert_eq!(
        SettlementContract::initiate_recovery(&mut env, account("NEWADMIN")),
        Ok(())
    );
    assert_eq!(SettlementContract::cancel_recovery(&mut env), Ok(()));
    assert_eq!(SettlementContract::unpause(&mut env), Ok(()));
    assert_eq!(*events(&env).last().unwrap(), &EventOf::Unpause);
    assert!(
        SettlementContract::store_payment_reference(&mut env, account("MERCHANT"), [1; 32], 100)
            .is_ok()
    );
}

#[test]
fn a_refused_call_leaves_no_trace() {
    let mut env = setup();
    let before = env.journal().len();
    assert!(
        SettlementContract::store_payment_reference(&mut env, account("MERCHANT"), [0; 32], 100)
            .is_err()
    );
    assert!(SettlementContract::register_merchant(&mut env, account("MERCHANT")).is_err());
    assert!(SettlementContract::transfer_admin(&mut env, zero()).is_err());
    assert_eq!(env.journal().len(), before);
}

// Lifetimes.

#[test]
fn a_payment_is_kept_alive_once_it_runs_out() {
    let mut env = setup();
    SettlementContract::store_payment_reference(&mut env, account("MERCHANT"), [3; 32], 100)
        .unwrap();
    assert_eq!(ttl(&env, DataKeyOf::Payment([3; 32])), PAYMENT_TTL_BUMP);

    // Exactly the threshold left: not running out yet.
    advance(&mut env, PAYMENT_TTL_BUMP - PAYMENT_TTL_THRESHOLD, 0);
    let before = env.journal().len();
    SettlementContract::get_payment_reference(&mut env, [3; 32]).unwrap();
    assert_eq!(env.journal().len(), before);
    assert_eq!(ttl(&env, DataKeyOf::Payment([3; 32])), PAYMENT_TTL_THRESHOLD);

    advance(&mut env, 1, 0);
    SettlementContract::get_payment_reference(&mut env, [3; 32]).unwrap();
    assert_eq!(env.journal().len(), before + 1);
    assert_eq!(ttl(&env, DataKeyOf::Payment([3; 32])), PAYMENT_TTL_BUMP);
}

#[test]
fn payments_keep_the_merchant_and_its_rule_alive() {
    let mut env = setup();
    SettlementContract::set_settlement_rule(&mut env, account("MERCHANT"), rule(250, 50)).unwrap();
    advance(&mut env, RULE_TTL_BUMP - RULE_TTL_THRESHOLD, 0);
    SettlementContract::store_payment_reference(&mut env, account("MERCHANT"), [3; 32], 100)
        .unwrap();
    assert_eq!(
        ttl(&env, DataKeyOf::Merchant(account("MERCHANT"))),
        MERCHANT_TTL_BUMP
    );
    assert_eq!(
        ttl(&env, DataKeyOf::Rule(account("MERCHANT"))),
        RULE_TTL_BUMP
    );
}

#[test]
fn quotes_and_reads_keep_the_default_rule_alive() {
    let mut env = setup();
    SettlementContract::set_default_rule(&mut env, rule(200, 50)).unwrap();
    advance(&mut env, RULE_TTL_BUMP - RULE_TTL_THRESHOLD, 0);
    SettlementContract::calculate_fee_split(&mut env, account("MERCHANT"), 50_000).unwrap();
    assert_eq!(ttl(&env, DataKeyOf::DefaultRule), RULE_TTL_BUMP);

    advance(&mut env, RULE_TTL_BUMP - RULE_TTL_THRESHOLD, 0);
    SettlementContract::get_default_rule(&mut env).unwrap();
    assert_eq!(ttl(&env, DataKeyOf::DefaultRule), RULE_TTL_BUMP);
}

#[test]
fn a_lifetime_above_the_threshold_is_left_alone() {
    let mut env = setup();
    SettlementContract::set_default_rule(&mut env, rule(200, 50)).unwrap();
    let last = env.live_until(&DataKeyOf::DefaultRule);
    advance(&mut env, 1_000, 0);
    let before = env.journal().len();
    SettlementContract::get_default_rule(&mut env).unwrap();
    assert_eq!(
        env.journal()[before],
        EffectOf::Extend {
            key: DataKeyOf::DefaultRule,
            threshold: RULE_TTL_THRESHOLD,
            extend_to: RULE_TTL_BUMP
        }
    );
    assert_eq!(env.live_until(&DataKeyOf::DefaultRule), last);
}

#[test]
fn no_lifetime_exceeds_the_longest() {
    let mut env = Env::new(LedgerInfo {
        sequence: 10,
        timestamp: 0,
        min_ttl: 20,
        max_ttl: 1_000,
    });
    authorize_all(&mut env);
    SettlementContract::init(&mut env, account("ADMIN"), governance(), account("RECOVERY"))
        .unwrap();
    assert_eq!(env.instance_live_until(), 30);
    SettlementContract::set_default_rule(&mut env, rule(200, 50)).unwrap();
    assert_eq!(env.live_until(&DataKeyOf::DefaultRule), Some(1_010));
    assert_eq!(env.instance_live_until(), 1_010);
}

#[test]
fn reading_a_role_keeps_the_instance_alive() {
    let mut env = setup();
    assert_eq!(env.instance_live_until(), INSTANCE_TTL_BUMP);
    advance(&mut env, INSTANCE_TTL_BUMP - INSTANCE_TTL_THRESHOLD - 1, 0);
    SettlementContract::get_admin(&mut env).unwrap();
    assert_eq!(env.instance_live_until(), INSTANCE_TTL_BUMP);
    advance(&mut env, 1, 0);
    SettlementContract::get_governance(&mut env).unwrap();
    assert_eq!(
        env.instance_live_until(),
        env.ledger().sequence + INSTANCE_TTL_BUMP
    );
}

#[test]
fn a_new_entry_gets_the_shortest_lifetime_and_an_old_one_keeps_its_own() {
    let mut env = Env::new(ledger(100, 0));
    env.perform(EffectOf::Write(EntryOf::DefaultRule(rule(100, 0))));
    assert_eq!(env.live_until(&DataKeyOf::DefaultRule), Some(4_195));
    env.begin_call(ledger(200, 0));
    env.perform(EffectOf::Write(EntryOf::DefaultRule(rule(200, 0))));
    assert_eq!(env.live_until(&DataKeyOf::DefaultRule), Some(4_195));
    assert_eq!(env.default_rule(), Some(rule(200, 0)));
    env.perform(EffectOf::Erase(DataKeyOf::DefaultRule));
    assert_eq!(env.live_until(&DataKeyOf::DefaultRule), None);
    assert_eq!(env.default_rule(), None);
}

#[test]
fn entries_of_the_host_are_taken_over_as_they_are() {
    let mut env = Env::new(ledger(100, 0));
    env.load(&EntryOf::Admin(account("ADMIN")), 0);
    env.load(&EntryOf::Paused(true), 0);
    env.load(&EntryOf::Merchant(account("MERCHANT"), true), 777);
    env.load(&EntryOf::Merchant(account("OTHER"), false), 778);
    env.set_instance_live_until(555);
    assert_eq!(env.journal().len(), 0);
    assert!(SettlementContract::is_paused(&env));
    assert_eq!(env.instance_live_until(), 555);
    assert_eq!(
        env.live_until(&DataKeyOf::Merchant(account("MERCHANT"))),
        Some(777)
    );
    assert!(SettlementContract::is_merchant_registered(
        &mut env,
        account("MERCHANT")
    ));
    assert!(!SettlementContract::is_merchant_registered(
        &mut env,
        account("OTHER")
    ));
}

// Errors and events.

#[test]
fn errors_are_numbered_in_order() {
    let all = [
        SettlementError::AlreadyInitialized,
        SettlementError::NotInitialized,
        SettlementError::Unauthorized,
        SettlementError::MerchantExists,
        SettlementError::MerchantMissing,
        SettlementError::InvalidFeeBps,
        SettlementError::InvalidAmount,
        SettlementError::DuplicatePaymentReference,
        SettlementError::Paused,
        SettlementError::MerchantRuleNotSet,
        SettlementError::InvalidAddress,
        SettlementError::InvalidPaymentReference,
        SettlementError::InvalidSettlementDelay,
        SettlementError::InvalidAdmin,
        SettlementError::InvalidGovernance,
        SettlementError::InvalidRecoveryAddress,
        SettlementError::RecoveryNotPending,
        SettlementError::RecoveryDelayActive,
        SettlementError::AmountOverflow,
    ];
    for (i, error) in all.iter().enumerate() {
        assert_eq!(error.code() as usize, i + 1);
    }
}

#[test]
fn events_about_roles_carry_these_data() {
    let who = |name: &str| Datum::Address(account(name));
    let mut env = setup();
    let mut last: Vec<Vec<Datum>> = Vec::new();
    last.push(events(&env)[0].data());
    env.answer_fee_config(account("OTHER"), None);
    SettlementContract::update_governance(&mut env, account("OTHER")).unwrap();
    last.push(events(&env).last().unwrap().data());
    SettlementContract::initiate_recovery(&mut env, account("NEWADMIN")).unwrap();
    last.push(events(&env).last().unwrap().data());
    SettlementContract::cancel_recovery(&mut env).unwrap();
    last.push(events(&env).last().unwrap().data());
    SettlementContract::upgrade(&mut env, [5; 32]).unwrap();
    last.push(events(&env).last().unwrap().data());
    SettlementContract::pause(&mut env).unwrap();
    last.push(events(&env).last().unwrap().data());
    SettlementContract::unpause(&mut env).unwrap();
    last.push(events(&env).last().unwrap().data());
    SettlementContract::initiate_recovery(&mut env, account("NEWADMIN")).unwrap();
    SettlementContract::transfer_admin(&mut env, account("OTHER")).unwrap();
    last.push(events(&env).last().unwrap().data());
    advance(&mut env, 1, RECOVERY_DELAY_SECONDS);
    SettlementContract::execute_recovery(&mut env).unwrap();
    last.push(events(&env).last().unwrap().data());
    assert_eq!(
        last,
        vec![
            vec![who("ADMIN")],
            vec![who("ADMIN"), who("OTHER")],
            vec![who("RECOVERY"), who("NEWADMIN"), Datum::Time(604_800)],
            vec![who("ADMIN")],
            vec![who("ADMIN")],
            vec![Datum::Flag(true)],
            vec![Datum::Flag(false)],
            vec![who("OTHER")],
            vec![who("NEWADMIN")],
        ]
    );
}

#[test]
fn events_about_rules_and_payments_carry_these_data() {
    let mut env = setup();
    let admin = || Datum::Address(account("ADMIN"));
    let bootstrap = || Datum::Rule(bootstrap_default_rule());
    assert_eq!(events(&env).last().unwrap().data(), vec![admin()]);

    SettlementContract::set_settlement_rule(&mut env, account("MERCHANT"), rule(250, 50)).unwrap();
    assert_eq!(
        events(&env).last().unwrap().data(),
        vec![admin(), bootstrap(), Datum::Rule(rule(250, 50))]
    );

    SettlementContract::clear_settlement_rule(&mut env, account("MERCHANT")).unwrap();
    let all = events(&env);
    assert_eq!(all[all.len() - 2].data(), vec![bootstrap()]);
    assert_eq!(
        all[all.len() - 1].data(),
        vec![admin(), Datum::Rule(rule(250, 50)), bootstrap()]
    );

    SettlementContract::set_default_rule(&mut env, rule(200, 40)).unwrap();
    assert_eq!(
        events(&env).last().unwrap().data(),
        vec![admin(), bootstrap(), Datum::Rule(rule(200, 40))]
    );

    SettlementContract::store_payment_reference(&mut env, account("MERCHANT"), [6; 32], 10_000)
        .unwrap();
    let record = env.payment(&[6; 32]).unwrap();
    assert_eq!(
        events(&env).last().unwrap().data(),
        vec![Datum::Reference([6; 32]), Datum::Record(record)]
    );

    SettlementContract::unregister_merchant(&mut env, account("MERCHANT")).unwrap();
    assert_eq!(events(&env).last().unwrap().data(), vec![admin()]);
}

#[test]
fn every_event_published_here_has_a_name_the_host_takes() {
    let mut env = setup();
    SettlementContract::set_settlement_rule(&mut env, account("MERCHANT"), rule(250, 50)).unwrap();
    SettlementContract::clear_settlement_rule(&mut env, account("MERCHANT")).unwrap();
    SettlementContract::unregister_merchant(&mut env, account("MERCHANT")).unwrap();
    let names: Vec<String> = events(&env).iter().map(|event| event.name()).collect();
    assert_eq!(
        names,
        vec![
            "initialized",
            "merchant_registered",
            "settlement_rule_updated",
            "bootstrap_fallback",
            "settlement_rule_cleared",
            "merchant_unregistered"
        ]
    );
    for name in names {
        assert!(!name.is_empty() && name.len() <= 32);
        assert!(name.chars().all(|c| c.is_ascii_lowercase() || c == '_'));
    }
}
