use settlement::address::Address;
use settlement::contract::{read_rule_or_default, SettlementContract};
use settlement::effects::{DataKey, DataKeyOf, EffectOf, Event, EventOf, Topic};
use settlement::env::{Env, LedgerInfo};
use settlement::types::{
    bootstrap_default_rule, SettlementError, SettlementRule, BPS_DENOMINATOR, MIN_PAYMENT_AMOUNT,
    RECOVERY_DELAY_SECONDS, RULE_TTL_BUMP, RULE_TTL_THRESHOLD,
};

const ZERO_ADDRESS: &str = "GAAAAAAAAAAAAAAAAAAAAAAAAAAAAAAAAAAAAAAAAAAAAAAAAAAAAWHF";

fn account(name: &str) -> Address {
    Address::from_string(format!("G{:A<55}", name))
}

fn governance_contract(name: &str) -> Address {
    Address::from_string(format!("C{:A<55}", name))
}

fn ledger(sequence: u32, timestamp: u64) -> LedgerInfo {
    LedgerInfo {
        sequence,
        timestamp,
        min_ttl: 4_095,
        max_ttl: 6_311_999,
    }
}

fn rule(platform: u32, network: u32, delay: u32, auto_settle: bool) -> SettlementRule {
    SettlementRule {
        platform_fee_bps: platform,
        network_fee_bps: network,
        settlement_delay_ledger: delay,
        auto_settle,
    }
}

/// Everybody who plays a role here authorises the call.
fn authorize_all(env: &mut Env) {
    for name in ["ADMIN", "RECOVERY", "MERCHANT", "NEWADMIN"] {
        env.authorize(account(name));
    }
    env.answer_fee_config(governance_contract("GOVERNANCE"), None);
}

/// A contract that has been initialised, with its admin and a merchant.
fn setup() -> (Env, Address, Address) {
    let mut env = Env::new(ledger(0, 0));
    authorize_all(&mut env);
    let admin = account("ADMIN");
    SettlementContract::init(
        &mut env,
        admin.clone(),
        governance_contract("GOVERNANCE"),
        account("RECOVERY"),
    )
    .unwrap();
    (env, admin, account("MERCHANT"))
}

/// The same contract in a later ledger, with the same authorisations.
fn advance(env: &mut Env, ledgers: u32) {
    let now = env.ledger();
    env.begin_call(ledger(now.sequence + ledgers, now.timestamp));
    authorize_all(env);
}

fn events(env: &Env) -> Vec<&Event> {
    let mut found = Vec::new();
    for effect in env.journal() {
        if let EffectOf::Publish(event) = effect {
            found.push(event);
        }
    }
    found
}

fn ttl(env: &Env, key: DataKey) -> u32 {
    env.live_until(&key).unwrap() - env.ledger().sequence
}

fn named(name: &str) -> Topic {
    Topic::Name(name.to_string())
}

#[test]
fn executes_contract_wasm_upgrade_successfully() {
    let (mut env, admin, _) = setup();
    let new_wasm_hash: [u8; 32] = [0xe3; 32];

    let before = events(&env).len();
    SettlementContract::upgrade(&mut env, new_wasm_hash).unwrap();

    let all = events(&env);
    assert!(all.len() > before);
    let event = all.last().unwrap();
    assert_eq!(
        event.topics(),
        vec![named("contract_upgraded"), Topic::Hash(new_wasm_hash)]
    );
    assert_eq!(
        **event,
        EventOf::ContractUpgraded {
            wasm_hash: new_wasm_hash,
            admin: admin.clone()
        }
    );
    // The code is replaced after the event is out.
    assert_eq!(
        *env.journal().last().unwrap(),
        EffectOf::Upgrade(new_wasm_hash)
    );
    assert_eq!(SettlementContract::get_admin(&mut env), Ok(admin));
}

#[test]
fn emits_event_on_initialization() {
    let (env, admin, _) = setup();

    let all = events(&env);
    assert_eq!(all.len(), 1, "exactly one event emitted on init");
    assert_eq!(all[0].topics(), vec![named("initialized")]);
    assert_eq!(*all[0], EventOf::Initialized { admin });
}

#[test]
fn rejects_double_initialization() {
    let (mut env, admin, _) = setup();
    let again = SettlementContract::init(
        &mut env,
        admin,
        governance_contract("GOVERNANCE"),
        account("RECOVERY"),
    );
    assert_eq!(again, Err(SettlementError::AlreadyInitialized));
}

#[test]
fn get_admin_panics_before_init() {
    let mut env = Env::new(ledger(0, 0));
    let error = SettlementContract::get_admin(&mut env).unwrap_err();
    assert_eq!(error.code(), 2);
}

#[test]
fn proposes_and_accepts_admin_successfully() {
    let (mut env, admin, _) = setup();
    let new_admin = account("NEWADMIN");

    assert_eq!(SettlementContract::get_pending_admin(&env), None);

    SettlementContract::propose_admin(&mut env, new_admin.clone()).unwrap();
    assert_eq!(
        SettlementContract::get_pending_admin(&env),
        Some(new_admin.clone())
    );
    assert_eq!(SettlementContract::get_admin(&mut env), Ok(admin));

    SettlementContract::accept_admin(&mut env).unwrap();
    assert_eq!(SettlementContract::get_admin(&mut env), Ok(new_admin));
    assert_eq!(SettlementContract::get_pending_admin(&env), None);
}

#[test]
fn cancels_admin_proposal() {
    let (mut env, admin, _) = setup();
    let new_admin = account("NEWADMIN");

    SettlementContract::propose_admin(&mut env, new_admin.clone()).unwrap();
    assert_eq!(
        SettlementContract::get_pending_admin(&env),
        Some(new_admin)
    );

    SettlementContract::cancel_admin_transfer(&mut env).unwrap();
    assert_eq!(SettlementContract::get_pending_admin(&env), None);
    assert_eq!(SettlementContract::get_admin(&mut env), Ok(admin));
}

#[test]
fn registers_merchant_and_persists_flag() {
    let (mut env, _, merchant) = setup();
    let before = events(&env).len();
    SettlementContract::register_merchant(&mut env, merchant.clone()).unwrap();
    assert!(SettlementContract::is_merchant_registered(
        &mut env, merchant
    ));
    assert!(events(&env).len() > before);
}

#[test]
fn update_governance_stores_validated_address() {
    let (mut env, _, _) = setup();
    let new_governance = governance_contract("NEWGOVERNANCE");
    env.answer_fee_config(new_governance.clone(), None);

    SettlementContract::update_governance(&mut env, new_governance.clone()).unwrap();

    assert_eq!(
        SettlementContract::get_governance(&mut env),
        Ok(new_governance)
    );
}

#[test]
fn recovery_executes_after_delay() {
    let (mut env, _, _) = setup();
    let new_admin = account("NEWADMIN");
    assert_eq!(
        SettlementContract::get_recovery_address(&mut env),
        Ok(account("RECOVERY"))
    );

    SettlementContract::initiate_recovery(&mut env, new_admin.clone()).unwrap();
    env.begin_call(ledger(0, RECOVERY_DELAY_SECONDS));
    SettlementContract::execute_recovery(&mut env).unwrap();

    assert_eq!(SettlementContract::get_admin(&mut env), Ok(new_admin));
}

#[test]
fn emits_event_on_registration() {
    let (mut env, admin, merchant) = setup();

    SettlementContract::register_merchant(&mut env, merchant.clone()).unwrap();

    let all = events(&env);
    let event = all.last().unwrap();
    assert_eq!(
        event.topics(),
        vec![
            named("merchant_registered"),
            Topic::Address(merchant.clone())
        ]
    );
    assert_eq!(**event, EventOf::MerchantRegistered { merchant, admin });
}

#[test]
fn rejects_invalid_merchant_address() {
    let (mut env, _, _) = setup();
    let zero_address = Address::from_string(ZERO_ADDRESS.to_string());
    assert_eq!(
        SettlementContract::register_merchant(&mut env, zero_address),
        Err(SettlementError::InvalidAddress)
    );
}

#[test]
fn rejects_zero_address_admin_transfer() {
    let (mut env, _, _) = setup();
    let zero_address = Address::from_string(ZERO_ADDRESS.to_string());
    assert_eq!(
        SettlementContract::transfer_admin(&mut env, zero_address),
        Err(SettlementError::InvalidAddress)
    );
}

#[test]
fn extends_ttl_when_updating_settlement_rule() {
    let (mut env, _, merchant) = setup();
    SettlementContract::register_merchant(&mut env, merchant.clone()).unwrap();

    SettlementContract::set_settlement_rule(&mut env, merchant.clone(), rule(100, 0, 0, false))
        .unwrap();

    assert!(env.rule(&merchant).is_some());
    assert_eq!(ttl(&env, DataKeyOf::Rule(merchant)), RULE_TTL_BUMP);
}

#[test]
fn set_default_rule_extends_ttl() {
    let (mut env, _, _) = setup();

    SettlementContract::set_default_rule(&mut env, rule(300, 100, 5, true)).unwrap();

    assert!(env.default_rule().is_some());
    assert!(
        ttl(&env, DataKeyOf::DefaultRule) >= env.ledger().sequence + RULE_TTL_BUMP,
        "TTL must be extended to at least ledger + RULE_TTL_BUMP"
    );
}

// The lifetime is refreshed on every write to the default rule, not just the
// first one.
#[test]
fn set_default_rule_extends_ttl_on_update() {
    let (mut env, _, _) = setup();

    SettlementContract::set_default_rule(&mut env, rule(300, 100, 5, true)).unwrap();

    for _ in 0..5 {
        advance(&mut env, 60_000);
        SettlementContract::get_admin(&mut env).unwrap();
    }

    SettlementContract::set_default_rule(&mut env, rule(400, 150, 10, false)).unwrap();

    assert!(
        ttl(&env, DataKeyOf::DefaultRule) >= RULE_TTL_BUMP,
        "TTL must be refreshed to at least RULE_TTL_BUMP on every write, not just the first"
    );
}

// A thousand ledgers on, the rule has more than the threshold left, and an
// extension above the threshold changes nothing. So its lifetime is asserted as
// it is, not as `sequence + RULE_TTL_BUMP`, which no extension by these two
// limits gives; below the threshold it settles at RULE_TTL_BUMP.
#[test]
fn store_payment_reference_extends_rule_ttl_on_read() {
    let (mut env, _, merchant) = setup();
    SettlementContract::register_merchant(&mut env, merchant.clone()).unwrap();
    SettlementContract::set_settlement_rule(&mut env, merchant.clone(), rule(250, 50, 0, false))
        .unwrap();

    advance(&mut env, 1000);

    let before = env.journal().len();
    SettlementContract::store_payment_reference(&mut env, merchant.clone(), [42; 32], 10_000)
        .unwrap();

    assert!(env.rule(&merchant).is_some());
    assert!(
        env.journal()[before..].contains(&EffectOf::Extend {
            key: DataKeyOf::Rule(merchant.clone()),
            threshold: RULE_TTL_THRESHOLD,
            extend_to: RULE_TTL_BUMP,
        }),
        "Merchant Rule TTL must be extended on read"
    );
    assert_eq!(
        ttl(&env, DataKeyOf::Rule(merchant.clone())),
        RULE_TTL_BUMP - 1000
    );

    advance(&mut env, RULE_TTL_BUMP - RULE_TTL_THRESHOLD);
    SettlementContract::store_payment_reference(&mut env, merchant.clone(), [43; 32], 10_000)
        .unwrap();
    assert_eq!(ttl(&env, DataKeyOf::Rule(merchant)), RULE_TTL_BUMP);
}

// The lifetime is asserted as in the test above, for the same reason.
#[test]
fn calculate_fee_split_extends_default_rule_ttl_on_read() {
    let (mut env, _, merchant) = setup();
    SettlementContract::register_merchant(&mut env, merchant.clone()).unwrap();
    SettlementContract::set_default_rule(&mut env, rule(200, 50, 10, true)).unwrap();

    advance(&mut env, 1000);

    let before = env.journal().len();
    SettlementContract::calculate_fee_split(&mut env, merchant.clone(), 50_000).unwrap();

    assert!(env.default_rule().is_some());
    assert!(
        env.journal()[before..].contains(&EffectOf::Extend {
            key: DataKeyOf::DefaultRule,
            threshold: RULE_TTL_THRESHOLD,
            extend_to: RULE_TTL_BUMP,
        }),
        "DefaultRule TTL must be extended on read"
    );
    assert_eq!(ttl(&env, DataKeyOf::DefaultRule), RULE_TTL_BUMP - 1000);

    advance(&mut env, RULE_TTL_BUMP - RULE_TTL_THRESHOLD);
    SettlementContract::calculate_fee_split(&mut env, merchant, 50_000).unwrap();
    assert_eq!(ttl(&env, DataKeyOf::DefaultRule), RULE_TTL_BUMP);
}

// The lifetime is asserted as in the two tests above, for the same reason.
#[test]
fn get_default_rule_extends_ttl_on_read() {
    let (mut env, _, _) = setup();
    SettlementContract::set_default_rule(&mut env, rule(200, 50, 10, true)).unwrap();

    advance(&mut env, 1000);

    let before = env.journal().len();
    let retrieved = SettlementContract::get_default_rule(&mut env);
    assert!(retrieved.is_some());
    assert_eq!(retrieved.unwrap().platform_fee_bps, 200);

    assert!(env.default_rule().is_some());
    assert!(
        env.journal()[before..].contains(&EffectOf::Extend {
            key: DataKeyOf::DefaultRule,
            threshold: RULE_TTL_THRESHOLD,
            extend_to: RULE_TTL_BUMP,
        }),
        "DefaultRule TTL must be extended on public read via get_default_rule"
    );
    assert_eq!(ttl(&env, DataKeyOf::DefaultRule), RULE_TTL_BUMP - 1000);

    advance(&mut env, RULE_TTL_BUMP - RULE_TTL_THRESHOLD);
    SettlementContract::get_default_rule(&mut env).unwrap();
    assert_eq!(ttl(&env, DataKeyOf::DefaultRule), RULE_TTL_BUMP);
}

#[test]
fn sets_and_reads_settlement_rule() {
    let (mut env, _, merchant) = setup();
    SettlementContract::register_merchant(&mut env, merchant.clone()).unwrap();

    let prev_count = events(&env).len();
    SettlementContract::set_settlement_rule(&mut env, merchant.clone(), rule(175, 25, 42, true))
        .unwrap();
    let got = SettlementContract::get_settlement_rule(&mut env, merchant.clone())
        .expect("expected settlement rule");

    assert_eq!(got.platform_fee_bps, 175);
    assert_eq!(got.network_fee_bps, 25);
    assert_eq!(got.settlement_delay_ledger, 42);
    assert!(got.auto_settle);

    let all = events(&env);
    assert_eq!(all.len(), prev_count + 1, "exactly one event emitted");
    assert_eq!(
        all[prev_count].topics(),
        vec![named("settlement_rule_updated"), Topic::Address(merchant)]
    );
}

#[test]
fn emits_structured_event_when_updating_rule() {
    let (mut env, _, merchant) = setup();
    SettlementContract::register_merchant(&mut env, merchant.clone()).unwrap();

    SettlementContract::set_settlement_rule(&mut env, merchant.clone(), rule(100, 0, 10, false))
        .unwrap();

    let prev_count = events(&env).len();
    SettlementContract::set_settlement_rule(&mut env, merchant.clone(), rule(200, 50, 20, true))
        .unwrap();

    let all = events(&env);
    assert_eq!(all.len(), prev_count + 1, "exactly one event emitted");
    assert_eq!(
        all[prev_count].topics(),
        vec![
            named("settlement_rule_updated"),
            Topic::Address(merchant.clone())
        ]
    );

    let stored = SettlementContract::get_settlement_rule(&mut env, merchant)
        .expect("expected settlement rule");
    assert_eq!(stored.platform_fee_bps, 200);
    assert_eq!(stored.network_fee_bps, 50);
    assert_eq!(stored.settlement_delay_ledger, 20);
    assert!(stored.auto_settle);
}

// One event is asserted, not two: the split has no event of its own, it travels
// with the record in `payment_stored`.
#[test]
fn stores_payment_reference_once_and_calculates_split() {
    let (mut env, _, merchant) = setup();
    SettlementContract::register_merchant(&mut env, merchant.clone()).unwrap();
    SettlementContract::set_settlement_rule(&mut env, merchant.clone(), rule(250, 50, 0, false))
        .unwrap();

    let reference = [7; 32];
    let before = events(&env).len();
    let split = SettlementContract::store_payment_reference(&mut env, merchant, reference, 20_000)
        .unwrap();
    let stored = SettlementContract::get_payment_reference(&mut env, reference)
        .expect("expected payment record");

    assert_eq!(split.platform_fee_amount, 500);
    assert_eq!(split.network_fee_amount, 100);
    assert_eq!(split.merchant_amount, 19_400);
    assert_eq!(stored.platform_fee_bps, 250);
    assert_eq!(stored.network_fee_bps, 50);
    assert_eq!(stored.amount, 20_000);
    assert_eq!(events(&env).len(), before + 1);
}

#[test]
fn rejects_all_zero_payment_reference() {
    let (mut env, _, merchant) = setup();
    SettlementContract::register_merchant(&mut env, merchant.clone()).unwrap();
    SettlementContract::set_settlement_rule(&mut env, merchant.clone(), rule(250, 50, 0, false))
        .unwrap();

    assert_eq!(
        SettlementContract::store_payment_reference(&mut env, merchant, [0; 32], 10_000),
        Err(SettlementError::InvalidPaymentReference)
    );
}

#[test]
fn reads_payment_reference_and_extends_ttl() {
    let (mut env, _, merchant) = setup();
    SettlementContract::register_merchant(&mut env, merchant.clone()).unwrap();
    SettlementContract::set_settlement_rule(&mut env, merchant.clone(), rule(250, 50, 0, false))
        .unwrap();

    let reference = [8; 32];
    SettlementContract::store_payment_reference(&mut env, merchant, reference, 10_000).unwrap();

    let stored = SettlementContract::get_payment_reference(&mut env, reference)
        .expect("expected payment record");
    assert_eq!(stored.amount, 10_000);
    assert!(env.payment(&reference).is_some());
}

#[test]
fn get_payment_reference_returns_none_for_unknown() {
    let (mut env, _, _) = setup();
    assert!(SettlementContract::get_payment_reference(&mut env, [0xab; 32]).is_none());
}

#[test]
fn gets_payments_in_batches() {
    let (mut env, _, merchant) = setup();
    SettlementContract::register_merchant(&mut env, merchant.clone()).unwrap();
    SettlementContract::set_settlement_rule(&mut env, merchant.clone(), rule(250, 50, 0, false))
        .unwrap();

    let reference_one = [11; 32];
    let reference_two = [12; 32];
    SettlementContract::store_payment_reference(&mut env, merchant.clone(), reference_one, 15_000)
        .unwrap();
    SettlementContract::store_payment_reference(&mut env, merchant, reference_two, 25_000).unwrap();

    let payments = SettlementContract::get_payments(&mut env, vec![reference_one, reference_two]);

    assert_eq!(payments.len(), 2);
    assert_eq!(payments[0].amount, 15_000);
    assert_eq!(payments[1].amount, 25_000);
}

#[test]
fn get_payments_with_empty_input_vector_returns_empty_vector() {
    let (mut env, _, _) = setup();
    let payments = SettlementContract::get_payments(&mut env, Vec::new());
    assert_eq!(payments.len(), 0);
}

#[test]
fn get_payments_with_all_missing_references_returns_empty_vector() {
    let (mut env, _, _) = setup();
    let payments = SettlementContract::get_payments(&mut env, vec![[90; 32], [91; 32]]);
    assert_eq!(payments.len(), 0);
}

#[test]
fn get_payments_with_mixed_valid_and_missing_references() {
    let (mut env, _, merchant) = setup();
    SettlementContract::register_merchant(&mut env, merchant.clone()).unwrap();

    let valid_one = [80; 32];
    let valid_two = [81; 32];
    let missing_ref = [82; 32];
    SettlementContract::store_payment_reference(&mut env, merchant.clone(), valid_one, 10_000)
        .unwrap();
    SettlementContract::store_payment_reference(&mut env, merchant, valid_two, 20_000).unwrap();

    let payments =
        SettlementContract::get_payments(&mut env, vec![valid_one, missing_ref, valid_two]);

    assert_eq!(payments.len(), 2);
    assert_eq!(payments[0].amount, 10_000);
    assert_eq!(payments[1].amount, 20_000);
}

#[test]
fn get_payments_returns_all_records_in_order_for_large_batch() {
    let (mut env, _, merchant) = setup();
    SettlementContract::register_merchant(&mut env, merchant.clone()).unwrap();

    const BATCH_SIZE: u8 = 20;
    let mut references = Vec::new();
    for i in 1..=BATCH_SIZE {
        let reference = [i; 32];
        let amount = MIN_PAYMENT_AMOUNT + i as i128;
        SettlementContract::store_payment_reference(&mut env, merchant.clone(), reference, amount)
            .unwrap();
        references.push(reference);
    }

    let payments = SettlementContract::get_payments(&mut env, references);

    assert_eq!(payments.len(), BATCH_SIZE as usize);
    for i in 1..=BATCH_SIZE {
        assert_eq!(
            payments[(i - 1) as usize].amount,
            MIN_PAYMENT_AMOUNT + i as i128
        );
    }
}

#[test]
fn calculates_split_without_storing_reference() {
    let (mut env, _, merchant) = setup();
    SettlementContract::register_merchant(&mut env, merchant.clone()).unwrap();
    let split = SettlementContract::calculate_fee_split(&mut env, merchant, 50_000).unwrap();
    assert_eq!(split.platform_fee_amount, 500); // Because default is 100 bps
    assert_eq!(split.network_fee_amount, 0);
    assert_eq!(split.merchant_amount, 49_500);
}

#[test]
fn rejects_duplicate_merchant() {
    let (mut env, _, merchant) = setup();
    SettlementContract::register_merchant(&mut env, merchant.clone()).unwrap();
    assert_eq!(
        SettlementContract::register_merchant(&mut env, merchant),
        Err(SettlementError::MerchantExists)
    );
}

#[test]
fn unregisters_merchant_and_cleans_up() {
    let (mut env, _, merchant) = setup();
    SettlementContract::register_merchant(&mut env, merchant.clone()).unwrap();
    SettlementContract::set_settlement_rule(&mut env, merchant.clone(), rule(100, 50, 10, false))
        .unwrap();

    assert!(SettlementContract::is_merchant_registered(
        &mut env,
        merchant.clone()
    ));
    assert!(SettlementContract::get_settlement_rule(&mut env, merchant.clone()).is_some());

    let before = events(&env).len();
    SettlementContract::unregister_merchant(&mut env, merchant.clone()).unwrap();

    assert!(!SettlementContract::is_merchant_registered(
        &mut env,
        merchant.clone()
    ));
    assert!(SettlementContract::get_settlement_rule(&mut env, merchant).is_none());
    assert!(events(&env).len() > before);
}

#[test]
fn emits_structured_event_when_unregistering_merchant() {
    let (mut env, admin, merchant) = setup();
    SettlementContract::register_merchant(&mut env, merchant.clone()).unwrap();

    SettlementContract::unregister_merchant(&mut env, merchant.clone()).unwrap();

    let all = events(&env);
    let event = all.last().unwrap();
    assert_eq!(
        event.topics(),
        vec![
            named("merchant_unregistered"),
            Topic::Address(merchant.clone())
        ]
    );
    assert_eq!(**event, EventOf::MerchantUnregistered { merchant, admin });
}

#[test]
fn unregister_rejects_missing_merchant() {
    let (mut env, _, merchant) = setup();
    assert_eq!(
        SettlementContract::unregister_merchant(&mut env, merchant),
        Err(SettlementError::MerchantMissing)
    );
}

#[test]
fn rejects_duplicate_payment_reference() {
    let (mut env, _, merchant) = setup();
    SettlementContract::register_merchant(&mut env, merchant.clone()).unwrap();
    let reference = [1; 32];
    SettlementContract::store_payment_reference(&mut env, merchant.clone(), reference, 1000)
        .unwrap();
    let error =
        SettlementContract::store_payment_reference(&mut env, merchant, reference, 2000)
            .unwrap_err();
    assert_eq!(error.code(), 8);
}

#[test]
fn rejects_invalid_amount() {
    let (mut env, _, merchant) = setup();
    SettlementContract::register_merchant(&mut env, merchant.clone()).unwrap();
    assert_eq!(
        SettlementContract::store_payment_reference(&mut env, merchant, [2; 32], 0),
        Err(SettlementError::InvalidAmount)
    );
}

#[test]
fn rejects_below_minimum_amount() {
    let (mut env, _, merchant) = setup();
    SettlementContract::register_merchant(&mut env, merchant.clone()).unwrap();
    assert_eq!(
        SettlementContract::store_payment_reference(&mut env, merchant, [99; 32], 99),
        Err(SettlementError::InvalidAmount)
    );
}

#[test]
fn accepts_valid_minimum_amount() {
    let (mut env, _, merchant) = setup();
    SettlementContract::register_merchant(&mut env, merchant.clone()).unwrap();
    let reference = [100; 32];
    SettlementContract::store_payment_reference(&mut env, merchant, reference, 100).unwrap();

    let stored = SettlementContract::get_payment_reference(&mut env, reference)
        .expect("expected payment record");
    assert_eq!(stored.amount, 100);
}

// At 100 % and the minimum amount, the platform fee takes the whole payment and
// the merchant is left with nothing.
#[test]
fn store_payment_reference_min_amount_with_maximum_platform_fee_yields_zero_merchant_payout() {
    let (mut env, _, merchant) = setup();
    SettlementContract::register_merchant(&mut env, merchant.clone()).unwrap();
    SettlementContract::set_settlement_rule(&mut env, merchant.clone(), rule(10_000, 0, 0, false))
        .unwrap();

    let reference = [101; 32];
    let split =
        SettlementContract::store_payment_reference(&mut env, merchant, reference, 100).unwrap();

    assert_eq!(
        split.gross_amount, 100,
        "gross amount must equal the submitted payment amount"
    );
    assert_eq!(
        split.platform_fee_amount, 100,
        "platform fee must absorb the entire gross amount at 100% fee rate"
    );
    assert_eq!(
        split.network_fee_amount, 0,
        "network fee must be zero when network_fee_bps is 0"
    );
    assert_eq!(
        split.merchant_amount, 0,
        "merchant payout must be exactly 0 when fees consume the full gross amount"
    );

    let stored = SettlementContract::get_payment_reference(&mut env, reference)
        .expect("payment record must be present after successful store");
    assert_eq!(stored.amount, 100);
    assert_eq!(stored.platform_fee_amount, 100);
    assert_eq!(stored.network_fee_amount, 0);
    assert_eq!(stored.merchant_amount, 0);
    assert_eq!(stored.platform_fee_bps, 10_000);
    assert_eq!(stored.network_fee_bps, 0);
}

#[test]
fn rejects_invalid_fee_bps() {
    let (mut env, _, merchant) = setup();
    SettlementContract::register_merchant(&mut env, merchant.clone()).unwrap();
    assert_eq!(
        SettlementContract::set_settlement_rule(&mut env, merchant, rule(10_001, 0, 0, false)),
        Err(SettlementError::InvalidFeeBps)
    );
}

#[test]
fn rejects_settlement_rule_below_governance_min_fee() {
    let (mut env, _, merchant) = setup();
    SettlementContract::register_merchant(&mut env, merchant.clone()).unwrap();
    assert_eq!(
        SettlementContract::set_settlement_rule(&mut env, merchant, rule(4, 0, 0, false)),
        Err(SettlementError::InvalidFeeBps)
    );
}

#[test]
fn rejects_fee_sum_exceeding_10000_bps() {
    let (mut env, _, merchant) = setup();
    SettlementContract::register_merchant(&mut env, merchant.clone()).unwrap();
    assert_eq!(
        SettlementContract::set_settlement_rule(&mut env, merchant, rule(6_000, 5_000, 0, false)),
        Err(SettlementError::InvalidFeeBps)
    );
}

#[test]
fn accepts_fee_sum_at_exactly_10000_bps() {
    let (mut env, _, merchant) = setup();
    SettlementContract::register_merchant(&mut env, merchant.clone()).unwrap();
    SettlementContract::set_settlement_rule(
        &mut env,
        merchant.clone(),
        rule(5_000, 5_000, 0, false),
    )
    .unwrap();
    let stored = SettlementContract::get_settlement_rule(&mut env, merchant)
        .expect("expected settlement rule");
    assert_eq!(stored.platform_fee_bps, 5_000);
    assert_eq!(stored.network_fee_bps, 5_000);
}

#[test]
fn admin_clears_custom_rule() {
    let (mut env, admin, merchant) = setup();
    SettlementContract::register_merchant(&mut env, merchant.clone()).unwrap();
    let custom = rule(175, 25, 42, true);
    SettlementContract::set_settlement_rule(&mut env, merchant.clone(), custom).unwrap();

    SettlementContract::clear_settlement_rule(&mut env, merchant.clone()).unwrap();

    assert!(SettlementContract::get_settlement_rule(&mut env, merchant.clone()).is_none());

    let all = events(&env);
    let cleared = all
        .iter()
        .rev()
        .find(|event| {
            event.topics()
                == vec![
                    named("settlement_rule_cleared"),
                    Topic::Address(merchant.clone()),
                ]
        })
        .expect("expected settlement_rule_cleared event");
    match cleared {
        EventOf::SettlementRuleCleared {
            admin: caller,
            removed,
            fallback,
            ..
        } => {
            assert_eq!(*caller, admin);
            assert_eq!(*removed, custom);
            assert_eq!(*fallback, bootstrap_default_rule());
        }
        _ => unreachable!(),
    }
}

#[test]
fn clearing_rule_falls_back_to_defaults() {
    let (mut env, _, merchant) = setup();
    SettlementContract::register_merchant(&mut env, merchant.clone()).unwrap();
    let custom = rule(500, 200, 10, true);
    SettlementContract::set_settlement_rule(&mut env, merchant.clone(), custom).unwrap();

    SettlementContract::clear_settlement_rule(&mut env, merchant.clone()).unwrap();

    let split =
        SettlementContract::calculate_fee_split(&mut env, merchant.clone(), 50_000).unwrap();
    assert_eq!(split.platform_fee_amount, 500); // 100 bps of 50_000
    assert_eq!(split.network_fee_amount, 0);
    assert_eq!(split.merchant_amount, 49_500);

    let all = events(&env);
    let cleared = all
        .iter()
        .rev()
        .find(|event| {
            event.topics()
                == vec![
                    named("settlement_rule_cleared"),
                    Topic::Address(merchant.clone()),
                ]
        })
        .expect("expected settlement_rule_cleared event");
    match cleared {
        EventOf::SettlementRuleCleared {
            removed, fallback, ..
        } => {
            assert_eq!(*removed, custom);
            assert_eq!(*fallback, bootstrap_default_rule());
        }
        _ => unreachable!(),
    }
}

#[test]
fn clear_settlement_rule_fails_for_non_admin() {
    let (mut env, _, merchant) = setup();
    SettlementContract::register_merchant(&mut env, merchant.clone()).unwrap();

    // The admin does not authorise the call.
    env.begin_call(ledger(0, 0));
    assert_eq!(
        SettlementContract::clear_settlement_rule(&mut env, merchant),
        Err(SettlementError::Unauthorized)
    );
}

#[test]
fn clear_settlement_rule_fails_when_not_set() {
    let (mut env, _, merchant) = setup();
    SettlementContract::register_merchant(&mut env, merchant.clone()).unwrap();
    assert_eq!(
        SettlementContract::clear_settlement_rule(&mut env, merchant),
        Err(SettlementError::MerchantRuleNotSet)
    );
}

#[test]
fn clear_settlement_rule_fails_after_unregister_removes_rule() {
    let (mut env, _, merchant) = setup();
    SettlementContract::register_merchant(&mut env, merchant.clone()).unwrap();
    SettlementContract::set_settlement_rule(&mut env, merchant.clone(), rule(250, 50, 0, false))
        .unwrap();
    assert!(SettlementContract::get_settlement_rule(&mut env, merchant.clone()).is_some());

    SettlementContract::unregister_merchant(&mut env, merchant.clone()).unwrap();
    assert!(SettlementContract::get_settlement_rule(&mut env, merchant.clone()).is_none());

    let error = SettlementContract::clear_settlement_rule(&mut env, merchant).unwrap_err();
    assert_eq!(error.code(), 10);
}

#[test]
fn bootstrap_default_used_before_any_default_rule_set() {
    let (mut env, _, merchant) = setup();
    SettlementContract::register_merchant(&mut env, merchant.clone()).unwrap();
    let split = SettlementContract::calculate_fee_split(&mut env, merchant, 50_000).unwrap();
    assert_eq!(split.platform_fee_amount, 500);
    assert_eq!(split.network_fee_amount, 0);
    assert_eq!(split.merchant_amount, 49_500);
}

#[test]
fn bootstrap_fallback_emits_event_and_matches_bootstrap_rule() {
    let (mut env, _, merchant) = setup();
    SettlementContract::register_merchant(&mut env, merchant.clone()).unwrap();

    let before = events(&env).len();
    let split = SettlementContract::calculate_fee_split(&mut env, merchant, 50_000).unwrap();

    assert_eq!(split.platform_fee_amount, 500);
    assert_eq!(split.network_fee_amount, 0);
    assert_eq!(split.merchant_amount, 49_500);

    let all = events(&env);
    assert!(
        all.len() > before,
        "at least one event expected from bootstrap fallback"
    );
    let fallback_event = all
        .iter()
        .skip(before)
        .find(|event| event.name() == "bootstrap_fallback")
        .expect("expected bootstrap_fallback event to be emitted");
    assert_eq!(fallback_event.topics().len(), 1);
    match fallback_event {
        EventOf::BootstrapFallback { rule: emitted } => {
            assert_eq!(emitted.platform_fee_bps, 100);
            assert_eq!(emitted.network_fee_bps, 0);
            assert_eq!(emitted.settlement_delay_ledger, 0);
            assert!(!emitted.auto_settle);
        }
        _ => unreachable!(),
    }
}

#[test]
fn read_rule_or_default_short_circuits_on_merchant_rule_without_touching_default() {
    let (mut env, _, merchant) = setup();
    SettlementContract::register_merchant(&mut env, merchant.clone()).unwrap();

    SettlementContract::set_default_rule(&mut env, rule(200, 50, 10, true)).unwrap();
    let merchant_rule = rule(300, 75, 20, false);
    SettlementContract::set_settlement_rule(&mut env, merchant.clone(), merchant_rule).unwrap();

    let default_expiration_before =
        env.ledger().sequence + ttl(&env, DataKeyOf::DefaultRule);

    env.perform(EffectOf::ExtendInstance {
        threshold: RULE_TTL_THRESHOLD + 200_000,
        extend_to: RULE_TTL_THRESHOLD + 1_000_000,
    });

    // Past the threshold, an extension of either rule would show.
    advance(&mut env, RULE_TTL_THRESHOLD + 50_000);

    let resolved = read_rule_or_default(&mut env, &merchant);
    assert_eq!(resolved.platform_fee_bps, merchant_rule.platform_fee_bps);
    assert_eq!(resolved.network_fee_bps, merchant_rule.network_fee_bps);
    assert_eq!(
        resolved.settlement_delay_ledger,
        merchant_rule.settlement_delay_ledger
    );
    assert_eq!(resolved.auto_settle, merchant_rule.auto_settle);

    assert!(
        ttl(&env, DataKeyOf::Rule(merchant)) >= RULE_TTL_BUMP,
        "merchant rule TTL must be extended when the merchant rule is resolved"
    );
    let default_expiration_after =
        env.ledger().sequence + ttl(&env, DataKeyOf::DefaultRule);
    assert_eq!(
        default_expiration_after, default_expiration_before,
        "DefaultRule must not be read or have its TTL extended when a merchant rule exists"
    );
}

#[test]
fn read_rule_or_default_falls_back_to_default_without_creating_merchant_entry() {
    let (mut env, _, merchant) = setup();
    SettlementContract::register_merchant(&mut env, merchant.clone()).unwrap();

    let default_rule = rule(150, 25, 5, true);
    SettlementContract::set_default_rule(&mut env, default_rule).unwrap();

    let resolved = read_rule_or_default(&mut env, &merchant);
    assert_eq!(resolved.platform_fee_bps, default_rule.platform_fee_bps);
    assert_eq!(resolved.network_fee_bps, default_rule.network_fee_bps);
    assert_eq!(
        resolved.settlement_delay_ledger,
        default_rule.settlement_delay_ledger
    );
    assert_eq!(resolved.auto_settle, default_rule.auto_settle);

    assert!(env.rule(&merchant).is_none());
    assert!(
        ttl(&env, DataKeyOf::DefaultRule) >= RULE_TTL_BUMP,
        "DefaultRule TTL must be extended when it is the resolved rule"
    );
}

#[test]
fn read_rule_or_default_bootstrap_path_reads_only_leaves_no_storage_footprint() {
    let (mut env, _, merchant) = setup();
    SettlementContract::register_merchant(&mut env, merchant.clone()).unwrap();

    let before = events(&env).len();
    let resolved = read_rule_or_default(&mut env, &merchant);

    let bootstrap = bootstrap_default_rule();
    assert_eq!(resolved.platform_fee_bps, bootstrap.platform_fee_bps);
    assert_eq!(resolved.network_fee_bps, bootstrap.network_fee_bps);
    assert_eq!(
        resolved.settlement_delay_ledger,
        bootstrap.settlement_delay_ledger
    );
    assert_eq!(resolved.auto_settle, bootstrap.auto_settle);

    assert!(env.rule(&merchant).is_none());
    assert!(env.default_rule().is_none());

    assert_eq!(
        events(&env).len(),
        before + 1,
        "exactly one bootstrap_fallback event expected"
    );
}

#[test]
fn global_default_used_when_no_explicit_merchant_rule() {
    let (mut env, _, merchant) = setup();
    SettlementContract::register_merchant(&mut env, merchant.clone()).unwrap();
    SettlementContract::set_default_rule(&mut env, rule(200, 50, 10, true)).unwrap();

    let split = SettlementContract::calculate_fee_split(&mut env, merchant, 50_000).unwrap();
    assert_eq!(split.platform_fee_amount, 1_000); // 200 bps
    assert_eq!(split.network_fee_amount, 250); // 50 bps
    assert_eq!(split.merchant_amount, 48_750);
}

#[test]
fn explicit_merchant_rule_overrides_global_default() {
    let (mut env, _, merchant) = setup();
    SettlementContract::register_merchant(&mut env, merchant.clone()).unwrap();
    SettlementContract::set_default_rule(&mut env, rule(200, 50, 10, true)).unwrap();
    SettlementContract::set_settlement_rule(&mut env, merchant.clone(), rule(175, 25, 42, false))
        .unwrap();

    let split = SettlementContract::calculate_fee_split(&mut env, merchant, 50_000).unwrap();
    assert_eq!(split.platform_fee_amount, 875); // 175 bps
    assert_eq!(split.network_fee_amount, 125); // 25 bps
    assert_eq!(split.merchant_amount, 49_000);
}

#[test]
fn set_default_rule_stores_and_can_be_retrieved() {
    let (mut env, _, _) = setup();

    assert!(SettlementContract::get_default_rule(&mut env).is_none());

    SettlementContract::set_default_rule(&mut env, rule(300, 100, 5, true)).unwrap();

    let stored =
        SettlementContract::get_default_rule(&mut env).expect("global default must be present");
    assert_eq!(stored.platform_fee_bps, 300);
    assert_eq!(stored.network_fee_bps, 100);
    assert_eq!(stored.settlement_delay_ledger, 5);
    assert!(stored.auto_settle);
}

#[test]
fn set_default_rule_emits_event_with_correct_topic() {
    let (mut env, _, _) = setup();

    SettlementContract::set_default_rule(&mut env, rule(150, 25, 0, false)).unwrap();

    assert_eq!(
        events(&env).last().unwrap().topics(),
        vec![named("default_rule_updated")]
    );
}

#[test]
fn set_default_rule_updates_twice_emits_correct_previous() {
    let (mut env, admin, _) = setup();

    let first = rule(200, 50, 10, true);
    SettlementContract::set_default_rule(&mut env, first).unwrap();
    let stored =
        SettlementContract::get_default_rule(&mut env).expect("global default must be present");
    assert_eq!(stored.platform_fee_bps, 200);
    assert_eq!(
        **events(&env).last().unwrap(),
        EventOf::DefaultRuleUpdated {
            admin: admin.clone(),
            previous: bootstrap_default_rule(),
            current: first
        }
    );

    let second = rule(500, 100, 20, false);
    SettlementContract::set_default_rule(&mut env, second).unwrap();
    let stored =
        SettlementContract::get_default_rule(&mut env).expect("global default must be present");
    assert_eq!(stored.platform_fee_bps, 500);
    assert_eq!(
        **events(&env).last().unwrap(),
        EventOf::DefaultRuleUpdated {
            admin,
            previous: first,
            current: second
        }
    );
}

#[test]
fn clearing_rule_falls_back_to_global_default() {
    let (mut env, _, merchant) = setup();
    SettlementContract::register_merchant(&mut env, merchant.clone()).unwrap();

    let global_rule = rule(200, 50, 10, true);
    SettlementContract::set_default_rule(&mut env, global_rule).unwrap();
    let merchant_rule = rule(500, 100, 20, false);
    SettlementContract::set_settlement_rule(&mut env, merchant.clone(), merchant_rule).unwrap();

    let prev_count = events(&env).len();
    SettlementContract::clear_settlement_rule(&mut env, merchant.clone()).unwrap();

    let split =
        SettlementContract::calculate_fee_split(&mut env, merchant.clone(), 50_000).unwrap();
    assert_eq!(split.platform_fee_amount, 1_000); // 200 bps
    assert_eq!(split.network_fee_amount, 250); // 50 bps
    assert_eq!(split.merchant_amount, 48_750);

    let all = events(&env);
    assert_eq!(all.len(), prev_count + 1);
    assert_eq!(
        all[prev_count].topics(),
        vec![named("settlement_rule_cleared"), Topic::Address(merchant)]
    );
    match all[prev_count] {
        EventOf::SettlementRuleCleared {
            removed, fallback, ..
        } => {
            assert_eq!(*removed, merchant_rule);
            assert_eq!(*fallback, global_rule);
        }
        _ => unreachable!(),
    }
}

#[test]
fn set_default_rule_fails_for_non_admin() {
    let (mut env, _, _) = setup();

    // The admin does not authorise the call.
    env.begin_call(ledger(0, 0));
    assert_eq!(
        SettlementContract::set_default_rule(&mut env, rule(200, 50, 10, true)),
        Err(SettlementError::Unauthorized)
    );
}

#[test]
fn set_default_rule_rejects_invalid_fee_bps() {
    let (mut env, _, _) = setup();
    assert_eq!(
        SettlementContract::set_default_rule(&mut env, rule(10_001, 0, 0, false)),
        Err(SettlementError::InvalidFeeBps)
    );
}

#[test]
fn set_default_rule_rejects_below_governance_min_fee() {
    let (mut env, _, _) = setup();
    assert_eq!(
        SettlementContract::set_default_rule(&mut env, rule(4, 0, 0, false)),
        Err(SettlementError::InvalidFeeBps)
    );
}

#[test]
fn accepts_valid_settlement_delay_zero() {
    let (mut env, _, merchant) = setup();
    SettlementContract::register_merchant(&mut env, merchant.clone()).unwrap();
    SettlementContract::set_settlement_rule(&mut env, merchant.clone(), rule(100, 0, 0, false))
        .unwrap();
    let stored = SettlementContract::get_settlement_rule(&mut env, merchant)
        .expect("expected settlement rule");
    assert_eq!(stored.settlement_delay_ledger, 0);
}

#[test]
fn accepts_valid_settlement_delay_one() {
    let (mut env, _, merchant) = setup();
    SettlementContract::register_merchant(&mut env, merchant.clone()).unwrap();
    SettlementContract::set_settlement_rule(&mut env, merchant.clone(), rule(100, 0, 1, false))
        .unwrap();
    let stored = SettlementContract::get_settlement_rule(&mut env, merchant)
        .expect("expected settlement rule");
    assert_eq!(stored.settlement_delay_ledger, 1);
}

#[test]
fn accepts_settlement_delay_at_maximum_boundary() {
    let (mut env, _, merchant) = setup();
    SettlementContract::register_merchant(&mut env, merchant.clone()).unwrap();
    SettlementContract::set_settlement_rule(
        &mut env,
        merchant.clone(),
        rule(100, 0, 100_000, false),
    )
    .unwrap();
    let stored = SettlementContract::get_settlement_rule(&mut env, merchant)
        .expect("expected settlement rule");
    assert_eq!(stored.settlement_delay_ledger, 100_000);
}

#[test]
fn rejects_settlement_delay_above_maximum() {
    let (mut env, _, merchant) = setup();
    SettlementContract::register_merchant(&mut env, merchant.clone()).unwrap();
    assert_eq!(
        SettlementContract::set_settlement_rule(&mut env, merchant, rule(100, 0, 100_001, false)),
        Err(SettlementError::InvalidSettlementDelay)
    );
}

#[test]
fn rejects_settlement_delay_at_u32_max() {
    let (mut env, _, merchant) = setup();
    SettlementContract::register_merchant(&mut env, merchant.clone()).unwrap();
    assert_eq!(
        SettlementContract::set_settlement_rule(&mut env, merchant, rule(100, 0, u32::MAX, false)),
        Err(SettlementError::InvalidSettlementDelay)
    );
}

#[test]
fn accepts_default_rule_with_valid_settlement_delay() {
    let (mut env, _, _) = setup();
    SettlementContract::set_default_rule(&mut env, rule(200, 50, 50_000, true)).unwrap();
    let stored = SettlementContract::get_default_rule(&mut env).expect("expected default rule");
    assert_eq!(stored.settlement_delay_ledger, 50_000);
}

#[test]
fn accepts_default_rule_at_settlement_delay_maximum() {
    let (mut env, _, _) = setup();
    SettlementContract::set_default_rule(&mut env, rule(200, 50, 100_000, true)).unwrap();
    let stored = SettlementContract::get_default_rule(&mut env).expect("expected default rule");
    assert_eq!(stored.settlement_delay_ledger, 100_000);
}

#[test]
fn rejects_default_rule_with_settlement_delay_above_maximum() {
    let (mut env, _, _) = setup();
    assert_eq!(
        SettlementContract::set_default_rule(&mut env, rule(200, 50, 100_001, true)),
        Err(SettlementError::InvalidSettlementDelay)
    );
}

#[test]
fn rejects_default_rule_with_settlement_delay_at_u32_max() {
    let (mut env, _, _) = setup();
    assert_eq!(
        SettlementContract::set_default_rule(&mut env, rule(200, 50, u32::MAX, true)),
        Err(SettlementError::InvalidSettlementDelay)
    );
}

#[test]
fn set_settlement_rule_requires_admin_auth() {
    let (mut env, _, merchant) = setup();
    SettlementContract::register_merchant(&mut env, merchant.clone()).unwrap();

    // Somebody else authorises the call.
    env.begin_call(ledger(0, 0));
    env.authorize(account("NONADMIN"));
    assert_eq!(
        SettlementContract::set_settlement_rule(&mut env, merchant, rule(100, 0, 0, false)),
        Err(SettlementError::Unauthorized)
    );
}

#[test]
fn verify_payment_storage_events() {
    let (mut env, _, merchant) = setup();
    SettlementContract::register_merchant(&mut env, merchant.clone()).unwrap();
    SettlementContract::set_settlement_rule(&mut env, merchant.clone(), rule(250, 50, 0, false))
        .unwrap();

    let reference = [77; 32];
    let before = events(&env).len();
    SettlementContract::store_payment_reference(&mut env, merchant.clone(), reference, 20_000)
        .unwrap();

    let all = events(&env);
    assert_eq!(
        all.len(),
        before + 1,
        "exactly one event should be emitted by store_payment_reference"
    );
    assert_eq!(
        all[before].topics(),
        vec![named("payment_stored"), Topic::Address(merchant)]
    );
    match all[before] {
        EventOf::PaymentStored {
            reference: stored_under,
            record,
            ..
        } => {
            assert_eq!(*stored_under, reference);
            assert_eq!(record.amount, 20_000);
            assert_eq!(record.platform_fee_amount, 500);
            assert_eq!(record.network_fee_amount, 100);
            assert_eq!(record.merchant_amount, 19_400);
            assert_eq!(record.platform_fee_bps, 250);
            assert_eq!(record.network_fee_bps, 50);
        }
        _ => unreachable!(),
    }
}

#[test]
fn store_payment_reference_requires_merchant_auth() {
    let (mut env, admin, merchant) = setup();
    SettlementContract::register_merchant(&mut env, merchant.clone()).unwrap();

    // Only the admin authorises the call.
    env.begin_call(ledger(0, 0));
    env.authorize(admin);
    assert_eq!(
        SettlementContract::store_payment_reference(&mut env, merchant, [15; 32], 10_000),
        Err(SettlementError::Unauthorized)
    );
}

#[test]
fn assert_fee_sum_above_10000_bps_panics_with_invalid_fee_bps() {
    let (mut env, _, merchant) = setup();
    SettlementContract::register_merchant(&mut env, merchant.clone()).unwrap();
    let error =
        SettlementContract::set_settlement_rule(&mut env, merchant, rule(6_000, 5_000, 0, false))
            .unwrap_err();
    assert_eq!(error.code(), 6);
}

#[test]
fn register_merchant_requires_admin_auth() {
    let (mut env, _, merchant) = setup();

    // Somebody else authorises the call.
    env.begin_call(ledger(0, 0));
    env.authorize(account("NONADMIN"));
    assert_eq!(
        SettlementContract::register_merchant(&mut env, merchant),
        Err(SettlementError::Unauthorized)
    );
}

#[test]
fn duplicate_merchant_registration_fails() {
    let (mut env, _, merchant) = setup();
    SettlementContract::register_merchant(&mut env, merchant.clone()).unwrap();
    assert_eq!(
        SettlementContract::register_merchant(&mut env, merchant),
        Err(SettlementError::MerchantExists)
    );
}

// The split comes with `payment_stored`. A `payment_split` event would repeat it,
// so its absence is asserted, and one event rather than two.
#[test]
fn split_data_available_on_payment_stored() {
    let (mut env, _, merchant) = setup();
    SettlementContract::register_merchant(&mut env, merchant.clone()).unwrap();
    SettlementContract::set_settlement_rule(&mut env, merchant.clone(), rule(200, 50, 0, false))
        .unwrap();

    let reference = [42; 32];
    let before = events(&env).len();
    let split = SettlementContract::store_payment_reference(&mut env, merchant, reference, 10_000)
        .unwrap();

    let all = events(&env);
    assert_eq!(all.len(), before + 1);
    assert!(!all.iter().any(|event| event.name() == "payment_split"));
    match all[before] {
        EventOf::PaymentStored { record, .. } => {
            assert_eq!(record.amount, split.gross_amount);
            assert_eq!(record.platform_fee_amount, 200);
            assert_eq!(record.network_fee_amount, 50);
            assert_eq!(record.merchant_amount, 9_750);
            assert_eq!(split.platform_fee_amount, 200);
            assert_eq!(split.network_fee_amount, 50);
            assert_eq!(split.merchant_amount, 9_750);
        }
        _ => unreachable!(),
    }
}

#[test]
fn default_fee_split_uses_100_bps() {
    let (mut env, _, merchant) = setup();
    SettlementContract::register_merchant(&mut env, merchant.clone()).unwrap();
    let split = SettlementContract::calculate_fee_split(&mut env, merchant, 10_000).unwrap();
    assert_eq!(split.platform_fee_amount, 100);
    assert_eq!(split.network_fee_amount, 0);
    assert_eq!(split.merchant_amount, 9_900);
}

#[test]
fn transfer_admin_rejected_for_non_admin() {
    let (mut env, _, _) = setup();

    // Somebody else authorises the call.
    env.begin_call(ledger(0, 0));
    env.authorize(account("NONADMIN"));
    assert_eq!(
        SettlementContract::transfer_admin(&mut env, account("NEWADMIN")),
        Err(SettlementError::Unauthorized)
    );
}

#[test]
fn set_settlement_rule_publishes_event_with_rule_data() {
    let (mut env, admin, merchant) = setup();
    SettlementContract::register_merchant(&mut env, merchant.clone()).unwrap();
    let before = events(&env).len();
    SettlementContract::set_settlement_rule(&mut env, merchant.clone(), rule(300, 75, 5, true))
        .unwrap();

    let all = events(&env);
    assert_eq!(all.len(), before + 1, "exactly one event emitted");
    assert_eq!(
        all[before].topics(),
        vec![named("settlement_rule_updated"), Topic::Address(merchant)]
    );
    match all[before] {
        EventOf::SettlementRuleUpdated {
            admin: caller,
            previous,
            current,
            ..
        } => {
            assert_eq!(*caller, admin);
            assert_eq!(*previous, bootstrap_default_rule());
            assert_eq!(current.platform_fee_bps, 300);
            assert_eq!(current.network_fee_bps, 75);
            assert_eq!(current.settlement_delay_ledger, 5);
            assert!(current.auto_settle);
        }
        _ => unreachable!(),
    }
}

#[test]
fn store_payment_reference_rejects_zero_amount_with_invalid_amount_error() {
    let (mut env, _, merchant) = setup();
    SettlementContract::register_merchant(&mut env, merchant.clone()).unwrap();
    let error = SettlementContract::store_payment_reference(&mut env, merchant, [55; 32], 0)
        .unwrap_err();
    assert_eq!(error.code(), 7);
}

#[test]
fn store_payment_reference_rejects_negative_amount() {
    let (mut env, _, merchant) = setup();
    SettlementContract::register_merchant(&mut env, merchant.clone()).unwrap();
    let error = SettlementContract::store_payment_reference(&mut env, merchant, [56; 32], -1)
        .unwrap_err();
    assert_eq!(error.code(), 7);
}

#[test]
fn calculate_fee_split_uses_custom_rule_parameters() {
    let (mut env, _, merchant) = setup();
    SettlementContract::register_merchant(&mut env, merchant.clone()).unwrap();
    SettlementContract::set_settlement_rule(&mut env, merchant.clone(), rule(500, 250, 0, false))
        .unwrap();
    let split = SettlementContract::calculate_fee_split(&mut env, merchant, 100_000).unwrap();
    assert_eq!(split.gross_amount, 100_000);
    assert_eq!(split.platform_fee_amount, 5_000);
    assert_eq!(split.network_fee_amount, 2_500);
    assert_eq!(split.merchant_amount, 92_500);
}

#[test]
fn calculate_fee_split_rejects_amount_that_would_overflow() {
    let (mut env, _, merchant) = setup();
    SettlementContract::register_merchant(&mut env, merchant.clone()).unwrap();
    SettlementContract::set_settlement_rule(&mut env, merchant.clone(), rule(500, 0, 0, false))
        .unwrap();
    let amount = (i128::MAX - (BPS_DENOMINATOR as i128 - 1)) / 500 + 1;
    let error =
        SettlementContract::calculate_fee_split(&mut env, merchant, amount).unwrap_err();
    assert_eq!(error.code(), 19);
}

#[test]
fn store_payment_reference_rejects_amount_that_would_overflow() {
    let (mut env, _, merchant) = setup();
    SettlementContract::register_merchant(&mut env, merchant.clone()).unwrap();
    SettlementContract::set_settlement_rule(&mut env, merchant.clone(), rule(500, 250, 0, false))
        .unwrap();
    // The larger of the two fees decides.
    let amount = (i128::MAX - (BPS_DENOMINATOR as i128 - 1)) / 500 + 1;
    let error = SettlementContract::store_payment_reference(&mut env, merchant, [77; 32], amount)
        .unwrap_err();
    assert_eq!(error.code(), 19);
}

#[test]
fn calculate_fee_split_accepts_amount_at_overflow_boundary() {
    let (mut env, _, merchant) = setup();
    SettlementContract::register_merchant(&mut env, merchant.clone()).unwrap();
    SettlementContract::set_settlement_rule(&mut env, merchant.clone(), rule(500, 0, 0, false))
        .unwrap();
    let amount = (i128::MAX - (BPS_DENOMINATOR as i128 - 1)) / 500;
    let split = SettlementContract::calculate_fee_split(&mut env, merchant, amount).unwrap();
    assert_eq!(split.gross_amount, amount);
}

#[test]
fn calculate_fee_split_with_zero_bps_rule_accepts_max_amount() {
    let (mut env, _, merchant) = setup();
    SettlementContract::register_merchant(&mut env, merchant.clone()).unwrap();
    SettlementContract::set_settlement_rule(&mut env, merchant.clone(), rule(0, 0, 0, false))
        .unwrap();
    let split = SettlementContract::calculate_fee_split(&mut env, merchant, i128::MAX).unwrap();
    assert_eq!(split.gross_amount, i128::MAX);
    assert_eq!(split.platform_fee_amount, 0);
    assert_eq!(split.network_fee_amount, 0);
    assert_eq!(split.merchant_amount, i128::MAX);
}

#[test]
fn merchant_registration_succeeds_when_paused() {
    let (mut env, _, merchant) = setup();
    SettlementContract::pause(&mut env).unwrap();
    assert!(SettlementContract::is_paused(&env));

    SettlementContract::register_merchant(&mut env, merchant.clone()).unwrap();
    assert!(SettlementContract::is_merchant_registered(
        &mut env, merchant
    ));
}

#[test]
fn set_settlement_rule_rejected_when_paused() {
    let (mut env, _, merchant) = setup();
    SettlementContract::pause(&mut env).unwrap();
    assert!(SettlementContract::is_paused(&env));

    SettlementContract::register_merchant(&mut env, merchant.clone()).unwrap();

    assert_eq!(
        SettlementContract::set_settlement_rule(&mut env, merchant, rule(250, 50, 7, true)),
        Err(SettlementError::Paused)
    );
}

#[test]
fn set_default_rule_rejected_when_paused() {
    let (mut env, _, _) = setup();
    SettlementContract::pause(&mut env).unwrap();
    assert!(SettlementContract::is_paused(&env));

    let error =
        SettlementContract::set_default_rule(&mut env, rule(250, 50, 7, true)).unwrap_err();
    assert_eq!(error.code(), 9);
}

#[test]
fn pause_flag_changes_state() {
    let (mut env, _, _) = setup();
    assert!(!SettlementContract::is_paused(&env));
    SettlementContract::pause(&mut env).unwrap();
    assert!(SettlementContract::is_paused(&env));
    SettlementContract::unpause(&mut env).unwrap();
    assert!(!SettlementContract::is_paused(&env));
}

#[test]
fn pause_rejected_for_non_admin() {
    let (mut env, _, _) = setup();

    // Somebody else authorises the call.
    env.begin_call(ledger(0, 0));
    env.authorize(account("NONADMIN"));
    assert_eq!(
        SettlementContract::pause(&mut env),
        Err(SettlementError::Unauthorized)
    );
}

#[test]
fn store_payment_reference_fails_for_unregistered_merchant() {
    let (mut env, _, merchant) = setup();
    let error = SettlementContract::store_payment_reference(&mut env, merchant, [99; 32], 10_000)
        .unwrap_err();
    assert_eq!(error.code(), 5);
}

#[test]
fn emits_event_on_admin_transfer() {
    let (mut env, _, _) = setup();
    let new_admin = account("NEWADMIN");

    let before = events(&env).len();
    SettlementContract::transfer_admin(&mut env, new_admin.clone()).unwrap();

    let all = events(&env);
    assert_eq!(
        all.len(),
        before + 1,
        "exactly one event should be emitted by transfer_admin"
    );
    let event = all.last().unwrap();
    assert_eq!(event.topics(), vec![named("admin")]);
    assert_eq!(**event, EventOf::Admin { new_admin });
}
