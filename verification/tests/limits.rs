use settlement::types::MIN_FEE_BPS;

#[test]
fn settlement_min_fee_matches_governance_min_fee() {
    // Governance rejects fee configurations with a charged fee below 5 bps,
    // and so do settlement rules.
    let governance_min_fee_bps: u32 = 5;
    let settlement_min_fee_bps: u32 = MIN_FEE_BPS;
    assert_eq!(
        governance_min_fee_bps, settlement_min_fee_bps,
        "settlement MIN_FEE_BPS must match governance MIN_FEE_BPS"
    );
}
