use spl_risk::address::Address;
use spl_risk::config::Config;
use spl_risk::errors::RiskError;
use spl_risk::report::{RiskReport, SourceStatus};
use spl_risk::rules::{
    community_rules, get_community_rules, get_pro_rules, FreezeAuthorityRule, MintAuthorityRule,
    RuleKind,
};
use spl_risk::scoring::RiskAnalyzer;
use spl_risk::token::{TokenData, TokenHolder, TokenMetadata};

fn holder(seed: u8, amount: u64, percentage_bps: u64, age: Option<u64>) -> TokenHolder {
    TokenHolder {
        address: Address::new([seed; 32]),
        amount,
        percentage_bps,
        wallet_age_days: age,
    }
}

fn base_token(mint_seed: u8) -> TokenData {
    TokenData {
        mint: Address::new([mint_seed; 32]),
        supply: 1_000_000,
        decimals: 6,
        mint_authority: None,
        freeze_authority: None,
        metadata: None,
        holders: Vec::new(),
        creation_timestamp: None,
    }
}

#[test]
fn scenario_active_mint_young_concentrated() {
    // Mint authority present, freeze authority absent, top holder at 60% of
    // supply, 5 holders, top wallet 2 days old, unverified metadata.
    let mut token = base_token(1);
    token.mint_authority = Some(Address::new([200u8; 32]));
    token.metadata = Some(TokenMetadata {
        name: "T".to_string(),
        symbol: "T".to_string(),
        uri: String::new(),
        is_verified: false,
    });
    token.holders = vec![
        holder(10, 600_000, 6000, Some(2)),
        holder(11, 100_000, 1000, None),
        holder(12, 100_000, 1000, None),
        holder(13, 100_000, 1000, None),
        holder(14, 100_000, 1000, None),
    ];

    let analyzer = RiskAnalyzer::new(Config::balanced(), community_rules());
    let report = analyzer.analyze(&token, true);

    let rules: Vec<&str> = report.breakdown.iter().map(|b| b.rule.as_str()).collect();
    assert_eq!(
        rules,
        vec![
            "mint_authority_active",
            "freeze_revoked",
            "creator_supply_high",
            "wallet_young",
            "low_holders",
            "no_verified_metadata",
        ]
    );
    // 30 - 15 + 25 + 10 + 5 + 2 = 57.
    assert_eq!(report.risk_score, 57);
    assert_eq!(report.risk_level(), "MEDIUM");
    assert!(report.flags.mint_authority);
    assert!(!report.flags.freeze_authority);
    assert_eq!(report.metrics.creator_supply_bps, 6000);
    assert_eq!(report.metrics.wallet_age_days, Some(2));
    assert_eq!(report.metrics.holders, 5);
}

#[test]
fn scenario_creator_retains_authority_reaches_high_band() {
    // As above, but the top holder is itself the mint authority: the
    // creator-is-authority finding pushes the score into the high band.
    let creator = Address::new([10u8; 32]);
    let mut token = base_token(1);
    token.mint_authority = Some(creator);
    token.metadata = Some(TokenMetadata {
        name: "T".to_string(),
        symbol: "T".to_string(),
        uri: String::new(),
        is_verified: false,
    });
    token.holders = vec![
        holder(10, 600_000, 6000, Some(2)),
        holder(11, 100_000, 1000, None),
        holder(12, 100_000, 1000, None),
        holder(13, 100_000, 1000, None),
        holder(14, 100_000, 1000, None),
    ];

    let analyzer = RiskAnalyzer::new(Config::balanced(), community_rules());
    let report = analyzer.analyze(&token, true);

    let rules: Vec<&str> = report.breakdown.iter().map(|b| b.rule.as_str()).collect();
    assert!(rules.contains(&"creator_is_authority"));
    // 30 - 15 + 25 + 15 + 10 + 5 + 2 = 72.
    assert_eq!(report.risk_score, 72);
    assert_eq!(report.risk_level(), "HIGH");
}

#[test]
fn scenario_revoked_and_distributed_scores_zero() {
    // Both authorities revoked, top holder at 3%, 500 holders, verified
    // metadata: only negative or neutral findings, and the score floors at
    // zero.
    let mut token = base_token(2);
    token.metadata = Some(TokenMetadata {
        name: "Good".to_string(),
        symbol: "GD".to_string(),
        uri: String::new(),
        is_verified: true,
    });
    let mut holders = vec![holder(1, 30_000, 300, Some(900))];
    for i in 0..499u16 {
        holders.push(TokenHolder {
            address: Address::new([(i % 250) as u8 + 1; 32]),
            amount: 1_000,
            percentage_bps: 10,
            wallet_age_days: None,
        });
    }
    token.holders = holders;

    let analyzer = RiskAnalyzer::new(Config::balanced(), community_rules());
    let report = analyzer.analyze(&token, true);

    let rules: Vec<&str> = report.breakdown.iter().map(|b| b.rule.as_str()).collect();
    assert_eq!(
        rules,
        vec![
            "mint_revoked",
            "freeze_revoked",
            "supply_distributed",
            "verified_metadata",
        ]
    );
    for item in &report.breakdown {
        assert!(item.weight <= 0);
    }
    assert_eq!(report.risk_score, 0);
    assert_eq!(report.risk_level(), "LOW");
    assert!(report.summary.starts_with("Low risk."));
}

#[test]
fn scenario_empty_holder_list_degrades_confidence() {
    // The holder fetch came back empty: holders quality is partial, the 0.7
    // factor applies, a zero-holders warning is present, and every rule
    // still runs.
    let mut token = base_token(3);
    token.metadata = Some(TokenMetadata {
        name: "T".to_string(),
        symbol: "T".to_string(),
        uri: String::new(),
        is_verified: false,
    });

    let analyzer = RiskAnalyzer::new(Config::balanced(), community_rules());
    let report = analyzer.analyze(&token, true);

    assert_eq!(report.data_sources.holders, SourceStatus::Partial);
    // 950000 * 70 / 100 * 90 / 100.
    assert_eq!(report.confidence_ppm, 598_500);
    assert_eq!(report.confidence_level(), "LOW");
    assert_eq!(report.warnings.len(), 2);
    assert!(report.warnings[0].starts_with("Low confidence score (60%)"));
    assert_eq!(
        report.warnings[1],
        "RPC returned zero holders - data is incomplete. Token may have many more holders."
    );
    assert!(report.summary.ends_with("Note: Unable to fetch complete holder data."));
    let rules: Vec<&str> = report.breakdown.iter().map(|b| b.rule.as_str()).collect();
    assert_eq!(
        rules,
        vec![
            "mint_revoked",
            "freeze_revoked",
            "supply_distributed",
            "low_holders",
            "no_verified_metadata",
        ]
    );
}

#[test]
fn test_calculate_score_clamps_high() {
    let mut report = RiskReport::new(Address::new([1u8; 32]), "balanced".to_string());
    report.add_rule("a", 60, "a", None);
    report.add_rule("b", 70, "b", None);
    report.calculate_score();
    assert_eq!(report.risk_score, 100);
}

#[test]
fn test_calculate_score_clamps_low() {
    let mut report = RiskReport::new(Address::new([1u8; 32]), "balanced".to_string());
    report.add_rule("a", -60, "a", None);
    report.add_rule("b", 10, "b", None);
    report.calculate_score();
    assert_eq!(report.risk_score, 0);
}

#[test]
fn test_calculate_score_exact_sum() {
    let mut report = RiskReport::new(Address::new([1u8; 32]), "balanced".to_string());
    report.add_rule("a", 30, "a", Some("active"));
    report.add_rule("b", -15, "b", Some("revoked"));
    report.add_rule("c", 25, "c", None);
    report.calculate_score();
    assert_eq!(report.risk_score, 40);
}

#[test]
fn test_update_confidence_no_degradation() {
    let mut report = RiskReport::new(Address::new([1u8; 32]), "balanced".to_string());
    report.update_confidence();
    // 950000 * 90 / 100: only the fixed coverage penalty applies.
    assert_eq!(report.confidence_ppm, 855_000);
    assert_eq!(report.confidence_level(), "MEDIUM");
}

#[test]
fn test_update_confidence_metadata_missing() {
    let mut report = RiskReport::new(Address::new([1u8; 32]), "balanced".to_string());
    report.data_sources.metadata = SourceStatus::Missing;
    report.update_confidence();
    // 950000 * 85 / 100 * 90 / 100.
    assert_eq!(report.confidence_ppm, 726_750);
}

#[test]
fn test_update_confidence_worst_case_stays_positive() {
    let mut report = RiskReport::new(Address::new([1u8; 32]), "balanced".to_string());
    report.data_sources.holders = SourceStatus::Timeout;
    report.data_sources.metadata = SourceStatus::Missing;
    report.data_sources.wallet_age = SourceStatus::Missing;
    report.data_sources.rpc = SourceStatus::Error;
    report.update_confidence();
    // 950000 *70% *85% *92% *60% *90%.
    assert_eq!(report.confidence_ppm, 280_816);
    assert!(report.confidence_ppm > 0);
    assert!(report.confidence_ppm <= 950_000);
    assert_eq!(report.confidence_level(), "LOW");
}

#[test]
fn test_generate_summary_destructive_privileges() {
    let mut report = RiskReport::new(Address::new([1u8; 32]), "balanced".to_string());
    report.risk_score = 90;
    report.confidence_ppm = 855_000;
    report.flags.mint_authority = true;
    report.flags.freeze_authority = true;
    report.metrics.holders = 3;
    report.generate_summary();
    assert_eq!(
        report.summary,
        "Critical risk. Extreme caution advised. Strong rug-pull indicators. \
         Token owner retains destructive privileges."
    );
    assert!(report.warnings.is_empty());
}

#[test]
fn test_generate_summary_does_not_duplicate_zero_holders_warning() {
    let mut report = RiskReport::new(Address::new([1u8; 32]), "balanced".to_string());
    report.data_sources.holders = SourceStatus::Partial;
    report.metrics.holders = 0;
    report.confidence_ppm = 855_000;
    let warning =
        "RPC returned zero holders - data is incomplete. Token may have many more holders."
            .to_string();
    report.warnings.push(warning.clone());
    report.generate_summary();
    assert_eq!(report.warnings, vec![warning]);
    assert!(report.summary.ends_with("Note: Unable to fetch complete holder data."));
}

#[test]
fn test_generate_summary_band_sentences() {
    let mut report = RiskReport::new(Address::new([1u8; 32]), "balanced".to_string());
    report.confidence_ppm = 855_000;
    report.metrics.holders = 100;
    report.risk_score = 35;
    report.generate_summary();
    assert_eq!(
        report.summary,
        "Low-medium risk. Some concerns present, proceed with caution."
    );
    report.risk_score = 55;
    report.generate_summary();
    assert_eq!(
        report.summary,
        "Medium risk. Multiple risk factors detected. DYOR recommended."
    );
    report.risk_score = 75;
    report.generate_summary();
    assert_eq!(
        report.summary,
        "High risk. Significant red flags present. High probability of issues."
    );
}

#[test]
fn test_risk_level_bands() {
    let mut report = RiskReport::new(Address::new([1u8; 32]), "balanced".to_string());
    report.risk_score = 20;
    assert_eq!(report.risk_level(), "LOW");
    report.risk_score = 21;
    assert_eq!(report.risk_level(), "LOW-MEDIUM");
    report.risk_score = 41;
    assert_eq!(report.risk_level(), "MEDIUM");
    report.risk_score = 61;
    assert_eq!(report.risk_level(), "HIGH");
    report.risk_score = 81;
    assert_eq!(report.risk_level(), "CRITICAL");
}

#[test]
fn test_confidence_level_bands() {
    let mut report = RiskReport::new(Address::new([1u8; 32]), "balanced".to_string());
    report.confidence_ppm = 920_000;
    assert_eq!(report.confidence_level(), "HIGH");
    report.confidence_ppm = 919_999;
    assert_eq!(report.confidence_level(), "MEDIUM");
    report.confidence_ppm = 700_000;
    assert_eq!(report.confidence_level(), "MEDIUM");
    report.confidence_ppm = 699_999;
    assert_eq!(report.confidence_level(), "LOW");
}

#[test]
fn test_authority_rules_mutually_exclusive() {
    let config = Config::balanced();
    let mut token = base_token(4);
    token.mint_authority = Some(Address::new([9u8; 32]));

    let mut report = RiskReport::new(token.mint, "balanced".to_string());
    MintAuthorityRule.evaluate(&token, &config, &mut report);
    assert_eq!(report.breakdown.len(), 1);
    assert_eq!(report.breakdown[0].rule, "mint_authority_active");
    assert_eq!(report.breakdown[0].weight, 30);
    assert!(report.flags.mint_authority);

    token.mint_authority = None;
    let mut report2 = RiskReport::new(token.mint, "balanced".to_string());
    MintAuthorityRule.evaluate(&token, &config, &mut report2);
    assert_eq!(report2.breakdown.len(), 1);
    assert_eq!(report2.breakdown[0].rule, "mint_revoked");
    assert_eq!(report2.breakdown[0].weight, -20);
    assert!(!report2.flags.mint_authority);

    let mut report3 = RiskReport::new(token.mint, "balanced".to_string());
    FreezeAuthorityRule.evaluate(&token, &config, &mut report3);
    assert_eq!(report3.breakdown[0].rule, "freeze_revoked");
    assert!(!report3.flags.freeze_authority);
}

#[test]
fn test_community_rules_order() {
    let rules = get_community_rules();
    assert_eq!(
        rules,
        vec![
            RuleKind::MintAuthority,
            RuleKind::FreezeAuthority,
            RuleKind::CreatorSupply,
            RuleKind::CreatorIsAuthority,
            RuleKind::WalletAge,
            RuleKind::HolderCount,
            RuleKind::VerifiedMetadata,
        ]
    );
    assert_eq!(get_pro_rules(), rules);
    assert_eq!(community_rules(), rules);
}

#[test]
fn test_from_profile_known_and_unknown() {
    assert!(matches!(Config::from_profile("balanced"), Ok(c) if c == Config::balanced()));
    assert!(matches!(Config::from_profile("conservative"), Ok(c) if c == Config::conservative()));
    assert!(matches!(Config::from_profile("degenerate"), Ok(c) if c == Config::degenerate()));
    match Config::from_profile("yolo") {
        Err(e) => assert_eq!(e.message(), "Configuration error: Unknown profile: yolo"),
        Ok(_) => panic!("unknown profile accepted"),
    }
}

#[test]
fn test_error_messages() {
    assert_eq!(
        RiskError::RpcError("boom".to_string()).message(),
        "RPC request failed: boom"
    );
    assert_eq!(RiskError::NotSplToken.message(), "Not an SPL token");
    assert_eq!(RiskError::Timeout.message(), "Timeout exceeded");
    assert_eq!(
        RiskError::ParseError("bad".to_string()).message(),
        "Data parsing error: bad"
    );
}

#[test]
fn test_token_data_accessors() {
    let mut token = base_token(5);
    assert_eq!(token.total_supply(), 1_000_000);
    assert_eq!(token.holder_count(), 0);
    assert!(token.creator_address().is_none());
    assert_eq!(token.creator_supply_percentage(), 0);
    assert!(!token.is_supply_concentrated(0));

    token.holders = vec![holder(1, 600_000, 6000, None), holder(2, 400_000, 4000, None)];
    assert_eq!(token.holder_count(), 2);
    assert_eq!(token.creator_address().unwrap().bytes, [1u8; 32]);
    assert_eq!(token.creator_supply_percentage(), 6000);
    assert!(token.is_supply_concentrated(5000));
    assert!(!token.is_supply_concentrated(6000));
}

#[test]
fn test_report_new_defaults() {
    let report = RiskReport::new(Address::new([1u8; 32]), "conservative".to_string());
    assert_eq!(report.risk_score, 0);
    assert_eq!(report.confidence_ppm, 950_000);
    assert_eq!(report.profile, "conservative");
    assert!(report.breakdown.is_empty());
    assert!(report.warnings.is_empty());
    assert_eq!(report.data_sources.rpc, SourceStatus::Okay);
    assert_eq!(report.data_sources.holders, SourceStatus::Okay);
}

#[test]
fn test_analyze_records_supply_and_decimals() {
    let mut token = base_token(6);
    token.holders = vec![holder(1, 500, 5000, None)];
    token.supply = 10_000;
    token.decimals = 9;
    let analyzer = RiskAnalyzer::new(Config::degenerate(), community_rules());
    let report = analyzer.analyze(&token, false);
    assert_eq!(report.metrics.total_supply, Some(10_000));
    assert_eq!(report.metrics.decimals, Some(9));
    assert_eq!(report.metrics.top_holder_bps, Some(5000));
    assert_eq!(report.profile, "degenerate");
    assert_eq!(report.data_sources.wallet_age, SourceStatus::Missing);
}
