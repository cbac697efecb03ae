//! The rule registry: a fixed, ordered list of independent, stateless
//! evaluators.
//!
//! Each rule reads the snapshot and the configuration, appends zero or more
//! weighted findings to the report, and records any metric it computed.
//! Rules never mutate the snapshot; their registration order fixes the
//! presentation order of findings, not the score, which is order-independent.

use vstd::prelude::*;
use crate::config::Config;
use crate::report::{
    breakdown_views,
    same_but_breakdown,
    FindingView,
    RiskFlags,
    RiskMetrics,
    RiskReport,
};
use crate::text::{dec_str, pct_str};
use crate::token::TokenData;

verus! {

/// Everything but findings, flags and metrics is equal.
pub open spec fn same_core(a: RiskReport, b: RiskReport) -> bool {
    &&& a.mint == b.mint
    &&& a.risk_score == b.risk_score
    &&& a.confidence_ppm == b.confidence_ppm
    &&& a.profile == b.profile
    &&& a.summary == b.summary
    &&& a.warnings == b.warnings
    &&& a.data_sources == b.data_sources
}

/// What the mint-authority rule finds: a positive finding while the
/// authority is live, a negative ("revoked") finding once it is gone, never
/// both.
pub open spec fn mint_authority_findings(token: TokenData, config: Config) -> Seq<FindingView> {
    if token.mint_authority is Some {
        seq![
            FindingView {
                rule: "mint_authority_active"@,
                weight: config.weights.mint_authority_active as int,
                description: "Mint authority is active - owner can create unlimited tokens"@,
                status: Some("active"@),
            },
        ]
    } else {
        seq![
            FindingView {
                rule: "mint_revoked"@,
                weight: config.weights.mint_revoked as int,
                description: "Mint authority revoked - supply is fixed"@,
                status: Some("revoked"@),
            },
        ]
    }
}

/// What the freeze-authority rule finds, mirroring the mint-authority rule.
pub open spec fn freeze_authority_findings(token: TokenData, config: Config) -> Seq<FindingView> {
    if token.freeze_authority is Some {
        seq![
            FindingView {
                rule: "freeze_authority_active"@,
                weight: config.weights.freeze_authority_active as int,
                description: "Freeze authority is active - owner can freeze token accounts"@,
                status: Some("active"@),
            },
        ]
    } else {
        seq![
            FindingView {
                rule: "freeze_revoked"@,
                weight: config.weights.freeze_revoked as int,
                description: "Freeze authority revoked - accounts cannot be frozen"@,
                status: Some("revoked"@),
            },
        ]
    }
}

/// Whether the top holder also holds the mint or freeze authority.
pub open spec fn creator_is_authority_cond(token: TokenData) -> bool {
    token.holders@.len() > 0 && ((token.mint_authority matches Some(a) && a@
        == token.holders@[0].address@) || (token.freeze_authority matches Some(a) && a@
        == token.holders@[0].address@))
}

/// What the creator-is-authority rule finds.
pub open spec fn creator_is_authority_findings(token: TokenData, config: Config) -> Seq<
    FindingView,
> {
    if creator_is_authority_cond(token) {
        seq![
            FindingView {
                rule: "creator_is_authority"@,
                weight: config.weights.creator_is_authority as int,
                description: "Token creator retains mint or freeze authority"@,
                status: Some("retains"@),
            },
        ]
    } else {
        Seq::<FindingView>::empty()
    }
}

/// What the creator-supply rule finds: concentration above the high
/// threshold, wide distribution under the distributed threshold, or nothing
/// in between.
pub open spec fn creator_supply_findings(token: TokenData, config: Config) -> Seq<FindingView> {
    let pct = token.creator_pct_spec();
    if pct > config.thresholds.creator_supply_high_bps {
        seq![
            FindingView {
                rule: "creator_supply_high"@,
                weight: config.weights.creator_supply_high as int,
                description: "Creator holds "@ + pct_str(pct as nat)
                    + "% of supply (high concentration)"@,
                status: Some("high"@),
            },
        ]
    } else if pct < config.thresholds.supply_distributed_bps {
        seq![
            FindingView {
                rule: "supply_distributed"@,
                weight: config.weights.supply_distributed as int,
                description: "Top holder has only "@ + pct_str(pct as nat)
                    + "% (well distributed)"@,
                status: Some("low"@),
            },
        ]
    } else {
        Seq::<FindingView>::empty()
    }
}

/// The graded description of a low holder count.
pub open spec fn holder_count_description(count: usize) -> Seq<char> {
    if count <= 10 {
        "Very low holder count ("@ + dec_str(count as nat) + ") - high concentration risk"@
    } else if count <= 50 {
        "Low holder count ("@ + dec_str(count as nat) + ") - early stage or limited adoption"@
    } else {
        "Moderate holder count ("@ + dec_str(count as nat) + ") - developing adoption"@
    }
}

/// What the holder-count rule finds.
pub open spec fn holder_count_findings(token: TokenData, config: Config) -> Seq<FindingView> {
    let count = token.holders@.len();
    if count < config.thresholds.low_holders_count {
        seq![
            FindingView {
                rule: "low_holders"@,
                weight: config.weights.low_holders as int,
                description: holder_count_description(count as usize),
                status: Some("low"@),
            },
        ]
    } else {
        Seq::<FindingView>::empty()
    }
}

/// What the wallet-age rule finds: nothing unless the top holder's age is
/// known and under the threshold.
pub open spec fn wallet_age_findings(token: TokenData, config: Config) -> Seq<FindingView> {
    if token.holders@.len() > 0 && (token.holders@[0].wallet_age_days matches Some(age)
        && age < config.thresholds.wallet_young_days) {
        let age = token.holders@[0].wallet_age_days->0;
        seq![
            FindingView {
                rule: "wallet_young"@,
                weight: config.weights.wallet_young as int,
                description: "Creator wallet is only "@ + dec_str(age as nat) + " days old"@,
                status: Some("young"@),
            },
        ]
    } else {
        Seq::<FindingView>::empty()
    }
}

/// What the metadata rule finds: neutral when verified, graded positive
/// weight when unverified or absent.
pub open spec fn verified_metadata_findings(token: TokenData, config: Config) -> Seq<FindingView> {
    match token.metadata {
        Some(metadata) => {
            if metadata.is_verified {
                seq![
                    FindingView {
                        rule: "verified_metadata"@,
                        weight: 0,
                        description: "Metadata is verified"@,
                        status: Some("verified"@),
                    },
                ]
            } else {
                seq![
                    FindingView {
                        rule: "no_verified_metadata"@,
                        weight: config.weights.no_verified_metadata as int,
                        description: "Metadata exists but is not verified"@,
                        status: Some("unverified"@),
                    },
                ]
            }
        },
        None => seq![
            FindingView {
                rule: "no_metadata"@,
                weight: config.weights.no_verified_metadata as int,
                description: "No metadata found for this token"@,
                status: Some("missing"@),
            },
        ],
    }
}

/// Flags a live mint authority, which lets the owner issue new supply.
pub struct MintAuthorityRule;

impl MintAuthorityRule {
    /// Appends the mint-authority finding and sets the flag when live.
    pub fn evaluate(&self, token: &TokenData, config: &Config, report: &mut RiskReport)
        ensures
            breakdown_views(final(report).breakdown@) == breakdown_views(old(report).breakdown@)
                + mint_authority_findings(*token, *config),
            final(report).flags == (RiskFlags {
                mint_authority: old(report).flags.mint_authority || token.mint_authority is Some,
                freeze_authority: old(report).flags.freeze_authority,
            }),
            final(report).metrics == old(report).metrics,
            same_core(*old(report), *final(report)),
    {
        if token.mint_authority.is_some() {
            report.flags.mint_authority = true;
            report.add_rule(
                "mint_authority_active",
                config.weights.mint_authority_active,
                "Mint authority is active - owner can create unlimited tokens",
                Some("active"),
            );
        } else {
            report.add_rule(
                "mint_revoked",
                config.weights.mint_revoked,
                "Mint authority revoked - supply is fixed",
                Some("revoked"),
            );
        }
        proof {
            assert(breakdown_views(report.breakdown@) =~= breakdown_views(old(report).breakdown@)
                + mint_authority_findings(*token, *config));
        }
    }

    /// The rule's stable key.
    pub fn name(&self) -> (r: &'static str)
        ensures
            r@ == "mint_authority"@,
    {
        "mint_authority"
    }
}

/// Flags a live freeze authority, which lets the owner freeze accounts.
pub struct FreezeAuthorityRule;

impl FreezeAuthorityRule {
    /// Appends the freeze-authority finding and sets the flag when live.
    pub fn evaluate(&self, token: &TokenData, config: &Config, report: &mut RiskReport)
        ensures
            breakdown_views(final(report).breakdown@) == breakdown_views(old(report).breakdown@)
                + freeze_authority_findings(*token, *config),
            final(report).flags == (RiskFlags {
                mint_authority: old(report).flags.mint_authority,
                freeze_authority: old(report).flags.freeze_authority
                    || token.freeze_authority is Some,
            }),
            final(report).metrics == old(report).metrics,
            same_core(*old(report), *final(report)),
    {
        if token.freeze_authority.is_some() {
            report.flags.freeze_authority = true;
            report.add_rule(
                "freeze_authority_active",
                config.weights.freeze_authority_active,
                "Freeze authority is active - owner can freeze token accounts",
                Some("active"),
            );
        } else {
            report.add_rule(
                "freeze_revoked",
                config.weights.freeze_revoked,
                "Freeze authority revoked - accounts cannot be frozen",
                Some("revoked"),
            );
        }
        proof {
            assert(breakdown_views(report.breakdown@) =~= breakdown_views(old(report).breakdown@)
                + freeze_authority_findings(*token, *config));
        }
    }

    /// The rule's stable key.
    pub fn name(&self) -> (r: &'static str)
        ensures
            r@ == "freeze_authority"@,
    {
        "freeze_authority"
    }
}

/// Finds a creator that kept mint or freeze authority.
pub struct CreatorIsAuthorityRule;

impl CreatorIsAuthorityRule {
    /// Appends a finding when the top holder holds an authority key.
    pub fn evaluate(&self, token: &TokenData, config: &Config, report: &mut RiskReport)
        ensures
            breakdown_views(final(report).breakdown@) == breakdown_views(old(report).breakdown@)
                + creator_is_authority_findings(*token, *config),
            final(report).flags == old(report).flags,
            final(report).metrics == old(report).metrics,
            same_core(*old(report), *final(report)),
    {
        match token.creator_address() {
            Some(creator) => {
                let is_mint_authority = match &token.mint_authority {
                    Some(authority) => authority.eq_addr(&creator),
                    None => false,
                };
                let is_freeze_authority = match &token.freeze_authority {
                    Some(authority) => authority.eq_addr(&creator),
                    None => false,
                };
                if is_mint_authority || is_freeze_authority {
                    report.add_rule(
                        "creator_is_authority",
                        config.weights.creator_is_authority,
                        "Token creator retains mint or freeze authority",
                        Some("retains"),
                    );
                    proof {
                        assert(breakdown_views(report.breakdown@) =~= breakdown_views(
                            old(report).breakdown@,
                        ) + creator_is_authority_findings(*token, *config));
                    }
                } else {
                    proof {
                        assert(breakdown_views(report.breakdown@) =~= breakdown_views(
                            old(report).breakdown@,
                        ) + creator_is_authority_findings(*token, *config));
                    }
                }
            },
            None => {
                proof {
                    assert(breakdown_views(report.breakdown@) =~= breakdown_views(
                        old(report).breakdown@,
                    ) + creator_is_authority_findings(*token, *config));
                }
            },
        }
    }

    /// The rule's stable key.
    pub fn name(&self) -> (r: &'static str)
        ensures
            r@ == "creator_is_authority"@,
    {
        "creator_is_authority"
    }
}

/// Grades the top holder's share of supply.
pub struct CreatorSupplyRule;

impl CreatorSupplyRule {
    /// Records the creator-supply percentage and appends a finding when the
    /// share is concentrated or notably distributed.
    pub fn evaluate(&self, token: &TokenData, config: &Config, report: &mut RiskReport)
        ensures
            breakdown_views(final(report).breakdown@) == breakdown_views(old(report).breakdown@)
                + creator_supply_findings(*token, *config),
            final(report).flags == old(report).flags,
            final(report).metrics == (RiskMetrics {
                creator_supply_bps: token.creator_pct_spec(),
                ..old(report).metrics
            }),
            same_core(*old(report), *final(report)),
    {
        let creator_pct = token.creator_supply_percentage();
        report.metrics.creator_supply_bps = creator_pct;

        if creator_pct > config.thresholds.creator_supply_high_bps {
            let description = String::from_str("Creator holds ").concat(
                crate::text::pct_to_string(creator_pct).as_str(),
            ).concat("% of supply (high concentration)");
            report.add_rule(
                "creator_supply_high",
                config.weights.creator_supply_high,
                description.as_str(),
                Some("high"),
            );
        } else if creator_pct < config.thresholds.supply_distributed_bps {
            let description = String::from_str("Top holder has only ").concat(
                crate::text::pct_to_string(creator_pct).as_str(),
            ).concat("% (well distributed)");
            report.add_rule(
                "supply_distributed",
                config.weights.supply_distributed,
                description.as_str(),
                Some("low"),
            );
        }
        proof {
            assert(breakdown_views(report.breakdown@) =~= breakdown_views(old(report).breakdown@)
                + creator_supply_findings(*token, *config));
        }
    }

    /// The rule's stable key.
    pub fn name(&self) -> (r: &'static str)
        ensures
            r@ == "creator_supply"@,
    {
        "creator_supply"
    }
}

/// Grades the number of holders.
pub struct HolderCountRule;

impl HolderCountRule {
    /// Records the holder count and appends a graded finding when it is
    /// under the threshold.
    pub fn evaluate(&self, token: &TokenData, config: &Config, report: &mut RiskReport)
        ensures
            breakdown_views(final(report).breakdown@) == breakdown_views(old(report).breakdown@)
                + holder_count_findings(*token, *config),
            final(report).flags == old(report).flags,
            final(report).metrics == (RiskMetrics {
                holders: token.holders@.len() as usize,
                ..old(report).metrics
            }),
            same_core(*old(report), *final(report)),
    {
        let holder_count = token.holder_count();
        report.metrics.holders = holder_count;

        if (holder_count as u64) < config.thresholds.low_holders_count {
            let rendered = crate::text::u64_to_string(holder_count as u64);
            let description = if holder_count <= 10 {
                String::from_str("Very low holder count (").concat(rendered.as_str()).concat(
                    ") - high concentration risk",
                )
            } else if holder_count <= 50 {
                String::from_str("Low holder count (").concat(rendered.as_str()).concat(
                    ") - early stage or limited adoption",
                )
            } else {
                String::from_str("Moderate holder count (").concat(rendered.as_str()).concat(
                    ") - developing adoption",
                )
            };
            report.add_rule(
                "low_holders",
                config.weights.low_holders,
                description.as_str(),
                Some("low"),
            );
        }
        proof {
            assert(breakdown_views(report.breakdown@) =~= breakdown_views(old(report).breakdown@)
                + holder_count_findings(*token, *config));
        }
    }

    /// The rule's stable key.
    pub fn name(&self) -> (r: &'static str)
        ensures
            r@ == "holder_count"@,
    {
        "holder_count"
    }
}

/// Grades the age of the creator's wallet.
pub struct WalletAgeRule;

impl WalletAgeRule {
    /// Records the top holder's wallet age when known and appends a finding
    /// when the wallet is young.
    pub fn evaluate(&self, token: &TokenData, config: &Config, report: &mut RiskReport)
        ensures
            breakdown_views(final(report).breakdown@) == breakdown_views(old(report).breakdown@)
                + wallet_age_findings(*token, *config),
            final(report).flags == old(report).flags,
            final(report).metrics == if token.holders@.len() > 0
                && token.holders@[0].wallet_age_days is Some {
                RiskMetrics { wallet_age_days: token.holders@[0].wallet_age_days, ..old(report).metrics }
            } else {
                old(report).metrics
            },
            same_core(*old(report), *final(report)),
    {
        if token.holders.len() > 0 {
            match token.holders[0].wallet_age_days {
                Some(age_days) => {
                    report.metrics.wallet_age_days = Some(age_days);
                    if age_days < config.thresholds.wallet_young_days {
                        let description = String::from_str("Creator wallet is only ").concat(
                            crate::text::u64_to_string(age_days).as_str(),
                        ).concat(" days old");
                        report.add_rule(
                            "wallet_young",
                            config.weights.wallet_young,
                            description.as_str(),
                            Some("young"),
                        );
                    }
                },
                None => {},
            }
        }
        proof {
            assert(breakdown_views(report.breakdown@) =~= breakdown_views(old(report).breakdown@)
                + wallet_age_findings(*token, *config));
        }
    }

    /// The rule's stable key.
    pub fn name(&self) -> (r: &'static str)
        ensures
            r@ == "wallet_age"@,
    {
        "wallet_age"
    }
}

/// Grades metadata presence and verification.
pub struct VerifiedMetadataRule;

impl VerifiedMetadataRule {
    /// Appends the metadata finding: neutral, unverified, or missing.
    pub fn evaluate(&self, token: &TokenData, config: &Config, report: &mut RiskReport)
        ensures
            breakdown_views(final(report).breakdown@) == breakdown_views(old(report).breakdown@)
                + verified_metadata_findings(*token, *config),
            final(report).flags == old(report).flags,
            final(report).metrics == old(report).metrics,
            same_core(*old(report), *final(report)),
    {
        match &token.metadata {
            Some(metadata) => {
                if metadata.is_verified {
                    report.add_rule("verified_metadata", 0, "Metadata is verified", Some("verified"));
                } else {
                    report.add_rule(
                        "no_verified_metadata",
                        config.weights.no_verified_metadata,
                        "Metadata exists but is not verified",
                        Some("unverified"),
                    );
                }
            },
            None => {
                report.add_rule(
                    "no_metadata",
                    config.weights.no_verified_metadata,
                    "No metadata found for this token",
                    Some("missing"),
                );
            },
        }
        proof {
            assert(breakdown_views(report.breakdown@) =~= breakdown_views(old(report).breakdown@)
                + verified_metadata_findings(*token, *config));
        }
    }

    /// The rule's stable key.
    pub fn name(&self) -> (r: &'static str)
        ensures
            r@ == "verified_metadata"@,
    {
        "verified_metadata"
    }
}

/// One of the registered rules, as a closed enumeration.
#[derive(Debug, Clone, Copy, PartialEq, Eq, Structural)]
pub enum RuleKind {
    MintAuthority,
    FreezeAuthority,
    CreatorSupply,
    CreatorIsAuthority,
    WalletAge,
    HolderCount,
    VerifiedMetadata,
}

/// The findings one rule contributes for a snapshot and a configuration.
pub open spec fn rule_findings(kind: RuleKind, token: TokenData, config: Config) -> Seq<
    FindingView,
> {
    match kind {
        RuleKind::MintAuthority => mint_authority_findings(token, config),
        RuleKind::FreezeAuthority => freeze_authority_findings(token, config),
        RuleKind::CreatorSupply => creator_supply_findings(token, config),
        RuleKind::CreatorIsAuthority => creator_is_authority_findings(token, config),
        RuleKind::WalletAge => wallet_age_findings(token, config),
        RuleKind::HolderCount => holder_count_findings(token, config),
        RuleKind::VerifiedMetadata => verified_metadata_findings(token, config),
    }
}

/// How one rule updates the report's flags.
pub open spec fn rule_flags(kind: RuleKind, token: TokenData, flags: RiskFlags) -> RiskFlags {
    match kind {
        RuleKind::MintAuthority => RiskFlags {
            mint_authority: flags.mint_authority || token.mint_authority is Some,
            freeze_authority: flags.freeze_authority,
        },
        RuleKind::FreezeAuthority => RiskFlags {
            mint_authority: flags.mint_authority,
            freeze_authority: flags.freeze_authority || token.freeze_authority is Some,
        },
        _ => flags,
    }
}

/// How one rule updates the report's metrics.
pub open spec fn rule_metrics(kind: RuleKind, token: TokenData, metrics: RiskMetrics) -> RiskMetrics {
    match kind {
        RuleKind::CreatorSupply => RiskMetrics {
            creator_supply_bps: token.creator_pct_spec(),
            ..metrics
        },
        RuleKind::HolderCount => RiskMetrics { holders: token.holders@.len() as usize, ..metrics },
        RuleKind::WalletAge => if token.holders@.len() > 0
            && token.holders@[0].wallet_age_days is Some {
            RiskMetrics { wallet_age_days: token.holders@[0].wallet_age_days, ..metrics }
        } else {
            metrics
        },
        _ => metrics,
    }
}

impl RuleKind {
    /// Runs this rule against the snapshot, appending its findings and
    /// recording its flag and metric updates.
    pub fn evaluate(&self, token: &TokenData, config: &Config, report: &mut RiskReport)
        ensures
            breakdown_views(final(report).breakdown@) == breakdown_views(old(report).breakdown@)
                + rule_findings(*self, *token, *config),
            final(report).flags == rule_flags(*self, *token, old(report).flags),
            final(report).metrics == rule_metrics(*self, *token, old(report).metrics),
            same_core(*old(report), *final(report)),
    {
        match self {
            RuleKind::MintAuthority => MintAuthorityRule.evaluate(token, config, report),
            RuleKind::FreezeAuthority => FreezeAuthorityRule.evaluate(token, config, report),
            RuleKind::CreatorSupply => CreatorSupplyRule.evaluate(token, config, report),
            RuleKind::CreatorIsAuthority => CreatorIsAuthorityRule.evaluate(token, config, report),
            RuleKind::WalletAge => WalletAgeRule.evaluate(token, config, report),
            RuleKind::HolderCount => HolderCountRule.evaluate(token, config, report),
            RuleKind::VerifiedMetadata => VerifiedMetadataRule.evaluate(token, config, report),
        }
    }
}

/// The registered rule order.
pub open spec fn community_rule_order() -> Seq<RuleKind> {
    seq![
        RuleKind::MintAuthority,
        RuleKind::FreezeAuthority,
        RuleKind::CreatorSupply,
        RuleKind::CreatorIsAuthority,
        RuleKind::WalletAge,
        RuleKind::HolderCount,
        RuleKind::VerifiedMetadata,
    ]
}

/// The community rule set, in registration order.
pub fn get_community_rules() -> (r: Vec<RuleKind>)
    ensures
        r@ == community_rule_order(),
{
    let mut rules: Vec<RuleKind> = Vec::new();
    rules.push(RuleKind::MintAuthority);
    rules.push(RuleKind::FreezeAuthority);
    rules.push(RuleKind::CreatorSupply);
    rules.push(RuleKind::CreatorIsAuthority);
    rules.push(RuleKind::WalletAge);
    rules.push(RuleKind::HolderCount);
    rules.push(RuleKind::VerifiedMetadata);
    proof {
        assert(rules@ =~= community_rule_order());
    }
    rules
}

/// The extended rule set.  Without the optional liquidity-pool extensions it
/// is the community set.
pub fn get_pro_rules() -> (r: Vec<RuleKind>)
    ensures
        r@ == community_rule_order(),
{
    get_community_rules()
}

/// The default rule set offered to callers.
pub fn community_rules() -> (r: Vec<RuleKind>)
    ensures
        r@ == community_rule_order(),
{
    get_community_rules()
}

/// Per authority, the two findings are mutually exclusive: a live authority
/// always yields the "active" finding and sets its flag; an absent authority
/// always yields the "revoked" finding and leaves the flag clear.
pub proof fn lemma_authority_findings_exclusive(token: TokenData, config: Config)
    ensures
        mint_authority_findings(token, config).len() == 1,
        freeze_authority_findings(token, config).len() == 1,
        token.mint_authority is Some ==> mint_authority_findings(token, config)[0].rule
            == "mint_authority_active"@ && rule_flags(
            RuleKind::MintAuthority,
            token,
            RiskFlags { mint_authority: false, freeze_authority: false },
        ).mint_authority,
        token.mint_authority is None ==> mint_authority_findings(token, config)[0].rule
            == "mint_revoked"@ && !rule_flags(
            RuleKind::MintAuthority,
            token,
            RiskFlags { mint_authority: false, freeze_authority: false },
        ).mint_authority,
        token.freeze_authority is Some ==> freeze_authority_findings(token, config)[0].rule
            == "freeze_authority_active"@ && rule_flags(
            RuleKind::FreezeAuthority,
            token,
            RiskFlags { mint_authority: false, freeze_authority: false },
        ).freeze_authority,
        token.freeze_authority is None ==> freeze_authority_findings(token, config)[0].rule
            == "freeze_revoked"@ && !rule_flags(
            RuleKind::FreezeAuthority,
            token,
            RiskFlags { mint_authority: false, freeze_authority: false },
        ).freeze_authority,
        "mint_authority_active"@ != "mint_revoked"@,
        "freeze_authority_active"@ != "freeze_revoked"@,
{
    reveal_strlit("mint_authority_active");
    reveal_strlit("mint_revoked");
    reveal_strlit("freeze_authority_active");
    reveal_strlit("freeze_revoked");
    assert("mint_authority_active"@.len() == 21);
    assert("mint_revoked"@.len() == 12);
    assert("freeze_authority_active"@.len() == 23);
    assert("freeze_revoked"@.len() == 14);
}

} // verus!
