//! The scoring engine: runs every registered rule over a snapshot and
//! finalizes score, confidence and summary.
//!
//! Acquisition is the caller's business: the engine takes a finished
//! snapshot and a flag saying whether wallet-age enrichment succeeded, and
//! its contract pins every field of the report it returns.

use vstd::prelude::*;
use crate::config::Config;
use crate::report::{
    breakdown_views,
    clamp_score,
    confidence_of,
    summary_spec,
    sum_weights,
    warning_views,
    warnings_after_summary,
    DataSources,
    RiskFlags,
    RiskMetrics,
    RiskReport,
    SourceStatus,
};
use crate::rules::{rule_findings, rule_flags, rule_metrics, RuleKind};
use crate::report::FindingView;
use crate::token::TokenData;

verus! {

/// The findings that a rule sequence contributes, in order.
pub open spec fn rules_findings(rules: Seq<RuleKind>, token: TokenData, config: Config) -> Seq<
    FindingView,
>
    decreases rules.len(),
{
    if rules.len() == 0 {
        Seq::<FindingView>::empty()
    } else {
        rules_findings(rules.drop_last(), token, config) + rule_findings(
            rules.last(),
            token,
            config,
        )
    }
}

/// The flags after a rule sequence ran.
pub open spec fn rules_flags(rules: Seq<RuleKind>, token: TokenData, flags: RiskFlags) -> RiskFlags
    decreases rules.len(),
{
    if rules.len() == 0 {
        flags
    } else {
        rule_flags(rules.last(), token, rules_flags(rules.drop_last(), token, flags))
    }
}

/// The metrics after a rule sequence ran.
pub open spec fn rules_metrics(
    rules: Seq<RuleKind>,
    token: TokenData,
    metrics: RiskMetrics,
) -> RiskMetrics
    decreases rules.len(),
{
    if rules.len() == 0 {
        metrics
    } else {
        rule_metrics(rules.last(), token, rules_metrics(rules.drop_last(), token, metrics))
    }
}

/// The profile name recovered from the thresholds.
pub open spec fn profile_name_spec(config: Config) -> Seq<char> {
    if config.thresholds.creator_supply_high_bps <= 4000 {
        "conservative"@
    } else if config.thresholds.creator_supply_high_bps >= 7000 {
        "degenerate"@
    } else {
        "balanced"@
    }
}

/// The source statuses derived from snapshot characteristics: an empty
/// holder list is partial data, absent metadata is missing, failed age
/// enrichment leaves wallet age missing.
pub open spec fn sources_spec(token: TokenData, ages_enriched: bool) -> DataSources {
    DataSources {
        rpc: SourceStatus::Okay,
        metadata: if token.metadata is None {
            SourceStatus::Missing
        } else {
            SourceStatus::Okay
        },
        holders: if token.holders@.len() == 0 {
            SourceStatus::Partial
        } else {
            SourceStatus::Okay
        },
        wallet_age: if ages_enriched {
            SourceStatus::Okay
        } else {
            SourceStatus::Missing
        },
    }
}

/// The metrics recorded before any rule runs.
pub open spec fn initial_metrics(token: TokenData) -> RiskMetrics {
    RiskMetrics {
        creator_supply_bps: 0,
        wallet_age_days: None,
        holders: 0,
        decimals: Some(token.decimals),
        total_supply: Some(token.supply),
        top_holder_bps: if token.holders@.len() > 0 {
            Some(token.holders@[0].percentage_bps)
        } else {
            None
        },
    }
}

/// Runs a configuration and a rule list over token snapshots.
pub struct RiskAnalyzer {
    pub config: Config,
    pub rules: Vec<RuleKind>,
}

impl RiskAnalyzer {
    /// An analyzer over the given configuration and rule list.
    pub fn new(config: Config, rules: Vec<RuleKind>) -> (r: RiskAnalyzer)
        ensures
            r.config == config,
            r.rules == rules,
    {
        RiskAnalyzer { config, rules }
    }

    fn config_profile(&self) -> (r: String)
        ensures
            r@ == profile_name_spec(self.config),
    {
        if self.config.thresholds.creator_supply_high_bps <= 4000 {
            String::from_str("conservative")
        } else if self.config.thresholds.creator_supply_high_bps >= 7000 {
            String::from_str("degenerate")
        } else {
            String::from_str("balanced")
        }
    }

    /// Scores one snapshot: marks source quality, runs every rule in
    /// registered order, then finalizes score, confidence and summary.
    /// `ages_enriched` says whether wallet-age enrichment succeeded.
    pub fn analyze(&self, token: &TokenData, ages_enriched: bool) -> (r: RiskReport)
        ensures
            r.mint == token.mint,
            r.profile@ == profile_name_spec(self.config),
            r.data_sources == sources_spec(*token, ages_enriched),
            breakdown_views(r.breakdown@) == rules_findings(self.rules@, *token, self.config),
            r.flags == rules_flags(
                self.rules@,
                *token,
                RiskFlags { mint_authority: false, freeze_authority: false },
            ),
            r.metrics == rules_metrics(self.rules@, *token, initial_metrics(*token)),
            r.risk_score == clamp_score(sum_weights(r.breakdown@)),
            r.risk_score == clamp_score(
                crate::report::sum_finding_weights(
                    rules_findings(self.rules@, *token, self.config),
                ),
            ),
            r.confidence_ppm == confidence_of(r.data_sources),
            r.summary@ == summary_spec(r.risk_score, r.flags, r.metrics.holders, r.data_sources),
            warning_views(r.warnings@) == warnings_after_summary(
                Seq::<String>::empty(),
                r.metrics.holders,
                r.data_sources,
                r.confidence_ppm,
            ),
    {
        let mut report = RiskReport::new(token.mint, self.config_profile());

        report.metrics.total_supply = Some(token.supply);
        report.metrics.decimals = Some(token.decimals);
        if token.holders.len() > 0 {
            report.metrics.top_holder_bps = Some(token.holders[0].percentage_bps);
        }
        if token.holders.len() == 0 {
            report.data_sources.holders = SourceStatus::Partial;
        }
        if token.metadata.is_none() {
            report.data_sources.metadata = SourceStatus::Missing;
        }
        if !ages_enriched {
            report.data_sources.wallet_age = SourceStatus::Missing;
        }
        proof {
            assert(report.data_sources == sources_spec(*token, ages_enriched));
            assert(report.metrics == initial_metrics(*token));
            assert(breakdown_views(report.breakdown@) =~= Seq::<FindingView>::empty());
            assert(self.rules@.take(0) =~= Seq::<RuleKind>::empty());
        }

        let n = self.rules.len();
        let mut i: usize = 0;
        while i < n
            invariant
                n == self.rules@.len(),
                0 <= i <= n,
                report.mint == token.mint,
                report.profile@ == profile_name_spec(self.config),
                report.data_sources == sources_spec(*token, ages_enriched),
                report.risk_score == 0,
                report.confidence_ppm == 950000,
                report.summary@.len() == 0,
                report.warnings@.len() == 0,
                breakdown_views(report.breakdown@) == rules_findings(
                    self.rules@.take(i as int),
                    *token,
                    self.config,
                ),
                report.flags == rules_flags(
                    self.rules@.take(i as int),
                    *token,
                    RiskFlags { mint_authority: false, freeze_authority: false },
                ),
                report.metrics == rules_metrics(
                    self.rules@.take(i as int),
                    *token,
                    initial_metrics(*token),
                ),
            decreases n - i,
        {
            proof {
                assert(self.rules@.take(i + 1).drop_last() =~= self.rules@.take(i as int));
                assert(self.rules@.take(i + 1).last() == self.rules@[i as int]);
            }
            let rule = self.rules[i];
            rule.evaluate(token, &self.config, &mut report);
            i += 1;
        }
        proof {
            assert(self.rules@.take(n as int) =~= self.rules@);
        }

        report.calculate_score();
        proof {
            crate::report::lemma_sum_weights_views(report.breakdown@);
        }
        report.update_confidence();
        report.generate_summary();
        proof {
            assert(warning_views(report.warnings@) == warnings_after_summary(
                Seq::<String>::empty(),
                report.metrics.holders,
                report.data_sources,
                report.confidence_ppm,
            )) by {
                assert(warning_views(Seq::<String>::empty()) =~= Seq::<Seq<char>>::empty());
            }
        }
        report
    }
}

} // verus!
