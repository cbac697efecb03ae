//! The analysis report: flags, metrics, weighted findings, score, confidence
//! and summary.
//!
//! A report is created once per analysis, filled by the rules, then frozen by
//! a fixed sequence of finalize steps: score, confidence, summary.
//! Confidence is held in millionths (1000000 is 1.0) and percentages in
//! hundredths of a percent, so that every step is exact integer arithmetic.

use vstd::prelude::*;
use crate::address::Address;
use crate::text::dec_str;

verus! {

/// The quality of one fact category after acquisition.
#[derive(Debug, Clone, Copy, PartialEq, Eq, Structural)]
pub enum SourceStatus {
    Okay,
    Cached,
    Partial,
    Timeout,
    Missing,
    Error,
}

/// One status per fact category.
#[derive(Debug, Clone, Copy, PartialEq, Eq, Structural)]
pub struct DataSources {
    pub rpc: SourceStatus,
    pub metadata: SourceStatus,
    pub holders: SourceStatus,
    pub wallet_age: SourceStatus,
}

/// Boolean findings of the authority rules.
#[derive(Debug, Clone, Copy, PartialEq, Eq, Structural)]
pub struct RiskFlags {
    pub mint_authority: bool,
    pub freeze_authority: bool,
}

/// Numeric facts recorded for presentation.  Percentages are in hundredths
/// of a percent.
#[derive(Debug, Clone, Copy)]
pub struct RiskMetrics {
    pub creator_supply_bps: u64,
    pub wallet_age_days: Option<u64>,
    pub holders: usize,
    pub decimals: Option<u8>,
    pub total_supply: Option<u64>,
    pub top_holder_bps: Option<u64>,
}

/// One weighted finding: a stable rule key, its weight, a description, and an
/// optional presentation tag.
#[derive(Debug, Clone)]
pub struct RiskBreakdown {
    pub rule: String,
    pub weight: i32,
    pub description: String,
    pub status: Option<String>,
}

/// The character-level content of a finding, for contracts.
pub struct FindingView {
    pub rule: Seq<char>,
    pub weight: int,
    pub description: Seq<char>,
    pub status: Option<Seq<char>>,
}

/// The content of one finding.
pub open spec fn finding_view(b: RiskBreakdown) -> FindingView {
    FindingView {
        rule: b.rule@,
        weight: b.weight as int,
        description: b.description@,
        status: match b.status {
            Some(s) => Some(s@),
            None => None,
        },
    }
}

/// The content of a findings list.
pub open spec fn breakdown_views(s: Seq<RiskBreakdown>) -> Seq<FindingView> {
    s.map(|_i: int, b: RiskBreakdown| finding_view(b))
}

/// The content of a warnings list.
pub open spec fn warning_views(s: Seq<String>) -> Seq<Seq<char>> {
    s.map(|_i: int, w: String| w@)
}

/// The sum of all finding weights.
pub open spec fn sum_weights(s: Seq<RiskBreakdown>) -> int
    decreases s.len(),
{
    if s.len() == 0 {
        0
    } else {
        sum_weights(s.drop_last()) + s.last().weight
    }
}

/// The sum of all finding weights, over finding contents.
pub open spec fn sum_finding_weights(s: Seq<FindingView>) -> int
    decreases s.len(),
{
    if s.len() == 0 {
        0
    } else {
        sum_finding_weights(s.drop_last()) + s.last().weight
    }
}

/// Summing weights over the findings or over their contents is the same.
pub proof fn lemma_sum_weights_views(s: Seq<RiskBreakdown>)
    ensures
        sum_weights(s) == sum_finding_weights(breakdown_views(s)),
    decreases s.len(),
{
    if s.len() == 0 {
        assert(breakdown_views(s) =~= Seq::<FindingView>::empty());
    } else {
        lemma_sum_weights_views(s.drop_last());
        assert(breakdown_views(s).drop_last() =~= breakdown_views(s.drop_last()));
        assert(breakdown_views(s).last() == finding_view(s.last()));
    }
}

/// A weight total clamped into the score range 0 to 100.
pub open spec fn clamp_score(total: int) -> int {
    if total < 0 {
        0
    } else if total > 100 {
        100
    } else {
        total
    }
}

/// Whether holder data was degraded.
pub open spec fn holders_degraded(ds: DataSources) -> bool {
    ds.holders is Partial || ds.holders is Timeout
}

/// Whether the transport itself failed or timed out.
pub open spec fn rpc_degraded(ds: DataSources) -> bool {
    ds.rpc is Timeout || ds.rpc is Error
}

/// The confidence in millionths that a report with these source statuses
/// earns: a 0.95 ceiling, degraded multiplicatively per degraded source, and
/// a fixed 0.90 penalty because liquidity-pool analysis is never part of this
/// analysis.
pub open spec fn confidence_of(ds: DataSources) -> int {
    let c0 = 950000int;
    let c1 = if holders_degraded(ds) {
        c0 * 70 / 100
    } else {
        c0
    };
    let c2 = if ds.metadata is Cached {
        c1 * 98 / 100
    } else if ds.metadata is Missing {
        c1 * 85 / 100
    } else {
        c1
    };
    let c3 = if ds.wallet_age is Missing {
        c2 * 92 / 100
    } else {
        c2
    };
    let c4 = if rpc_degraded(ds) {
        c3 * 60 / 100
    } else {
        c3
    };
    c4 * 90 / 100
}

/// The base sentence for a score.
pub open spec fn base_summary(score: u32) -> Seq<char> {
    if score <= 20 {
        "Low risk. Token appears relatively safe based on on-chain data."@
    } else if score <= 40 {
        "Low-medium risk. Some concerns present, proceed with caution."@
    } else if score <= 60 {
        "Medium risk. Multiple risk factors detected. DYOR recommended."@
    } else if score <= 80 {
        "High risk. Significant red flags present. High probability of issues."@
    } else {
        "Critical risk. Extreme caution advised. Strong rug-pull indicators."@
    }
}

/// Whether the zero-holders caveat applies: no holders were recorded and the
/// holder source was degraded.
pub open spec fn zero_holders_cond(holders: usize, ds: DataSources) -> bool {
    holders == 0 && holders_degraded(ds)
}

/// The full summary: the base sentence, a destructive-privileges clause when
/// both authorities are live, and an incomplete-data clause when the
/// zero-holders caveat applies.
pub open spec fn summary_spec(
    score: u32,
    flags: RiskFlags,
    holders: usize,
    ds: DataSources,
) -> Seq<char> {
    base_summary(score) + (if flags.mint_authority && flags.freeze_authority {
        " Token owner retains destructive privileges."@
    } else {
        Seq::<char>::empty()
    }) + (if zero_holders_cond(holders, ds) {
        " Note: Unable to fetch complete holder data."@
    } else {
        Seq::<char>::empty()
    })
}

/// The warning recorded when the ledger reported no holders at all.
pub open spec fn zero_holders_warning() -> Seq<char> {
    "RPC returned zero holders - data is incomplete. Token may have many more holders."@
}

/// The confidence in millionths as a whole percentage, rounded to nearest.
pub open spec fn confidence_pct_rounded(conf_ppm: u64) -> int {
    (conf_ppm + 5000) / 10000
}

/// The warning prepended when confidence fell under 0.7.
pub open spec fn low_confidence_warning(conf_ppm: u64) -> Seq<char> {
    "Low confidence score ("@ + dec_str(confidence_pct_rounded(conf_ppm) as nat)
        + "%) - data may be incomplete. Results may be optimistic."@
}

/// Whether some warning in the list has exactly this text.
pub open spec fn has_warning(warnings: Seq<String>, text: Seq<char>) -> bool {
    exists|i: int| 0 <= i < warnings.len() && warnings[i]@ == text
}

/// The warnings after the summary step: the zero-holders warning appended
/// once if its condition holds, then the low-confidence warning put first if
/// confidence fell under 0.7.
pub open spec fn warnings_after_summary(
    warnings: Seq<String>,
    holders: usize,
    ds: DataSources,
    conf_ppm: u64,
) -> Seq<Seq<char>> {
    let w0 = warning_views(warnings);
    let w1 = if zero_holders_cond(holders, ds) && !has_warning(warnings, zero_holders_warning()) {
        w0.push(zero_holders_warning())
    } else {
        w0
    };
    if conf_ppm < 700000 {
        w1.insert(0, low_confidence_warning(conf_ppm))
    } else {
        w1
    }
}

/// The output artifact of one analysis.
#[derive(Debug, Clone)]
pub struct RiskReport {
    pub mint: Address,
    pub risk_score: u32,
    pub confidence_ppm: u64,
    pub profile: String,
    pub flags: RiskFlags,
    pub metrics: RiskMetrics,
    pub breakdown: Vec<RiskBreakdown>,
    pub summary: String,
    pub warnings: Vec<String>,
    pub data_sources: DataSources,
}

/// Everything but the findings list is equal.
pub open spec fn same_but_breakdown(a: RiskReport, b: RiskReport) -> bool {
    &&& a.mint == b.mint
    &&& a.risk_score == b.risk_score
    &&& a.confidence_ppm == b.confidence_ppm
    &&& a.profile == b.profile
    &&& a.flags == b.flags
    &&& a.metrics == b.metrics
    &&& a.summary == b.summary
    &&& a.warnings == b.warnings
    &&& a.data_sources == b.data_sources
}

impl RiskReport {
    /// A fresh report for one mint under one profile: empty findings, clear
    /// flags, zeroed metrics, every source assumed fine, confidence at its
    /// ceiling.
    pub fn new(mint: Address, profile: String) -> (r: RiskReport)
        ensures
            r.mint == mint,
            r.risk_score == 0,
            r.confidence_ppm == 950000,
            r.profile == profile,
            r.flags == (RiskFlags { mint_authority: false, freeze_authority: false }),
            r.metrics.creator_supply_bps == 0,
            r.metrics.wallet_age_days is None,
            r.metrics.holders == 0,
            r.metrics.decimals is None,
            r.metrics.total_supply is None,
            r.metrics.top_holder_bps is None,
            r.breakdown@.len() == 0,
            r.summary@.len() == 0,
            r.warnings@.len() == 0,
            r.data_sources == (DataSources {
                rpc: SourceStatus::Okay,
                metadata: SourceStatus::Okay,
                holders: SourceStatus::Okay,
                wallet_age: SourceStatus::Okay,
            }),
    {
        let r = RiskReport {
            mint,
            risk_score: 0,
            confidence_ppm: 950000,
            profile,
            flags: RiskFlags { mint_authority: false, freeze_authority: false },
            metrics: RiskMetrics {
                creator_supply_bps: 0,
                wallet_age_days: None,
                holders: 0,
                decimals: None,
                total_supply: None,
                top_holder_bps: None,
            },
            breakdown: Vec::new(),
            summary: String::new(),
            warnings: Vec::new(),
            data_sources: DataSources {
                rpc: SourceStatus::Okay,
                metadata: SourceStatus::Okay,
                holders: SourceStatus::Okay,
                wallet_age: SourceStatus::Okay,
            },
        };
        r
    }

    /// Appends one finding.  Nothing else changes.
    pub fn add_rule(&mut self, rule: &str, weight: i32, description: &str, status: Option<&str>)
        ensures
            same_but_breakdown(*old(self), *final(self)),
            final(self).breakdown@.len() == old(self).breakdown@.len() + 1,
            forall|i: int|
                0 <= i < old(self).breakdown@.len() ==> final(self).breakdown@[i] == old(
                    self,
                ).breakdown@[i],
            final(self).breakdown@.last().rule@ == rule@,
            final(self).breakdown@.last().weight == weight,
            final(self).breakdown@.last().description@ == description@,
            match status {
                Some(s) => final(self).breakdown@.last().status matches Some(t) && t@ == s@,
                None => final(self).breakdown@.last().status is None,
            },
    {
        let status_string = match status {
            Some(s) => Some(String::from_str(s)),
            None => None,
        };
        self.breakdown.push(
            RiskBreakdown {
                rule: String::from_str(rule),
                weight,
                description: String::from_str(description),
                status: status_string,
            },
        );
    }

    /// Sums every finding's weight and clamps the total into 0 to 100.  For
    /// every weight sequence the final score equals the clamped sum.
    pub fn calculate_score(&mut self)
        ensures
            final(self).risk_score == clamp_score(sum_weights(old(self).breakdown@)),
            final(self).breakdown == old(self).breakdown,
            final(self).mint == old(self).mint,
            final(self).confidence_ppm == old(self).confidence_ppm,
            final(self).profile == old(self).profile,
            final(self).flags == old(self).flags,
            final(self).metrics == old(self).metrics,
            final(self).summary == old(self).summary,
            final(self).warnings == old(self).warnings,
            final(self).data_sources == old(self).data_sources,
    {
        let n = self.breakdown.len();
        let mut total: i128 = 0;
        let mut i: usize = 0;
        proof {
            assert(self.breakdown@.take(0) =~= Seq::<RiskBreakdown>::empty());
        }
        while i < n
            invariant
                n == self.breakdown@.len(),
                0 <= i <= n,
                total == sum_weights(self.breakdown@.take(i as int)),
                -(i as int) * 2147483648 <= total <= (i as int) * 2147483648,
            decreases n - i,
        {
            proof {
                assert(self.breakdown@.take(i + 1).drop_last() =~= self.breakdown@.take(i as int));
                assert(self.breakdown@.take(i + 1).last() == self.breakdown@[i as int]);
            }
            total = total + self.breakdown[i].weight as i128;
            i += 1;
        }
        proof {
            assert(self.breakdown@.take(n as int) =~= self.breakdown@);
        }
        self.risk_score = if total < 0 {
            0
        } else if total > 100 {
            100
        } else {
            total as u32
        };
    }

    /// Recomputes confidence from the source statuses: a 0.95 ceiling
    /// degraded multiplicatively per degraded source, and the fixed 0.90
    /// coverage penalty.
    pub fn update_confidence(&mut self)
        ensures
            final(self).confidence_ppm == confidence_of(old(self).data_sources),
            final(self).risk_score == old(self).risk_score,
            final(self).breakdown == old(self).breakdown,
            final(self).mint == old(self).mint,
            final(self).profile == old(self).profile,
            final(self).flags == old(self).flags,
            final(self).metrics == old(self).metrics,
            final(self).summary == old(self).summary,
            final(self).warnings == old(self).warnings,
            final(self).data_sources == old(self).data_sources,
    {
        let ds = self.data_sources;
        let mut confidence: u64 = 950000;
        if matches!(ds.holders, SourceStatus::Partial | SourceStatus::Timeout) {
            confidence = confidence * 70 / 100;
        }
        if matches!(ds.metadata, SourceStatus::Cached) {
            confidence = confidence * 98 / 100;
        } else if matches!(ds.metadata, SourceStatus::Missing) {
            confidence = confidence * 85 / 100;
        }
        if matches!(ds.wallet_age, SourceStatus::Missing) {
            confidence = confidence * 92 / 100;
        }
        if matches!(ds.rpc, SourceStatus::Timeout | SourceStatus::Error) {
            confidence = confidence * 60 / 100;
        }
        confidence = confidence * 90 / 100;
        self.confidence_ppm = confidence;
    }

    /// The confidence band: 92 percent and above is HIGH, 70 to 91 is
    /// MEDIUM, the rest is LOW.
    pub fn confidence_level(&self) -> (r: &'static str)
        ensures
            r@ == confidence_level_spec(self.confidence_ppm),
    {
        let pct = self.confidence_ppm / 10000;
        if 92 <= pct && pct <= 100 {
            "HIGH"
        } else if 70 <= pct && pct <= 91 {
            "MEDIUM"
        } else {
            "LOW"
        }
    }

    /// Builds the summary sentence and the warning list from the finalized
    /// score, flags and confidence.
    pub fn generate_summary(&mut self)
        ensures
            final(self).summary@ == summary_spec(
                old(self).risk_score,
                old(self).flags,
                old(self).metrics.holders,
                old(self).data_sources,
            ),
            warning_views(final(self).warnings@) == warnings_after_summary(
                old(self).warnings@,
                old(self).metrics.holders,
                old(self).data_sources,
                old(self).confidence_ppm,
            ),
            final(self).risk_score == old(self).risk_score,
            final(self).breakdown == old(self).breakdown,
            final(self).mint == old(self).mint,
            final(self).confidence_ppm == old(self).confidence_ppm,
            final(self).profile == old(self).profile,
            final(self).flags == old(self).flags,
            final(self).metrics == old(self).metrics,
            final(self).data_sources == old(self).data_sources,
    {
        let score = self.risk_score;
        let base = if score <= 20 {
            "Low risk. Token appears relatively safe based on on-chain data."
        } else if score <= 40 {
            "Low-medium risk. Some concerns present, proceed with caution."
        } else if score <= 60 {
            "Medium risk. Multiple risk factors detected. DYOR recommended."
        } else if score <= 80 {
            "High risk. Significant red flags present. High probability of issues."
        } else {
            "Critical risk. Extreme caution advised. Strong rug-pull indicators."
        };
        let mut summary = String::from_str(base);
        if self.flags.mint_authority && self.flags.freeze_authority {
            summary.append(" Token owner retains destructive privileges.");
        }
        let zero_holders = self.metrics.holders == 0 && matches!(
            self.data_sources.holders,
            SourceStatus::Partial | SourceStatus::Timeout,
        );
        if zero_holders {
            let warning =
                "RPC returned zero holders - data is incomplete. Token may have many more holders.";
            let mut already = false;
            let n = self.warnings.len();
            let mut i: usize = 0;
            while i < n
                invariant
                    n == self.warnings@.len(),
                    0 <= i <= n,
                    already == exists|j: int|
                        0 <= j < i && (#[trigger] self.warnings@[j])@ == warning@,
                decreases n - i,
            {
                if crate::text::str_eq(self.warnings[i].as_str(), warning) {
                    already = true;
                }
                i += 1;
            }
            if !already {
                let ghost before = self.warnings@;
                self.warnings.push(String::from_str(warning));
                proof {
                    assert(warning_views(self.warnings@) =~= warning_views(before).push(warning@));
                }
            }
            summary.append(" Note: Unable to fetch complete holder data.");
        }
        if self.confidence_ppm < 700000 {
            let pct128 = (self.confidence_ppm as u128 + 5000) / 10000;
            let pct = pct128 as u64;
            let rendered = crate::text::u64_to_string(pct);
            let warning = String::from_str("Low confidence score (").concat(rendered.as_str())
                .concat("%) - data may be incomplete. Results may be optimistic.");
            let ghost before = self.warnings@;
            self.warnings.insert(0, warning);
            proof {
                assert(warning_views(self.warnings@) =~= warning_views(before).insert(
                    0,
                    low_confidence_warning(self.confidence_ppm),
                ));
            }
        }
        self.summary = summary;
        proof {
            assert(summary_spec(
                old(self).risk_score,
                old(self).flags,
                old(self).metrics.holders,
                old(self).data_sources,
            ) =~= self.summary@);
            assert(warning_views(self.warnings@) =~= warnings_after_summary(
                old(self).warnings@,
                old(self).metrics.holders,
                old(self).data_sources,
                old(self).confidence_ppm,
            ));
        }
    }

    /// The risk band of the score.
    pub fn risk_level(&self) -> (r: &'static str)
        ensures
            r@ == risk_level_spec(self.risk_score),
    {
        if self.risk_score <= 20 {
            "LOW"
        } else if self.risk_score <= 40 {
            "LOW-MEDIUM"
        } else if self.risk_score <= 60 {
            "MEDIUM"
        } else if self.risk_score <= 80 {
            "HIGH"
        } else {
            "CRITICAL"
        }
    }
}

/// The confidence band for a confidence in millionths.
pub open spec fn confidence_level_spec(conf_ppm: u64) -> Seq<char> {
    let pct = conf_ppm / 10000;
    if 92 <= pct <= 100 {
        "HIGH"@
    } else if 70 <= pct <= 91 {
        "MEDIUM"@
    } else {
        "LOW"@
    }
}

/// The risk band for a score.
pub open spec fn risk_level_spec(score: u32) -> Seq<char> {
    if score <= 20 {
        "LOW"@
    } else if score <= 40 {
        "LOW-MEDIUM"@
    } else if score <= 60 {
        "MEDIUM"@
    } else if score <= 80 {
        "HIGH"@
    } else {
        "CRITICAL"@
    }
}

/// Confidence never leaves (0, 0.95]: it is positive for every combination
/// of source statuses and never claims more than the 0.95 ceiling.
pub proof fn lemma_confidence_bounds(ds: DataSources)
    ensures
        0 < confidence_of(ds) <= 950000,
{
}

/// The degradation factor applied for the holder source, in hundredths.
pub open spec fn holders_factor(ds: DataSources) -> int {
    if holders_degraded(ds) {
        70
    } else {
        100
    }
}

/// The degradation factor applied for the metadata source, in hundredths.
pub open spec fn metadata_factor(ds: DataSources) -> int {
    if ds.metadata is Cached {
        98
    } else if ds.metadata is Missing {
        85
    } else {
        100
    }
}

/// The degradation factor applied for the wallet-age source, in hundredths.
pub open spec fn wallet_age_factor(ds: DataSources) -> int {
    if ds.wallet_age is Missing {
        92
    } else {
        100
    }
}

/// The degradation factor applied for the transport, in hundredths.
pub open spec fn rpc_factor(ds: DataSources) -> int {
    if rpc_degraded(ds) {
        60
    } else {
        100
    }
}

/// Confidence strictly decreases as more degradation applies: whenever every
/// factor of `b` is at most the corresponding factor of `a` and at least one
/// is strictly smaller, `b` earns strictly less confidence; with no strict
/// drop it never earns more.
pub proof fn lemma_confidence_monotone(a: DataSources, b: DataSources)
    requires
        holders_factor(b) <= holders_factor(a),
        metadata_factor(b) <= metadata_factor(a),
        wallet_age_factor(b) <= wallet_age_factor(a),
        rpc_factor(b) <= rpc_factor(a),
    ensures
        confidence_of(b) <= confidence_of(a),
        holders_factor(b) < holders_factor(a) || metadata_factor(b) < metadata_factor(a)
            || wallet_age_factor(b) < wallet_age_factor(a) || rpc_factor(b) < rpc_factor(a)
            ==> confidence_of(b) < confidence_of(a),
{
}

} // verus!
