//! Analysis profiles: rule weights and thresholds.
//!
//! A profile is opaque configuration data for the scoring engine; the engine
//! never invents or mutates these values.  Percentage thresholds are held in
//! hundredths of a percent so that every comparison is exact integer
//! arithmetic.

use vstd::prelude::*;
use crate::errors::RiskError;

verus! {

/// The weight each rule outcome contributes to the score.  Positive weights
/// increase risk, negative weights reduce it.
#[derive(Debug, Clone, Copy, PartialEq, Eq, Structural)]
pub struct RiskWeights {
    pub mint_authority_active: i32,
    pub freeze_authority_active: i32,
    pub creator_supply_high: i32,
    pub creator_is_authority: i32,
    pub wallet_young: i32,
    pub low_holders: i32,
    pub no_verified_metadata: i32,
    pub mint_revoked: i32,
    pub freeze_revoked: i32,
    pub supply_distributed: i32,
}

/// Trigger thresholds for the rules.  Percentages are in hundredths of a
/// percent (10000 is 100%).
#[derive(Debug, Clone, Copy, PartialEq, Eq, Structural)]
pub struct Thresholds {
    pub creator_supply_high_bps: u64,
    pub supply_distributed_bps: u64,
    pub wallet_young_days: u64,
    pub low_holders_count: u64,
}

/// A named analysis posture: weights plus thresholds.
#[derive(Debug, Clone, Copy, PartialEq, Eq, Structural)]
pub struct Config {
    pub weights: RiskWeights,
    pub thresholds: Thresholds,
}

/// The conservative profile: strict thresholds, heavy weights.
pub open spec fn conservative_config() -> Config {
    Config {
        weights: RiskWeights {
            mint_authority_active: 35,
            freeze_authority_active: 30,
            creator_supply_high: 30,
            creator_is_authority: 20,
            wallet_young: 15,
            low_holders: 10,
            no_verified_metadata: 5,
            mint_revoked: -25i32,
            freeze_revoked: -20i32,
            supply_distributed: -20i32,
        },
        thresholds: Thresholds {
            creator_supply_high_bps: 4000,
            supply_distributed_bps: 1500,
            wallet_young_days: 14,
            low_holders_count: 50,
        },
    }
}

/// The balanced profile: the default posture.
pub open spec fn balanced_config() -> Config {
    Config {
        weights: RiskWeights {
            mint_authority_active: 30,
            freeze_authority_active: 25,
            creator_supply_high: 25,
            creator_is_authority: 15,
            wallet_young: 10,
            low_holders: 5,
            no_verified_metadata: 2,
            mint_revoked: -20i32,
            freeze_revoked: -15i32,
            supply_distributed: -15i32,
        },
        thresholds: Thresholds {
            creator_supply_high_bps: 5000,
            supply_distributed_bps: 1000,
            wallet_young_days: 7,
            low_holders_count: 30,
        },
    }
}

/// The degenerate profile: loose thresholds, light weights.
pub open spec fn degenerate_config() -> Config {
    Config {
        weights: RiskWeights {
            mint_authority_active: 20,
            freeze_authority_active: 15,
            creator_supply_high: 15,
            creator_is_authority: 10,
            wallet_young: 5,
            low_holders: 3,
            no_verified_metadata: 1,
            mint_revoked: -15i32,
            freeze_revoked: -10i32,
            supply_distributed: -10i32,
        },
        thresholds: Thresholds {
            creator_supply_high_bps: 7000,
            supply_distributed_bps: 500,
            wallet_young_days: 3,
            low_holders_count: 10,
        },
    }
}

impl Config {
    /// The conservative profile.
    pub fn conservative() -> (r: Config)
        ensures
            r == conservative_config(),
    {
        Config {
            weights: RiskWeights {
                mint_authority_active: 35,
                freeze_authority_active: 30,
                creator_supply_high: 30,
                creator_is_authority: 20,
                wallet_young: 15,
                low_holders: 10,
                no_verified_metadata: 5,
                mint_revoked: -25,
                freeze_revoked: -20,
                supply_distributed: -20,
            },
            thresholds: Thresholds {
                creator_supply_high_bps: 4000,
                supply_distributed_bps: 1500,
                wallet_young_days: 14,
                low_holders_count: 50,
            },
        }
    }

    /// The balanced profile.
    pub fn balanced() -> (r: Config)
        ensures
            r == balanced_config(),
    {
        Config {
            weights: RiskWeights {
                mint_authority_active: 30,
                freeze_authority_active: 25,
                creator_supply_high: 25,
                creator_is_authority: 15,
                wallet_young: 10,
                low_holders: 5,
                no_verified_metadata: 2,
                mint_revoked: -20,
                freeze_revoked: -15,
                supply_distributed: -15,
            },
            thresholds: Thresholds {
                creator_supply_high_bps: 5000,
                supply_distributed_bps: 1000,
                wallet_young_days: 7,
                low_holders_count: 30,
            },
        }
    }

    /// The degenerate profile.
    pub fn degenerate() -> (r: Config)
        ensures
            r == degenerate_config(),
    {
        Config {
            weights: RiskWeights {
                mint_authority_active: 20,
                freeze_authority_active: 15,
                creator_supply_high: 15,
                creator_is_authority: 10,
                wallet_young: 5,
                low_holders: 3,
                no_verified_metadata: 1,
                mint_revoked: -15,
                freeze_revoked: -10,
                supply_distributed: -10,
            },
            thresholds: Thresholds {
                creator_supply_high_bps: 7000,
                supply_distributed_bps: 500,
                wallet_young_days: 3,
                low_holders_count: 10,
            },
        }
    }

    /// Resolves a profile name.  Exactly the three named profiles succeed;
    /// any other name is a configuration error.
    pub fn from_profile(profile: &str) -> (r: Result<Config, RiskError>)
        ensures
            profile@ == "conservative"@ ==> r == Ok::<Config, RiskError>(conservative_config()),
            profile@ == "balanced"@ ==> r == Ok::<Config, RiskError>(balanced_config()),
            profile@ == "degenerate"@ ==> r == Ok::<Config, RiskError>(degenerate_config()),
            profile@ != "conservative"@ && profile@ != "balanced"@ && profile@ != "degenerate"@
                ==> (r matches Err(RiskError::ConfigError(m)) && m@ == "Unknown profile: "@
                + profile@),
    {
        proof {
            reveal_strlit("conservative");
            reveal_strlit("balanced");
            reveal_strlit("degenerate");
            assert("conservative"@.len() == 12);
            assert("balanced"@.len() == 8);
            assert("degenerate"@.len() == 10);
        }
        if crate::text::str_eq(profile, "conservative") {
            Ok(Config::conservative())
        } else if crate::text::str_eq(profile, "balanced") {
            Ok(Config::balanced())
        } else if crate::text::str_eq(profile, "degenerate") {
            Ok(Config::degenerate())
        } else {
            Err(
                RiskError::ConfigError(
                    String::from_str("Unknown profile: ").concat(profile),
                ),
            )
        }
    }
}

} // verus!
