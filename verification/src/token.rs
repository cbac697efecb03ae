//! The token snapshot: the unit of analysis.
//!
//! A snapshot is assembled once per cache miss and immutable afterwards,
//! except for the wallet-age enrichment step, which fills holder ages in
//! place before scoring.

use vstd::prelude::*;
use crate::address::Address;

verus! {

/// Decoded metadata for a token.  Absence of metadata is a valid state of the
/// snapshot, not an error.
#[derive(Debug, Clone)]
pub struct TokenMetadata {
    pub name: String,
    pub symbol: String,
    pub uri: String,
    pub is_verified: bool,
}

/// One holder of the token: the owning wallet, its raw balance, its share of
/// the total supply in hundredths of a percent, and a lazily filled wallet
/// age.
#[derive(Debug, Clone, Copy)]
pub struct TokenHolder {
    pub address: Address,
    pub amount: u64,
    pub percentage_bps: u64,
    pub wallet_age_days: Option<u64>,
}

/// A point-in-time snapshot of a token's on-chain facts.  The holder list is
/// ordered descending by balance; index 0 is treated as the creator by
/// convention.
#[derive(Debug, Clone)]
pub struct TokenData {
    pub mint: Address,
    pub supply: u64,
    pub decimals: u8,
    pub mint_authority: Option<Address>,
    pub freeze_authority: Option<Address>,
    pub metadata: Option<TokenMetadata>,
    pub holders: Vec<TokenHolder>,
    pub creation_timestamp: Option<i64>,
}

impl TokenData {
    /// The share of supply held by the top holder, in hundredths of a
    /// percent; zero when there are no holders.
    pub open spec fn creator_pct_spec(&self) -> u64 {
        if self.holders@.len() == 0 {
            0
        } else {
            self.holders@[0].percentage_bps
        }
    }

    /// The total supply recorded in the snapshot.
    pub fn total_supply(&self) -> (r: u64)
        ensures
            r == self.supply,
    {
        self.supply
    }

    /// How many holders the snapshot records.
    pub fn holder_count(&self) -> (r: usize)
        ensures
            r == self.holders@.len(),
    {
        self.holders.len()
    }

    /// The top holder's wallet, by the descending-balance convention.
    pub fn creator_address(&self) -> (r: Option<Address>)
        ensures
            self.holders@.len() == 0 ==> r is None,
            self.holders@.len() > 0 ==> r == Some(self.holders@[0].address),
    {
        if self.holders.len() == 0 {
            None
        } else {
            Some(self.holders[0].address)
        }
    }

    /// The top holder's share of supply in hundredths of a percent.
    pub fn creator_supply_percentage(&self) -> (r: u64)
        ensures
            r == self.creator_pct_spec(),
    {
        if self.holders.len() == 0 {
            0
        } else {
            self.holders[0].percentage_bps
        }
    }

    /// Whether the top holder's share exceeds `threshold_bps` hundredths of a
    /// percent.
    pub fn is_supply_concentrated(&self, threshold_bps: u64) -> (r: bool)
        ensures
            r == (self.creator_pct_spec() > threshold_bps),
    {
        self.creator_supply_percentage() > threshold_bps
    }
}

} // verus!
