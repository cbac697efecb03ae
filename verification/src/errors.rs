//! Failure taxonomy for a token analysis.
//!
//! Only the mandatory mint-account fetch and its decode are fatal to a whole
//! analysis; every optional fact degrades to a quality signal instead of an
//! error.

use vstd::prelude::*;

verus! {

/// Everything that can go wrong while acquiring or decoding token data.
#[derive(Debug, Clone)]
pub enum RiskError {
    /// A transport-level RPC failure, after retries were exhausted.
    RpcError(String),
    /// The account exists but is not a usable token account.
    InvalidToken(String),
    /// The account's owning program is not one of the accepted token programs.
    NotSplToken,
    /// The caller-imposed request budget was exceeded.
    Timeout,
    /// A lower-level network failure.
    NetworkError(String),
    /// Malformed account bytes.
    ParseError(String),
    /// An unknown configuration profile name.
    ConfigError(String),
}

impl RiskError {
    /// The message of this error, as a sequence of characters.
    pub open spec fn message_spec(&self) -> Seq<char> {
        match self {
            RiskError::RpcError(s) => "RPC request failed: "@ + s@,
            RiskError::InvalidToken(s) => "Invalid token account: "@ + s@,
            RiskError::NotSplToken => "Not an SPL token"@,
            RiskError::Timeout => "Timeout exceeded"@,
            RiskError::NetworkError(s) => "Network error: "@ + s@,
            RiskError::ParseError(s) => "Data parsing error: "@ + s@,
            RiskError::ConfigError(s) => "Configuration error: "@ + s@,
        }
    }

    /// Human-readable rendering of the error.
    pub fn message(&self) -> (r: String)
        ensures
            r@ == self.message_spec(),
    {
        match self {
            RiskError::RpcError(s) => String::from_str("RPC request failed: ").concat(s.as_str()),
            RiskError::InvalidToken(s) => String::from_str("Invalid token account: ").concat(
                s.as_str(),
            ),
            RiskError::NotSplToken => String::from_str("Not an SPL token"),
            RiskError::Timeout => String::from_str("Timeout exceeded"),
            RiskError::NetworkError(s) => String::from_str("Network error: ").concat(s.as_str()),
            RiskError::ParseError(s) => String::from_str("Data parsing error: ").concat(s.as_str()),
            RiskError::ConfigError(s) => String::from_str("Configuration error: ").concat(
                s.as_str(),
            ),
        }
    }
}

} // verus!
