//! Deterministic, explainable risk scoring for fungible tokens on a public
//! ledger.
//!
//! The library combines on-chain facts (mint authority state, holder
//! concentration, wallet age, metadata verification) through a weighted rule
//! engine and reports both a clamped score and a confidence measure that
//! reflects how complete the underlying data was.  All network traffic stays
//! outside the library: callers hand in plain bytes and values, the library
//! parses, caches, scores and explains.

pub mod address;
pub mod cache;
pub mod codec;
pub mod config;
pub mod errors;
pub mod provider;
pub mod report;
pub mod rules;
pub mod scoring;
pub mod text;
pub mod token;
