//! A verified model of a minimal token issuance ledger.
//!
//! The ledger holds two kinds of records under unique addresses: mint
//! descriptors, which define a fungible asset with fixed decimal precision
//! and a sole minting authority, and token accounts, balance records each
//! permanently bound to one mint descriptor. Three operations are offered:
//! creating a mint descriptor, creating a token account, and issuing new
//! supply into a token account. Every operation is atomic: it either applies
//! fully or leaves the ledger unchanged, and its outcome is pinned down by
//! its contract.

pub mod identity;
pub mod records;
pub mod ledger;
pub mod ops;
pub mod laws;
