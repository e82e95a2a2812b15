//! The two kinds of records the ledger stores, and the errors its
//! operations can raise.

use vstd::prelude::*;
use crate::identity::Identity;

verus! {

/// A fungible asset's defining record: decimal precision and minting
/// authority are fixed at creation; the total supply grows only through
/// supply issuance.
#[derive(Clone, Copy, PartialEq, Eq, Debug)]
pub struct MintDescriptor {
    /// Decimal precision of the asset, fixed at creation.
    pub decimals: u8,
    /// The only principal permitted to issue new supply of this asset.
    pub mint_authority: Identity,
    /// Total units of the asset in existence.
    pub supply: u64,
}

/// A balance record for one holder, permanently bound to one mint
/// descriptor.
#[derive(Clone, Copy, PartialEq, Eq, Debug)]
pub struct TokenAccount {
    /// The mint descriptor this balance record is bound to, fixed at
    /// creation.
    pub mint: Identity,
    /// The principal that owns this balance record.
    pub authority: Identity,
    /// Units of the asset held in this record.
    pub balance: u64,
}

/// A record stored in the ledger under a unique address.
#[derive(Clone, Copy, PartialEq, Eq, Debug)]
pub enum Record {
    /// A mint descriptor.
    Mint(MintDescriptor),
    /// A token account.
    Token(TokenAccount),
}

/// Why an operation was rejected. Every error is terminal for the
/// operation that raised it: the ledger is left exactly as it was.
#[derive(Clone, Copy, PartialEq, Eq, Debug)]
pub enum LedgerError {
    /// The target address already holds a record; creation has exclusive,
    /// initialize-once semantics.
    AlreadyInitialized,
    /// A principal that had to co-sign the request did not.
    MissingSignature,
    /// The signer is not the designated mint authority of the named mint
    /// descriptor.
    Unauthorized,
    /// The named address does not hold a mint descriptor.
    InvalidMintReference,
    /// The named address does not hold a token account.
    InvalidTokenReference,
    /// The token account is bound to a different mint descriptor than the
    /// one named in the request.
    ConstraintViolation,
    /// Issuing the requested amount would overflow the mint's supply or
    /// the token account's balance.
    Overflow,
}

} // verus!
