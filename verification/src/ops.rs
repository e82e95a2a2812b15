//! The three operations of the ledger: creating a mint descriptor,
//! creating a token account, and issuing new supply.
//!
//! Each operation takes the participant records it names, the set of
//! identities that co-signed the request, and the ledger, and either
//! applies atomically or fails with the first violated precondition,
//! leaving the ledger unchanged. The outcome and the resulting ledger
//! contents are pinned down exactly by the spec functions below, which the
//! operations' contracts equate with what actually happened.

use vstd::prelude::*;
use crate::identity::{Identity, identity_eq, is_signer, sig_contains};
use crate::ledger::Ledger;
use crate::records::{LedgerError, MintDescriptor, Record, TokenAccount};

verus! {

/// The participants of a mint-descriptor creation: the fresh address the
/// descriptor will live under, the principal to be designated as the sole
/// minting authority, and the principal funding the record, who must
/// co-sign.
#[derive(Clone, Copy, PartialEq, Eq, Debug)]
pub struct CreateMint {
    /// Address the new mint descriptor will be stored under.
    pub mint: Identity,
    /// Principal designated as the sole minting authority.
    pub mint_authority: Identity,
    /// Principal funding the record; must co-sign.
    pub payer: Identity,
}

/// The participants of a token-account creation: the fresh address of the
/// balance record, the mint descriptor it will be permanently bound to,
/// the owning principal, and the funding principal; owner and payer must
/// co-sign.
#[derive(Clone, Copy, PartialEq, Eq, Debug)]
pub struct CreateTokenAccount {
    /// Address the new token account will be stored under.
    pub token: Identity,
    /// Address of the mint descriptor the account is bound to.
    pub mint: Identity,
    /// Principal that will own the new balance record; must co-sign.
    pub authority: Identity,
    /// Principal funding the record; must co-sign.
    pub payer: Identity,
}

/// The participants of a supply issuance: the token account receiving the
/// new units, the mint descriptor they are issued under, and the principal
/// claiming to be that descriptor's minting authority.
#[derive(Clone, Copy, PartialEq, Eq, Debug)]
pub struct MintTokens {
    /// Address of the token account receiving the new units.
    pub token: Identity,
    /// Address of the mint descriptor the units are issued under.
    pub mint: Identity,
    /// Principal claiming to be the descriptor's minting authority; must
    /// co-sign.
    pub mint_authority: Identity,
}

/// Whether `id` holds a mint descriptor in `m`.
pub open spec fn is_mint(m: Map<Seq<u8>, Record>, id: Seq<u8>) -> bool {
    m.contains_key(id) && m[id] is Mint
}

/// Whether `id` holds a token account in `m`.
pub open spec fn is_token(m: Map<Seq<u8>, Record>, id: Seq<u8>) -> bool {
    m.contains_key(id) && m[id] is Token
}

/// The mint descriptor stored under `id`.
pub open spec fn mint_at(m: Map<Seq<u8>, Record>, id: Seq<u8>) -> MintDescriptor
    recommends
        is_mint(m, id),
{
    m[id]->Mint_0
}

/// The token account stored under `id`.
pub open spec fn token_at(m: Map<Seq<u8>, Record>, id: Seq<u8>) -> TokenAccount
    recommends
        is_token(m, id),
{
    m[id]->Token_0
}

/// The outcome of `create_mint`: rejected when the target address is
/// occupied or the payer did not co-sign, accepted otherwise. The first
/// violated precondition wins.
pub open spec fn create_mint_outcome(
    m: Map<Seq<u8>, Record>,
    accs: CreateMint,
    signers: Seq<Identity>,
) -> Result<(), LedgerError> {
    if m.contains_key(accs.mint@) {
        Err(LedgerError::AlreadyInitialized)
    } else if !sig_contains(signers, accs.payer@) {
        Err(LedgerError::MissingSignature)
    } else {
        Ok(())
    }
}

/// The record a successful `create_mint` stores: the given precision and
/// authority, and no supply yet.
pub open spec fn new_mint_record(decimals: u8, accs: CreateMint) -> Record {
    Record::Mint(MintDescriptor { decimals, mint_authority: accs.mint_authority, supply: 0 })
}

/// The ledger contents after `create_mint`: the new descriptor under its
/// address on success, the old contents unchanged on failure.
pub open spec fn create_mint_state(
    m: Map<Seq<u8>, Record>,
    decimals: u8,
    accs: CreateMint,
    signers: Seq<Identity>,
) -> Map<Seq<u8>, Record> {
    if create_mint_outcome(m, accs, signers) is Ok {
        m.insert(accs.mint@, new_mint_record(decimals, accs))
    } else {
        m
    }
}

/// Creates a mint descriptor with the given decimal precision under the
/// address `accs.mint`, designating `accs.mint_authority` as the sole
/// minting authority. All or nothing: on failure the ledger is unchanged.
pub fn create_mint(
    ledger: &mut Ledger,
    decimals: u8,
    accs: &CreateMint,
    signers: &Vec<Identity>,
) -> (r: Result<(), LedgerError>)
    ensures
        r == create_mint_outcome(old(ledger)@, *accs, signers@),
        final(ledger)@ == create_mint_state(old(ledger)@, decimals, *accs, signers@),
{
    if ledger.contains_id(&accs.mint) {
        return Err(LedgerError::AlreadyInitialized);
    }
    if !is_signer(signers, &accs.payer) {
        return Err(LedgerError::MissingSignature);
    }
    let record = Record::Mint(
        MintDescriptor { decimals, mint_authority: accs.mint_authority, supply: 0 },
    );
    ledger.insert_new(accs.mint, record);
    Ok(())
}

/// The outcome of `create_token_account`: rejected when the target address
/// is occupied, when the referenced address does not hold a mint
/// descriptor, or when owner or payer did not co-sign; accepted otherwise.
/// The first violated precondition wins.
pub open spec fn create_token_account_outcome(
    m: Map<Seq<u8>, Record>,
    accs: CreateTokenAccount,
    signers: Seq<Identity>,
) -> Result<(), LedgerError> {
    if m.contains_key(accs.token@) {
        Err(LedgerError::AlreadyInitialized)
    } else if !is_mint(m, accs.mint@) {
        Err(LedgerError::InvalidMintReference)
    } else if !(sig_contains(signers, accs.authority@) && sig_contains(signers, accs.payer@)) {
        Err(LedgerError::MissingSignature)
    } else {
        Ok(())
    }
}

/// The record a successful `create_token_account` stores: bound to the
/// given mint descriptor, owned by the given principal, and empty.
pub open spec fn new_token_record(accs: CreateTokenAccount) -> Record {
    Record::Token(TokenAccount { mint: accs.mint, authority: accs.authority, balance: 0 })
}

/// The ledger contents after `create_token_account`: the new balance
/// record under its address on success, the old contents unchanged on
/// failure.
pub open spec fn create_token_account_state(
    m: Map<Seq<u8>, Record>,
    accs: CreateTokenAccount,
    signers: Seq<Identity>,
) -> Map<Seq<u8>, Record> {
    if create_token_account_outcome(m, accs, signers) is Ok {
        m.insert(accs.token@, new_token_record(accs))
    } else {
        m
    }
}

/// Creates a token account under the address `accs.token`, permanently
/// bound to the mint descriptor stored under `accs.mint` and owned by
/// `accs.authority`. All or nothing: on failure the ledger is unchanged.
pub fn create_token_account(
    ledger: &mut Ledger,
    accs: &CreateTokenAccount,
    signers: &Vec<Identity>,
) -> (r: Result<(), LedgerError>)
    ensures
        r == create_token_account_outcome(old(ledger)@, *accs, signers@),
        final(ledger)@ == create_token_account_state(old(ledger)@, *accs, signers@),
{
    if ledger.contains_id(&accs.token) {
        return Err(LedgerError::AlreadyInitialized);
    }
    match ledger.get_mint(&accs.mint) {
        Some(_) => (),
        None => {
            return Err(LedgerError::InvalidMintReference);
        },
    }
    if !is_signer(signers, &accs.authority) || !is_signer(signers, &accs.payer) {
        return Err(LedgerError::MissingSignature);
    }
    let record = Record::Token(
        TokenAccount { mint: accs.mint, authority: accs.authority, balance: 0 },
    );
    ledger.insert_new(accs.token, record);
    Ok(())
}

/// The outcome of `mint_tokens`, the one operation with real authorization
/// logic. Checked in order, first failure winning: the named addresses
/// must hold a token account and a mint descriptor; the token account must
/// be bound to exactly the named mint descriptor; the claimed authority
/// must have co-signed and must be the descriptor's designated minting
/// authority; and neither the supply nor the balance may overflow. An
/// amount of zero is allowed and issues nothing.
pub open spec fn mint_tokens_outcome(
    m: Map<Seq<u8>, Record>,
    accs: MintTokens,
    amount: u64,
    signers: Seq<Identity>,
) -> Result<(), LedgerError> {
    if !is_token(m, accs.token@) {
        Err(LedgerError::InvalidTokenReference)
    } else if !is_mint(m, accs.mint@) {
        Err(LedgerError::InvalidMintReference)
    } else if token_at(m, accs.token@).mint@ != accs.mint@ {
        Err(LedgerError::ConstraintViolation)
    } else if !sig_contains(signers, accs.mint_authority@) {
        Err(LedgerError::MissingSignature)
    } else if accs.mint_authority@ != mint_at(m, accs.mint@).mint_authority@ {
        Err(LedgerError::Unauthorized)
    } else if mint_at(m, accs.mint@).supply + amount > u64::MAX || token_at(
        m,
        accs.token@,
    ).balance + amount > u64::MAX {
        Err(LedgerError::Overflow)
    } else {
        Ok(())
    }
}

/// The ledger contents after `mint_tokens`: on success the mint
/// descriptor's supply and the token account's balance each grow by the
/// amount, atomically, and nothing else changes; on failure the old
/// contents are unchanged.
pub open spec fn mint_tokens_state(
    m: Map<Seq<u8>, Record>,
    accs: MintTokens,
    amount: u64,
    signers: Seq<Identity>,
) -> Map<Seq<u8>, Record> {
    if mint_tokens_outcome(m, accs, amount, signers) is Ok {
        let d = mint_at(m, accs.mint@);
        let t = token_at(m, accs.token@);
        m.insert(
            accs.mint@,
            Record::Mint(
                MintDescriptor {
                    decimals: d.decimals,
                    mint_authority: d.mint_authority,
                    supply: (d.supply + amount) as u64,
                },
            ),
        ).insert(
            accs.token@,
            Record::Token(
                TokenAccount {
                    mint: t.mint,
                    authority: t.authority,
                    balance: (t.balance + amount) as u64,
                },
            ),
        )
    } else {
        m
    }
}

/// Issues `amount` new units under the mint descriptor at `accs.mint` into
/// the token account at `accs.token`: the descriptor's supply and the
/// account's balance each grow by `amount`, atomically. Authorization is
/// decided strictly before any record is touched: the account must be
/// bound to exactly this descriptor, and the co-signing principal must be
/// the descriptor's designated minting authority. On failure the ledger is
/// unchanged.
pub fn mint_tokens(
    ledger: &mut Ledger,
    accs: &MintTokens,
    amount: u64,
    signers: &Vec<Identity>,
) -> (r: Result<(), LedgerError>)
    ensures
        r == mint_tokens_outcome(old(ledger)@, *accs, amount, signers@),
        final(ledger)@ == mint_tokens_state(old(ledger)@, *accs, amount, signers@),
{
    let tok = match ledger.get_token_account(&accs.token) {
        Some(t) => t,
        None => {
            return Err(LedgerError::InvalidTokenReference);
        },
    };
    let mnt = match ledger.get_mint(&accs.mint) {
        Some(d) => d,
        None => {
            return Err(LedgerError::InvalidMintReference);
        },
    };
    if !identity_eq(&tok.mint, &accs.mint) {
        return Err(LedgerError::ConstraintViolation);
    }
    if !is_signer(signers, &accs.mint_authority) {
        return Err(LedgerError::MissingSignature);
    }
    if !identity_eq(&accs.mint_authority, &mnt.mint_authority) {
        return Err(LedgerError::Unauthorized);
    }
    if amount > u64::MAX - mnt.supply || amount > u64::MAX - tok.balance {
        return Err(LedgerError::Overflow);
    }
    let new_mint = MintDescriptor {
        decimals: mnt.decimals,
        mint_authority: mnt.mint_authority,
        supply: mnt.supply + amount,
    };
    ledger.update_record(&accs.mint, Record::Mint(new_mint));
    let new_token = TokenAccount {
        mint: tok.mint,
        authority: tok.authority,
        balance: tok.balance + amount,
    };
    ledger.update_record(&accs.token, Record::Token(new_token));
    Ok(())
}

} // verus!
