//! The laws of the ledger: properties that relate several operations,
//! proved once and for all over the operations' spec functions.
//!
//! Each law is stated against `create_mint_outcome` / `create_mint_state`
//! and their siblings, which the executable operations' contracts equate
//! with what actually happens to a `Ledger`. A law about those spec
//! functions is therefore a law about the executable operations.

use vstd::prelude::*;
use crate::identity::{Identity, sig_contains};
use crate::ops::{
    CreateMint, CreateTokenAccount, MintTokens, create_mint_outcome, create_mint_state,
    create_token_account_outcome, create_token_account_state, is_mint, is_token, mint_at,
    mint_tokens_outcome, mint_tokens_state, token_at,
};
use crate::records::{LedgerError, Record};

verus! {

/// A successful `create_mint` stores, under the requested address, a mint
/// descriptor carrying exactly the requested precision and authority and
/// no supply, so that a subsequent read yields them.
pub proof fn lemma_create_mint_read_back(
    m: Map<Seq<u8>, Record>,
    decimals: u8,
    accs: CreateMint,
    signers: Seq<Identity>,
)
    requires
        create_mint_outcome(m, accs, signers) == Ok::<(), LedgerError>(()),
    ensures
        ({
            let m2 = create_mint_state(m, decimals, accs, signers);
            &&& is_mint(m2, accs.mint@)
            &&& mint_at(m2, accs.mint@).decimals == decimals
            &&& mint_at(m2, accs.mint@).mint_authority == accs.mint_authority
            &&& mint_at(m2, accs.mint@).supply == 0
        }),
{
}

/// Creation is exclusive: after a successful `create_mint`, any second
/// `create_mint` aimed at the same address fails with
/// `AlreadyInitialized`, whatever its other participants and signers.
pub proof fn lemma_create_mint_init_once(
    m: Map<Seq<u8>, Record>,
    decimals: u8,
    accs: CreateMint,
    signers: Seq<Identity>,
    accs2: CreateMint,
    signers2: Seq<Identity>,
)
    requires
        create_mint_outcome(m, accs, signers) == Ok::<(), LedgerError>(()),
        accs2.mint@ == accs.mint@,
    ensures
        create_mint_outcome(create_mint_state(m, decimals, accs, signers), accs2, signers2)
            == Err::<(), LedgerError>(LedgerError::AlreadyInitialized),
{
}

/// A successful `create_token_account` stores, under the requested
/// address, a token account bound to the requested mint descriptor, owned
/// by the requested principal, and holding no units.
pub proof fn lemma_create_token_account_read_back(
    m: Map<Seq<u8>, Record>,
    accs: CreateTokenAccount,
    signers: Seq<Identity>,
)
    requires
        create_token_account_outcome(m, accs, signers) == Ok::<(), LedgerError>(()),
    ensures
        ({
            let m2 = create_token_account_state(m, accs, signers);
            &&& is_token(m2, accs.token@)
            &&& token_at(m2, accs.token@).mint == accs.mint
            &&& token_at(m2, accs.token@).authority == accs.authority
            &&& token_at(m2, accs.token@).balance == 0
        }),
{
}

/// A token account can only be bound to a mint descriptor: when the
/// referenced address holds no mint descriptor — it is vacant or holds a
/// record of the wrong kind — `create_token_account` fails with
/// `InvalidMintReference`.
pub proof fn lemma_create_token_account_needs_mint(
    m: Map<Seq<u8>, Record>,
    accs: CreateTokenAccount,
    signers: Seq<Identity>,
)
    requires
        !m.contains_key(accs.token@),
        !is_mint(m, accs.mint@),
    ensures
        create_token_account_outcome(m, accs, signers) == Err::<(), LedgerError>(
            LedgerError::InvalidMintReference,
        ),
{
}

/// The has-one binding: issuance into a token account bound to one mint
/// descriptor, named together with a different mint descriptor, always
/// fails with `ConstraintViolation` — whatever the signers, even both
/// records being individually valid.
pub proof fn lemma_mint_tokens_binding(
    m: Map<Seq<u8>, Record>,
    accs: MintTokens,
    amount: u64,
    signers: Seq<Identity>,
)
    requires
        is_token(m, accs.token@),
        is_mint(m, accs.mint@),
        token_at(m, accs.token@).mint@ != accs.mint@,
    ensures
        mint_tokens_outcome(m, accs, amount, signers) == Err::<(), LedgerError>(
            LedgerError::ConstraintViolation,
        ),
{
}

/// Only the designated authority may issue: a co-signing principal other
/// than the named mint descriptor's designated authority is always
/// rejected with `Unauthorized`, even if it is the authority of some
/// other mint descriptor.
pub proof fn lemma_mint_tokens_authority(
    m: Map<Seq<u8>, Record>,
    accs: MintTokens,
    amount: u64,
    signers: Seq<Identity>,
)
    requires
        is_token(m, accs.token@),
        is_mint(m, accs.mint@),
        token_at(m, accs.token@).mint@ == accs.mint@,
        sig_contains(signers, accs.mint_authority@),
        accs.mint_authority@ != mint_at(m, accs.mint@).mint_authority@,
    ensures
        mint_tokens_outcome(m, accs, amount, signers) == Err::<(), LedgerError>(
            LedgerError::Unauthorized,
        ),
{
}

/// `mint_tokens` is not idempotent: two successful issuances of the same
/// amount grow the balance and the supply by twice that amount — no
/// request deduplication exists.
pub proof fn lemma_mint_tokens_not_idempotent(
    m: Map<Seq<u8>, Record>,
    accs: MintTokens,
    amount: u64,
    signers: Seq<Identity>,
    signers2: Seq<Identity>,
)
    requires
        mint_tokens_outcome(m, accs, amount, signers) == Ok::<(), LedgerError>(()),
        mint_tokens_outcome(mint_tokens_state(m, accs, amount, signers), accs, amount, signers2)
            == Ok::<(), LedgerError>(()),
    ensures
        ({
            let m2 = mint_tokens_state(
                mint_tokens_state(m, accs, amount, signers),
                accs,
                amount,
                signers2,
            );
            &&& token_at(m2, accs.token@).balance == token_at(m, accs.token@).balance + 2 * amount
            &&& mint_at(m2, accs.mint@).supply == mint_at(m, accs.mint@).supply + 2 * amount
        }),
{
    assert(accs.token@ != accs.mint@);
}

} // verus!
