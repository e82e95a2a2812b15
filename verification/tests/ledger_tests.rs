use token_minting::identity::{identity_eq, is_signer, Identity};
use token_minting::ledger::Ledger;
use token_minting::ops::{
    create_mint, create_token_account, mint_tokens, CreateMint, CreateTokenAccount, MintTokens,
};
use token_minting::records::LedgerError;

fn id(n: u8) -> Identity {
    Identity::new([n; 32])
}

#[test]
fn identity_equality() {
    assert!(identity_eq(&id(1), &id(1)));
    assert!(!identity_eq(&id(1), &id(2)));
    let signers = vec![id(1), id(2)];
    assert!(is_signer(&signers, &id(2)));
    assert!(!is_signer(&signers, &id(3)));
    assert!(!is_signer(&Vec::new(), &id(1)));
}

#[test]
fn create_mint_and_read_back() {
    let p1 = id(1);
    let mint_addr = id(10);
    let mut ledger = Ledger::new();
    let accs = CreateMint { mint: mint_addr, mint_authority: p1, payer: p1 };
    let r = create_mint(&mut ledger, 6, &accs, &vec![p1]);
    assert_eq!(r, Ok(()));
    assert!(ledger.contains_id(&mint_addr));
    let d = ledger.get_mint(&mint_addr).unwrap();
    assert_eq!(d.decimals, 6);
    assert_eq!(d.mint_authority, p1);
    assert_eq!(d.supply, 0);
}

#[test]
fn create_mint_twice_fails() {
    let p1 = id(1);
    let p2 = id(2);
    let mint_addr = id(10);
    let mut ledger = Ledger::new();
    let accs = CreateMint { mint: mint_addr, mint_authority: p1, payer: p1 };
    assert_eq!(create_mint(&mut ledger, 6, &accs, &vec![p1]), Ok(()));
    let accs2 = CreateMint { mint: mint_addr, mint_authority: p2, payer: p2 };
    let r = create_mint(&mut ledger, 9, &accs2, &vec![p2]);
    assert_eq!(r, Err(LedgerError::AlreadyInitialized));
    // The occupant is untouched.
    let d = ledger.get_mint(&mint_addr).unwrap();
    assert_eq!(d.decimals, 6);
    assert_eq!(d.mint_authority, p1);
}

#[test]
fn create_mint_missing_signature() {
    let p1 = id(1);
    let mint_addr = id(10);
    let mut ledger = Ledger::new();
    let accs = CreateMint { mint: mint_addr, mint_authority: p1, payer: p1 };
    let r = create_mint(&mut ledger, 6, &accs, &Vec::new());
    assert_eq!(r, Err(LedgerError::MissingSignature));
    assert!(!ledger.contains_id(&mint_addr));
}

fn ledger_with_mint(mint_addr: Identity, authority: Identity) -> Ledger {
    let mut ledger = Ledger::new();
    let accs = CreateMint { mint: mint_addr, mint_authority: authority, payer: authority };
    assert_eq!(create_mint(&mut ledger, 6, &accs, &vec![authority]), Ok(()));
    ledger
}

#[test]
fn create_token_account_and_read_back() {
    let p1 = id(1);
    let p2 = id(2);
    let mint_addr = id(10);
    let token_addr = id(20);
    let mut ledger = ledger_with_mint(mint_addr, p1);
    let accs = CreateTokenAccount { token: token_addr, mint: mint_addr, authority: p2, payer: p2 };
    assert_eq!(create_token_account(&mut ledger, &accs, &vec![p2]), Ok(()));
    let t = ledger.get_token_account(&token_addr).unwrap();
    assert_eq!(t.balance, 0);
    assert_eq!(t.mint, mint_addr);
    assert_eq!(t.authority, p2);
    // A typed read with the other kind sees nothing under either address.
    assert!(ledger.get_mint(&token_addr).is_none());
    assert!(ledger.get_token_account(&mint_addr).is_none());
}

#[test]
fn create_token_account_vacant_mint_fails() {
    let p2 = id(2);
    let token_addr = id(20);
    let mut ledger = Ledger::new();
    let accs = CreateTokenAccount { token: token_addr, mint: id(10), authority: p2, payer: p2 };
    let r = create_token_account(&mut ledger, &accs, &vec![p2]);
    assert_eq!(r, Err(LedgerError::InvalidMintReference));
    assert!(!ledger.contains_id(&token_addr));
}

#[test]
fn create_token_account_non_mint_identity_fails() {
    let p1 = id(1);
    let p2 = id(2);
    let mint_addr = id(10);
    let first_token = id(20);
    let second_token = id(21);
    let mut ledger = ledger_with_mint(mint_addr, p1);
    let accs = CreateTokenAccount { token: first_token, mint: mint_addr, authority: p2, payer: p2 };
    assert_eq!(create_token_account(&mut ledger, &accs, &vec![p2]), Ok(()));
    // Referencing a token account where a mint descriptor is required.
    let bad = CreateTokenAccount { token: second_token, mint: first_token, authority: p2, payer: p2 };
    let r = create_token_account(&mut ledger, &bad, &vec![p2]);
    assert_eq!(r, Err(LedgerError::InvalidMintReference));
    assert!(!ledger.contains_id(&second_token));
}

#[test]
fn create_token_account_twice_fails() {
    let p1 = id(1);
    let p2 = id(2);
    let mint_addr = id(10);
    let token_addr = id(20);
    let mut ledger = ledger_with_mint(mint_addr, p1);
    let accs = CreateTokenAccount { token: token_addr, mint: mint_addr, authority: p2, payer: p2 };
    assert_eq!(create_token_account(&mut ledger, &accs, &vec![p2]), Ok(()));
    let r = create_token_account(&mut ledger, &accs, &vec![p2]);
    assert_eq!(r, Err(LedgerError::AlreadyInitialized));
}

#[test]
fn create_token_account_missing_signature() {
    let p1 = id(1);
    let p2 = id(2);
    let p3 = id(3);
    let mint_addr = id(10);
    let token_addr = id(20);
    let mut ledger = ledger_with_mint(mint_addr, p1);
    // The owner signed but the payer did not.
    let accs = CreateTokenAccount { token: token_addr, mint: mint_addr, authority: p2, payer: p3 };
    let r = create_token_account(&mut ledger, &accs, &vec![p2]);
    assert_eq!(r, Err(LedgerError::MissingSignature));
    assert!(!ledger.contains_id(&token_addr));
}

fn ledger_with_mint_and_token(
    mint_addr: Identity,
    authority: Identity,
    token_addr: Identity,
    owner: Identity,
) -> Ledger {
    let mut ledger = ledger_with_mint(mint_addr, authority);
    let accs = CreateTokenAccount { token: token_addr, mint: mint_addr, authority: owner, payer: owner };
    assert_eq!(create_token_account(&mut ledger, &accs, &vec![owner]), Ok(()));
    ledger
}

#[test]
fn mint_tokens_scenario() {
    // Create a mint with six decimals under authority P1, a token account
    // owned by P2, and issue 1000 units as P1.
    let p1 = id(1);
    let p2 = id(2);
    let mint_addr = id(10);
    let token_addr = id(20);
    let mut ledger = ledger_with_mint_and_token(mint_addr, p1, token_addr, p2);
    let accs = MintTokens { token: token_addr, mint: mint_addr, mint_authority: p1 };
    assert_eq!(mint_tokens(&mut ledger, &accs, 1000, &vec![p1]), Ok(()));
    assert_eq!(ledger.get_token_account(&token_addr).unwrap().balance, 1000);
    assert_eq!(ledger.get_mint(&mint_addr).unwrap().supply, 1000);
    // Repeating as the account's owner P2 is rejected: P2 is not the
    // mint authority, and nothing changes.
    let as_owner = MintTokens { token: token_addr, mint: mint_addr, mint_authority: p2 };
    let r = mint_tokens(&mut ledger, &as_owner, 1000, &vec![p2]);
    assert_eq!(r, Err(LedgerError::Unauthorized));
    assert_eq!(ledger.get_token_account(&token_addr).unwrap().balance, 1000);
    assert_eq!(ledger.get_mint(&mint_addr).unwrap().supply, 1000);
}

#[test]
fn mint_tokens_wrong_mint_fails() {
    // The token account is bound to the first mint; naming the second
    // mint is rejected even with the second mint's authority signing.
    let p1 = id(1);
    let p2 = id(2);
    let first_mint = id(10);
    let second_mint = id(11);
    let token_addr = id(20);
    let mut ledger = ledger_with_mint_and_token(first_mint, p1, token_addr, p2);
    let other = CreateMint { mint: second_mint, mint_authority: p2, payer: p2 };
    assert_eq!(create_mint(&mut ledger, 6, &other, &vec![p2]), Ok(()));
    let accs = MintTokens { token: token_addr, mint: second_mint, mint_authority: p2 };
    let r = mint_tokens(&mut ledger, &accs, 1000, &vec![p2]);
    assert_eq!(r, Err(LedgerError::ConstraintViolation));
    assert_eq!(ledger.get_token_account(&token_addr).unwrap().balance, 0);
    assert_eq!(ledger.get_mint(&second_mint).unwrap().supply, 0);
}

#[test]
fn mint_tokens_missing_signature() {
    let p1 = id(1);
    let p2 = id(2);
    let mint_addr = id(10);
    let token_addr = id(20);
    let mut ledger = ledger_with_mint_and_token(mint_addr, p1, token_addr, p2);
    let accs = MintTokens { token: token_addr, mint: mint_addr, mint_authority: p1 };
    let r = mint_tokens(&mut ledger, &accs, 1000, &vec![p2]);
    assert_eq!(r, Err(LedgerError::MissingSignature));
    assert_eq!(ledger.get_token_account(&token_addr).unwrap().balance, 0);
}

#[test]
fn mint_tokens_vacant_token_fails() {
    let p1 = id(1);
    let mint_addr = id(10);
    let mut ledger = ledger_with_mint(mint_addr, p1);
    let accs = MintTokens { token: id(20), mint: mint_addr, mint_authority: p1 };
    let r = mint_tokens(&mut ledger, &accs, 1000, &vec![p1]);
    assert_eq!(r, Err(LedgerError::InvalidTokenReference));
    assert_eq!(ledger.get_mint(&mint_addr).unwrap().supply, 0);
}

#[test]
fn mint_tokens_mint_as_token_fails() {
    // Naming a mint descriptor's address where a token account is
    // required fails the typed read.
    let p1 = id(1);
    let mint_addr = id(10);
    let mut ledger = ledger_with_mint(mint_addr, p1);
    let accs = MintTokens { token: mint_addr, mint: mint_addr, mint_authority: p1 };
    let r = mint_tokens(&mut ledger, &accs, 1000, &vec![p1]);
    assert_eq!(r, Err(LedgerError::InvalidTokenReference));
}

#[test]
fn mint_tokens_vacant_mint_fails() {
    let p1 = id(1);
    let p2 = id(2);
    let mint_addr = id(10);
    let token_addr = id(20);
    let mut ledger = ledger_with_mint_and_token(mint_addr, p1, token_addr, p2);
    let accs = MintTokens { token: token_addr, mint: id(11), mint_authority: p1 };
    let r = mint_tokens(&mut ledger, &accs, 1000, &vec![p1]);
    assert_eq!(r, Err(LedgerError::InvalidMintReference));
    assert_eq!(ledger.get_token_account(&token_addr).unwrap().balance, 0);
}

#[test]
fn mint_tokens_not_idempotent() {
    let p1 = id(1);
    let p2 = id(2);
    let mint_addr = id(10);
    let token_addr = id(20);
    let mut ledger = ledger_with_mint_and_token(mint_addr, p1, token_addr, p2);
    let accs = MintTokens { token: token_addr, mint: mint_addr, mint_authority: p1 };
    assert_eq!(mint_tokens(&mut ledger, &accs, 500, &vec![p1]), Ok(()));
    assert_eq!(mint_tokens(&mut ledger, &accs, 500, &vec![p1]), Ok(()));
    assert_eq!(ledger.get_token_account(&token_addr).unwrap().balance, 1000);
    assert_eq!(ledger.get_mint(&mint_addr).unwrap().supply, 1000);
}

#[test]
fn mint_tokens_zero_amount_is_allowed() {
    let p1 = id(1);
    let p2 = id(2);
    let mint_addr = id(10);
    let token_addr = id(20);
    let mut ledger = ledger_with_mint_and_token(mint_addr, p1, token_addr, p2);
    let accs = MintTokens { token: token_addr, mint: mint_addr, mint_authority: p1 };
    assert_eq!(mint_tokens(&mut ledger, &accs, 0, &vec![p1]), Ok(()));
    assert_eq!(ledger.get_token_account(&token_addr).unwrap().balance, 0);
    assert_eq!(ledger.get_mint(&mint_addr).unwrap().supply, 0);
}

#[test]
fn mint_tokens_overflow_fails() {
    let p1 = id(1);
    let p2 = id(2);
    let mint_addr = id(10);
    let token_addr = id(20);
    let mut ledger = ledger_with_mint_and_token(mint_addr, p1, token_addr, p2);
    let accs = MintTokens { token: token_addr, mint: mint_addr, mint_authority: p1 };
    // Issuing the largest possible supply succeeds...
    assert_eq!(mint_tokens(&mut ledger, &accs, u64::MAX, &vec![p1]), Ok(()));
    assert_eq!(ledger.get_token_account(&token_addr).unwrap().balance, u64::MAX);
    assert_eq!(ledger.get_mint(&mint_addr).unwrap().supply, u64::MAX);
    // ...and one unit more is rejected with nothing changed.
    let r = mint_tokens(&mut ledger, &accs, 1, &vec![p1]);
    assert_eq!(r, Err(LedgerError::Overflow));
    assert_eq!(ledger.get_token_account(&token_addr).unwrap().balance, u64::MAX);
    assert_eq!(ledger.get_mint(&mint_addr).unwrap().supply, u64::MAX);
}

#[test]
fn two_accounts_on_one_mint() {
    // Supply accumulates across accounts; each balance is its own.
    let p1 = id(1);
    let p2 = id(2);
    let p3 = id(3);
    let mint_addr = id(10);
    let first_token = id(20);
    let second_token = id(21);
    let mut ledger = ledger_with_mint_and_token(mint_addr, p1, first_token, p2);
    let accs = CreateTokenAccount { token: second_token, mint: mint_addr, authority: p3, payer: p3 };
    assert_eq!(create_token_account(&mut ledger, &accs, &vec![p3]), Ok(()));
    let into_first = MintTokens { token: first_token, mint: mint_addr, mint_authority: p1 };
    let into_second = MintTokens { token: second_token, mint: mint_addr, mint_authority: p1 };
    assert_eq!(mint_tokens(&mut ledger, &into_first, 300, &vec![p1]), Ok(()));
    assert_eq!(mint_tokens(&mut ledger, &into_second, 200, &vec![p1]), Ok(()));
    assert_eq!(ledger.get_token_account(&first_token).unwrap().balance, 300);
    assert_eq!(ledger.get_token_account(&second_token).unwrap().balance, 200);
    assert_eq!(ledger.get_mint(&mint_addr).unwrap().supply, 500);
}
