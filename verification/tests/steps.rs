use createtoken::addr::Address;
use createtoken::derive::{build_signer_seeds, derive_metadata_address, derive_mint_address};
use createtoken::ledger::Ledger;
use createtoken::ops::{
    create_mint_account, ensure_holding_account, mint_initial_supply, register_metadata,
};
use createtoken::records::{AccountData, TokenError};

fn payer() -> Address {
    Address { bytes: [7u8; 32] }
}

#[test]
fn create_mint_account_is_first_writer_wins() {
    let name = b"Widget".to_vec();
    let mint = derive_mint_address(&payer(), &name).unwrap();
    let mut ledger = Ledger::new();
    assert!(create_mint_account(&mut ledger, &mint.address, 6).is_ok());
    let again = create_mint_account(&mut ledger, &mint.address, 9);
    assert_eq!(again.unwrap_err(), TokenError::MintAlreadyExists);
    match ledger.get(&mint.address) {
        Some(AccountData::MintAccount(m)) => assert_eq!(m.decimals, 6),
        other => panic!("expected a mint record, got {:?}", other),
    }
}

#[test]
fn metadata_without_mint_fails() {
    let name = b"Widget".to_vec();
    let mint = derive_mint_address(&payer(), &name).unwrap();
    let meta = derive_metadata_address(&mint.address).unwrap();
    let seeds = build_signer_seeds(&payer(), &name, mint.bump);
    let mut ledger = Ledger::new();
    let r = register_metadata(
        &mut ledger,
        &meta.address,
        &mint.address,
        &payer(),
        &seeds,
        &name,
        &b"WDG".to_vec(),
        &b"https://x/widget.json".to_vec(),
    );
    assert_eq!(r.unwrap_err(), TokenError::MintNotFound);
}

#[test]
fn metadata_with_stale_proof_fails() {
    let name = b"Widget".to_vec();
    let mint = derive_mint_address(&payer(), &name).unwrap();
    let meta = derive_metadata_address(&mint.address).unwrap();
    let stale = build_signer_seeds(&payer(), &name, mint.bump.wrapping_sub(1));
    let mut ledger = Ledger::new();
    assert!(create_mint_account(&mut ledger, &mint.address, 6).is_ok());
    let r = register_metadata(
        &mut ledger,
        &meta.address,
        &mint.address,
        &payer(),
        &stale,
        &name,
        &b"WDG".to_vec(),
        &b"https://x/widget.json".to_vec(),
    );
    assert_eq!(r.unwrap_err(), TokenError::UnauthorizedMintAuthority);
}

#[test]
fn issuance_with_stale_proof_fails() {
    let name = b"Widget".to_vec();
    let mint = derive_mint_address(&payer(), &name).unwrap();
    let holding = Address { bytes: [5u8; 32] };
    let stale = build_signer_seeds(&payer(), &name, mint.bump.wrapping_sub(1));
    let mut ledger = Ledger::new();
    assert!(create_mint_account(&mut ledger, &mint.address, 6).is_ok());
    assert!(ensure_holding_account(&mut ledger, &holding, &mint.address, &payer()).unwrap());
    let r = mint_initial_supply(&mut ledger, &mint.address, &holding, &stale, 10);
    assert_eq!(r.unwrap_err(), TokenError::UnauthorizedMintAuthority);
    match ledger.get(&mint.address) {
        Some(AccountData::MintAccount(m)) => assert_eq!(m.supply, 0),
        other => panic!("expected a mint record, got {:?}", other),
    }
}

#[test]
fn issuance_with_recorded_proof_credits_both_counters() {
    let name = b"Widget".to_vec();
    let mint = derive_mint_address(&payer(), &name).unwrap();
    let holding = Address { bytes: [5u8; 32] };
    let seeds = build_signer_seeds(&payer(), &name, mint.bump);
    let mut ledger = Ledger::new();
    assert!(create_mint_account(&mut ledger, &mint.address, 6).is_ok());
    assert!(ensure_holding_account(&mut ledger, &holding, &mint.address, &payer()).unwrap());
    assert!(mint_initial_supply(&mut ledger, &mint.address, &holding, &seeds, 10).is_ok());
    assert!(mint_initial_supply(&mut ledger, &mint.address, &holding, &seeds, 32).is_ok());
    match ledger.get(&mint.address) {
        Some(AccountData::MintAccount(m)) => assert_eq!(m.supply, 42),
        other => panic!("expected a mint record, got {:?}", other),
    }
    match ledger.get(&holding) {
        Some(AccountData::HoldingAccount(h)) => assert_eq!(h.amount, 42),
        other => panic!("expected a holding record, got {:?}", other),
    }
}

#[test]
fn ensure_holding_account_is_idempotent() {
    let name = b"Widget".to_vec();
    let mint = derive_mint_address(&payer(), &name).unwrap();
    let holding = Address { bytes: [5u8; 32] };
    let mut ledger = Ledger::new();
    assert!(ensure_holding_account(&mut ledger, &holding, &mint.address, &payer()).unwrap());
    assert!(!ensure_holding_account(&mut ledger, &holding, &mint.address, &payer()).unwrap());
    let other_owner = Address { bytes: [8u8; 32] };
    let r = ensure_holding_account(&mut ledger, &holding, &mint.address, &other_owner);
    assert_eq!(r.unwrap_err(), TokenError::HoldingAccountInvalid);
}
