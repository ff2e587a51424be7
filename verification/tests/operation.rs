use createtoken::addr::{
    Address, ASSOCIATED_TOKEN_PROGRAM_ID, METADATA_PROGRAM_ID, SYSTEM_PROGRAM_ID, TOKEN_PROGRAM_ID,
};
use createtoken::derive::{
    derive_holding_address, derive_metadata_address, derive_mint_address,
};
use createtoken::ledger::Ledger;
use createtoken::ops::create_token_mint;
use createtoken::records::{
    AccountData, CreateTokenMint, HoldingRecord, MintRecord, Payer, RentParams, TokenError,
    TokenParams,
};

const MINT_COST: u64 = 1_000;
const METADATA_COST: u64 = 2_000;
const HOLDING_COST: u64 = 3_000;

fn payer() -> Address {
    Address { bytes: [7u8; 32] }
}

struct Setup {
    accounts: CreateTokenMint,
    mint: Address,
    metadata: Address,
    holding: Address,
}

fn setup(name: &[u8], lamports: u64, signed: bool) -> Setup {
    let payer = payer();
    let mint = derive_mint_address(&payer, &name.to_vec()).unwrap();
    let metadata = derive_metadata_address(&mint.address).unwrap();
    let holding = derive_holding_address(&payer, &mint.address).unwrap();
    Setup {
        accounts: CreateTokenMint {
            payer: Payer { address: payer, lamports, signed },
            metadata_account: metadata.address,
            mint_account: mint.address,
            associated_token_account: holding.address,
            token_metadata_program: Address { bytes: METADATA_PROGRAM_ID },
            token_program: Address { bytes: TOKEN_PROGRAM_ID },
            associated_token_program: Address { bytes: ASSOCIATED_TOKEN_PROGRAM_ID },
            system_program: Address { bytes: SYSTEM_PROGRAM_ID },
            rent: RentParams {
                mint_cost: MINT_COST,
                metadata_cost: METADATA_COST,
                holding_cost: HOLDING_COST,
            },
        },
        mint: mint.address,
        metadata: metadata.address,
        holding: holding.address,
    }
}

fn widget_params(initial_supply: u64) -> TokenParams {
    TokenParams {
        decimals: 6,
        name: b"Widget".to_vec(),
        symbol: b"WDG".to_vec(),
        uri: b"https://x/widget.json".to_vec(),
        initial_supply,
    }
}

#[test]
fn widget_scenario_succeeds() {
    let s = setup(b"Widget", 10_000, true);
    let mut ledger = Ledger::new();
    let receipt = create_token_mint(&mut ledger, &s.accounts, &widget_params(1_000_000)).unwrap();
    assert_eq!(receipt.mint_address, s.mint);
    assert_eq!(receipt.metadata_address, s.metadata);
    assert_eq!(receipt.holding_address, s.holding);
    assert!(receipt.holding_created);
    assert_eq!(receipt.lamports_spent, MINT_COST + METADATA_COST + HOLDING_COST);
    match ledger.get(&s.mint) {
        Some(AccountData::MintAccount(m)) => {
            assert_eq!(m.decimals, 6);
            assert_eq!(m.mint_authority, s.mint);
            assert_eq!(m.freeze_authority, s.mint);
            assert_eq!(m.supply, 1_000_000);
            assert!(m.initialized);
        }
        other => panic!("expected a mint record, got {:?}", other),
    }
    match ledger.get(&s.metadata) {
        Some(AccountData::MetadataAccount(m)) => {
            assert_eq!(m.mint, s.mint);
            assert_eq!(m.update_authority, payer());
            assert_eq!(m.name, b"Widget".to_vec());
            assert_eq!(m.symbol, b"WDG".to_vec());
            assert_eq!(m.uri, b"https://x/widget.json".to_vec());
            assert_eq!(m.seller_fee_basis_points, 0);
            assert!(m.is_mutable);
            assert!(!m.primary_sale_happened);
        }
        other => panic!("expected a metadata record, got {:?}", other),
    }
    match ledger.get(&s.holding) {
        Some(AccountData::HoldingAccount(h)) => {
            assert_eq!(h.mint, s.mint);
            assert_eq!(h.owner, payer());
            assert_eq!(h.amount, 1_000_000);
        }
        other => panic!("expected a holding record, got {:?}", other),
    }
}

#[test]
fn second_submission_fails_and_changes_nothing() {
    let s = setup(b"Widget", 100_000, true);
    let mut ledger = Ledger::new();
    create_token_mint(&mut ledger, &s.accounts, &widget_params(1_000_000)).unwrap();
    let second = create_token_mint(&mut ledger, &s.accounts, &widget_params(1_000_000));
    assert_eq!(second.unwrap_err(), TokenError::MintAlreadyExists);
    match ledger.get(&s.mint) {
        Some(AccountData::MintAccount(m)) => assert_eq!(m.supply, 1_000_000),
        other => panic!("expected a mint record, got {:?}", other),
    }
    match ledger.get(&s.holding) {
        Some(AccountData::HoldingAccount(h)) => assert_eq!(h.amount, 1_000_000),
        other => panic!("expected a holding record, got {:?}", other),
    }
}

#[test]
fn zero_supply_creates_no_holding_account() {
    let s = setup(b"Widget", 10_000, true);
    let mut ledger = Ledger::new();
    let receipt = create_token_mint(&mut ledger, &s.accounts, &widget_params(0)).unwrap();
    assert!(!receipt.holding_created);
    assert_eq!(receipt.lamports_spent, MINT_COST + METADATA_COST);
    match ledger.get(&s.mint) {
        Some(AccountData::MintAccount(m)) => {
            assert_eq!(m.supply, 0);
            assert_eq!(m.mint_authority, s.mint);
        }
        other => panic!("expected a mint record, got {:?}", other),
    }
    assert!(matches!(ledger.get(&s.metadata), Some(AccountData::MetadataAccount(_))));
    assert!(ledger.get(&s.holding).is_none());
}

#[test]
fn over_long_uri_fails_atomically() {
    let s = setup(b"Widget", 10_000, true);
    let mut ledger = Ledger::new();
    let mut params = widget_params(1_000_000);
    params.uri = vec![b'u'; 201];
    let r = create_token_mint(&mut ledger, &s.accounts, &params);
    assert_eq!(r.unwrap_err(), TokenError::UriTooLong);
    assert!(ledger.get(&s.mint).is_none());
    assert!(ledger.get(&s.metadata).is_none());
    assert!(ledger.get(&s.holding).is_none());
}

#[test]
fn uri_at_limit_is_accepted() {
    let s = setup(b"Widget", 10_000, true);
    let mut ledger = Ledger::new();
    let mut params = widget_params(0);
    params.uri = vec![b'u'; 200];
    assert!(create_token_mint(&mut ledger, &s.accounts, &params).is_ok());
}

#[test]
fn over_long_name_fails() {
    let mut s = setup(b"Widget", 10_000, true);
    let long_name = vec![b'n'; 33];
    // The handles cannot be derived from an over-long name; any handles do.
    s.accounts.mint_account = Address { bytes: [1u8; 32] };
    let mut ledger = Ledger::new();
    let mut params = widget_params(0);
    params.name = long_name;
    let r = create_token_mint(&mut ledger, &s.accounts, &params);
    assert_eq!(r.unwrap_err(), TokenError::NameTooLong);
}

#[test]
fn over_long_symbol_fails() {
    let s = setup(b"Widget", 10_000, true);
    let mut ledger = Ledger::new();
    let mut params = widget_params(0);
    params.symbol = vec![b's'; 11];
    let r = create_token_mint(&mut ledger, &s.accounts, &params);
    assert_eq!(r.unwrap_err(), TokenError::SymbolTooLong);
}

#[test]
fn missing_signature_fails() {
    let s = setup(b"Widget", 10_000, false);
    let mut ledger = Ledger::new();
    let r = create_token_mint(&mut ledger, &s.accounts, &widget_params(0));
    assert_eq!(r.unwrap_err(), TokenError::MissingSignature);
}

#[test]
fn wrong_mint_handle_fails() {
    let mut s = setup(b"Widget", 10_000, true);
    s.accounts.mint_account = Address { bytes: [9u8; 32] };
    let mut ledger = Ledger::new();
    let r = create_token_mint(&mut ledger, &s.accounts, &widget_params(0));
    assert_eq!(r.unwrap_err(), TokenError::MintAddressMismatch);
}

#[test]
fn wrong_metadata_handle_fails() {
    let mut s = setup(b"Widget", 10_000, true);
    s.accounts.metadata_account = Address { bytes: [9u8; 32] };
    let mut ledger = Ledger::new();
    let r = create_token_mint(&mut ledger, &s.accounts, &widget_params(0));
    assert_eq!(r.unwrap_err(), TokenError::MetadataAddressMismatch);
}

#[test]
fn wrong_registry_handle_fails() {
    let mut s = setup(b"Widget", 10_000, true);
    s.accounts.token_metadata_program = Address { bytes: [9u8; 32] };
    let mut ledger = Ledger::new();
    let r = create_token_mint(&mut ledger, &s.accounts, &widget_params(0));
    assert_eq!(r.unwrap_err(), TokenError::RegistryProgramMismatch);
}

#[test]
fn wrong_token_program_handle_fails() {
    let mut s = setup(b"Widget", 10_000, true);
    s.accounts.token_program = Address { bytes: [9u8; 32] };
    let mut ledger = Ledger::new();
    let r = create_token_mint(&mut ledger, &s.accounts, &widget_params(0));
    assert_eq!(r.unwrap_err(), TokenError::ProgramHandleMismatch);
}

#[test]
fn wrong_holding_handle_fails() {
    let mut s = setup(b"Widget", 10_000, true);
    s.accounts.associated_token_account = Address { bytes: [9u8; 32] };
    let mut ledger = Ledger::new();
    let r = create_token_mint(&mut ledger, &s.accounts, &widget_params(0));
    assert_eq!(r.unwrap_err(), TokenError::HoldingAddressMismatch);
}

#[test]
fn insufficient_funds_fails() {
    let s = setup(b"Widget", MINT_COST + METADATA_COST - 1, true);
    let mut ledger = Ledger::new();
    let r = create_token_mint(&mut ledger, &s.accounts, &widget_params(0));
    assert_eq!(r.unwrap_err(), TokenError::InsufficientFunds);
}

#[test]
fn holding_deposit_only_charged_when_created() {
    // Without the holding account the budget covers a zero-supply run but
    // not a supply-issuing one.
    let s = setup(b"Widget", MINT_COST + METADATA_COST, true);
    let mut ledger = Ledger::new();
    let r = create_token_mint(&mut ledger, &s.accounts, &widget_params(5));
    assert_eq!(r.unwrap_err(), TokenError::InsufficientFunds);
    let mut ledger2 = Ledger::new();
    assert!(create_token_mint(&mut ledger2, &s.accounts, &widget_params(0)).is_ok());
}

#[test]
fn occupied_metadata_address_fails_atomically() {
    let s = setup(b"Widget", 10_000, true);
    let mut ledger = Ledger::new();
    let squatter = MintRecord {
        decimals: 0,
        mint_authority: Address { bytes: [3u8; 32] },
        freeze_authority: Address { bytes: [3u8; 32] },
        supply: 0,
        initialized: true,
    };
    assert!(ledger.insert_new(s.metadata, AccountData::MintAccount(squatter)));
    let r = create_token_mint(&mut ledger, &s.accounts, &widget_params(7));
    assert_eq!(r.unwrap_err(), TokenError::MetadataAlreadyExists);
    assert!(ledger.get(&s.mint).is_none());
    assert!(ledger.get(&s.holding).is_none());
}

#[test]
fn existing_holding_account_is_credited() {
    let s = setup(b"Widget", 10_000, true);
    let mut ledger = Ledger::new();
    let existing = HoldingRecord { mint: s.mint, owner: payer(), amount: 5 };
    assert!(ledger.insert_new(s.holding, AccountData::HoldingAccount(existing)));
    let receipt = create_token_mint(&mut ledger, &s.accounts, &widget_params(1_000)).unwrap();
    assert!(!receipt.holding_created);
    assert_eq!(receipt.lamports_spent, MINT_COST + METADATA_COST);
    match ledger.get(&s.holding) {
        Some(AccountData::HoldingAccount(h)) => assert_eq!(h.amount, 1_005),
        other => panic!("expected a holding record, got {:?}", other),
    }
    match ledger.get(&s.mint) {
        Some(AccountData::MintAccount(m)) => assert_eq!(m.supply, 1_000),
        other => panic!("expected a mint record, got {:?}", other),
    }
}

#[test]
fn foreign_holding_account_fails() {
    let s = setup(b"Widget", 10_000, true);
    let mut ledger = Ledger::new();
    let foreign = HoldingRecord {
        mint: Address { bytes: [9u8; 32] },
        owner: payer(),
        amount: 0,
    };
    assert!(ledger.insert_new(s.holding, AccountData::HoldingAccount(foreign)));
    let r = create_token_mint(&mut ledger, &s.accounts, &widget_params(7));
    assert_eq!(r.unwrap_err(), TokenError::HoldingAccountInvalid);
    assert!(ledger.get(&s.mint).is_none());
}

#[test]
fn supply_overflow_fails_atomically() {
    let s = setup(b"Widget", 10_000, true);
    let mut ledger = Ledger::new();
    let existing = HoldingRecord { mint: s.mint, owner: payer(), amount: u64::MAX };
    assert!(ledger.insert_new(s.holding, AccountData::HoldingAccount(existing)));
    let r = create_token_mint(&mut ledger, &s.accounts, &widget_params(1));
    assert_eq!(r.unwrap_err(), TokenError::SupplyOverflow);
    assert!(ledger.get(&s.mint).is_none());
    match ledger.get(&s.holding) {
        Some(AccountData::HoldingAccount(h)) => assert_eq!(h.amount, u64::MAX),
        other => panic!("expected a holding record, got {:?}", other),
    }
}

#[test]
fn distinct_names_coexist() {
    let widget = setup(b"Widget", 10_000, true);
    let gadget = setup(b"Gadget", 10_000, true);
    let mut ledger = Ledger::new();
    let mut gadget_params = widget_params(3);
    gadget_params.name = b"Gadget".to_vec();
    create_token_mint(&mut ledger, &widget.accounts, &widget_params(2)).unwrap();
    create_token_mint(&mut ledger, &gadget.accounts, &gadget_params).unwrap();
    match ledger.get(&widget.mint) {
        Some(AccountData::MintAccount(m)) => assert_eq!(m.supply, 2),
        other => panic!("expected a mint record, got {:?}", other),
    }
    match ledger.get(&gadget.mint) {
        Some(AccountData::MintAccount(m)) => assert_eq!(m.supply, 3),
        other => panic!("expected a mint record, got {:?}", other),
    }
}
