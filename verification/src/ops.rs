//! The token-class creation operation.
//!
//! Three responsibilities run in strict sequence inside one atomic
//! operation: mint-account materialization, metadata registration, and
//! initial-supply issuance.  [`create_token_mint`] validates every
//! caller-supplied handle against its independently derived address, checks
//! every way a step could fail, and only then commits the writes, so the
//! ledger is either untouched or carries all the records of the new token
//! class.

use vstd::prelude::*;
use vstd::slice::slice_to_vec;

use crate::addr::{addr_eq, Address, ASSOCIATED_TOKEN_PROGRAM_ID, CREATE_TOKEN_PROGRAM_ID,
    METADATA_PROGRAM_ID, SYSTEM_PROGRAM_ID, TOKEN_PROGRAM_ID};
use crate::derive::{build_signer_seeds, checked_pda_of, derive_holding_address,
    derive_metadata_address, derive_mint_address, holding_seeds, metadata_seeds, mint_seeds,
    pda_of};
use crate::ledger::{holding_at, is_holding_at, is_initialized_mint_at, lemma_lookup_push, lookup,
    mint_at, Ledger, LedgerView};
use crate::records::{AccountData, AccountDataV, CreateTokenMint, HoldingRecord, HoldingRecordV,
    MetadataRecord, MetadataRecordV, MintRecord, MintRecordV, TokenError, TokenParams,
    TokenReceipt, MAX_NAME_LEN, MAX_SYMBOL_LEN, MAX_URI_LEN};

verus! {

/// The mint record as this operation creates it: decimal precision as
/// requested, both authorities the mint's own address, initialized.
pub open spec fn created_mint_v(decimals: u8, addr: Seq<u8>, supply: u64) -> MintRecordV {
    MintRecordV {
        decimals,
        mint_authority: addr,
        freeze_authority: addr,
        supply,
        initialized: true,
    }
}

/// The metadata record as this operation creates it: bound to the mint,
/// update authority the payer, zero royalties, no creator list, mutable.
pub open spec fn created_metadata_v(
    mint: Seq<u8>,
    update_authority: Seq<u8>,
    name: Seq<u8>,
    symbol: Seq<u8>,
    uri: Seq<u8>,
) -> MetadataRecordV {
    MetadataRecordV {
        mint,
        update_authority,
        name,
        symbol,
        uri,
        seller_fee_basis_points: 0,
        primary_sale_happened: false,
        is_mutable: true,
    }
}

/// A holding account as the factory creates it: empty, for (mint, owner).
pub open spec fn fresh_holding_v(mint: Seq<u8>, owner: Seq<u8>) -> HoldingRecordV {
    HoldingRecordV { mint, owner, amount: 0 }
}

/// Materializes the mint account at its derived address.  The address must
/// be unoccupied: creation is first-writer-wins and never overwrites.
pub fn create_mint_account(ledger: &mut Ledger, mint_address: &Address, decimals: u8) -> (r:
    Result<(), TokenError>)
    requires
        old(ledger).wf(),
    ensures
        final(ledger).wf(),
        lookup(old(ledger)@, mint_address@) is Some ==> r == Err::<(), TokenError>(
            TokenError::MintAlreadyExists,
        ) && final(ledger)@ == old(ledger)@,
        lookup(old(ledger)@, mint_address@) is None ==> r == Ok::<(), TokenError>(())
            && final(ledger)@ == old(ledger)@.push(
            (mint_address@, AccountDataV::MintAccount(created_mint_v(decimals, mint_address@, 0))),
        ),
{
    let record = MintRecord {
        decimals,
        mint_authority: *mint_address,
        freeze_authority: *mint_address,
        supply: 0,
        initialized: true,
    };
    if ledger.insert_new(*mint_address, AccountData::MintAccount(record)) {
        Ok(())
    } else {
        Err(TokenError::MintAlreadyExists)
    }
}

/// Why metadata registration would be refused, checked in the registry's
/// order: payload limits, the referenced mint, the authorization proof, the
/// re-derived metadata address, then a duplicate record.
pub open spec fn register_metadata_error(
    l: LedgerView,
    meta: Seq<u8>,
    mint: Seq<u8>,
    seeds: Seq<Seq<u8>>,
    name: Seq<u8>,
    symbol: Seq<u8>,
    uri: Seq<u8>,
) -> Option<TokenError> {
    if name.len() > MAX_NAME_LEN {
        Some(TokenError::NameTooLong)
    } else if symbol.len() > MAX_SYMBOL_LEN {
        Some(TokenError::SymbolTooLong)
    } else if uri.len() > MAX_URI_LEN {
        Some(TokenError::UriTooLong)
    } else if !is_initialized_mint_at(l, mint) {
        Some(TokenError::MintNotFound)
    } else if checked_pda_of(seeds, CREATE_TOKEN_PROGRAM_ID@) != Some(
        mint_at(l, mint).mint_authority,
    ) {
        Some(TokenError::UnauthorizedMintAuthority)
    } else if !(pda_of(metadata_seeds(mint), METADATA_PROGRAM_ID@) matches Some(p) && p.0
        == meta) {
        Some(TokenError::MetadataAddressMismatch)
    } else if lookup(l, meta) is Some {
        Some(TokenError::MetadataAlreadyExists)
    } else {
        None
    }
}

/// Registers the metadata record for an existing mint.  The caller presents
/// the mint's authorization proof; the record's update authority is the
/// freely signable identity given in `update_authority`, deliberately not
/// the mint's derived authority.
pub fn register_metadata(
    ledger: &mut Ledger,
    metadata_address: &Address,
    mint_address: &Address,
    update_authority: &Address,
    authority_seeds: &Vec<Vec<u8>>,
    name: &Vec<u8>,
    symbol: &Vec<u8>,
    uri: &Vec<u8>,
) -> (r: Result<(), TokenError>)
    requires
        old(ledger).wf(),
    ensures
        final(ledger).wf(),
        match register_metadata_error(
            old(ledger)@,
            metadata_address@,
            mint_address@,
            authority_seeds.deep_view(),
            name@,
            symbol@,
            uri@,
        ) {
            Some(e) => r == Err::<(), TokenError>(e) && final(ledger)@ == old(ledger)@,
            None => r == Ok::<(), TokenError>(()) && final(ledger)@ == old(ledger)@.push(
                (
                    metadata_address@,
                    AccountDataV::MetadataAccount(
                        created_metadata_v(mint_address@, update_authority@, name@, symbol@, uri@),
                    ),
                ),
            ),
        },
{
    if name.len() > MAX_NAME_LEN {
        return Err(TokenError::NameTooLong);
    }
    if symbol.len() > MAX_SYMBOL_LEN {
        return Err(TokenError::SymbolTooLong);
    }
    if uri.len() > MAX_URI_LEN {
        return Err(TokenError::UriTooLong);
    }
    let mint_authority: Address;
    match ledger.get(mint_address) {
        Some(AccountData::MintAccount(m)) => {
            if !m.initialized {
                return Err(TokenError::MintNotFound);
            }
            mint_authority = m.mint_authority;
        },
        _ => {
            return Err(TokenError::MintNotFound);
        },
    }
    if !crate::derive::check_authorization(authority_seeds, &mint_authority) {
        return Err(TokenError::UnauthorizedMintAuthority);
    }
    let derived = match derive_metadata_address(mint_address) {
        Ok(d) => d,
        Err(_) => {
            return Err(TokenError::MetadataAddressMismatch);
        },
    };
    if !addr_eq(&derived.address, metadata_address) {
        return Err(TokenError::MetadataAddressMismatch);
    }
    let record = MetadataRecord {
        mint: *mint_address,
        update_authority: *update_authority,
        name: slice_to_vec(name.as_slice()),
        symbol: slice_to_vec(symbol.as_slice()),
        uri: slice_to_vec(uri.as_slice()),
        seller_fee_basis_points: 0,
        primary_sale_happened: false,
        is_mutable: true,
    };
    if ledger.insert_new(*metadata_address, AccountData::MetadataAccount(record)) {
        Ok(())
    } else {
        Err(TokenError::MetadataAlreadyExists)
    }
}

/// Why ensuring the holding account would be refused: the address may be
/// free or already carry a holding account for exactly this (mint, owner).
pub open spec fn ensure_holding_error(
    l: LedgerView,
    hold: Seq<u8>,
    mint: Seq<u8>,
    owner: Seq<u8>,
) -> Option<TokenError> {
    match lookup(l, hold) {
        Option::None => None,
        Option::Some(AccountDataV::HoldingAccount(h)) => if h.mint == mint && h.owner == owner {
            None
        } else {
            Some(TokenError::HoldingAccountInvalid)
        },
        Option::Some(_) => Some(TokenError::HoldingAccountInvalid),
    }
}

/// Creates the associated holding account for (mint, owner) if it is absent;
/// an existing matching account is left as it is.  Returns whether it
/// created the account.
pub fn ensure_holding_account(
    ledger: &mut Ledger,
    holding_address: &Address,
    mint_address: &Address,
    owner: &Address,
) -> (r: Result<bool, TokenError>)
    requires
        old(ledger).wf(),
    ensures
        final(ledger).wf(),
        match ensure_holding_error(old(ledger)@, holding_address@, mint_address@, owner@) {
            Some(e) => r == Err::<bool, TokenError>(e) && final(ledger)@ == old(ledger)@,
            None => if lookup(old(ledger)@, holding_address@) is None {
                r == Ok::<bool, TokenError>(true) && final(ledger)@ == old(ledger)@.push(
                    (
                        holding_address@,
                        AccountDataV::HoldingAccount(fresh_holding_v(mint_address@, owner@)),
                    ),
                )
            } else {
                r == Ok::<bool, TokenError>(false) && final(ledger)@ == old(ledger)@
            },
        },
{
    if !ledger.contains(holding_address) {
        let record = HoldingRecord { mint: *mint_address, owner: *owner, amount: 0 };
        let inserted = ledger.insert_new(*holding_address, AccountData::HoldingAccount(record));
        assert(inserted);
        return Ok(true);
    }
    match ledger.get(holding_address) {
        Some(AccountData::HoldingAccount(h)) => {
            if addr_eq(&h.mint, mint_address) && addr_eq(&h.owner, owner) {
                Ok(false)
            } else {
                Err(TokenError::HoldingAccountInvalid)
            }
        },
        _ => Err(TokenError::HoldingAccountInvalid),
    }
}

/// The mint record with `amount` more supply.
pub open spec fn supply_bumped(m: MintRecordV, amount: u64) -> MintRecordV {
    MintRecordV {
        decimals: m.decimals,
        mint_authority: m.mint_authority,
        freeze_authority: m.freeze_authority,
        supply: (m.supply + amount) as u64,
        initialized: m.initialized,
    }
}

/// The holding record with `amount` more tokens.
pub open spec fn amount_bumped(h: HoldingRecordV, amount: u64) -> HoldingRecordV {
    HoldingRecordV { mint: h.mint, owner: h.owner, amount: (h.amount + amount) as u64 }
}

/// Why issuance would be refused, checked as the token-balance program
/// does: the mint must exist, the presented proof must reconstruct its
/// recorded authority, the holding account must belong to the mint, and
/// neither counter may overflow.
pub open spec fn mint_supply_error(
    l: LedgerView,
    mint: Seq<u8>,
    hold: Seq<u8>,
    seeds: Seq<Seq<u8>>,
    amount: u64,
) -> Option<TokenError> {
    if !is_initialized_mint_at(l, mint) {
        Some(TokenError::MintNotFound)
    } else if checked_pda_of(seeds, CREATE_TOKEN_PROGRAM_ID@) != Some(
        mint_at(l, mint).mint_authority,
    ) {
        Some(TokenError::UnauthorizedMintAuthority)
    } else if !is_holding_at(l, hold) || holding_at(l, hold).mint != mint {
        Some(TokenError::HoldingAccountInvalid)
    } else if mint_at(l, mint).supply + amount > u64::MAX || holding_at(l, hold).amount + amount
        > u64::MAX {
        Some(TokenError::SupplyOverflow)
    } else {
        None
    }
}

/// Issues `amount` new tokens: the mint's supply counter and the holding
/// account's balance both increase by exactly `amount`, nothing else moves.
pub fn mint_initial_supply(
    ledger: &mut Ledger,
    mint_address: &Address,
    holding_address: &Address,
    authority_seeds: &Vec<Vec<u8>>,
    amount: u64,
) -> (r: Result<(), TokenError>)
    requires
        old(ledger).wf(),
    ensures
        final(ledger).wf(),
        match mint_supply_error(
            old(ledger)@,
            mint_address@,
            holding_address@,
            authority_seeds.deep_view(),
            amount,
        ) {
            Some(e) => r == Err::<(), TokenError>(e) && final(ledger)@ == old(ledger)@,
            None => r == Ok::<(), TokenError>(()) && (forall|x: Seq<u8>|
                lookup(final(ledger)@, x) == (if x == mint_address@ {
                    Some(
                        AccountDataV::MintAccount(
                            supply_bumped(mint_at(old(ledger)@, mint_address@), amount),
                        ),
                    )
                } else if x == holding_address@ {
                    Some(
                        AccountDataV::HoldingAccount(
                            amount_bumped(holding_at(old(ledger)@, holding_address@), amount),
                        ),
                    )
                } else {
                    lookup(old(ledger)@, x)
                })),
        },
{
    let mint_rec: MintRecord;
    match ledger.get(mint_address) {
        Some(AccountData::MintAccount(m)) => {
            mint_rec = *m;
        },
        _ => {
            return Err(TokenError::MintNotFound);
        },
    }
    if !mint_rec.initialized {
        return Err(TokenError::MintNotFound);
    }
    if !crate::derive::check_authorization(authority_seeds, &mint_rec.mint_authority) {
        return Err(TokenError::UnauthorizedMintAuthority);
    }
    let hold_rec: HoldingRecord;
    match ledger.get(holding_address) {
        Some(AccountData::HoldingAccount(h)) => {
            hold_rec = *h;
        },
        _ => {
            return Err(TokenError::HoldingAccountInvalid);
        },
    }
    if !addr_eq(&hold_rec.mint, mint_address) {
        return Err(TokenError::HoldingAccountInvalid);
    }
    let new_supply = match mint_rec.supply.checked_add(amount) {
        Some(s) => s,
        None => {
            return Err(TokenError::SupplyOverflow);
        },
    };
    let new_amount = match hold_rec.amount.checked_add(amount) {
        Some(s) => s,
        None => {
            return Err(TokenError::SupplyOverflow);
        },
    };
    proof {
        assert(mint_address@ != holding_address@);
    }
    let updated_mint = MintRecord {
        decimals: mint_rec.decimals,
        mint_authority: mint_rec.mint_authority,
        freeze_authority: mint_rec.freeze_authority,
        supply: new_supply,
        initialized: mint_rec.initialized,
    };
    let replaced_mint = ledger.replace(mint_address, AccountData::MintAccount(updated_mint));
    assert(replaced_mint);
    let updated_hold = HoldingRecord {
        mint: hold_rec.mint,
        owner: hold_rec.owner,
        amount: new_amount,
    };
    let replaced_hold = ledger.replace(holding_address, AccountData::HoldingAccount(updated_hold));
    assert(replaced_hold);
    Ok(())
}

/// Whether issuing the initial supply will have to create the holding
/// account.
pub open spec fn creates_holding(l: LedgerView, params: TokenParams, ata: Seq<u8>) -> bool {
    params.initial_supply > 0 && lookup(l, ata) is None
}

/// What occupies the holding address before the operation counts as a
/// balance of zero if the account does not exist yet.
pub open spec fn holding_amount_before(l: LedgerView, ata: Seq<u8>) -> u64 {
    if lookup(l, ata) is None {
        0
    } else {
        holding_at(l, ata).amount
    }
}

/// The rent-exemption deposits the payer must fund: one per account the
/// operation creates.
pub open spec fn required_lamports(
    l: LedgerView,
    accs: CreateTokenMint,
    params: TokenParams,
    ata: Seq<u8>,
) -> int {
    accs.rent.mint_cost + accs.rent.metadata_cost + if creates_holding(l, params, ata) {
        accs.rent.holding_cost as int
    } else {
        0
    }
}

/// Whether what occupies the holding address disqualifies it: anything but
/// a holding account for exactly (mint, owner).
pub open spec fn bad_holding(l: LedgerView, ata: Seq<u8>, mint: Seq<u8>, owner: Seq<u8>) -> bool {
    match lookup(l, ata) {
        Option::None => false,
        Option::Some(AccountDataV::HoldingAccount(h)) => !(h.mint == mint && h.owner == owner),
        Option::Some(_) => true,
    }
}

/// The checks made against the ledger once every handle has matched its
/// derived address, in the order the operation performs them.
pub open spec fn op_error_checked(
    l: LedgerView,
    accs: CreateTokenMint,
    params: TokenParams,
    mint: Seq<u8>,
    meta: Seq<u8>,
    ata: Seq<u8>,
) -> Option<TokenError> {
    if lookup(l, mint) is Some {
        Some(TokenError::MintAlreadyExists)
    } else if params.symbol@.len() > MAX_SYMBOL_LEN {
        Some(TokenError::SymbolTooLong)
    } else if params.uri@.len() > MAX_URI_LEN {
        Some(TokenError::UriTooLong)
    } else if meta == mint || lookup(l, meta) is Some {
        Some(TokenError::MetadataAlreadyExists)
    } else if params.initial_supply > 0 && (ata == mint || ata == meta || bad_holding(
        l,
        ata,
        mint,
        accs.payer.address@,
    )) {
        Some(TokenError::HoldingAccountInvalid)
    } else if params.initial_supply > 0 && holding_amount_before(l, ata) + params.initial_supply
        > u64::MAX {
        Some(TokenError::SupplyOverflow)
    } else if (accs.payer.lamports as int) < required_lamports(l, accs, params, ata) {
        Some(TokenError::InsufficientFunds)
    } else {
        None
    }
}

/// Exactly when, and with which error, the whole operation is refused: the
/// boundary checks in order (signature, derivations, handle matches), then
/// the collaborators' own refusals.  `None` means the operation succeeds.
pub open spec fn op_error(l: LedgerView, accs: CreateTokenMint, params: TokenParams) -> Option<
    TokenError,
> {
    let payer = accs.payer.address@;
    let name = params.name@;
    if !accs.payer.signed {
        Some(TokenError::MissingSignature)
    } else if name.len() > MAX_NAME_LEN {
        Some(TokenError::NameTooLong)
    } else {
        match pda_of(mint_seeds(payer, name), CREATE_TOKEN_PROGRAM_ID@) {
            Option::None => Some(TokenError::DerivationExhausted),
            Option::Some(mint_pda) => {
                if mint_pda.0 != accs.mint_account@ {
                    Some(TokenError::MintAddressMismatch)
                } else {
                    match pda_of(metadata_seeds(mint_pda.0), METADATA_PROGRAM_ID@) {
                        Option::None => Some(TokenError::DerivationExhausted),
                        Option::Some(meta_pda) => {
                            if meta_pda.0 != accs.metadata_account@ {
                                Some(TokenError::MetadataAddressMismatch)
                            } else if accs.token_metadata_program@ != METADATA_PROGRAM_ID@ {
                                Some(TokenError::RegistryProgramMismatch)
                            } else if accs.token_program@ != TOKEN_PROGRAM_ID@
                                || accs.associated_token_program@ != ASSOCIATED_TOKEN_PROGRAM_ID@
                                || accs.system_program@ != SYSTEM_PROGRAM_ID@ {
                                Some(TokenError::ProgramHandleMismatch)
                            } else {
                                match pda_of(
                                    holding_seeds(payer, mint_pda.0),
                                    ASSOCIATED_TOKEN_PROGRAM_ID@,
                                ) {
                                    Option::None => Some(TokenError::DerivationExhausted),
                                    Option::Some(ata_pda) => {
                                        if ata_pda.0 != accs.associated_token_account@ {
                                            Some(TokenError::HoldingAddressMismatch)
                                        } else {
                                            op_error_checked(
                                                l,
                                                accs,
                                                params,
                                                mint_pda.0,
                                                meta_pda.0,
                                                ata_pda.0,
                                            )
                                        }
                                    },
                                }
                            }
                        },
                    }
                }
            },
        }
    }
}

/// Everything a successful operation guarantees about the new ledger and
/// the receipt: the three records pointwise, and nothing else moved.
pub open spec fn op_success(
    l0: LedgerView,
    l1: LedgerView,
    accs: CreateTokenMint,
    params: TokenParams,
    receipt: TokenReceipt,
) -> bool {
    let payer = accs.payer.address@;
    let mint = receipt.mint_address@;
    let meta = receipt.metadata_address@;
    let hold = receipt.holding_address@;
    &&& pda_of(mint_seeds(payer, params.name@), CREATE_TOKEN_PROGRAM_ID@) == Some(
        (mint, receipt.mint_bump),
    )
    &&& mint == accs.mint_account@
    &&& meta == accs.metadata_account@
    &&& hold == accs.associated_token_account@
    &&& receipt.holding_created == creates_holding(l0, params, hold)
    &&& receipt.lamports_spent == required_lamports(l0, accs, params, hold)
    &&& lookup(l1, mint) == Some(
        AccountDataV::MintAccount(created_mint_v(params.decimals, mint, params.initial_supply)),
    )
    &&& lookup(l1, meta) == Some(
        AccountDataV::MetadataAccount(
            created_metadata_v(mint, payer, params.name@, params.symbol@, params.uri@),
        ),
    )
    &&& params.initial_supply > 0 ==> lookup(l1, hold) == Some(
        AccountDataV::HoldingAccount(
            (HoldingRecordV {
                mint,
                owner: payer,
                amount: (holding_amount_before(l0, hold) + params.initial_supply) as u64,
            }),
        ),
    )
    &&& forall|x: Seq<u8>|
        x != mint && x != meta && !(params.initial_supply > 0 && x == hold) ==> lookup(l1, x)
            == lookup(l0, x)
}

/// The whole operation: derive and validate every address, check every
/// collaborator precondition, then create the mint record, register its
/// metadata, and issue the initial supply — all or nothing.
pub fn create_token_mint(
    ledger: &mut Ledger,
    accounts: &CreateTokenMint,
    params: &TokenParams,
) -> (r: Result<TokenReceipt, TokenError>)
    requires
        old(ledger).wf(),
    ensures
        final(ledger).wf(),
        match op_error(old(ledger)@, *accounts, *params) {
            Some(e) => r == Err::<TokenReceipt, TokenError>(e) && final(ledger)@ == old(ledger)@,
            None => r matches Ok(receipt) && op_success(
                old(ledger)@,
                final(ledger)@,
                *accounts,
                *params,
                receipt,
            ),
        },
{
    // Boundary validation: the payer must have co-signed, and every handle
    // must match its independently derived or well-known address.
    if !accounts.payer.signed {
        return Err(TokenError::MissingSignature);
    }
    let derived_mint = match derive_mint_address(&accounts.payer.address, &params.name) {
        Ok(d) => d,
        Err(e) => {
            return Err(e);
        },
    };
    let mint_address = derived_mint.address;
    if !addr_eq(&mint_address, &accounts.mint_account) {
        return Err(TokenError::MintAddressMismatch);
    }
    let derived_meta = match derive_metadata_address(&mint_address) {
        Ok(d) => d,
        Err(e) => {
            return Err(e);
        },
    };
    let metadata_address = derived_meta.address;
    if !addr_eq(&metadata_address, &accounts.metadata_account) {
        return Err(TokenError::MetadataAddressMismatch);
    }
    let registry = Address { bytes: METADATA_PROGRAM_ID };
    if !addr_eq(&accounts.token_metadata_program, &registry) {
        return Err(TokenError::RegistryProgramMismatch);
    }
    let token_program = Address { bytes: TOKEN_PROGRAM_ID };
    let ata_program = Address { bytes: ASSOCIATED_TOKEN_PROGRAM_ID };
    let system_program = Address { bytes: SYSTEM_PROGRAM_ID };
    if !addr_eq(&accounts.token_program, &token_program) || !addr_eq(
        &accounts.associated_token_program,
        &ata_program,
    ) || !addr_eq(&accounts.system_program, &system_program) {
        return Err(TokenError::ProgramHandleMismatch);
    }
    let derived_ata = match derive_holding_address(&accounts.payer.address, &mint_address) {
        Ok(d) => d,
        Err(e) => {
            return Err(e);
        },
    };
    let holding_address = derived_ata.address;
    if !addr_eq(&holding_address, &accounts.associated_token_account) {
        return Err(TokenError::HoldingAddressMismatch);
    }
    // Collaborator preconditions, all checked before any write so that a
    // late refusal leaves no partial state.
    if ledger.contains(&mint_address) {
        return Err(TokenError::MintAlreadyExists);
    }
    if params.symbol.len() > MAX_SYMBOL_LEN {
        return Err(TokenError::SymbolTooLong);
    }
    if params.uri.len() > MAX_URI_LEN {
        return Err(TokenError::UriTooLong);
    }
    if addr_eq(&metadata_address, &mint_address) || ledger.contains(&metadata_address) {
        return Err(TokenError::MetadataAlreadyExists);
    }
    let mut holding_before: u64 = 0;
    let mut create_holding = false;
    if params.initial_supply > 0 {
        if addr_eq(&holding_address, &mint_address) || addr_eq(
            &holding_address,
            &metadata_address,
        ) {
            return Err(TokenError::HoldingAccountInvalid);
        }
        match ledger.get(&holding_address) {
            None => {
                create_holding = true;
            },
            Some(AccountData::HoldingAccount(h)) => {
                if !(addr_eq(&h.mint, &mint_address) && addr_eq(
                    &h.owner,
                    &accounts.payer.address,
                )) {
                    return Err(TokenError::HoldingAccountInvalid);
                }
                holding_before = h.amount;
            },
            Some(_) => {
                return Err(TokenError::HoldingAccountInvalid);
            },
        }
        if holding_before.checked_add(params.initial_supply).is_none() {
            return Err(TokenError::SupplyOverflow);
        }
    }
    // The payer funds one rent-exemption deposit per account created.
    let mut remaining = accounts.payer.lamports;
    if remaining < accounts.rent.mint_cost {
        return Err(TokenError::InsufficientFunds);
    }
    remaining = remaining - accounts.rent.mint_cost;
    if remaining < accounts.rent.metadata_cost {
        return Err(TokenError::InsufficientFunds);
    }
    remaining = remaining - accounts.rent.metadata_cost;
    if create_holding {
        if remaining < accounts.rent.holding_cost {
            return Err(TokenError::InsufficientFunds);
        }
        remaining = remaining - accounts.rent.holding_cost;
    }
    let lamports_spent = accounts.payer.lamports - remaining;
    // The authorization proof: the exact seed tuple, disambiguator included,
    // threaded through unchanged to both delegated calls.
    let authority_seeds = build_signer_seeds(
        &accounts.payer.address,
        &params.name,
        derived_mint.bump,
    );
    let ghost l0 = ledger@;
    proof {
        assert(op_error(l0, *accounts, *params) is None);
    }
    // Commit phase.  Every refusal was ruled out above, so each step must
    // report success; a failure here would contradict its contract.
    let step_mint = create_mint_account(ledger, &mint_address, params.decimals);
    match step_mint {
        Ok(_) => {},
        Err(e) => {
            proof {
                assert(false);
            }
            return Err(e);
        },
    }
    let ghost l1 = ledger@;
    proof {
        lemma_lookup_push(
            l0,
            mint_address@,
            AccountDataV::MintAccount(created_mint_v(params.decimals, mint_address@, 0)),
            mint_address@,
        );
        lemma_lookup_push(
            l0,
            mint_address@,
            AccountDataV::MintAccount(created_mint_v(params.decimals, mint_address@, 0)),
            metadata_address@,
        );
    }
    let step_meta = register_metadata(
        ledger,
        &metadata_address,
        &mint_address,
        &accounts.payer.address,
        &authority_seeds,
        &params.name,
        &params.symbol,
        &params.uri,
    );
    match step_meta {
        Ok(_) => {},
        Err(e) => {
            proof {
                assert(false);
            }
            return Err(e);
        },
    }
    let ghost l2 = ledger@;
    let ghost meta_record = AccountDataV::MetadataAccount(
        created_metadata_v(
            mint_address@,
            accounts.payer.address@,
            params.name@,
            params.symbol@,
            params.uri@,
        ),
    );
    proof {
        assert(l2 == l1.push((metadata_address@, meta_record)));
        lemma_lookup_push(l1, metadata_address@, meta_record, mint_address@);
        lemma_lookup_push(l1, metadata_address@, meta_record, metadata_address@);
    }
    let receipt = TokenReceipt {
        mint_address,
        mint_bump: derived_mint.bump,
        metadata_address,
        holding_address,
        lamports_spent,
        holding_created: create_holding,
    };
    if params.initial_supply == 0 {
        proof {
            assert forall|x: Seq<u8>|
                x != mint_address@ && x != metadata_address@ implies lookup(l2, x) == lookup(
                l0,
                x,
            ) by {
                lemma_lookup_push(
                    l0,
                    mint_address@,
                    AccountDataV::MintAccount(created_mint_v(params.decimals, mint_address@, 0)),
                    x,
                );
                lemma_lookup_push(l1, metadata_address@, meta_record, x);
            }
            assert(op_success(l0, l2, *accounts, *params, receipt));
        }
        return Ok(receipt);
    }
    proof {
        lemma_lookup_push(
            l0,
            mint_address@,
            AccountDataV::MintAccount(created_mint_v(params.decimals, mint_address@, 0)),
            holding_address@,
        );
        lemma_lookup_push(l1, metadata_address@, meta_record, holding_address@);
        assert(lookup(l2, holding_address@) == lookup(l0, holding_address@));
    }
    let step_hold = ensure_holding_account(
        ledger,
        &holding_address,
        &mint_address,
        &accounts.payer.address,
    );
    match step_hold {
        Ok(_) => {},
        Err(e) => {
            proof {
                assert(false);
            }
            return Err(e);
        },
    }
    let ghost l3 = ledger@;
    proof {
        if create_holding {
            let hrec = AccountDataV::HoldingAccount(
                fresh_holding_v(mint_address@, accounts.payer.address@),
            );
            lemma_lookup_push(l2, holding_address@, hrec, mint_address@);
            lemma_lookup_push(l2, holding_address@, hrec, metadata_address@);
            lemma_lookup_push(l2, holding_address@, hrec, holding_address@);
        }
        assert(is_initialized_mint_at(l3, mint_address@));
        assert(is_holding_at(l3, holding_address@));
        assert(holding_at(l3, holding_address@).amount == holding_before);
        assert(mint_at(l3, mint_address@).supply == 0);
    }
    let step_supply = mint_initial_supply(
        ledger,
        &mint_address,
        &holding_address,
        &authority_seeds,
        params.initial_supply,
    );
    match step_supply {
        Ok(_) => {},
        Err(e) => {
            proof {
                assert(false);
            }
            return Err(e);
        },
    }
    proof {
        let l4 = ledger@;
        assert(lookup(l4, mint_address@) == Some(
            AccountDataV::MintAccount(
                created_mint_v(params.decimals, mint_address@, params.initial_supply),
            ),
        ));
        assert(lookup(l4, metadata_address@) == lookup(l2, metadata_address@)) by {
            if create_holding {
                lemma_lookup_push(
                    l2,
                    holding_address@,
                    AccountDataV::HoldingAccount(
                        fresh_holding_v(mint_address@, accounts.payer.address@),
                    ),
                    metadata_address@,
                );
            }
        }
        assert forall|x: Seq<u8>|
            x != mint_address@ && x != metadata_address@ && x != holding_address@ implies lookup(
            l4,
            x,
        ) == lookup(l0, x) by {
            lemma_lookup_push(
                l0,
                mint_address@,
                AccountDataV::MintAccount(created_mint_v(params.decimals, mint_address@, 0)),
                x,
            );
            lemma_lookup_push(l1, metadata_address@, meta_record, x);
            if create_holding {
                lemma_lookup_push(
                    l2,
                    holding_address@,
                    AccountDataV::HoldingAccount(
                        fresh_holding_v(mint_address@, accounts.payer.address@),
                    ),
                    x,
                );
            }
        }
        assert(op_success(l0, ledger@, *accounts, *params, receipt));
    }
    Ok(receipt)
}

} // verus!
