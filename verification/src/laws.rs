//! The properties the operation guarantees, stated and proved once and for
//! all — over every ledger, every account set and every parameter choice.

use vstd::prelude::*;

use crate::addr::CREATE_TOKEN_PROGRAM_ID;
use crate::derive::{mint_seeds, pda_of};
use crate::ledger::{holding_at, lookup, metadata_at, mint_at, LedgerView};
use crate::ops::{holding_amount_before, op_error, op_success};
use crate::records::{CreateTokenMint, TokenError, TokenParams, TokenReceipt, MAX_URI_LEN};

verus! {

/// Determinism: for a fixed (payer, name) pair the derived mint address and
/// its disambiguator are unique — any two successful derivations agree, so
/// an off-chain verifier re-deriving the address always matches.
pub proof fn law_mint_derivation_deterministic(
    payer: Seq<u8>,
    name: Seq<u8>,
    d1: (Seq<u8>, u8),
    d2: (Seq<u8>, u8),
)
    requires
        pda_of(mint_seeds(payer, name), CREATE_TOKEN_PROGRAM_ID@) == Some(d1),
        pda_of(mint_seeds(payer, name), CREATE_TOKEN_PROGRAM_ID@) == Some(d2),
    ensures
        d1 == d2,
{
}

/// Re-submission collides: once a run has succeeded, running the operation
/// again with identical inputs is refused at account allocation with
/// `MintAlreadyExists` — the derived address is already occupied, and
/// creation never overwrites.  (`create_token_mint`'s contract then leaves
/// the first run's state unchanged.)
pub proof fn law_second_run_collides(
    l0: LedgerView,
    l1: LedgerView,
    accs: CreateTokenMint,
    params: TokenParams,
    receipt: TokenReceipt,
)
    requires
        op_error(l0, accs, params) is None,
        op_success(l0, l1, accs, params, receipt),
    ensures
        op_error(l1, accs, params) == Some(TokenError::MintAlreadyExists),
{
}

/// Atomicity of a forced metadata failure: a URI over the registry's limit
/// is always refused, and `create_token_mint`'s contract makes every
/// refusal leave the ledger exactly as it was — no mint record, no
/// metadata record, no balance change.
pub proof fn law_malformed_uri_refused(l: LedgerView, accs: CreateTokenMint, params: TokenParams)
    requires
        params.uri@.len() > MAX_URI_LEN,
    ensures
        op_error(l, accs, params) is Some,
{
}

/// Authority invariant: read back after success, the mint record's minting
/// and freezing authorities both equal the mint's own derived address —
/// never the payer's address and never an uninitialized default.
pub proof fn law_authority_invariant(
    l0: LedgerView,
    l1: LedgerView,
    accs: CreateTokenMint,
    params: TokenParams,
    receipt: TokenReceipt,
)
    requires
        op_success(l0, l1, accs, params, receipt),
    ensures
        mint_at(l1, receipt.mint_address@).mint_authority == receipt.mint_address@,
        mint_at(l1, receipt.mint_address@).freeze_authority == receipt.mint_address@,
        mint_at(l1, receipt.mint_address@).initialized,
{
}

/// Supply conservation: the new mint's supply counter equals exactly the
/// requested initial supply; with supply zero the holding address is left
/// untouched, and with supply K > 0 the holding account's balance rises by
/// exactly K over what the address held before.
pub proof fn law_supply_conservation(
    l0: LedgerView,
    l1: LedgerView,
    accs: CreateTokenMint,
    params: TokenParams,
    receipt: TokenReceipt,
)
    requires
        op_error(l0, accs, params) is None,
        op_success(l0, l1, accs, params, receipt),
    ensures
        mint_at(l1, receipt.mint_address@).supply == params.initial_supply,
        params.initial_supply == 0 && receipt.holding_address@ != receipt.mint_address@
            && receipt.holding_address@ != receipt.metadata_address@ ==> lookup(
            l1,
            receipt.holding_address@,
        ) == lookup(l0, receipt.holding_address@),
        params.initial_supply > 0 ==> holding_at(l1, receipt.holding_address@).amount
            == holding_amount_before(l0, receipt.holding_address@) + params.initial_supply,
{
}

/// Metadata binding: the created metadata record references exactly the
/// created mint, and its update authority is the payer's freely signable
/// address, deliberately not the mint's derived authority.
pub proof fn law_metadata_binding(
    l0: LedgerView,
    l1: LedgerView,
    accs: CreateTokenMint,
    params: TokenParams,
    receipt: TokenReceipt,
)
    requires
        op_success(l0, l1, accs, params, receipt),
    ensures
        metadata_at(l1, receipt.metadata_address@).mint == receipt.mint_address@,
        metadata_at(l1, receipt.metadata_address@).update_authority == accs.payer.address@,
        metadata_at(l1, receipt.metadata_address@).name == params.name@,
        metadata_at(l1, receipt.metadata_address@).symbol == params.symbol@,
        metadata_at(l1, receipt.metadata_address@).uri == params.uri@,
{
}

/// Metadata implies mint: wherever a successful run leaves its metadata
/// record, it also leaves an initialized mint record at the address the
/// metadata references — creation order makes the binding total.
pub proof fn law_metadata_implies_mint(
    l0: LedgerView,
    l1: LedgerView,
    accs: CreateTokenMint,
    params: TokenParams,
    receipt: TokenReceipt,
)
    requires
        op_success(l0, l1, accs, params, receipt),
    ensures
        mint_at(l1, metadata_at(l1, receipt.metadata_address@).mint).initialized,
{
}

} // verus!
