//! Deterministic address derivation.
//!
//! Addresses of the mint, the metadata record and the associated holding
//! account are pure functions of public seed inputs.  The hashing itself is
//! done by the runtime's derivation functions, reached through two trusted
//! wrappers; everything stated about the derived addresses goes through the
//! uninterpreted names [`pda_of`] and [`checked_pda_of`].

use vstd::prelude::*;
use vstd::slice::slice_to_vec;

use crate::addr::{Address, CREATE_TOKEN_PROGRAM_ID, METADATA_PROGRAM_ID, TOKEN_PROGRAM_ID,
    ASSOCIATED_TOKEN_PROGRAM_ID};
use crate::records::{TokenError, MAX_NAME_LEN};

verus! {

/// The derived address and disambiguator that the seed search found for a
/// given seed list and program id, if the search succeeds.
pub uninterp spec fn pda_of(seeds: Seq<Seq<u8>>, program_id: Seq<u8>) -> Option<(Seq<u8>, u8)>;

/// The address that seed reconstruction yields for a given seed list
/// (disambiguator included) and program id, if the seeds are acceptable and
/// the hash falls outside the space of signable keys.
pub uninterp spec fn checked_pda_of(seeds: Seq<Seq<u8>>, program_id: Seq<u8>) -> Option<Seq<u8>>;

/// Relies on `solana_program::pubkey::Pubkey::try_find_program_address`: the
/// result depends only on the seeds and the program id; when it yields an
/// address and a bump, re-deriving with that bump appended as a final
/// one-byte seed yields the same address (its own documented verification
/// pattern), and the search yields nothing when a seed is over-long, the
/// seed list too large, or every bump exhausted.
#[verifier::external_body]
fn find_pda(seeds: &Vec<Vec<u8>>, program_id: &[u8; 32]) -> (r: Option<(Address, u8)>)
    ensures
        (r is Some) == (pda_of(seeds.deep_view(), program_id@) is Some),
        r matches Some(p) ==> pda_of(seeds.deep_view(), program_id@) == Some((p.0@, p.1)),
        r matches Some(p) ==> checked_pda_of(
            seeds.deep_view().push(seq![p.1]),
            program_id@,
        ) == Some(p.0@),
{
    let refs: Vec<&[u8]> = seeds.iter().map(|s| s.as_slice()).collect();
    let pid = solana_program::pubkey::Pubkey::from(*program_id);
    match solana_program::pubkey::Pubkey::try_find_program_address(&refs, &pid) {
        Some((pk, bump)) => Some((Address { bytes: pk.to_bytes() }, bump)),
        None => None,
    }
}

/// Relies on `solana_program::pubkey::Pubkey::create_program_address`: the
/// result depends only on the seeds and the program id; its rejections
/// (over-long seed, too many seeds, or a hash that is a signable key) are
/// collapsed to `None`.
#[verifier::external_body]
fn check_pda(seeds: &Vec<Vec<u8>>, program_id: &[u8; 32]) -> (r: Option<Address>)
    ensures
        (r is Some) == (checked_pda_of(seeds.deep_view(), program_id@) is Some),
        r matches Some(a) ==> checked_pda_of(seeds.deep_view(), program_id@) == Some(a@),
{
    let refs: Vec<&[u8]> = seeds.iter().map(|s| s.as_slice()).collect();
    let pid = solana_program::pubkey::Pubkey::from(*program_id);
    match solana_program::pubkey::Pubkey::create_program_address(&refs, &pid) {
        Ok(pk) => Some(Address { bytes: pk.to_bytes() }),
        Err(_) => None,
    }
}

/// The fixed domain tag under which mint addresses are derived: the bytes
/// of `"mint"`.
pub const MINT_SEED_TAG: [u8; 4] = [109, 105, 110, 116];

/// The fixed domain tag under which metadata addresses are derived: the
/// bytes of `"metadata"`.
pub const METADATA_SEED_TAG: [u8; 8] = [109, 101, 116, 97, 100, 97, 116, 97];

/// The seed list from which a mint address is derived:
/// (domain tag, payer address, token name bytes).
pub open spec fn mint_seeds(payer: Seq<u8>, name: Seq<u8>) -> Seq<Seq<u8>> {
    seq![MINT_SEED_TAG@, payer, name]
}

/// The seed list from which a metadata address is derived:
/// (domain tag, registry program address, mint address).
pub open spec fn metadata_seeds(mint: Seq<u8>) -> Seq<Seq<u8>> {
    seq![METADATA_SEED_TAG@, METADATA_PROGRAM_ID@, mint]
}

/// The seed list from which an associated holding account's address is
/// derived: (owner address, token-balance program address, mint address).
pub open spec fn holding_seeds(owner: Seq<u8>, mint: Seq<u8>) -> Seq<Seq<u8>> {
    seq![owner, TOKEN_PROGRAM_ID@, mint]
}

/// The authorization proof for the mint authority: the mint's seed list with
/// the recorded disambiguator appended as a final one-byte seed.
pub open spec fn signer_seeds(payer: Seq<u8>, name: Seq<u8>, bump: u8) -> Seq<Seq<u8>> {
    mint_seeds(payer, name).push(seq![bump])
}

/// A derived address together with the disambiguator found for it.
#[derive(Clone, Copy, Debug)]
pub struct DerivedAddress {
    pub address: Address,
    pub bump: u8,
}

fn mint_seed_vec(payer: &Address, name: &Vec<u8>) -> (r: Vec<Vec<u8>>)
    ensures
        r.deep_view() == mint_seeds(payer@, name@),
{
    let mut r: Vec<Vec<u8>> = Vec::new();
    r.push(slice_to_vec(MINT_SEED_TAG.as_slice()));
    r.push(slice_to_vec(payer.bytes.as_slice()));
    r.push(slice_to_vec(name.as_slice()));
    proof {
        assert(r.deep_view() =~~= mint_seeds(payer@, name@));
    }
    r
}

fn metadata_seed_vec(mint: &Address) -> (r: Vec<Vec<u8>>)
    ensures
        r.deep_view() == metadata_seeds(mint@),
{
    let mut r: Vec<Vec<u8>> = Vec::new();
    r.push(slice_to_vec(METADATA_SEED_TAG.as_slice()));
    r.push(slice_to_vec(METADATA_PROGRAM_ID.as_slice()));
    r.push(slice_to_vec(mint.bytes.as_slice()));
    proof {
        assert(r.deep_view() =~~= metadata_seeds(mint@));
    }
    r
}

fn holding_seed_vec(owner: &Address, mint: &Address) -> (r: Vec<Vec<u8>>)
    ensures
        r.deep_view() == holding_seeds(owner@, mint@),
{
    let mut r: Vec<Vec<u8>> = Vec::new();
    r.push(slice_to_vec(owner.bytes.as_slice()));
    r.push(slice_to_vec(TOKEN_PROGRAM_ID.as_slice()));
    r.push(slice_to_vec(mint.bytes.as_slice()));
    proof {
        assert(r.deep_view() =~~= holding_seeds(owner@, mint@));
    }
    r
}

/// The authorization proof as a seed list, ready to present to a delegated
/// call: (domain tag, payer, name, disambiguator).
pub fn build_signer_seeds(payer: &Address, name: &Vec<u8>, bump: u8) -> (r: Vec<Vec<u8>>)
    ensures
        r.deep_view() == signer_seeds(payer@, name@, bump),
{
    let mut r = mint_seed_vec(payer, name);
    let mut tail: Vec<u8> = Vec::new();
    tail.push(bump);
    r.push(tail);
    proof {
        assert(tail@ =~= seq![bump]);
        assert(r.deep_view() =~~= signer_seeds(payer@, name@, bump));
    }
    r
}

/// Derives the mint address for (payer, name).
///
/// The name must fit in one seed; the search space can, in principle, be
/// exhausted, which is a defined failure.
pub fn derive_mint_address(payer: &Address, name: &Vec<u8>) -> (r: Result<
    DerivedAddress,
    TokenError,
>)
    ensures
        name@.len() > MAX_NAME_LEN ==> r == Err::<DerivedAddress, TokenError>(
            TokenError::NameTooLong,
        ),
        name@.len() <= MAX_NAME_LEN ==> ((r is Ok) == (pda_of(
            mint_seeds(payer@, name@),
            CREATE_TOKEN_PROGRAM_ID@,
        ) is Some)),
        name@.len() <= MAX_NAME_LEN && r is Err ==> r == Err::<DerivedAddress, TokenError>(
            TokenError::DerivationExhausted,
        ),
        r matches Ok(d) ==> pda_of(mint_seeds(payer@, name@), CREATE_TOKEN_PROGRAM_ID@) == Some(
            (d.address@, d.bump),
        ),
        r matches Ok(d) ==> checked_pda_of(
            signer_seeds(payer@, name@, d.bump),
            CREATE_TOKEN_PROGRAM_ID@,
        ) == Some(d.address@),
{
    if name.len() > MAX_NAME_LEN {
        return Err(TokenError::NameTooLong);
    }
    let seeds = mint_seed_vec(payer, name);
    match find_pda(&seeds, &CREATE_TOKEN_PROGRAM_ID) {
        Some(p) => Ok(DerivedAddress { address: p.0, bump: p.1 }),
        None => Err(TokenError::DerivationExhausted),
    }
}

/// Derives the metadata-record address for a mint.
pub fn derive_metadata_address(mint: &Address) -> (r: Result<DerivedAddress, TokenError>)
    ensures
        (r is Ok) == (pda_of(metadata_seeds(mint@), METADATA_PROGRAM_ID@) is Some),
        r is Err ==> r == Err::<DerivedAddress, TokenError>(TokenError::DerivationExhausted),
        r matches Ok(d) ==> pda_of(metadata_seeds(mint@), METADATA_PROGRAM_ID@) == Some(
            (d.address@, d.bump),
        ),
{
    let seeds = metadata_seed_vec(mint);
    match find_pda(&seeds, &METADATA_PROGRAM_ID) {
        Some(p) => Ok(DerivedAddress { address: p.0, bump: p.1 }),
        None => Err(TokenError::DerivationExhausted),
    }
}

/// Derives the associated holding account's address for (owner, mint).
pub fn derive_holding_address(owner: &Address, mint: &Address) -> (r: Result<
    DerivedAddress,
    TokenError,
>)
    ensures
        (r is Ok) == (pda_of(holding_seeds(owner@, mint@), ASSOCIATED_TOKEN_PROGRAM_ID@) is Some),
        r is Err ==> r == Err::<DerivedAddress, TokenError>(TokenError::DerivationExhausted),
        r matches Ok(d) ==> pda_of(holding_seeds(owner@, mint@), ASSOCIATED_TOKEN_PROGRAM_ID@)
            == Some((d.address@, d.bump)),
{
    let seeds = holding_seed_vec(owner, mint);
    match find_pda(&seeds, &ASSOCIATED_TOKEN_PROGRAM_ID) {
        Some(p) => Ok(DerivedAddress { address: p.0, bump: p.1 }),
        None => Err(TokenError::DerivationExhausted),
    }
}

/// The three derived addresses a transaction for (payer, name) references.
#[derive(Clone, Copy, Debug)]
pub struct TokenAddresses {
    pub mint: DerivedAddress,
    pub metadata: DerivedAddress,
    pub holding: DerivedAddress,
}

/// Derives, in order, the mint address for (payer, name), the metadata
/// address for that mint, and the holding-account address for (payer,
/// mint), as any off-chain verifier re-computes them.
pub fn derive_token_addresses(payer: &Address, name: &Vec<u8>) -> (r: Result<
    TokenAddresses,
    TokenError,
>)
    ensures
        name@.len() > MAX_NAME_LEN ==> r == Err::<TokenAddresses, TokenError>(
            TokenError::NameTooLong,
        ),
        r is Err ==> r == Err::<TokenAddresses, TokenError>(TokenError::NameTooLong) || r == Err::<
            TokenAddresses,
            TokenError,
        >(TokenError::DerivationExhausted),
        name@.len() <= MAX_NAME_LEN ==> ((r is Err) <==> (pda_of(
            mint_seeds(payer@, name@),
            CREATE_TOKEN_PROGRAM_ID@,
        ) is None || (pda_of(mint_seeds(payer@, name@), CREATE_TOKEN_PROGRAM_ID@) matches Some(m)
            && (pda_of(metadata_seeds(m.0), METADATA_PROGRAM_ID@) is None || pda_of(
            holding_seeds(payer@, m.0),
            ASSOCIATED_TOKEN_PROGRAM_ID@,
        ) is None)))),
        r matches Ok(t) ==> pda_of(mint_seeds(payer@, name@), CREATE_TOKEN_PROGRAM_ID@) == Some(
            (t.mint.address@, t.mint.bump),
        ) && pda_of(metadata_seeds(t.mint.address@), METADATA_PROGRAM_ID@) == Some(
            (t.metadata.address@, t.metadata.bump),
        ) && pda_of(holding_seeds(payer@, t.mint.address@), ASSOCIATED_TOKEN_PROGRAM_ID@) == Some(
            (t.holding.address@, t.holding.bump),
        ) && checked_pda_of(signer_seeds(payer@, name@, t.mint.bump), CREATE_TOKEN_PROGRAM_ID@)
            == Some(t.mint.address@),
{
    let mint = derive_mint_address(payer, name)?;
    let metadata = derive_metadata_address(&mint.address)?;
    let holding = derive_holding_address(payer, &mint.address)?;
    Ok(TokenAddresses { mint, metadata, holding })
}

/// Checks an authorization proof the way the runtime does on a delegated
/// call: the seed list must reconstruct exactly the claimed authority under
/// this program's id.
pub fn check_authorization(seeds: &Vec<Vec<u8>>, authority: &Address) -> (r: bool)
    ensures
        r <==> checked_pda_of(seeds.deep_view(), CREATE_TOKEN_PROGRAM_ID@) == Some(authority@),
{
    match check_pda(seeds, &CREATE_TOKEN_PROGRAM_ID) {
        Some(a) => crate::addr::addr_eq(&a, authority),
        None => false,
    }
}

} // verus!
