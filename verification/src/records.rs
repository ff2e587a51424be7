//! The records this operation creates, their mathematical views, the
//! caller-supplied inputs, and the operation's error taxonomy.

use vstd::prelude::*;

use crate::addr::Address;

verus! {

/// Longest name the derivation accepts as a seed; it coincides with the
/// registry's own limit on metadata names.
pub const MAX_NAME_LEN: usize = 32;

/// The registry's limit on metadata symbols, in bytes.
pub const MAX_SYMBOL_LEN: usize = 10;

/// The registry's limit on metadata URIs, in bytes.
pub const MAX_URI_LEN: usize = 200;

/// A mint record: one token class, owned by the token-balance program.
#[derive(Clone, Copy, Debug)]
pub struct MintRecord {
    pub decimals: u8,
    pub mint_authority: Address,
    pub freeze_authority: Address,
    pub supply: u64,
    pub initialized: bool,
}

/// Mathematical view of a [`MintRecord`].
pub struct MintRecordV {
    pub decimals: u8,
    pub mint_authority: Seq<u8>,
    pub freeze_authority: Seq<u8>,
    pub supply: u64,
    pub initialized: bool,
}

impl View for MintRecord {
    type V = MintRecordV;

    open spec fn view(&self) -> MintRecordV {
        MintRecordV {
            decimals: self.decimals,
            mint_authority: self.mint_authority@,
            freeze_authority: self.freeze_authority@,
            supply: self.supply,
            initialized: self.initialized,
        }
    }
}

/// A metadata record: descriptive fields bound to one mint, owned by the
/// metadata-registry program.
#[derive(Clone, Debug)]
pub struct MetadataRecord {
    pub mint: Address,
    pub update_authority: Address,
    pub name: Vec<u8>,
    pub symbol: Vec<u8>,
    pub uri: Vec<u8>,
    pub seller_fee_basis_points: u16,
    pub primary_sale_happened: bool,
    pub is_mutable: bool,
}

/// Mathematical view of a [`MetadataRecord`].
pub struct MetadataRecordV {
    pub mint: Seq<u8>,
    pub update_authority: Seq<u8>,
    pub name: Seq<u8>,
    pub symbol: Seq<u8>,
    pub uri: Seq<u8>,
    pub seller_fee_basis_points: u16,
    pub primary_sale_happened: bool,
    pub is_mutable: bool,
}

impl View for MetadataRecord {
    type V = MetadataRecordV;

    open spec fn view(&self) -> MetadataRecordV {
        MetadataRecordV {
            mint: self.mint@,
            update_authority: self.update_authority@,
            name: self.name@,
            symbol: self.symbol@,
            uri: self.uri@,
            seller_fee_basis_points: self.seller_fee_basis_points,
            primary_sale_happened: self.primary_sale_happened,
            is_mutable: self.is_mutable,
        }
    }
}

/// An associated holding account: the balance record for one (mint, owner)
/// pair, owned by the token-balance program.
#[derive(Clone, Copy, Debug)]
pub struct HoldingRecord {
    pub mint: Address,
    pub owner: Address,
    pub amount: u64,
}

/// Mathematical view of a [`HoldingRecord`].
pub struct HoldingRecordV {
    pub mint: Seq<u8>,
    pub owner: Seq<u8>,
    pub amount: u64,
}

impl View for HoldingRecord {
    type V = HoldingRecordV;

    open spec fn view(&self) -> HoldingRecordV {
        HoldingRecordV { mint: self.mint@, owner: self.owner@, amount: self.amount }
    }
}

/// The contents of one account on the ledger.
#[derive(Clone, Debug)]
pub enum AccountData {
    MintAccount(MintRecord),
    MetadataAccount(MetadataRecord),
    HoldingAccount(HoldingRecord),
}

/// Mathematical view of [`AccountData`].
pub enum AccountDataV {
    MintAccount(MintRecordV),
    MetadataAccount(MetadataRecordV),
    HoldingAccount(HoldingRecordV),
}

impl View for AccountData {
    type V = AccountDataV;

    open spec fn view(&self) -> AccountDataV {
        match self {
            AccountData::MintAccount(m) => AccountDataV::MintAccount(m@),
            AccountData::MetadataAccount(m) => AccountDataV::MetadataAccount(m@),
            AccountData::HoldingAccount(h) => AccountDataV::HoldingAccount(h@),
        }
    }
}

/// The caller-chosen parameters of the token class to create.
pub struct TokenParams {
    pub decimals: u8,
    pub name: Vec<u8>,
    pub symbol: Vec<u8>,
    pub uri: Vec<u8>,
    pub initial_supply: u64,
}

/// The transaction's fee-paying, authorizing identity.
#[derive(Clone, Copy, Debug)]
pub struct Payer {
    pub address: Address,
    pub lamports: u64,
    pub signed: bool,
}

/// Rent-exemption deposits, one per account kind this operation may create,
/// as the rent-parameters handle reports them.
#[derive(Clone, Copy, Debug)]
pub struct RentParams {
    pub mint_cost: u64,
    pub metadata_cost: u64,
    pub holding_cost: u64,
}

/// The fixed, ordered set of resource handles the caller supplies to the
/// operation.
#[derive(Clone, Copy, Debug)]
pub struct CreateTokenMint {
    pub payer: Payer,
    pub metadata_account: Address,
    pub mint_account: Address,
    pub associated_token_account: Address,
    pub token_metadata_program: Address,
    pub token_program: Address,
    pub associated_token_program: Address,
    pub system_program: Address,
    pub rent: RentParams,
}

/// What a successful operation reports back.
#[derive(Clone, Copy, Debug)]
pub struct TokenReceipt {
    pub mint_address: Address,
    pub mint_bump: u8,
    pub metadata_address: Address,
    pub holding_address: Address,
    pub lamports_spent: u64,
    pub holding_created: bool,
}

/// Every way the operation can fail; the first failure aborts the whole
/// operation with no partial state.
#[derive(Clone, Copy, Debug, PartialEq, Eq, Structural)]
pub enum TokenError {
    /// The payer did not co-sign the transaction.
    MissingSignature,
    /// The token name exceeds the longest seed the derivation accepts.
    NameTooLong,
    /// The token symbol exceeds the registry's limit.
    SymbolTooLong,
    /// The metadata URI exceeds the registry's limit.
    UriTooLong,
    /// The disambiguator search space was exhausted.
    DerivationExhausted,
    /// The supplied mint handle does not match the derived mint address.
    MintAddressMismatch,
    /// The supplied metadata handle does not match the derived address.
    MetadataAddressMismatch,
    /// The supplied holding-account handle does not match the derived address.
    HoldingAddressMismatch,
    /// The supplied registry handle is not the well-known registry address.
    RegistryProgramMismatch,
    /// A supplied program handle is not the expected well-known address.
    ProgramHandleMismatch,
    /// An account already occupies the derived mint address.
    MintAlreadyExists,
    /// An account already occupies the derived metadata address.
    MetadataAlreadyExists,
    /// The account at the holding address is not a holding account for this
    /// mint and owner.
    HoldingAccountInvalid,
    /// The referenced mint record does not exist or is not initialized.
    MintNotFound,
    /// The presented derivation proof does not authorize the mint authority.
    UnauthorizedMintAuthority,
    /// Crediting the requested amount would overflow a supply counter.
    SupplyOverflow,
    /// The payer cannot fund the rent-exemption deposits.
    InsufficientFunds,
}

} // verus!
