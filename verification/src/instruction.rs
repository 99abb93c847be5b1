//! The instruction that creates the token: its parameters, its accounts and
//! the request it sends to the metadata registry.

use crate::address::mint_signer_seeds;
use crate::address::seeds_view;
use crate::address::signer_seeds;
use crate::address::Address;
use crate::metadata::plain_token_data;
use crate::metadata::CollectionDetails;
use crate::metadata::TokenData;
use crate::metadata::TokenDataView;
use vstd::prelude::*;

verus! {

/// What the caller chooses for the token.
#[derive(Clone, Debug, PartialEq, Eq)]
pub struct InitTokenParams {
    pub name: String,
    pub symbol: String,
    pub uri: String,
    pub decimals: u8,
}

/// What an `InitTokenParams` holds, as plain values.
pub struct InitTokenParamsView {
    pub name: Seq<char>,
    pub symbol: Seq<char>,
    pub uri: Seq<char>,
    pub decimals: u8,
}

impl View for InitTokenParams {
    type V = InitTokenParamsView;

    open spec fn view(&self) -> InitTokenParamsView {
        InitTokenParamsView {
            name: self.name@,
            symbol: self.symbol@,
            uri: self.uri@,
            decimals: self.decimals,
        }
    }
}

/// The accounts of the instruction, each by its address, in their fixed
/// order.
#[derive(Clone, Copy, Debug, PartialEq, Eq)]
pub struct InitToken {
    /// The metadata record to be created; it belongs to the registry.
    pub metadata: Address,
    /// The mint to be created, at the address derived for the program.
    pub mint: Address,
    /// The signer who funds both new accounts.
    pub payer: Address,
    /// The rent parameters of the ledger.
    pub rent: Address,
    /// The service that creates accounts.
    pub system_program: Address,
    /// The token ledger.
    pub token_program: Address,
    /// The metadata registry.
    pub token_metadata_program: Address,
}

/// The bumps found while the accounts were prepared.
#[derive(Clone, Copy, Debug, PartialEq, Eq)]
pub struct InitTokenBumps {
    pub mint: u8,
}

/// What the instruction handler is given besides its parameters.
#[derive(Clone, Copy, Debug, PartialEq, Eq)]
pub struct Context {
    /// The identity of the program that runs the instruction.
    pub program_id: Address,
    pub accounts: InitToken,
    pub bumps: InitTokenBumps,
}

/// The accounts that the registry's creation of a metadata record takes.
#[derive(Clone, Copy, Debug, PartialEq, Eq)]
pub struct CreateMetadataAccounts {
    pub metadata: Address,
    pub mint: Address,
    pub mint_authority: Address,
    pub payer: Address,
    pub update_authority: Address,
    pub system_program: Address,
    pub rent: Address,
}

/// A request to the metadata registry to create the record of a mint, signed
/// on behalf of the mint by the seeds it carries.
#[derive(Clone, Debug, PartialEq, Eq)]
pub struct CreateMetadataRequest {
    /// The registry that is invoked.
    pub program: Address,
    pub accounts: CreateMetadataAccounts,
    /// The seeds and bump that derive the signing address.
    pub signer_seeds: Vec<Vec<u8>>,
    pub data: TokenData,
    pub is_mutable: bool,
    pub update_authority_is_signer: bool,
    pub collection_details: Option<CollectionDetails>,
}

/// What a `CreateMetadataRequest` holds, as plain values.
pub struct CreateMetadataRequestView {
    pub program: Address,
    pub accounts: CreateMetadataAccounts,
    pub signer_seeds: Seq<Seq<u8>>,
    pub data: TokenDataView,
    pub is_mutable: bool,
    pub update_authority_is_signer: bool,
    pub collection_details: Option<CollectionDetails>,
}

impl View for CreateMetadataRequest {
    type V = CreateMetadataRequestView;

    open spec fn view(&self) -> CreateMetadataRequestView {
        CreateMetadataRequestView {
            program: self.program,
            accounts: self.accounts,
            signer_seeds: seeds_view(self.signer_seeds@),
            data: self.data@,
            is_mutable: self.is_mutable,
            update_authority_is_signer: self.update_authority_is_signer,
            collection_details: self.collection_details,
        }
    }
}

/// The accounts handed to the registry: the mint is its own mint authority
/// and the update authority of its record.
pub open spec fn metadata_accounts(accounts: InitToken) -> CreateMetadataAccounts {
    CreateMetadataAccounts {
        metadata: accounts.metadata,
        mint: accounts.mint,
        mint_authority: accounts.mint,
        payer: accounts.payer,
        update_authority: accounts.mint,
        system_program: accounts.system_program,
        rent: accounts.rent,
    }
}

/// The request that the instruction sends: to the registry among the
/// accounts, signed with the mint seed and the bump of the context, for an
/// immutable record of a plain token whose update authority signs.
pub open spec fn metadata_request(ctx: Context, params: InitTokenParamsView)
    -> CreateMetadataRequestView {
    CreateMetadataRequestView {
        program: ctx.accounts.token_metadata_program,
        accounts: metadata_accounts(ctx.accounts),
        signer_seeds: signer_seeds(ctx.bumps.mint),
        data: plain_token_data(params.name, params.symbol, params.uri),
        is_mutable: false,
        update_authority_is_signer: true,
        collection_details: None,
    }
}

/// Handles the instruction once its accounts are prepared: builds the request
/// to the metadata registry. The decimals took effect when the mint was
/// prepared and are not part of the request.
pub fn init_token(ctx: &Context, params: InitTokenParams) -> (request: CreateMetadataRequest)
    ensures
        request@ == metadata_request(*ctx, params@),
{
    let signer = mint_signer_seeds(ctx.bumps.mint);
    let token_data = TokenData::plain(params.name, params.symbol, params.uri);
    CreateMetadataRequest {
        program: ctx.accounts.token_metadata_program,
        accounts: CreateMetadataAccounts {
            metadata: ctx.accounts.metadata,
            mint: ctx.accounts.mint,
            mint_authority: ctx.accounts.mint,
            payer: ctx.accounts.payer,
            update_authority: ctx.accounts.mint,
            system_program: ctx.accounts.system_program,
            rent: ctx.accounts.rent,
        },
        signer_seeds: signer,
        data: token_data,
        is_mutable: false,
        update_authority_is_signer: true,
        collection_details: None,
    }
}

} // verus!
