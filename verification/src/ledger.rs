//! The part of the ledger that belongs to one deployment of the program, and
//! the whole instruction as one atomic step on it.
//!
//! The token of a deployment is either absent or present. The only step is the
//! creation: it prepares the accounts, builds the request to the metadata
//! registry, and commits both new accounts together when the registry accepts.
//! What the ledger and the registry decide on their own (funds, decimals, the
//! registry's answer) enters as values.

use crate::address::canonical_bump_signs_for_mint;
use crate::address::find_mint_address;
use crate::address::mint_derivation;
use crate::address::program_address;
use crate::address::signer_seeds;
use crate::address::Address;
use crate::address::AddressError;
use crate::instruction::init_token;
use crate::instruction::metadata_request;
use crate::instruction::Context;
use crate::instruction::CreateMetadataRequest;
use crate::instruction::CreateMetadataRequestView;
use crate::instruction::InitToken;
use crate::instruction::InitTokenBumps;
use crate::instruction::InitTokenParams;
use crate::instruction::InitTokenParamsView;
use crate::metadata::TokenData;
use crate::metadata::TokenDataView;
use vstd::prelude::*;

verus! {

/// The configuration of a token as the token ledger keeps it.
#[derive(Clone, Copy, Debug, PartialEq, Eq)]
pub struct MintAccount {
    pub decimals: u8,
    /// The address that may mint.
    pub authority: Address,
    pub supply: u64,
}

/// The record that the metadata registry keeps of a mint.
#[derive(Clone, Debug, PartialEq, Eq)]
pub struct MetadataAccount {
    pub mint: Address,
    pub update_authority: Address,
    pub data: TokenData,
    pub is_mutable: bool,
}

/// What a `MetadataAccount` holds, as plain values.
pub struct MetadataAccountView {
    pub mint: Address,
    pub update_authority: Address,
    pub data: TokenDataView,
    pub is_mutable: bool,
}

impl View for MetadataAccount {
    type V = MetadataAccountView;

    open spec fn view(&self) -> MetadataAccountView {
        MetadataAccountView {
            mint: self.mint,
            update_authority: self.update_authority,
            data: self.data@,
            is_mutable: self.is_mutable,
        }
    }
}

/// The two accounts of a created token, each with its address.
#[derive(Clone, Debug, PartialEq, Eq)]
pub struct Token {
    pub mint_address: Address,
    pub mint: MintAccount,
    pub metadata_address: Address,
    pub metadata: MetadataAccount,
}

/// What a `Token` holds, as plain values.
pub struct TokenView {
    pub mint_address: Address,
    pub mint: MintAccount,
    pub metadata_address: Address,
    pub metadata: MetadataAccountView,
}

impl View for Token {
    type V = TokenView;

    open spec fn view(&self) -> TokenView {
        TokenView {
            mint_address: self.mint_address,
            mint: self.mint,
            metadata_address: self.metadata_address,
            metadata: self.metadata@,
        }
    }
}

/// What the ledger reports of creating and formatting the mint account.
#[derive(Clone, Copy, Debug, PartialEq, Eq, Structural)]
pub enum MintCreation {
    Created,
    /// The payer cannot fund the account.
    InsufficientFunds,
    /// The token ledger refuses the decimals.
    InvalidDecimals,
}

/// Why the metadata registry refuses to create a record.
#[derive(Clone, Copy, Debug, PartialEq, Eq, Structural)]
pub enum RegistryError {
    /// The mint has a metadata record already.
    MetadataExists,
    /// A text is longer than the registry stores.
    FieldTooLong,
    /// The signing proof is not that of the mint's authority.
    AuthorityMismatch,
}

/// What the metadata registry answers to a request.
#[derive(Clone, Copy, Debug, PartialEq, Eq, Structural)]
pub enum RegistryReply {
    Created,
    Rejected(RegistryError),
}

/// Why the instruction fails. Every failure leaves the ledger as it was.
#[derive(Clone, Copy, Debug, PartialEq, Eq, Structural)]
pub enum InitTokenError {
    /// No bump derives an address for the program.
    NoMintAddress,
    /// The mint account given is not at the derived address.
    SeedsMismatch,
    /// The mint exists already.
    AccountInUse,
    /// The payer cannot fund the mint account.
    InsufficientFunds,
    /// The token ledger refuses the decimals.
    InvalidDecimals,
    /// The metadata registry refused the request.
    Registry(RegistryError),
}

/// The mint as it is created: with the given decimals, under its own
/// authority, with nothing minted.
pub open spec fn new_mint(address: Address, decimals: u8) -> MintAccount {
    MintAccount { decimals, authority: address, supply: 0 }
}

/// The record that the registry creates for a request it accepts.
pub open spec fn registered(request: CreateMetadataRequestView) -> MetadataAccountView {
    MetadataAccountView {
        mint: request.accounts.mint,
        update_authority: request.accounts.update_authority,
        data: request.data,
        is_mutable: request.is_mutable,
    }
}

/// The token that the instruction creates in the given context.
pub open spec fn created_token(ctx: Context, params: InitTokenParamsView) -> TokenView {
    TokenView {
        mint_address: ctx.accounts.mint,
        mint: new_mint(ctx.accounts.mint, params.decimals),
        metadata_address: ctx.accounts.metadata,
        metadata: registered(metadata_request(ctx, params)),
    }
}

/// The ledger as far as one deployment of the program reaches: the program's
/// identity and its token, once created.
#[derive(Clone, Debug, PartialEq, Eq)]
pub struct Ledger {
    pub program_id: Address,
    pub token: Option<Token>,
}

/// How the preparation of the accounts ends once the derivation is known:
/// with the context for the handler, or with the first test that fails. The
/// mint account given is compared with the derived address before the ledger
/// is asked to create it, and an existing account is found before funds and
/// decimals are looked at.
pub open spec fn prepared_at(
    derived: Option<(Seq<u8>, u8)>,
    ledger: Ledger,
    accounts: InitToken,
    creation: MintCreation,
) -> Result<Context, InitTokenError> {
    match derived {
        None => Err(InitTokenError::NoMintAddress),
        Some((address, bump)) => if accounts.mint@ != address {
            Err(InitTokenError::SeedsMismatch)
        } else if ledger.token.is_some() {
            Err(InitTokenError::AccountInUse)
        } else {
            match creation {
                MintCreation::InsufficientFunds => Err(InitTokenError::InsufficientFunds),
                MintCreation::InvalidDecimals => Err(InitTokenError::InvalidDecimals),
                MintCreation::Created => Ok(
                    Context {
                        program_id: ledger.program_id,
                        accounts,
                        bumps: InitTokenBumps { mint: bump },
                    },
                ),
            }
        },
    }
}

/// How the preparation of the accounts ends, with the mint's address derived
/// for the ledger's program.
pub open spec fn prepared(ledger: Ledger, accounts: InitToken, creation: MintCreation) -> Result<
    Context,
    InitTokenError,
> {
    prepared_at(mint_derivation(ledger.program_id@), ledger, accounts, creation)
}

/// A derivation's result as plain values.
pub open spec fn derivation_view(derived: Option<(Address, u8)>) -> Option<(Seq<u8>, u8)> {
    match derived {
        Some((address, bump)) => Some((address@, bump)),
        None => None,
    }
}

/// How the whole instruction ends: with the context in which the token was
/// created, or with the error of the first step that fails.
pub open spec fn outcome(
    ledger: Ledger,
    accounts: InitToken,
    creation: MintCreation,
    reply: RegistryReply,
) -> Result<Context, InitTokenError> {
    match prepared(ledger, accounts, creation) {
        Err(error) => Err(error),
        Ok(ctx) => match reply {
            RegistryReply::Rejected(error) => Err(InitTokenError::Registry(error)),
            RegistryReply::Created => Ok(ctx),
        },
    }
}

impl MetadataAccount {
    /// The record that the registry creates for a request it accepts.
    pub fn register(request: CreateMetadataRequest) -> (record: MetadataAccount)
        ensures
            record@ == registered(request@),
    {
        MetadataAccount {
            mint: request.accounts.mint,
            update_authority: request.accounts.update_authority,
            data: request.data,
            is_mutable: request.is_mutable,
        }
    }
}

impl Ledger {
    /// Whether the token, if there is one, is what the instruction creates:
    /// the mint at the address derived for the program, under its own
    /// authority and with no supply; its record bound to the mint, with the
    /// mint as update authority, immutable, with no seller fee, no creators,
    /// no collection and no uses.
    pub open spec fn well_formed(&self) -> bool {
        match self.token {
            None => true,
            Some(token) => {
                &&& mint_derivation(self.program_id@) matches Some((address, _))
                    && token.mint_address@ == address
                &&& token.mint.authority == token.mint_address
                &&& token.mint.supply == 0
                &&& token.metadata.mint == token.mint_address
                &&& token.metadata.update_authority == token.mint_address
                &&& !token.metadata.is_mutable
                &&& token.metadata.data.seller_fee_basis_points == 0
                &&& token.metadata.data.creators.is_none()
                &&& token.metadata.data.collection.is_none()
                &&& token.metadata.data.uses.is_none()
            },
        }
    }

    /// The ledger of a fresh deployment: no token yet.
    pub fn new(program_id: Address) -> (ledger: Ledger)
        ensures
            ledger.program_id == program_id,
            ledger.token.is_none(),
            ledger.well_formed(),
    {
        Ledger { program_id, token: None }
    }

    /// Whether the token has been created.
    pub fn is_initialized(&self) -> (initialized: bool)
        ensures
            initialized == self.token.is_some(),
    {
        self.token.is_some()
    }

    /// Prepares the accounts for a derivation that is already known: holds
    /// the mint account given against the derived address, refuses a mint
    /// that exists, and takes what the ledger reports of creating it. Returns
    /// the context for the handler and the mint as it is created.
    pub fn prepare_accounts_at(
        &self,
        derived: Option<(Address, u8)>,
        accounts: &InitToken,
        decimals: u8,
        creation: MintCreation,
    ) -> (result: Result<(Context, MintAccount), InitTokenError>)
        ensures
            match result {
                Ok((ctx, mint)) => {
                    &&& prepared_at(derivation_view(derived), *self, *accounts, creation) == Ok::<
                        Context,
                        InitTokenError,
                    >(ctx)
                    &&& mint == new_mint(accounts.mint, decimals)
                },
                Err(error) => prepared_at(derivation_view(derived), *self, *accounts, creation)
                    == Err::<Context, InitTokenError>(error),
            },
    {
        let (address, bump) = match derived {
            Some(found) => found,
            None => {
                return Err(InitTokenError::NoMintAddress);
            },
        };
        if !accounts.mint.same(&address) {
            return Err(InitTokenError::SeedsMismatch);
        }
        if self.token.is_some() {
            return Err(InitTokenError::AccountInUse);
        }
        match creation {
            MintCreation::InsufficientFunds => Err(InitTokenError::InsufficientFunds),
            MintCreation::InvalidDecimals => Err(InitTokenError::InvalidDecimals),
            MintCreation::Created => {
                let ctx = Context {
                    program_id: self.program_id,
                    accounts: *accounts,
                    bumps: InitTokenBumps { mint: bump },
                };
                let mint = MintAccount { decimals, authority: accounts.mint, supply: 0 };
                Ok((ctx, mint))
            },
        }
    }

    /// Prepares the accounts before the handler runs: derives the mint's
    /// address and bump for the ledger's program, then goes on as
    /// `prepare_accounts_at`. The signing proof built from the bump of the
    /// context that is returned signs for the mint.
    pub fn prepare_accounts(
        &self,
        accounts: &InitToken,
        decimals: u8,
        creation: MintCreation,
    ) -> (result: Result<(Context, MintAccount), InitTokenError>)
        ensures
            match result {
                Ok((ctx, mint)) => {
                    &&& prepared(*self, *accounts, creation) == Ok::<Context, InitTokenError>(ctx)
                    &&& mint == new_mint(accounts.mint, decimals)
                    &&& program_address(signer_seeds(ctx.bumps.mint), ctx.program_id@) == Ok::<
                        Seq<u8>,
                        AddressError,
                    >(ctx.accounts.mint@)
                },
                Err(error) => prepared(*self, *accounts, creation) == Err::<
                    Context,
                    InitTokenError,
                >(error),
            },
    {
        proof {
            canonical_bump_signs_for_mint(self.program_id@);
        }
        let derived = find_mint_address(&self.program_id);
        self.prepare_accounts_at(derived, accounts, decimals, creation)
    }

    /// Runs the instruction as one atomic step: prepares the accounts, builds
    /// the request to the registry, and creates both accounts when the
    /// registry accepts. On any failure the ledger is left as it was.
    pub fn process_init_token(
        &mut self,
        accounts: &InitToken,
        params: InitTokenParams,
        creation: MintCreation,
        reply: RegistryReply,
    ) -> (result: Result<(), InitTokenError>)
        ensures
            final(self).program_id == old(self).program_id,
            match outcome(*old(self), *accounts, creation, reply) {
                Ok(ctx) => {
                    &&& result == Ok::<(), InitTokenError>(())
                    &&& final(self).token matches Some(token) && token@ == created_token(
                        ctx,
                        params@,
                    )
                },
                Err(error) => {
                    &&& result == Err::<(), InitTokenError>(error)
                    &&& *final(self) == *old(self)
                },
            },
            old(self).well_formed() ==> final(self).well_formed(),
    {
        let (ctx, mint) = match self.prepare_accounts(accounts, params.decimals, creation) {
            Ok(ready) => ready,
            Err(error) => {
                return Err(error);
            },
        };
        let request = init_token(&ctx, params);
        match reply {
            RegistryReply::Rejected(error) => Err(InitTokenError::Registry(error)),
            RegistryReply::Created => {
                let metadata = MetadataAccount::register(request);
                self.token = Some(
                    Token {
                        mint_address: ctx.accounts.mint,
                        mint,
                        metadata_address: ctx.accounts.metadata,
                        metadata,
                    },
                );
                Ok(())
            },
        }
    }
}

/// Once the token exists, the instruction fails whatever it is given: a
/// second call that names the same mint as a first, successful call fails
/// because the account is in use, and any other mint is not at the derived
/// address.
pub proof fn second_initialization_fails(
    before: Ledger,
    first: InitToken,
    first_creation: MintCreation,
    first_reply: RegistryReply,
    after: Ledger,
    second: InitToken,
    second_creation: MintCreation,
    second_reply: RegistryReply,
)
    requires
        outcome(before, first, first_creation, first_reply).is_ok(),
        after.program_id == before.program_id,
        after.token.is_some(),
    ensures
        outcome(after, second, second_creation, second_reply).is_err(),
        second.mint == first.mint ==> outcome(after, second, second_creation, second_reply)
            == Err::<Context, InitTokenError>(InitTokenError::AccountInUse),
        second.mint != first.mint ==> outcome(after, second, second_creation, second_reply)
            == Err::<Context, InitTokenError>(InitTokenError::SeedsMismatch),
{
    assert(second.mint != first.mint ==> second.mint@ != first.mint@) by {
        if second.mint@ == first.mint@ {
            assert(second.mint.bytes@ =~= first.mint.bytes@);
            assert(second.mint.bytes == first.mint.bytes);
        }
    }
}

/// The mint that the instruction creates is its own authority: it is the
/// mint authority in the request, the authority of the mint account, and the
/// update authority of the record.
pub proof fn mint_is_its_own_authority(ctx: Context, params: InitTokenParamsView)
    ensures
        metadata_request(ctx, params).accounts.mint_authority == ctx.accounts.mint,
        metadata_request(ctx, params).accounts.update_authority == ctx.accounts.mint,
        created_token(ctx, params).mint.authority == created_token(ctx, params).mint_address,
        created_token(ctx, params).metadata.update_authority == created_token(
            ctx,
            params,
        ).mint_address,
        created_token(ctx, params).metadata.mint == created_token(ctx, params).mint_address,
{
}

/// When the registry refuses, the instruction fails with the registry's
/// reason unless the preparation had failed before, and it never succeeds.
pub proof fn rejection_fails_the_instruction(
    ledger: Ledger,
    accounts: InitToken,
    creation: MintCreation,
    error: RegistryError,
)
    ensures
        outcome(ledger, accounts, creation, RegistryReply::Rejected(error)).is_err(),
        prepared(ledger, accounts, creation).is_ok() ==> outcome(
            ledger,
            accounts,
            creation,
            RegistryReply::Rejected(error),
        ) == Err::<Context, InitTokenError>(InitTokenError::Registry(error)),
{
}

/// Every record is requested and created immutable, whatever the context and
/// the parameters.
pub proof fn metadata_is_created_immutable(ctx: Context, params: InitTokenParamsView)
    ensures
        !metadata_request(ctx, params).is_mutable,
        !created_token(ctx, params).metadata.is_mutable,
{
}

} // verus!
