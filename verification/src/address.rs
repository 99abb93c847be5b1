//! Ledger addresses and the derivation of the program-owned mint address.
//!
//! A program-derived address is a hash of a list of seeds, the owning
//! program's identity and a fixed marker, accepted only when it does not lie
//! on the signing curve, so that no private key can ever sign for it. The
//! hashing and the curve test are done by `solana_program`; this module states
//! what they give and proves how the mint's seeds, its bump and its signing
//! proof fit together.

use anchor_lang::solana_program::pubkey::Pubkey;
use anchor_lang::solana_program::pubkey::PubkeyError;
use vstd::prelude::*;

verus! {

/// Number of bytes in an address.
pub const ADDRESS_BYTES: usize = 32;

/// Longest seed that address derivation accepts, in bytes.
pub const MAX_SEED_LEN: usize = 32;

/// Largest number of seeds that address derivation accepts.
pub const MAX_SEEDS: usize = 16;

/// A ledger address: the identity of an account or of a program.
#[derive(Clone, Copy, Debug, PartialEq, Eq)]
pub struct Address {
    pub bytes: [u8; ADDRESS_BYTES],
}

impl View for Address {
    type V = Seq<u8>;

    open spec fn view(&self) -> Seq<u8> {
        self.bytes@
    }
}

impl Address {
    /// An address from its 32 bytes.
    pub fn new(bytes: [u8; 32]) -> (address: Address)
        ensures
            address.bytes == bytes,
            address@ == bytes@,
    {
        Address { bytes }
    }

    /// Whether two addresses hold the same bytes.
    pub fn same(&self, other: &Address) -> (equal: bool)
        ensures
            equal == (self@ == other@),
            equal == (*self == *other),
    {
        let mut i: usize = 0;
        while i < 32
            invariant
                i <= 32,
                forall|j: int| 0 <= j < i ==> self.bytes[j] == other.bytes[j],
            decreases 32 - i,
        {
            if self.bytes[i] != other.bytes[i] {
                assert(self@[i as int] != other@[i as int]);
                return false;
            }
            i += 1;
        }
        assert(self@ =~= other@);
        assert(self.bytes == other.bytes);
        true
    }
}

/// Why a list of seeds yields no program-derived address.
#[derive(Clone, Copy, Debug, PartialEq, Eq, Structural)]
pub enum AddressError {
    /// There are more than `MAX_SEEDS` seeds, or one is longer than `MAX_SEED_LEN`.
    SeedTooLong,
    /// The hash of the seeds lies on the signing curve.
    InvalidSeeds,
    /// The owner is not allowed to derive addresses.
    IllegalOwner,
}

/// The seed under which the mint is derived: the ASCII bytes of `mint`.
pub open spec fn mint_seed() -> Seq<u8> {
    seq![109u8, 105u8, 110u8, 116u8]
}

/// The seeds of the signing proof for the mint: the mint seed, then the bump.
pub open spec fn signer_seeds(bump: u8) -> Seq<Seq<u8>> {
    seq![mint_seed(), seq![bump]]
}

/// Whether a list of seeds is within the limits of address derivation.
pub open spec fn seeds_within_limits(seeds: Seq<Seq<u8>>) -> bool {
    &&& seeds.len() <= MAX_SEEDS
    &&& forall|i: int| 0 <= i < seeds.len() ==> (#[trigger] seeds[i]).len() <= MAX_SEED_LEN
}

/// The hash of the seeds, the program's identity and the derivation marker,
/// where that hash lies off the signing curve; `None` where it lies on it.
pub uninterp spec fn off_curve_hash(seeds: Seq<Seq<u8>>, program: Seq<u8>) -> Option<Seq<u8>>;

/// The address that a list of seeds derives for a program, without a search
/// for a bump.
pub open spec fn program_address(seeds: Seq<Seq<u8>>, program: Seq<u8>) -> Result<
    Seq<u8>,
    AddressError,
> {
    if !seeds_within_limits(seeds) {
        Err(AddressError::SeedTooLong)
    } else {
        match off_curve_hash(seeds, program) {
            Some(address) => Ok(address),
            None => Err(AddressError::InvalidSeeds),
        }
    }
}

/// The search for a bump: from `bump` downwards to 1, the first bump that,
/// appended to the seeds as a seed of one byte, derives an address. The search
/// ends without a result when the seeds exceed the limits.
pub open spec fn bump_search(seeds: Seq<Seq<u8>>, program: Seq<u8>, bump: u8) -> Option<
    (Seq<u8>, u8),
>
    decreases bump,
{
    if bump == 0 {
        None
    } else {
        match program_address(seeds.push(seq![bump]), program) {
            Ok(address) => Some((address, bump)),
            Err(AddressError::InvalidSeeds) => bump_search(seeds, program, (bump - 1) as u8),
            Err(_) => None,
        }
    }
}

/// The mint's address and canonical bump for a program, where one exists.
pub open spec fn mint_derivation(program: Seq<u8>) -> Option<(Seq<u8>, u8)> {
    bump_search(seq![mint_seed()], program, 255)
}

/// The views of a list of seeds.
pub open spec fn seeds_view(seeds: Seq<Vec<u8>>) -> Seq<Seq<u8>> {
    Seq::new(seeds.len(), |i: int| seeds[i]@)
}

/// Calls `Pubkey::create_program_address` of `solana_program`. That function
/// refuses more than 16 seeds and any seed longer than 32 bytes; otherwise it
/// hashes the seeds, the program's identity and a marker, refuses a hash that
/// is a point of the signing curve, and returns any other hash as the address.
/// The hash and the curve test are not proved here: `off_curve_hash` names
/// their result.
#[verifier::external_body]
fn create_program_address(seeds: &Vec<Vec<u8>>, program: &Address) -> (derived: Result<
    Address,
    AddressError,
>)
    ensures
        match derived {
            Ok(address) => seeds_within_limits(seeds_view(seeds@)) && off_curve_hash(
                seeds_view(seeds@),
                program@,
            ) == Some(address@),
            Err(AddressError::SeedTooLong) => !seeds_within_limits(seeds_view(seeds@)),
            Err(AddressError::InvalidSeeds) => seeds_within_limits(seeds_view(seeds@))
                && off_curve_hash(seeds_view(seeds@), program@).is_none(),
            Err(AddressError::IllegalOwner) => false,
        },
{
    let parts: Vec<&[u8]> = seeds.iter().map(|seed| seed.as_slice()).collect();
    match Pubkey::create_program_address(&parts, &Pubkey::new_from_array(program.bytes)) {
        Ok(key) => Ok(Address { bytes: key.to_bytes() }),
        Err(PubkeyError::MaxSeedLengthExceeded) => Err(AddressError::SeedTooLong),
        Err(PubkeyError::InvalidSeeds) => Err(AddressError::InvalidSeeds),
        Err(PubkeyError::IllegalOwner) => Err(AddressError::IllegalOwner),
    }
}

/// Calls `Pubkey::try_find_program_address` of `solana_program`. That function
/// tries the bumps 255, 254, .. down to 1, each appended to the seeds as one
/// more seed of a single byte, and returns the first address that
/// `Pubkey::create_program_address` derives, with its bump. It gives up when a
/// derivation fails for another reason than a hash on the curve, and when no
/// bump is left.
#[verifier::external_body]
fn try_find_program_address(seeds: &Vec<Vec<u8>>, program: &Address) -> (found: Option<
    (Address, u8),
>)
    ensures
        match found {
            Some((address, bump)) => bump_search(seeds_view(seeds@), program@, 255) == Some(
                (address@, bump),
            ),
            None => bump_search(seeds_view(seeds@), program@, 255).is_none(),
        },
{
    let parts: Vec<&[u8]> = seeds.iter().map(|seed| seed.as_slice()).collect();
    match Pubkey::try_find_program_address(&parts, &Pubkey::new_from_array(program.bytes)) {
        Some((key, bump)) => Some((Address { bytes: key.to_bytes() }, bump)),
        None => None,
    }
}

/// The mint seed as bytes.
pub fn mint_seed_bytes() -> (seed: Vec<u8>)
    ensures
        seed@ == mint_seed(),
{
    let seed: Vec<u8> = vec![109u8, 105u8, 110u8, 116u8];
    assert(seed@ =~= mint_seed());
    seed
}

/// The seeds that prove authority over the mint: the mint seed and the bump.
pub fn mint_signer_seeds(bump: u8) -> (seeds: Vec<Vec<u8>>)
    ensures
        seeds_view(seeds@) == signer_seeds(bump),
        seeds@.len() == 2,
        seeds@[0]@ == mint_seed(),
        seeds@[1]@ == seq![bump],
{
    let bump_seed: Vec<u8> = vec![bump];
    assert(bump_seed@ =~= seq![bump]);
    let seeds: Vec<Vec<u8>> = vec![mint_seed_bytes(), bump_seed];
    assert(seeds_view(seeds@) =~= signer_seeds(bump));
    seeds
}

/// Derives the mint's address for a program: the address under the mint seed
/// and the canonical bump, the highest bump that yields an address. `None`
/// where no bump from 255 down to 1 yields one.
pub fn find_mint_address(program: &Address) -> (found: Option<(Address, u8)>)
    ensures
        match found {
            Some((address, bump)) => mint_derivation(program@) == Some((address@, bump)),
            None => mint_derivation(program@).is_none(),
        },
{
    let seeds: Vec<Vec<u8>> = vec![mint_seed_bytes()];
    assert(seeds_view(seeds@) =~= seq![mint_seed()]);
    try_find_program_address(&seeds, program)
}

/// The address for which the mint's signing proof with this bump signs.
/// The only failure is a hash on the signing curve.
pub fn signing_address(program: &Address, bump: u8) -> (derived: Result<Address, AddressError>)
    ensures
        match derived {
            Ok(address) => program_address(signer_seeds(bump), program@) == Ok::<
                Seq<u8>,
                AddressError,
            >(address@),
            Err(error) => error == AddressError::InvalidSeeds && program_address(
                signer_seeds(bump),
                program@,
            ) == Err::<Seq<u8>, AddressError>(AddressError::InvalidSeeds),
        },
{
    let seeds = mint_signer_seeds(bump);
    proof {
        signer_seeds_within_limits(bump);
    }
    create_program_address(&seeds, program)
}

/// Whether the signing proof built from the bump signs for the given mint.
pub fn signing_proof_matches(program: &Address, bump: u8, mint: &Address) -> (matches: bool)
    ensures
        matches == (program_address(signer_seeds(bump), program@) == Ok::<Seq<u8>, AddressError>(
            mint@,
        )),
{
    match signing_address(program, bump) {
        Ok(address) => address.same(mint),
        Err(_) => false,
    }
}

/// The mint's signing seeds are within the limits of derivation, whatever the
/// bump.
pub proof fn signer_seeds_within_limits(bump: u8)
    ensures
        seeds_within_limits(signer_seeds(bump)),
        seq![mint_seed()].push(seq![bump]) == signer_seeds(bump),
{
    assert(seq![mint_seed()].push(seq![bump]) =~= signer_seeds(bump));
    assert(mint_seed().len() == 4);
    assert(seq![bump].len() == 1);
}

/// The address derived for a program depends on the program alone: two
/// derivations for the same identity agree.
pub proof fn derivation_is_deterministic(first: Address, second: Address)
    requires
        first@ == second@,
    ensures
        mint_derivation(first@) == mint_derivation(second@),
        first == second,
{
    assert(first.bytes@ =~= second.bytes@);
    assert(first.bytes == second.bytes);
}

/// A bump found by the search, from any start, derives the address found with
/// it, and every higher bump up to the start fails on the signing curve.
pub proof fn bump_search_finds_highest(program: Seq<u8>, start: u8)
    ensures
        match bump_search(seq![mint_seed()], program, start) {
            Some((address, bump)) => {
                &&& 1 <= bump <= start
                &&& program_address(signer_seeds(bump), program) == Ok::<Seq<u8>, AddressError>(
                    address,
                )
                &&& forall|higher: u8|
                    bump < higher <= start ==> #[trigger] program_address(
                        signer_seeds(higher),
                        program,
                    ) == Err::<Seq<u8>, AddressError>(AddressError::InvalidSeeds)
            },
            None => forall|tried: u8|
                1 <= tried <= start ==> #[trigger] program_address(signer_seeds(tried), program)
                    == Err::<Seq<u8>, AddressError>(AddressError::InvalidSeeds),
        },
    decreases start,
{
    if start != 0 {
        signer_seeds_within_limits(start);
        bump_search_finds_highest(program, (start - 1) as u8);
    }
}

/// The derived mint address is the one for which the signing proof with the
/// canonical bump signs, and no higher bump yields an address.
pub proof fn canonical_bump_signs_for_mint(program: Seq<u8>)
    ensures
        match mint_derivation(program) {
            Some((address, bump)) => {
                &&& bump >= 1
                &&& program_address(signer_seeds(bump), program) == Ok::<Seq<u8>, AddressError>(
                    address,
                )
                &&& forall|higher: u8|
                    bump < higher ==> #[trigger] program_address(signer_seeds(higher), program)
                        == Err::<Seq<u8>, AddressError>(AddressError::InvalidSeeds)
            },
            None => forall|tried: u8|
                1 <= tried ==> #[trigger] program_address(signer_seeds(tried), program) == Err::<
                    Seq<u8>,
                    AddressError,
                >(AddressError::InvalidSeeds),
        },
{
    bump_search_finds_highest(program, 255);
}

} // verus!
