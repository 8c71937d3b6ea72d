use vstd::prelude::*;
use vstd::bytes::{spec_u64_to_le_bytes, u64_to_le_bytes};
use anchor_lang::prelude::Pubkey;
use crate::accounts::{SignerSeeds, VaultAuthority};
use crate::error::EscrowError;
use crate::identity::Identity;

verus! {

/// The error of `Pubkey::create_program_address`, carried through unread.
/// `anchor_lang` hands out under this path the `AddressError` of
/// `solana_address`, as it hands out `Address` under the name `Pubkey`.
#[verifier::external_type_specification]
#[verifier::external_body]
pub struct ExPubkeyError(anchor_lang::solana_program::pubkey::PubkeyError);

/// The address that `Pubkey::create_program_address` derives from a list of
/// seeds under a program, or `None` where it refuses the seeds.
pub uninterp spec fn derived_address(seeds: Seq<Seq<u8>>, program: Seq<u8>) -> Option<Seq<u8>>;

/// The address and salt that `Pubkey::try_find_program_address` finds for a
/// list of seeds under a program, or `None` where no salt is usable.
pub uninterp spec fn found_address(seeds: Seq<Seq<u8>>, program: Seq<u8>) -> Option<(Seq<u8>, u8)>;

/// The tag that opens every derivation of this program: the ASCII bytes of
/// `escrow`.
pub open spec fn escrow_tag() -> Seq<u8> {
    seq![0x65u8, 0x73u8, 0x63u8, 0x72u8, 0x6fu8, 0x77u8]
}

/// The seeds that address the record of a maker and nonce: the tag, the
/// maker's 32 bytes, the nonce in little-endian order.
pub open spec fn record_seeds(maker: Seq<u8>, seed: u64) -> Seq<Seq<u8>> {
    seq![escrow_tag(), maker, spec_u64_to_le_bytes(seed)]
}

/// The record seeds completed by the salt: the full derivation of the vault
/// authority.
pub open spec fn signer_seeds(maker: Seq<u8>, seed: u64, bump: u8) -> Seq<Seq<u8>> {
    record_seeds(maker, seed).push(seq![bump])
}

/// Calls `Pubkey::try_find_program_address`, which tries salts from 255
/// downwards and returns the first for which `Pubkey::create_program_address`
/// accepts the seeds with the salt appended. The contract names the result
/// and adds what the function documents of a hit: deriving again with the
/// salt appended to the seeds gives the same address.
#[verifier::external_body]
fn find_program_address(seeds: &Vec<Vec<u8>>, program_id: &Identity) -> (found: Option<(Identity, u8)>)
    ensures
        match found {
            Some((address, bump)) => {
                &&& found_address(seeds.deep_view(), program_id@) == Some((address@, bump))
                &&& derived_address(seeds.deep_view().push(seq![bump]), program_id@) == Some(
                    address@,
                )
            },
            None => found_address(seeds.deep_view(), program_id@) is None,
        },
{
    let parts: Vec<&[u8]> = seeds.iter().map(|s| s.as_slice()).collect();
    Pubkey::try_find_program_address(&parts, &Pubkey::new_from_array(program_id.bytes))
        .map(|(address, bump)| (Identity { bytes: address.to_bytes() }, bump))
}

/// Calls `Pubkey::create_program_address`, which hashes the seeds, the
/// program and a marker, and refuses seeds that are too many or too long, or
/// whose hash is a point of the curve. The contract names the address on
/// success and says that the name has none on failure.
#[verifier::external_body]
fn create_program_address(seeds: &Vec<Vec<u8>>, program_id: &Identity) -> (made: Result<
    Identity,
    anchor_lang::solana_program::pubkey::PubkeyError,
>)
    ensures
        match made {
            Ok(address) => derived_address(seeds.deep_view(), program_id@) == Some(address@),
            Err(_) => derived_address(seeds.deep_view(), program_id@) is None,
        },
{
    let parts: Vec<&[u8]> = seeds.iter().map(|s| s.as_slice()).collect();
    Pubkey::create_program_address(&parts, &Pubkey::new_from_array(program_id.bytes))
        .map(|address| Identity { bytes: address.to_bytes() })
}

/// The bytes of the tag.
fn tag_bytes() -> (tag: Vec<u8>)
    ensures
        tag@ == escrow_tag(),
{
    let mut tag: Vec<u8> = Vec::new();
    tag.push(0x65u8);
    tag.push(0x73u8);
    tag.push(0x63u8);
    tag.push(0x72u8);
    tag.push(0x6fu8);
    tag.push(0x77u8);
    assert(tag@ =~= escrow_tag());
    tag
}

/// The seeds of a record, as bytes.
pub fn record_seed_bytes(maker: &Identity, seed: u64) -> (seeds: Vec<Vec<u8>>)
    ensures
        seeds.deep_view() == record_seeds(maker@, seed),
{
    let mut seeds: Vec<Vec<u8>> = Vec::new();
    seeds.push(tag_bytes());
    seeds.push(maker.to_vec());
    seeds.push(u64_to_le_bytes(seed));
    assert(seeds.deep_view() =~~= record_seeds(maker@, seed));
    seeds
}

/// The seeds with which the vault authority of a record signs, as bytes.
pub fn signer_seed_bytes(signer: &SignerSeeds) -> (seeds: Vec<Vec<u8>>)
    ensures
        seeds.deep_view() == signer_seeds(signer.maker@, signer.seed, signer.bump),
{
    let mut seeds = record_seed_bytes(&signer.maker, signer.seed);
    let mut salt: Vec<u8> = Vec::new();
    salt.push(signer.bump);
    seeds.push(salt);
    assert(seeds.deep_view() =~~= signer_seeds(signer.maker@, signer.seed, signer.bump));
    seeds
}

/// Turns what the search for a salt returned into the vault authority, or
/// into the refusal that stands for an exhausted search.
pub fn authority_from(found: Option<(Identity, u8)>) -> (derived: Result<VaultAuthority, EscrowError>)
    ensures
        derived == match found {
            Some((address, bump)) => Ok::<VaultAuthority, EscrowError>(
                VaultAuthority { address, bump },
            ),
            None => Err::<VaultAuthority, EscrowError>(EscrowError::DerivationExhausted),
        },
{
    match found {
        Some((address, bump)) => Ok(VaultAuthority { address, bump }),
        None => Err(EscrowError::DerivationExhausted),
    }
}

/// Derives the vault authority of a maker and nonce under a program: the
/// identity that will own the vault, and the salt to record. The same inputs
/// give the same authority. Fails with `DerivationExhausted` exactly when the
/// search finds no salt.
pub fn derive_vault_authority(program_id: &Identity, maker: &Identity, seed: u64) -> (derived: Result<
    VaultAuthority,
    EscrowError,
>)
    ensures
        match derived {
            Ok(authority) => {
                &&& found_address(record_seeds(maker@, seed), program_id@) == Some(
                    (authority.address@, authority.bump),
                )
                &&& derived_address(signer_seeds(maker@, seed, authority.bump), program_id@)
                    == Some(authority.address@)
            },
            Err(e) => {
                &&& e == EscrowError::DerivationExhausted
                &&& found_address(record_seeds(maker@, seed), program_id@) is None
            },
        },
{
    let seeds = record_seed_bytes(maker, seed);
    authority_from(find_program_address(&seeds, program_id))
}

/// Rebuilds the vault authority from the triple that a record stores. `None`
/// exactly when the triple derives no authority.
pub fn vault_authority(program_id: &Identity, signer: &SignerSeeds) -> (rebuilt: Option<Identity>)
    ensures
        match rebuilt {
            Some(address) => derived_address(
                signer_seeds(signer.maker@, signer.seed, signer.bump),
                program_id@,
            ) == Some(address@),
            None => derived_address(
                signer_seeds(signer.maker@, signer.seed, signer.bump),
                program_id@,
            ) is None,
        },
{
    let seeds = signer_seed_bytes(signer);
    match create_program_address(&seeds, program_id) {
        Ok(address) => Some(address),
        Err(_) => None,
    }
}

} // verus!
