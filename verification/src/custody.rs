//! The keyless authority that controls an asset's pooled vault.
//!
//! The authority of a vault is an address derived from a fixed tag, the
//! asset's mint and the program's own address. Nobody holds a key for it: the
//! right to move funds out of the vault is shown by deriving the same
//! address again.

use vstd::prelude::*;
use crate::pubkey::Pubkey;

verus! {

/// The address that `anchor_lang`'s `Pubkey::try_find_program_address`
/// derives from `seeds` under `program_id`, with its bump seed, or `None`
/// where it finds none. The derivation is a hash of its inputs and depends
/// on nothing else.
pub uninterp spec fn program_address(seeds: Seq<Seq<u8>>, program_id: Seq<u8>) -> Option<
    (Seq<u8>, u8),
>;

/// The seeds as sequences of bytes.
pub open spec fn seeds_view(seeds: Seq<Vec<u8>>) -> Seq<Seq<u8>> {
    seeds.map_values(|s: Vec<u8>| s@)
}

/// A derived address and its bump seed as plain values.
pub open spec fn derived_view(derived: Option<(Pubkey, u8)>) -> Option<(Seq<u8>, u8)> {
    match derived {
        Some((address, bump)) => Some((address@, bump)),
        None => None,
    }
}

/// Calls `anchor_lang::prelude::Pubkey::try_find_program_address`. Trusted:
/// the result is the derivation named by [`program_address`], a function of
/// the seeds and the program address alone. The call returns `None` rather
/// than panic where the seeds are too many or too long.
#[verifier::external_body]
fn try_find_program_address(seeds: &Vec<Vec<u8>>, program_id: &Pubkey) -> (res: Option<
    (Pubkey, u8),
>)
    ensures
        derived_view(res) == program_address(seeds_view(seeds@), program_id@),
{
    let parts: Vec<&[u8]> = seeds.iter().map(|s| s.as_slice()).collect();
    let id = anchor_lang::prelude::Pubkey::new_from_array(program_id.bytes);
    match anchor_lang::prelude::Pubkey::try_find_program_address(&parts, &id) {
        Some((address, bump)) => Some((Pubkey { bytes: address.to_bytes() }, bump)),
        None => None,
    }
}

/// The custody authority of one asset's vault.
#[derive(Clone, Copy, Debug, PartialEq, Eq)]
pub struct VaultAuthority {
    pub address: Pubkey,
    pub bump: u8,
}

/// The tag that starts every vault derivation: the ASCII bytes of `vault`.
pub open spec fn vault_tag() -> Seq<u8> {
    seq![118u8, 97u8, 117u8, 108u8, 116u8]
}

/// The seeds from which the authority of `mint`'s vault is derived.
pub open spec fn vault_seeds(mint: Seq<u8>) -> Seq<Seq<u8>> {
    seq![vault_tag(), mint]
}

/// What the derivation gives for `mint`'s vault under `program_id`.
pub open spec fn vault_authority_of(mint: Pubkey, program_id: Pubkey) -> Option<(Seq<u8>, u8)> {
    program_address(vault_seeds(mint@), program_id@)
}

/// Whether `derived` names `address` as the authority.
pub open spec fn is_authority(derived: Option<(Seq<u8>, u8)>, address: Pubkey) -> bool {
    derived matches Some((a, _)) && a == address@
}

/// A derived authority as plain values.
pub open spec fn authority_view(authority: Option<VaultAuthority>) -> Option<(Seq<u8>, u8)> {
    match authority {
        Some(a) => Some((a.address@, a.bump)),
        None => None,
    }
}

/// The vault tag as bytes.
pub fn vault_tag_bytes() -> (res: Vec<u8>)
    ensures
        res@ == vault_tag(),
{
    let mut tag: Vec<u8> = Vec::new();
    tag.push(118u8);
    tag.push(97u8);
    tag.push(117u8);
    tag.push(108u8);
    tag.push(116u8);
    assert(tag@ =~= vault_tag());
    tag
}

/// Derives the custody authority of `mint`'s vault under `program_id`:
/// `None` where the derivation finds no address.
pub fn find_vault_authority(mint: &Pubkey, program_id: &Pubkey) -> (res: Option<VaultAuthority>)
    ensures
        authority_view(res) == vault_authority_of(*mint, *program_id),
{
    let mut seeds: Vec<Vec<u8>> = Vec::new();
    seeds.push(vault_tag_bytes());
    seeds.push(mint.to_vec());
    assert(seeds_view(seeds@) =~= vault_seeds(mint@));
    match try_find_program_address(&seeds, program_id) {
        Some((address, bump)) => Some(VaultAuthority { address, bump }),
        None => None,
    }
}

} // verus!
