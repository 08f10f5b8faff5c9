//! The vault's address: a program-derived address of the owner's key.
//!
//! The seeds are the label `vault`, the first byte of the owner's compressed
//! public key, and its remaining 32 bytes. A withdrawal signs for the vault
//! with those seeds followed by the bump byte.

use vstd::prelude::*;
use vstd::slice::slice_subrange;
use pinocchio::pubkey::Pubkey;

verus! {

/// The seed label, `vault` in ASCII.
pub const VAULT_LABEL: [u8; 5] = [118, 97, 117, 108, 116];

/// The bytes of the seed label.
pub open spec fn label_bytes() -> Seq<u8> {
    seq![118u8, 97, 117, 108, 116]
}

/// The seeds from which the vault of `owner` is derived.
pub open spec fn vault_seeds(owner: Seq<u8>) -> Seq<Seq<u8>> {
    seq![label_bytes(), owner.subrange(0, 1), owner.subrange(1, 33)]
}

/// The seeds with which the program signs for the vault of `owner`.
pub open spec fn signer_seeds(owner: Seq<u8>, bump: u8) -> Seq<Seq<u8>> {
    vault_seeds(owner).push(seq![bump])
}

/// `pinocchio::pubkey::try_find_program_address`: the runtime's search for a
/// program-derived address and its bump. Nothing is claimed of what it finds:
/// on chain that rests with the runtime, and off chain it finds nothing.
pub assume_specification[ pinocchio::pubkey::try_find_program_address ](
    seeds: &[&[u8]],
    program_id: &Pubkey,
) -> (found: Option<(Pubkey, u8)>);

/// The seeds from which the vault of `owner` is derived, in order.
pub fn vault_seeds_of<'a>(owner: &'a [u8; 33]) -> (seeds: [&'a [u8]; 3])
    ensures
        seeds@.map_values(|seed: &[u8]| seed@) == vault_seeds(owner@),
{
    let label: &'static [u8; 5] = &VAULT_LABEL;
    let key: &[u8] = owner.as_slice();
    let seeds: [&[u8]; 3] = [label.as_slice(), slice_subrange(key, 0, 1), slice_subrange(key, 1, 33)];
    assert(seeds@.map_values(|seed: &[u8]| seed@) =~= vault_seeds(owner@));
    seeds
}

/// The seeds with which the program signs for the vault of `owner` whose
/// address has the bump `bump`, in order.
pub fn signer_seeds_of<'a>(owner: &'a [u8; 33], bump: &'a [u8; 1]) -> (seeds: [&'a [u8]; 4])
    ensures
        seeds@.map_values(|seed: &[u8]| seed@) == signer_seeds(owner@, bump@[0]),
{
    let label: &'static [u8; 5] = &VAULT_LABEL;
    let key: &[u8] = owner.as_slice();
    let seeds: [&[u8]; 4] = [
        label.as_slice(),
        slice_subrange(key, 0, 1),
        slice_subrange(key, 1, 33),
        bump.as_slice(),
    ];
    assert(bump@ =~= seq![bump@[0]]);
    assert(seeds@.map_values(|seed: &[u8]| seed@) =~= signer_seeds(owner@, bump@[0]));
    seeds
}

/// Searches for the vault address of `owner` under the program `program_id`,
/// and for its bump. Whether the runtime finds one is not known here: off
/// chain it finds none.
pub(crate) fn find_vault_address(owner: &[u8; 33], program_id: &[u8; 32]) -> (found: Option<
    ([u8; 32], u8),
>) {
    let seeds: [&[u8]; 3] = vault_seeds_of(owner);
    pinocchio::pubkey::try_find_program_address(seeds.as_slice(), program_id)
}

} // verus!
