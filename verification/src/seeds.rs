//! The seeds from which the ledger derives the addresses of the arena's
//! escrow accounts, and by which the arena signs for them.

use vstd::bytes::{spec_u64_to_le_bytes, u64_to_le_bytes};
use vstd::prelude::*;

verus! {

/// The label of the treasury's address: the text `agent_treasury`.
pub open spec fn treasury_label() -> Seq<u8> {
    seq![97u8, 103, 101, 110, 116, 95, 116, 114, 101, 97, 115, 117, 114, 121]
}

/// The label of a round's escrow address: the text `round_vault`.
pub open spec fn round_vault_label() -> Seq<u8> {
    seq![114u8, 111, 117, 110, 100, 95, 118, 97, 117, 108, 116]
}

/// The seeds that sign for the treasury: its label, then the bump seed.
pub open spec fn treasury_signer_seeds(bump: u8) -> Seq<Seq<u8>> {
    seq![treasury_label(), seq![bump]]
}

/// The seeds that name a round's escrow account: its label, then the round
/// number as eight little-endian bytes.
pub open spec fn round_vault_seeds(round: u64) -> Seq<Seq<u8>> {
    seq![round_vault_label(), spec_u64_to_le_bytes(round)]
}

/// The seeds that sign for a round's escrow account: those that name it, then
/// the bump seed.
pub open spec fn round_vault_signer_seeds(round: u64, bump: u8) -> Seq<Seq<u8>> {
    round_vault_seeds(round).push(seq![bump])
}

/// The bump seed that the ledger's address derivation finds for `seeds` under
/// `program_id`, if it finds one.
pub uninterp spec fn program_address_bump(seeds: Seq<Seq<u8>>, program_id: Seq<u8>) -> Option<u8>;

/// Calls `Pubkey::try_find_program_address` of `anchor_lang` and keeps the
/// bump seed of what it returns. Nothing is proved of the search; the
/// contract only gives its outcome a name, as a function of the seeds and the
/// program's address.
#[verifier::external_body]
fn find_bump(seeds: &Vec<Vec<u8>>, program_id: &[u8; 32]) -> (bump: Option<u8>)
    ensures
        bump == program_address_bump(seeds.deep_view(), program_id@),
{
    let parts: Vec<&[u8]> = seeds.iter().map(|seed| seed.as_slice()).collect();
    let id = anchor_lang::prelude::Pubkey::new_from_array(*program_id);
    anchor_lang::prelude::Pubkey::try_find_program_address(&parts, &id).map(|found| found.1)
}

fn treasury_label_bytes() -> (label: Vec<u8>)
    ensures
        label@ == treasury_label(),
{
    let label: Vec<u8> = vec![97u8, 103, 101, 110, 116, 95, 116, 114, 101, 97, 115, 117, 114, 121];
    assert(label@ =~= treasury_label());
    label
}

fn round_vault_label_bytes() -> (label: Vec<u8>)
    ensures
        label@ == round_vault_label(),
{
    let label: Vec<u8> = vec![114u8, 111, 117, 110, 100, 95, 118, 97, 117, 108, 116];
    assert(label@ =~= round_vault_label());
    label
}

/// Builds the seeds that sign for the treasury.
pub fn treasury_signer(bump: u8) -> (seeds: Vec<Vec<u8>>)
    ensures
        seeds.deep_view() == treasury_signer_seeds(bump),
{
    let mut seeds: Vec<Vec<u8>> = Vec::new();
    seeds.push(treasury_label_bytes());
    let tail: Vec<u8> = vec![bump];
    seeds.push(tail);
    assert(seeds.deep_view() =~~= treasury_signer_seeds(bump));
    seeds
}

/// Builds the seeds that sign for a round's escrow account under a given
/// bump seed.
pub fn round_vault_signer(round: u64, bump: u8) -> (seeds: Vec<Vec<u8>>)
    ensures
        seeds.deep_view() == round_vault_signer_seeds(round, bump),
{
    let mut seeds: Vec<Vec<u8>> = Vec::new();
    seeds.push(round_vault_label_bytes());
    seeds.push(u64_to_le_bytes(round));
    let tail: Vec<u8> = vec![bump];
    seeds.push(tail);
    assert(seeds.deep_view() =~~= round_vault_signer_seeds(round, bump));
    seeds
}

/// Searches the bump seed of a round's escrow address under `program_id`.
/// `None` when the ledger's derivation finds no address for these seeds.
pub fn round_vault_bump(round: u64, program_id: &[u8; 32]) -> (bump: Option<u8>)
    ensures
        bump == program_address_bump(round_vault_seeds(round), program_id@),
{
    let mut seeds: Vec<Vec<u8>> = Vec::new();
    seeds.push(round_vault_label_bytes());
    seeds.push(u64_to_le_bytes(round));
    assert(seeds.deep_view() =~~= round_vault_seeds(round));
    find_bump(&seeds, program_id)
}

} // verus!
