//! Addresses and authority derivation.
//!
//! The program signs its forwarded calls with a single derived authority:
//! a program-derived address computed from the fixed seed `"AUTH"` and the
//! program id. The derivation is delegated to the ledger library's address
//! derivation; everything stated about it here is that it is a function of
//! the seeds and the program id alone.

use vstd::prelude::*;

verus! {

/// A 32-byte account address.
#[derive(Clone, Copy, PartialEq, Eq, Debug)]
pub struct Pubkey {
    pub bytes: [u8; 32],
}

impl View for Pubkey {
    type V = Seq<u8>;

    open spec fn view(&self) -> Seq<u8> {
        self.bytes@
    }
}

/// The bytes of the fixed authority seed, `"AUTH"`.
pub open spec fn seed_bytes() -> Seq<u8> {
    seq![65u8, 85u8, 84u8, 72u8]
}

/// The fixed authority seed, as bytes: `"AUTH"`.
pub fn auth_seed() -> (r: Vec<u8>)
    ensures
        r@ == seed_bytes(),
{
    let mut v: Vec<u8> = Vec::new();
    v.push(65);
    v.push(85);
    v.push(84);
    v.push(72);
    proof {
        assert(v@ =~= seed_bytes());
    }
    v
}

/// The seed groups under which the derived authority signs a forwarded
/// call: the fixed seed followed by the one-byte bump.
pub open spec fn signer_seed_spec(bump: u8) -> Seq<Seq<u8>> {
    seq![seed_bytes(), seq![bump]]
}

/// Builds the signer seed groups for the given bump.
pub fn signer_seed(bump: u8) -> (r: Vec<Vec<u8>>)
    ensures
        r.deep_view() == signer_seed_spec(bump),
{
    let seed = auth_seed();
    let mut bump_group: Vec<u8> = Vec::new();
    bump_group.push(bump);
    let mut r: Vec<Vec<u8>> = Vec::new();
    r.push(seed);
    r.push(bump_group);
    proof {
        assert(r.deep_view() =~~= signer_seed_spec(bump));
    }
    r
}

pub uninterp spec fn find_pda(seeds: Seq<Seq<u8>>, program_id: Seq<u8>) -> Option<(Pubkey, u8)>;

/// Relies on solana_program::pubkey::Pubkey::try_find_program_address:
/// the derived address and bump depend on the seeds and the program id
/// alone, and derivation fails (returns None) only when no bump yields a
/// valid address.
#[verifier::external_body]
fn find_program_address(seeds: &Vec<Vec<u8>>, program_id: &Pubkey) -> (r: Option<(Pubkey, u8)>)
    ensures
        r == find_pda(seeds.deep_view(), program_id@),
{
    let seed_slices: Vec<&[u8]> = seeds.iter().map(|s| s.as_slice()).collect();
    let pid = solana_program::pubkey::Pubkey::new_from_array(program_id.bytes);
    solana_program::pubkey::Pubkey::try_find_program_address(&seed_slices, &pid)
        .map(|(key, bump)| (Pubkey { bytes: key.to_bytes() }, bump))
}

/// Derives the program's signing authority and its bump from the fixed
/// seed and the given program id.
pub fn derive_authority(program_id: &Pubkey) -> (r: Option<(Pubkey, u8)>)
    ensures
        r == find_pda(seq![seed_bytes()], program_id@),
{
    let mut seeds: Vec<Vec<u8>> = Vec::new();
    seeds.push(auth_seed());
    proof {
        assert(seeds.deep_view() =~~= seq![seed_bytes()]);
    }
    find_program_address(&seeds, program_id)
}

/// The derived authority is deterministic: for one program id, any two
/// results of the derivation from the fixed seed are equal.
pub proof fn lemma_derive_authority_deterministic(
    program_id: Pubkey,
    r1: Option<(Pubkey, u8)>,
    r2: Option<(Pubkey, u8)>,
)
    requires
        r1 == find_pda(seq![seed_bytes()], program_id@),
        r2 == find_pda(seq![seed_bytes()], program_id@),
    ensures
        r1 == r2,
{
}

} // verus!
