use vstd::prelude::*;
use crate::address::Address;

verus! {

/// The program address derived from `seeds` under `program_id`, with the bump
/// seed that made it fall off the curve; `None` when no bump seed works.
pub uninterp spec fn program_address(seeds: Seq<Seq<u8>>, program_id: [u8; 32]) -> Option<([u8; 32], u8)>;

/// Relies on `Pubkey::try_find_program_address` of solana-program (as
/// re-exported by anchor-lang): the search over bump seeds is a function of
/// the seeds and the program id alone, and returns `None` instead of panicking.
#[verifier::external_body]
fn try_find_program_address(seeds: &Vec<Vec<u8>>, program_id: &[u8; 32]) -> (r: Option<([u8; 32], u8)>)
    ensures
        r == program_address(seeds.deep_view(), *program_id),
{
    let slices: Vec<&[u8]> = seeds.iter().map(|s| s.as_slice()).collect();
    let program = anchor_lang::prelude::Pubkey::new_from_array(*program_id);
    anchor_lang::prelude::Pubkey::try_find_program_address(&slices, &program)
        .map(|(key, bump)| (key.to_bytes(), bump))
}

/// The fixed domain tag of every auction address: the bytes of "sale".
pub open spec fn sale_tag() -> Seq<u8> {
    seq![0x73u8, 0x61u8, 0x6cu8, 0x65u8]
}

/// The seeds that tie an auction's record and vault authority to its asset.
pub open spec fn vault_seeds(mint: Address) -> Seq<Seq<u8>> {
    seq![sale_tag(), mint.bytes@]
}

/// The signing capability that releases an auction's vault: a derived address
/// and the bump seed that proves it.
#[derive(Clone, Copy, Debug, PartialEq, Eq)]
pub struct VaultAuthority {
    pub address: Address,
    pub bump: u8,
}

/// The vault authority of the auction of `mint` run by `program_id`.
pub open spec fn vault_authority_of(mint: Address, program_id: Address) -> Option<VaultAuthority> {
    match program_address(vault_seeds(mint), program_id.bytes) {
        Some((bytes, bump)) => Some(VaultAuthority { address: Address { bytes }, bump }),
        None => None,
    }
}

fn bytes_to_vec(bytes: &[u8; 32]) -> (r: Vec<u8>)
    ensures
        r@ == bytes@,
{
    let mut v: Vec<u8> = Vec::new();
    let mut i: usize = 0;
    while i < 32
        invariant
            0 <= i <= 32,
            v@ == bytes@.subrange(0, i as int),
        decreases 32 - i,
    {
        v.push(bytes[i]);
        i = i + 1;
    }
    assert(bytes@.subrange(0, 32) =~= bytes@);
    v
}

/// The seed list `[tag, mint]` used to derive the vault authority.
pub fn make_vault_seeds(mint: &Address) -> (r: Vec<Vec<u8>>)
    ensures
        r.deep_view() == vault_seeds(*mint),
        r@.len() == 2,
        r@[0]@ == sale_tag(),
        r@[1]@ == mint.bytes@,
{
    let mut tag: Vec<u8> = Vec::new();
    tag.push(0x73);
    tag.push(0x61);
    tag.push(0x6c);
    tag.push(0x65);
    let key = bytes_to_vec(&mint.bytes);
    assert(tag.deep_view() =~= sale_tag());
    assert(key.deep_view() =~= mint.bytes@);
    let mut seeds: Vec<Vec<u8>> = Vec::new();
    seeds.push(tag);
    seeds.push(key);
    assert(seeds.deep_view() =~= vault_seeds(*mint));
    seeds
}

/// Derives the vault authority of the auction of `mint`: the same inputs
/// always give the same authority.
pub fn derive_vault_authority(mint: &Address, program_id: &Address) -> (r: Option<VaultAuthority>)
    ensures
        r == vault_authority_of(*mint, *program_id),
{
    let seeds = make_vault_seeds(mint);
    match try_find_program_address(&seeds, &program_id.bytes) {
        Some((bytes, bump)) => Some(VaultAuthority { address: Address { bytes }, bump }),
        None => None,
    }
}

impl VaultAuthority {
    /// The seeds, bump included, with which the vault release is signed.
    pub fn signer_seeds(&self, mint: &Address) -> (r: Vec<Vec<u8>>)
        ensures
            r.deep_view() == vault_seeds(*mint).push(seq![self.bump]),
    {
        let mut seeds = make_vault_seeds(mint);
        let mut bump: Vec<u8> = Vec::new();
        bump.push(self.bump);
        assert(bump.deep_view() =~= seq![self.bump]);
        let ghost before = seeds@;
        seeds.push(bump);
        assert(seeds@ == before.push(bump));
        assert(seeds@[0].deep_view() =~= sale_tag());
        assert(seeds@[1].deep_view() =~= mint.bytes@);
        assert(seeds.deep_view() =~= vault_seeds(*mint).push(seq![self.bump]));
        seeds
    }
}

} // verus!
