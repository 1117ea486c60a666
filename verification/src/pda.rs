//! Program-derived addresses: the well-known program ids, the seeds the program uses, and the
//! address derivations, which the runtime library computes.
use vstd::prelude::*;

use crate::codec::put_pubkey;
use crate::pubkey::Pubkey;

verus! {

/// The address that `try_find_program_address` derives from `seeds` for `program_id`
/// (with the bump it found), or `None` when no bump gives an address off the curve.
pub uninterp spec fn spec_try_find_program_address(seeds: Seq<Seq<u8>>, program_id: Seq<u8>) -> Option<(Seq<u8>, u8)>;

/// The address that `create_program_address` derives from `seeds` for `program_id`,
/// or `None` when the derivation is refused.
pub uninterp spec fn spec_create_program_address(seeds: Seq<Seq<u8>>, program_id: Seq<u8>) -> Option<Seq<u8>>;

/// The address that `create_with_seed` derives from `base`, `seed` and `owner`, or `None`
/// when it is refused.
pub uninterp spec fn spec_create_with_seed(base: Seq<u8>, seed: Seq<char>, owner: Seq<u8>) -> Option<Seq<u8>>;

/// The views of a list of seeds.
pub open spec fn seeds_view(seeds: Seq<Vec<u8>>) -> Seq<Seq<u8>> {
    seeds.map_values(|s: Vec<u8>| s@)
}

/// Wraps `Pubkey::try_find_program_address` of the runtime library. Claimed: the result is the
/// named derivation of the seeds and program id, and a found address is what
/// `create_program_address` gives for the same seeds followed by the one-byte bump (the search
/// returns exactly that call's answer).
#[verifier::external_body]
fn try_find_program_address(seeds: &Vec<Vec<u8>>, program_id: &Pubkey) -> (r: Option<(Pubkey, u8)>)
    ensures
        r is Some <==> spec_try_find_program_address(seeds_view(seeds@), program_id@) is Some,
        r matches Some(p) ==> spec_try_find_program_address(seeds_view(seeds@), program_id@) == Some((p.0@, p.1)),
        r matches Some(p) ==> spec_create_program_address(seeds_view(seeds@).push(seq![p.1]), program_id@) == Some(p.0@),
{
    let refs: Vec<&[u8]> = seeds.iter().map(|s| s.as_slice()).collect();
    let id = anchor_lang::solana_program::pubkey::Pubkey::new_from_array(program_id.bytes);
    anchor_lang::solana_program::pubkey::Pubkey::try_find_program_address(&refs, &id).map(
        |(k, b)| (Pubkey::new_from_array(k.to_bytes()), b),
    )
}

/// Wraps `Pubkey::create_program_address` of the runtime library. Claimed: the result is the
/// named derivation; it is refused when there are more than 16 seeds or a seed is longer than
/// 32 bytes (checked first in the source).
#[verifier::external_body]
fn create_program_address(seeds: &Vec<Vec<u8>>, program_id: &Pubkey) -> (r: Option<Pubkey>)
    ensures
        r is Some <==> spec_create_program_address(seeds_view(seeds@), program_id@) is Some,
        r matches Some(k) ==> spec_create_program_address(seeds_view(seeds@), program_id@) == Some(k@),
        (seeds@.len() > 16 || exists|i: int| 0 <= i < seeds@.len() && #[trigger] seeds@[i]@.len() > 32) ==> r is None,
{
    let refs: Vec<&[u8]> = seeds.iter().map(|s| s.as_slice()).collect();
    let id = anchor_lang::solana_program::pubkey::Pubkey::new_from_array(program_id.bytes);
    anchor_lang::solana_program::pubkey::Pubkey::create_program_address(&refs, &id).ok().map(
        |k| Pubkey::new_from_array(k.to_bytes()),
    )
}

/// Wraps `Pubkey::create_with_seed` of the runtime library. Claimed: the result is the named
/// derivation of base, seed and owner.
#[verifier::external_body]
fn create_with_seed(base: &Pubkey, seed: &str, owner: &Pubkey) -> (r: Option<Pubkey>)
    ensures
        r is Some <==> spec_create_with_seed(base@, seed@, owner@) is Some,
        r matches Some(k) ==> spec_create_with_seed(base@, seed@, owner@) == Some(k@),
{
    let b = anchor_lang::solana_program::pubkey::Pubkey::new_from_array(base.bytes);
    let o = anchor_lang::solana_program::pubkey::Pubkey::new_from_array(owner.bytes);
    anchor_lang::solana_program::pubkey::Pubkey::create_with_seed(&b, seed, &o).ok().map(
        |k| Pubkey::new_from_array(k.to_bytes()),
    )
}

/// This program's id (MarBmsSgKXdrN1egZf5sqe1TMai9K1rChYNDJgjq7aD).
pub open spec fn spec_program_id() -> Seq<u8> {
    seq![5u8, 69, 227, 101, 190, 242, 113, 173, 117, 53, 3, 103, 86, 93, 164, 13, 163, 54, 220, 28, 135, 155, 177,
        84, 138, 122, 252, 197, 90, 169, 57, 30]
}

/// The token program id (TokenkegQfeZyiNwAJbNbGKPFXCWuBvf9Ss623VQ5DA).
pub open spec fn spec_token_program_id() -> Seq<u8> {
    seq![6u8, 221, 246, 225, 215, 101, 161, 147, 217, 203, 225, 70, 206, 235, 121, 172, 28, 180, 133, 237, 95, 91,
        55, 145, 58, 140, 245, 133, 126, 255, 0, 169]
}

/// This program's id.
pub fn program_id() -> (k: Pubkey)
    ensures
        k@ == spec_program_id(),
{
    let k = Pubkey::new_from_array(
        [5u8, 69, 227, 101, 190, 242, 113, 173, 117, 53, 3, 103, 86, 93, 164, 13, 163, 54, 220, 28, 135, 155, 177,
        84, 138, 122, 252, 197, 90, 169, 57, 30],
    );
    assert(k@ =~= spec_program_id());
    k
}

/// The token program id.
pub fn token_program_id() -> (k: Pubkey)
    ensures
        k@ == spec_token_program_id(),
{
    let k = Pubkey::new_from_array(
        [6u8, 221, 246, 225, 215, 101, 161, 147, 217, 203, 225, 70, 206, 235, 121, 172, 28, 180, 133, 237, 95, 91,
        55, 145, 58, 140, 245, 133, 126, 255, 0, 169],
    );
    assert(k@ =~= spec_token_program_id());
    k
}

/// The stake program id (Stake11111111111111111111111111111111111111).
pub open spec fn spec_stake_program_id() -> Seq<u8> {
    seq![6u8, 161, 216, 23, 145, 55, 84, 42, 152, 52, 55, 189, 254, 42, 122, 178, 85, 127, 83, 92, 138, 120, 114,
        43, 104, 164, 157, 192, 0, 0, 0, 0]
}

/// The stake program id.
pub fn stake_program_id() -> (k: Pubkey)
    ensures
        k@ == spec_stake_program_id(),
{
    let k = Pubkey::new_from_array(
        [6u8, 161, 216, 23, 145, 55, 84, 42, 152, 52, 55, 189, 254, 42, 122, 178, 85, 127, 83, 92, 138, 120, 114,
        43, 104, 164, 157, 192, 0, 0, 0, 0],
    );
    assert(k@ =~= spec_stake_program_id());
    k
}

/// The seed tags the program derives its addresses with.
#[derive(Clone, Copy, Debug, PartialEq, Eq)]
pub enum SeedTag {
    /// `liq_mint`: the LP mint authority.
    LpMintAuthority,
    /// `liq_sol`: the SOL leg of the liquidity pool.
    SolLeg,
    /// `liq_st_sol_authority`: the authority of the mSOL leg.
    MsolLegAuthority,
    /// `withdraw`: the stake withdraw authority.
    StakeWithdraw,
    /// `deposit`: the stake deposit authority.
    StakeDeposit,
    /// `reserve`: the reserve account.
    Reserve,
    /// `st_mint`: the mSOL mint authority.
    MsolMintAuthority,
    /// `unique_validator`: a validator's duplication flag.
    DuplicateFlag,
}

/// The bytes of a seed tag.
pub open spec fn spec_seed_tag(tag: SeedTag) -> Seq<u8> {
    match tag {
        SeedTag::LpMintAuthority => seq![108u8, 105, 113, 95, 109, 105, 110, 116],
        SeedTag::SolLeg => seq![108u8, 105, 113, 95, 115, 111, 108],
        SeedTag::MsolLegAuthority => seq![108u8, 105, 113, 95, 115, 116, 95, 115, 111, 108, 95, 97, 117, 116, 104, 111,
            114, 105, 116, 121],
        SeedTag::StakeWithdraw => seq![119u8, 105, 116, 104, 100, 114, 97, 119],
        SeedTag::StakeDeposit => seq![100u8, 101, 112, 111, 115, 105, 116],
        SeedTag::Reserve => seq![114u8, 101, 115, 101, 114, 118, 101],
        SeedTag::MsolMintAuthority => seq![115u8, 116, 95, 109, 105, 110, 116],
        SeedTag::DuplicateFlag => seq![117u8, 110, 105, 113, 117, 101, 95, 118, 97, 108, 105, 100, 97, 116, 111, 114],
    }
}

/// The bytes of a seed tag.
pub fn seed_tag(tag: SeedTag) -> (v: Vec<u8>)
    ensures
        v@ == spec_seed_tag(tag),
{
    let v = match tag {
        SeedTag::LpMintAuthority => vec![108u8, 105, 113, 95, 109, 105, 110, 116],
        SeedTag::SolLeg => vec![108u8, 105, 113, 95, 115, 111, 108],
        SeedTag::MsolLegAuthority => vec![108u8, 105, 113, 95, 115, 116, 95, 115, 111, 108, 95, 97, 117, 116, 104, 111,
            114, 105, 116, 121],
        SeedTag::StakeWithdraw => vec![119u8, 105, 116, 104, 100, 114, 97, 119],
        SeedTag::StakeDeposit => vec![100u8, 101, 112, 111, 115, 105, 116],
        SeedTag::Reserve => vec![114u8, 101, 115, 101, 114, 118, 101],
        SeedTag::MsolMintAuthority => vec![115u8, 116, 95, 109, 105, 110, 116],
        SeedTag::DuplicateFlag => vec![117u8, 110, 105, 113, 117, 101, 95, 118, 97, 108, 105, 100, 97, 116, 111, 114],
    };
    assert(v@ =~= spec_seed_tag(tag));
    v
}

/// The seeds `[base, tag]` of an address the program derives from an account.
pub open spec fn spec_seeds(base: Seq<u8>, tag: SeedTag) -> Seq<Seq<u8>> {
    seq![base, spec_seed_tag(tag)]
}

fn key_bytes(key: &Pubkey) -> (v: Vec<u8>)
    ensures
        v@ == key@,
{
    let mut v: Vec<u8> = Vec::new();
    put_pubkey(&mut v, key);
    assert(v@ =~= key@);
    v
}

fn base_seeds(base: &Pubkey, tag: SeedTag) -> (seeds: Vec<Vec<u8>>)
    ensures
        seeds_view(seeds@) == spec_seeds(base@, tag),
{
    let mut seeds: Vec<Vec<u8>> = Vec::new();
    seeds.push(key_bytes(base));
    seeds.push(seed_tag(tag));
    assert(seeds_view(seeds@) =~= spec_seeds(base@, tag));
    seeds
}

/// Finds the address derived from `[base, tag]` and its bump.
pub fn find_address(base: &Pubkey, tag: SeedTag) -> (r: Option<(Pubkey, u8)>)
    ensures
        r is Some <==> spec_try_find_program_address(spec_seeds(base@, tag), spec_program_id()) is Some,
        r matches Some(p) ==> spec_try_find_program_address(spec_seeds(base@, tag), spec_program_id()) == Some((p.0@, p.1)),
        r matches Some(p) ==> spec_create_program_address(spec_seeds(base@, tag).push(seq![p.1]), spec_program_id())
            == Some(p.0@),
{
    let seeds = base_seeds(base, tag);
    let id = program_id();
    try_find_program_address(&seeds, &id)
}

/// Finds the address derived from `[base, tag, extra]` and its bump.
pub fn find_address_with(base: &Pubkey, tag: SeedTag, extra: &Pubkey) -> (r: Option<(Pubkey, u8)>)
    ensures
        r is Some <==> spec_try_find_program_address(spec_seeds(base@, tag).push(extra@), spec_program_id()) is Some,
        r matches Some(p) ==> spec_try_find_program_address(spec_seeds(base@, tag).push(extra@), spec_program_id())
            == Some((p.0@, p.1)),
{
    let mut seeds = base_seeds(base, tag);
    seeds.push(key_bytes(extra));
    assert(seeds_view(seeds@) =~= spec_seeds(base@, tag).push(extra@));
    let id = program_id();
    try_find_program_address(&seeds, &id)
}

/// The seeds `[base, extra, seed]` of an address derived from two accounts and a seed.
pub open spec fn spec_pair_seeds(base: Seq<u8>, extra: Seq<u8>, seed: Seq<u8>) -> Seq<Seq<u8>> {
    seq![base, extra, seed]
}

/// Finds the address derived from `[base, extra, seed]` and its bump.
pub fn find_pair_address(base: &Pubkey, extra: &Pubkey, seed: &[u8]) -> (r: Option<(Pubkey, u8)>)
    ensures
        r is Some <==> spec_try_find_program_address(spec_pair_seeds(base@, extra@, seed@), spec_program_id()) is Some,
        r matches Some(p) ==> spec_try_find_program_address(spec_pair_seeds(base@, extra@, seed@), spec_program_id())
            == Some((p.0@, p.1)),
{
    let mut seeds: Vec<Vec<u8>> = Vec::new();
    seeds.push(key_bytes(base));
    seeds.push(key_bytes(extra));
    let mut s: Vec<u8> = Vec::new();
    let mut i: usize = 0;
    while i < seed.len()
        invariant
            i <= seed@.len(),
            s@ == seed@.subrange(0, i as int),
        decreases seed@.len() - i,
    {
        s.push(seed[i]);
        i = i + 1;
        assert(s@ =~= seed@.subrange(0, i as int));
    }
    assert(s@ =~= seed@);
    seeds.push(s);
    assert(seeds_view(seeds@) =~= spec_pair_seeds(base@, extra@, seed@));
    let id = program_id();
    try_find_program_address(&seeds, &id)
}

/// Recreates the address derived from `[base, tag, [bump]]`.
pub fn create_address(base: &Pubkey, tag: SeedTag, bump: u8) -> (r: Option<Pubkey>)
    ensures
        r is Some <==> spec_create_program_address(spec_seeds(base@, tag).push(seq![bump]), spec_program_id()) is Some,
        r matches Some(k) ==> spec_create_program_address(spec_seeds(base@, tag).push(seq![bump]), spec_program_id())
            == Some(k@),
{
    let mut seeds = base_seeds(base, tag);
    let b: Vec<u8> = vec![bump];
    assert(b@ =~= seq![bump]);
    seeds.push(b);
    assert(seeds_view(seeds@) =~= spec_seeds(base@, tag).push(seq![bump]));
    let id = program_id();
    create_program_address(&seeds, &id)
}

/// Recreates the address derived from `[base, tag, extra, [bump]]`.
pub fn create_address_with(base: &Pubkey, tag: SeedTag, extra: &Pubkey, bump: u8) -> (r: Option<Pubkey>)
    ensures
        r is Some <==> spec_create_program_address(spec_seeds(base@, tag).push(extra@).push(seq![bump]), spec_program_id())
            is Some,
        r matches Some(k) ==> spec_create_program_address(spec_seeds(base@, tag).push(extra@).push(seq![bump]), spec_program_id())
            == Some(k@),
{
    let mut seeds = base_seeds(base, tag);
    seeds.push(key_bytes(extra));
    let b: Vec<u8> = vec![bump];
    assert(b@ =~= seq![bump]);
    seeds.push(b);
    assert(seeds_view(seeds@) =~= spec_seeds(base@, tag).push(extra@).push(seq![bump]));
    let id = program_id();
    create_program_address(&seeds, &id)
}

/// The address derived from `base`, the text `seed` and the `owner` program.
pub fn address_with_seed(base: &Pubkey, seed: &str, owner: &Pubkey) -> (r: Option<Pubkey>)
    ensures
        r is Some <==> spec_create_with_seed(base@, seed@, owner@) is Some,
        r matches Some(k) ==> spec_create_with_seed(base@, seed@, owner@) == Some(k@),
{
    create_with_seed(base, seed, owner)
}

} // verus!
