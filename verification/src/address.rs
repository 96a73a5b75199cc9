//! Deterministic addressing: the seeds from which the identity of a pool, of
//! an affiliate record and of a pool's escrow authority are derived.

use vstd::prelude::*;
use vstd::slice::slice_to_vec;
use vstd::string::StringSliceAdditionalSpecFns;
use crate::pubkey::Pubkey;

verus! {

/// The bytes of each seed of a list, in order.
pub open spec fn seed_bytes(seeds: &Vec<Vec<u8>>) -> Seq<Seq<u8>> {
    Seq::new(seeds@.len(), |i: int| seeds@[i]@)
}

/// The tag that opens the seeds of a pool record.
pub open spec fn pool_tag() -> Seq<u8> {
    "pool".spec_bytes()
}

/// The tag that opens the seeds of an affiliate record.
pub open spec fn affiliate_tag() -> Seq<u8> {
    "affiliate".spec_bytes()
}

/// The tag that opens the seeds of a pool's escrow authority.
pub open spec fn escrow_authority_tag() -> Seq<u8> {
    "escrow_authority".spec_bytes()
}

/// Seeds of a pool record: the tag, the merchant, the pool identifier.
pub open spec fn pool_seeds_of(merchant: Seq<u8>, pool_id: Seq<u8>) -> Seq<Seq<u8>> {
    seq![pool_tag(), merchant, pool_id]
}

/// Seeds of an affiliate record: the tag, the pool, the wallet.
pub open spec fn affiliate_seeds_of(pool: Seq<u8>, wallet: Seq<u8>) -> Seq<Seq<u8>> {
    seq![affiliate_tag(), pool, wallet]
}

/// Seeds of a pool's escrow authority: the tag and the pool.
pub open spec fn escrow_authority_seeds_of(pool: Seq<u8>) -> Seq<Seq<u8>> {
    seq![escrow_authority_tag(), pool]
}

/// Seeds with which the engine signs for a pool's escrow authority: the tag,
/// the pool, and the bump found when the authority was derived.
pub open spec fn escrow_signer_seeds_of(pool: Seq<u8>, bump: u8) -> Seq<Seq<u8>> {
    seq![escrow_authority_tag(), pool, seq![bump]]
}

/// The seeds with which the engine signs for a pool's escrow authority are
/// the seeds from which that authority is derived, followed by the bump.
pub proof fn signer_seeds_extend_authority_seeds(pool: Seq<u8>, bump: u8)
    ensures
        escrow_signer_seeds_of(pool, bump) == escrow_authority_seeds_of(pool).push(seq![bump]),
{
    assert(escrow_signer_seeds_of(pool, bump) =~= escrow_authority_seeds_of(pool).push(seq![bump]));
}

/// The seeds of the pool record of a merchant under a pool identifier.
pub fn pool_seeds(merchant: &Pubkey, pool_id: &str) -> (seeds: Vec<Vec<u8>>)
    ensures
        seed_bytes(&seeds) == pool_seeds_of(merchant@, pool_id.spec_bytes()),
{
    let mut seeds: Vec<Vec<u8>> = Vec::new();
    seeds.push(slice_to_vec("pool".as_bytes()));
    seeds.push(merchant.to_vec());
    seeds.push(slice_to_vec(pool_id.as_bytes()));
    assert(seed_bytes(&seeds) =~= pool_seeds_of(merchant@, pool_id.spec_bytes()));
    seeds
}

/// The seeds of the record of a wallet as an affiliate of a pool.
pub fn affiliate_seeds(pool: &Pubkey, wallet: &Pubkey) -> (seeds: Vec<Vec<u8>>)
    ensures
        seed_bytes(&seeds) == affiliate_seeds_of(pool@, wallet@),
{
    let mut seeds: Vec<Vec<u8>> = Vec::new();
    seeds.push(slice_to_vec("affiliate".as_bytes()));
    seeds.push(pool.to_vec());
    seeds.push(wallet.to_vec());
    assert(seed_bytes(&seeds) =~= affiliate_seeds_of(pool@, wallet@));
    seeds
}

/// The seeds of the escrow authority of a pool.
pub fn escrow_authority_seeds(pool: &Pubkey) -> (seeds: Vec<Vec<u8>>)
    ensures
        seed_bytes(&seeds) == escrow_authority_seeds_of(pool@),
{
    let mut seeds: Vec<Vec<u8>> = Vec::new();
    seeds.push(slice_to_vec("escrow_authority".as_bytes()));
    seeds.push(pool.to_vec());
    assert(seed_bytes(&seeds) =~= escrow_authority_seeds_of(pool@));
    seeds
}

/// The seeds with which the engine signs for the escrow authority of a pool.
pub fn escrow_signer_seeds(pool: &Pubkey, bump: u8) -> (seeds: Vec<Vec<u8>>)
    ensures
        seed_bytes(&seeds) == escrow_signer_seeds_of(pool@, bump),
{
    let mut seeds: Vec<Vec<u8>> = Vec::new();
    seeds.push(slice_to_vec("escrow_authority".as_bytes()));
    seeds.push(pool.to_vec());
    let mut last: Vec<u8> = Vec::new();
    last.push(bump);
    assert(last@ =~= seq![bump]);
    seeds.push(last);
    assert(seed_bytes(&seeds) =~= escrow_signer_seeds_of(pool@, bump));
    seeds
}

/// What the derivation of a program address finds for a list of seeds under
/// a program: the address and the bump that completes the seeds, or nothing.
pub uninterp spec fn program_address(seeds: Seq<Seq<u8>>, program_id: Seq<u8>) -> Option<(Seq<u8>, u8)>;

/// Whether one of the seeds is longer than the derivation takes.
pub open spec fn has_overlong_seed(seeds: Seq<Seq<u8>>) -> bool {
    exists|i: int| 0 <= i < seeds.len() && (#[trigger] seeds[i]).len() > 32
}

/// Whether `found` is what the derivation gives for `seeds` under `program_id`.
pub open spec fn is_derivation(seeds: Seq<Seq<u8>>, program_id: Pubkey, found: Option<(Pubkey, u8)>) -> bool {
    match found {
        Some((address, bump)) => program_address(seeds, program_id@) == Some((address@, bump)),
        None => program_address(seeds, program_id@) is None,
    }
}

/// Calls `Pubkey::try_find_program_address` of `solana_program`, as
/// `anchor_lang` hands it on. Trusted: the result is a function of the
/// seeds' bytes and the program's bytes alone, which is all the contract
/// says by giving it a name, but for one fact: a seed of more than
/// thirty-two bytes ends the search with nothing. The outside function
/// hashes the seeds with each bump from 255 downwards and returns the first
/// address that is no curve point, or nothing where there is none; it does
/// not panic.
#[verifier::external_body]
fn try_find_program_address(seeds: &Vec<Vec<u8>>, program_id: &Pubkey) -> (found: Option<(Pubkey, u8)>)
    ensures
        found matches Some(pair) ==> program_address(seed_bytes(seeds), program_id@) == Some((pair.0@, pair.1)),
        found is None ==> program_address(seed_bytes(seeds), program_id@) is None,
        has_overlong_seed(seed_bytes(seeds)) ==> found is None,
{
    let slices: Vec<&[u8]> = seeds.iter().map(|seed| seed.as_slice()).collect();
    let id = anchor_lang::prelude::Pubkey::new_from_array(program_id.bytes);
    anchor_lang::prelude::Pubkey::try_find_program_address(&slices, &id).map(
        |(address, bump)| (Pubkey { bytes: address.to_bytes() }, bump),
    )
}

/// Whether a derivation found exactly the address `key` with the bump `bump`.
pub fn matches_derivation(found: &Option<(Pubkey, u8)>, key: &Pubkey, bump: u8) -> (ok: bool)
    ensures
        ok == (*found == Some((*key, bump))),
        ok == (*found matches Some(pair) && pair.0@ == key@ && pair.1 == bump),
{
    match found {
        Some((address, found_bump)) => address.same(key) && *found_bump == bump,
        None => false,
    }
}

/// The address of the pool record of a merchant under a pool identifier,
/// with its bump, as derived under `program_id`. An identifier of more than
/// thirty-two bytes has no address.
pub fn find_pool_address(program_id: &Pubkey, merchant: &Pubkey, pool_id: &str) -> (found: Option<(Pubkey, u8)>)
    ensures
        is_derivation(pool_seeds_of(merchant@, pool_id.spec_bytes()), *program_id, found),
        pool_id.spec_bytes().len() > 32 ==> found is None,
{
    let seeds = pool_seeds(merchant, pool_id);
    proof {
        if pool_id.spec_bytes().len() > 32 {
            assert(seed_bytes(&seeds)[2].len() > 32);
        }
    }
    try_find_program_address(&seeds, program_id)
}

/// The address of the record of a wallet as an affiliate of a pool, with
/// its bump, as derived under `program_id`.
pub fn find_affiliate_address(program_id: &Pubkey, pool: &Pubkey, wallet: &Pubkey) -> (found: Option<(Pubkey, u8)>)
    ensures
        is_derivation(affiliate_seeds_of(pool@, wallet@), *program_id, found),
{
    let seeds = affiliate_seeds(pool, wallet);
    try_find_program_address(&seeds, program_id)
}

/// The escrow authority of a pool, with its bump, as derived under
/// `program_id`: anyone who knows the pool can compute it, and nobody holds
/// a key for it.
pub fn find_escrow_authority(program_id: &Pubkey, pool: &Pubkey) -> (found: Option<(Pubkey, u8)>)
    ensures
        is_derivation(escrow_authority_seeds_of(pool@), *program_id, found),
{
    let seeds = escrow_authority_seeds(pool);
    try_find_program_address(&seeds, program_id)
}

/// Whether `key` with `bump` is the address of the pool record of `merchant`
/// under `pool_id`, as derived under `program_id`.
pub fn is_pool_address(program_id: &Pubkey, merchant: &Pubkey, pool_id: &str, key: &Pubkey, bump: u8) -> (ok: bool)
    ensures
        ok == (program_address(pool_seeds_of(merchant@, pool_id.spec_bytes()), program_id@) == Some((key@, bump))),
{
    let found = find_pool_address(program_id, merchant, pool_id);
    matches_derivation(&found, key, bump)
}

/// Whether `key` with `bump` is the address of the record of `wallet` as an
/// affiliate of `pool`, as derived under `program_id`.
pub fn is_affiliate_address(program_id: &Pubkey, pool: &Pubkey, wallet: &Pubkey, key: &Pubkey, bump: u8) -> (ok: bool)
    ensures
        ok == (program_address(affiliate_seeds_of(pool@, wallet@), program_id@) == Some((key@, bump))),
{
    let found = find_affiliate_address(program_id, pool, wallet);
    matches_derivation(&found, key, bump)
}

/// Whether `authority` with `bump` is the escrow authority of `pool` under `program_id`.
pub fn is_escrow_authority(program_id: &Pubkey, pool: &Pubkey, authority: &Pubkey, bump: u8) -> (ok: bool)
    ensures
        ok == (program_address(escrow_authority_seeds_of(pool@), program_id@) == Some((authority@, bump))),
{
    let found = find_escrow_authority(program_id, pool);
    matches_derivation(&found, authority, bump)
}

} // verus!
