//! Deterministic addressing: the address of every registry slot, and of every
//! associated token account, is derived from seeds and a program identity.
use crate::error::RegistryError;
use solana_program::pubkey::Pubkey;
use vstd::prelude::*;

verus! {

/// The program address derived from `seeds` under `program_id`, with its
/// bump seed, or `None` where no bump seed gives an address off the curve.
pub uninterp spec fn program_address(seeds: Seq<Seq<u8>>, program_id: Seq<u8>) -> Option<
    (Seq<u8>, u8),
>;

/// Relies on `Pubkey::try_find_program_address`: a function of the seeds and
/// the program id alone, `None` where no bump seed yields an address.
#[verifier::external_body]
fn find_program_address(seeds: &Vec<Vec<u8>>, program_id: &[u8; 32]) -> (r: Option<
    ([u8; 32], u8),
>)
    ensures
        match program_address(seeds.deep_view(), program_id@) {
            None => r is None,
            Some((k, b)) => r matches Some((x, y)) && x@ == k && y == b,
        },
{
    let refs: Vec<&[u8]> = seeds.iter().map(|s| s.as_slice()).collect();
    Pubkey::try_find_program_address(&refs, &Pubkey::new_from_array(*program_id)).map(
        |(k, b)| (k.to_bytes(), b),
    )
}

/// The address of the base account-ownership program (all zero bytes).
pub open spec fn system_program_key() -> Seq<u8> {
    Seq::new(32, |i: int| 0u8)
}

/// The address of the fungible-token program, TokenkegQfeZyiNwAJbNbGKPFXCWuBvf9Ss623VQ5DA.
pub open spec fn token_program_key() -> Seq<u8> {
    seq![
        6u8, 221, 246, 225, 215, 101, 161, 147, 217, 203, 225, 70, 206, 235, 121, 172, 28, 180,
        133, 237, 95, 91, 55, 145, 58, 140, 245, 133, 126, 255, 0, 169,
    ]
}

/// The address of the associated-token-account program, ATokenGPvbdGVxr1b2hvZbsiqW5xWH25efTNsLJA8knL.
pub open spec fn ata_program_key() -> Seq<u8> {
    seq![
        140u8, 151, 37, 143, 78, 36, 137, 241, 187, 61, 16, 41, 20, 142, 13, 131, 11, 90, 19, 153,
        218, 255, 16, 132, 4, 142, 123, 216, 219, 233, 248, 89,
    ]
}

/// The address of the rent sysvar, SysvarRent111111111111111111111111111111111.
pub open spec fn rent_sysvar_key() -> Seq<u8> {
    seq![
        6u8, 167, 213, 23, 25, 44, 92, 81, 33, 140, 201, 76, 61, 74, 241, 127, 88, 218, 238, 8, 155,
        161, 253, 68, 227, 219, 217, 138, 0, 0, 0, 0,
    ]
}

/// Relies on `solana_program::system_program::id`, declared from the base58
/// text 11111111111111111111111111111111.
#[verifier::external_body]
pub(crate) fn system_program_id() -> (r: [u8; 32])
    ensures
        r@ == system_program_key(),
{
    solana_program::system_program::id().to_bytes()
}

/// Relies on `spl_token::id`, declared from TokenkegQfeZyiNwAJbNbGKPFXCWuBvf9Ss623VQ5DA.
#[verifier::external_body]
pub(crate) fn token_program_id() -> (r: [u8; 32])
    ensures
        r@ == token_program_key(),
{
    spl_token::id().to_bytes()
}

/// Relies on `spl_associated_token_account::id`, declared from
/// ATokenGPvbdGVxr1b2hvZbsiqW5xWH25efTNsLJA8knL.
#[verifier::external_body]
pub(crate) fn ata_program_id() -> (r: [u8; 32])
    ensures
        r@ == ata_program_key(),
{
    spl_associated_token_account::id().to_bytes()
}

/// Relies on `solana_program::sysvar::rent::id`, declared from
/// SysvarRent111111111111111111111111111111111.
#[verifier::external_body]
pub(crate) fn rent_sysvar_id() -> (r: [u8; 32])
    ensures
        r@ == rent_sysvar_key(),
{
    solana_program::sysvar::rent::id().to_bytes()
}

/// The seeds of the associated token account of `wallet` for `mint`.
pub open spec fn ata_seeds(wallet: Seq<u8>, mint: Seq<u8>) -> Seq<Seq<u8>> {
    seq![wallet, token_program_key(), mint]
}

/// The associated token account of `wallet` for `mint`, where one can be derived.
pub open spec fn ata_of(wallet: Seq<u8>, mint: Seq<u8>) -> Option<Seq<u8>> {
    match program_address(ata_seeds(wallet, mint), ata_program_key()) {
        Some((k, _)) => Some(k),
        None => None,
    }
}

/// Relies on `spl_associated_token_account::get_associated_token_address`: the
/// program address of the seeds (wallet, token program, mint) under the
/// associated-token-account program. It panics where there is none, which
/// `requires` leaves out.
#[verifier::external_body]
fn associated_token_address(wallet: &[u8; 32], mint: &[u8; 32]) -> (r: [u8; 32])
    requires
        ata_of(wallet@, mint@) is Some,
    ensures
        ata_of(wallet@, mint@) == Some(r@),
{
    spl_associated_token_account::get_associated_token_address(
        &Pubkey::new_from_array(*wallet),
        &Pubkey::new_from_array(*mint),
    ).to_bytes()
}

fn key_vec(k: &[u8; 32]) -> (r: Vec<u8>)
    ensures
        r@ == k@,
{
    let mut v: Vec<u8> = Vec::new();
    let mut i: usize = 0;
    while i < 32
        invariant
            i <= 32,
            k@.len() == 32,
            v@ == k@.subrange(0, i as int),
        decreases 32 - i,
    {
        v.push(k[i]);
        i = i + 1;
        assert(v@ =~= k@.subrange(0, i as int));
    }
    assert(k@.subrange(0, 32) =~= k@);
    v
}

/// The associated token account of `wallet` for `mint`.
pub fn derive_associated_token_address(wallet: &[u8; 32], mint: &[u8; 32]) -> (r: Option<
    [u8; 32],
>)
    ensures
        match ata_of(wallet@, mint@) {
            None => r is None,
            Some(k) => r matches Some(x) && x@ == k,
        },
{
    let mut seeds: Vec<Vec<u8>> = Vec::new();
    seeds.push(key_vec(wallet));
    let token = token_program_id();
    seeds.push(key_vec(&token));
    seeds.push(key_vec(mint));
    assert(seeds@[0].deep_view() =~= wallet@);
    assert(seeds@[1].deep_view() =~= token_program_key());
    assert(seeds@[2].deep_view() =~= mint@);
    assert(seeds.deep_view() =~= ata_seeds(wallet@, mint@));
    let ata = ata_program_id();
    match find_program_address(&seeds, &ata) {
        None => None,
        Some(_) => Some(associated_token_address(wallet, mint)),
    }
}

/// A namespace tag as used for derivation: its first 32 bytes at most.
pub open spec fn namespace_seed(tag: Seq<u8>) -> Seq<u8> {
    if tag.len() <= 32 {
        tag
    } else {
        tag.subrange(0, 32)
    }
}

/// The slot address and bump seed for `tag` under `program_id`.
pub open spec fn derived_slot(program_id: Seq<u8>, tag: Seq<u8>) -> Option<(Seq<u8>, u8)> {
    program_address(seq![namespace_seed(tag)], program_id)
}

/// Derives the slot address and bump seed for a namespace tag.
pub fn derive_address(program_id: &[u8; 32], tag: &[u8]) -> (r: Option<([u8; 32], u8)>)
    ensures
        match derived_slot(program_id@, tag@) {
            None => r is None,
            Some((k, b)) => r matches Some((x, y)) && x@ == k && y == b,
        },
{
    let n: usize = if tag.len() < 32 {
        tag.len()
    } else {
        32
    };
    let mut seed: Vec<u8> = Vec::new();
    let mut i: usize = 0;
    while i < n
        invariant
            i <= n <= tag@.len(),
            n <= 32,
            n == tag@.len() || n == 32,
            seed@ == tag@.subrange(0, i as int),
        decreases n - i,
    {
        seed.push(tag[i]);
        i = i + 1;
        assert(seed@ =~= tag@.subrange(0, i as int));
    }
    assert(seed@ =~= namespace_seed(tag@));
    let mut seeds: Vec<Vec<u8>> = Vec::new();
    seeds.push(seed);
    assert(seeds@[0].deep_view() =~= namespace_seed(tag@));
    assert(seeds.deep_view() =~= seq![namespace_seed(tag@)]);
    find_program_address(&seeds, program_id)
}

/// Whether `key` is the derived address for `tag`.
pub open spec fn pda_check(program_id: Seq<u8>, key: Seq<u8>, tag: Seq<u8>) -> Result<
    u8,
    RegistryError,
> {
    match derived_slot(program_id, tag) {
        Some((k, b)) if k == key => Ok(b),
        _ => Err(RegistryError::InvalidProgramDerivedAccount),
    }
}

/// Checks that `key` is the address derived for `tag`; gives its bump seed.
pub fn verify(program_id: &[u8; 32], key: &[u8; 32], tag: &[u8]) -> (r: Result<u8, RegistryError>)
    ensures
        r == pda_check(program_id@, key@, tag@),
{
    match derive_address(program_id, tag) {
        Some((k, b)) => {
            if crate::codec::same_key(&k, key) {
                Ok(b)
            } else {
                Err(RegistryError::InvalidProgramDerivedAccount)
            }
        },
        None => Err(RegistryError::InvalidProgramDerivedAccount),
    }
}

} // verus!
