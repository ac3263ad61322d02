//! Derived addresses and the secret hash, computed by the ledger's own
//! routines.
use vstd::prelude::*;
use anchor_lang::solana_program::pubkey::{Pubkey, PubkeyError};
use crate::address::{Address, le_bytes, le_bytes_of};

verus! {

#[verifier::external_type_specification]
#[verifier::external_body]
pub struct ExPubkeyError(PubkeyError);

/// The address that the ledger derives for a program from a list of seeds,
/// or `None` where the derivation is refused (the point lies on the curve,
/// or the seeds are too many or too long).
pub uninterp spec fn program_address_of(seeds: Seq<Seq<u8>>, program_id: Seq<u8>) -> Option<Seq<u8>>;

/// The canonical derivation: the first bump, trying 255 down to 1, for which
/// the seeds followed by that bump derive an address, with that address;
/// `None` where no bump does or the seeds are refused.
pub uninterp spec fn canonical_address_of(seeds: Seq<Seq<u8>>, program_id: Seq<u8>) -> Option<(Seq<u8>, u8)>;

/// The SHA-256 digest of a byte string.
pub uninterp spec fn sha256_of(data: Seq<u8>) -> Seq<u8>;

/// The seeds followed by a one-byte bump seed.
pub open spec fn with_bump(seeds: Seq<Seq<u8>>, bump: u8) -> Seq<Seq<u8>> {
    seeds.push(seq![bump])
}

/// Relies on `Pubkey::create_program_address`: the derived address for the
/// seeds, or an error exactly where the derivation is refused.
#[verifier::external_body]
fn create_program_address(seeds: &Vec<Vec<u8>>, program_id: &Address) -> (r: Result<Address, PubkeyError>)
    ensures
        r is Ok <==> program_address_of(seeds.deep_view(), program_id@) is Some,
        r is Ok ==> program_address_of(seeds.deep_view(), program_id@) == Some(r->Ok_0@),
{
    let s: Vec<&[u8]> = seeds.iter().map(|v| v.as_slice()).collect();
    Pubkey::create_program_address(&s, &Pubkey::new_from_array(program_id.bytes))
        .map(|p| Address { bytes: p.to_bytes() })
}

/// Relies on `Pubkey::try_find_program_address`: the canonical bump and
/// address, found by calling `Pubkey::create_program_address` on the seeds
/// followed by each bump in turn, so the found pair is such a derivation.
#[verifier::external_body]
fn try_find_program_address(seeds: &Vec<Vec<u8>>, program_id: &Address) -> (r: Option<(Address, u8)>)
    ensures
        r matches Some((a, b)) ==> canonical_address_of(seeds.deep_view(), program_id@) == Some((a@, b)),
        r is None ==> canonical_address_of(seeds.deep_view(), program_id@) is None,
        r matches Some((a, b)) ==> program_address_of(with_bump(seeds.deep_view(), b), program_id@) == Some(a@),
{
    let s: Vec<&[u8]> = seeds.iter().map(|v| v.as_slice()).collect();
    Pubkey::try_find_program_address(&s, &Pubkey::new_from_array(program_id.bytes))
        .map(|(p, b)| (Address { bytes: p.to_bytes() }, b))
}

/// Relies on `solana_program::hash::hash`: the SHA-256 digest of the bytes.
#[verifier::external_body]
fn sha256(data: &[u8; 32]) -> (r: [u8; 32])
    ensures
        r@ == sha256_of(data@),
{
    anchor_lang::solana_program::hash::hash(data).to_bytes()
}


/// The seeds of the signing authority: none.
pub open spec fn identity_seeds() -> Seq<Seq<u8>> {
    Seq::empty()
}

/// The seeds of the vault of one token type: the token type alone.
pub open spec fn vault_seeds(mint: Seq<u8>) -> Seq<Seq<u8>> {
    seq![mint]
}

/// The seeds of a swap record: every swap parameter, each at a fixed width.
pub open spec fn record_seeds(
    mint: Seq<u8>,
    redeemer: Seq<u8>,
    refundee: Seq<u8>,
    secret_hash: Seq<u8>,
    swap_amount: u64,
    timelock: u64,
) -> Seq<Seq<u8>> {
    seq![mint, redeemer, refundee, secret_hash, le_bytes_of(swap_amount), le_bytes_of(timelock)]
}

/// An address derived by the ledger, with the bump that completed its seeds.
#[derive(Clone, Copy, Debug)]
pub struct DerivedAddress {
    pub address: Address,
    pub bump: u8,
}

/// The abstract value of an optional derived address.
pub open spec fn derived_view(d: Option<DerivedAddress>) -> Option<(Seq<u8>, u8)> {
    match d {
        Some(x) => Some((x.address@, x.bump)),
        None => None,
    }
}

/// The derivation from the seeds and a given bump, paired with that bump.
pub open spec fn bumped_address_of(seeds: Seq<Seq<u8>>, bump: u8, program_id: Seq<u8>) -> Option<(Seq<u8>, u8)> {
    match program_address_of(with_bump(seeds, bump), program_id) {
        Some(a) => Some((a, bump)),
        None => None,
    }
}

/// Whether a claimed address is the one that was derived.
pub open spec fn is_derived(claimed: Seq<u8>, d: Option<(Seq<u8>, u8)>) -> bool {
    d matches Some(x) && x.0 == claimed
}

/// Whether `claimed` is the derived address `d`.
pub fn matches_derived(claimed: &Address, d: &Option<DerivedAddress>) -> (r: bool)
    ensures
        r == is_derived(claimed@, derived_view(*d)),
{
    match d {
        Some(x) => x.address.same_as(claimed),
        None => false,
    }
}

/// The three addresses that one swap's accounts must carry.
#[derive(Clone, Copy, Debug)]
pub struct Derivation {
    pub identity: Option<DerivedAddress>,
    pub record: Option<DerivedAddress>,
    pub vault: Option<DerivedAddress>,
}

fn bytes_to_vec(a: &[u8; 32]) -> (r: Vec<u8>)
    ensures
        r@ == a@,
{
    let mut r: Vec<u8> = Vec::new();
    let mut i: usize = 0;
    while i < 32
        invariant
            0 <= i <= 32,
            a@.len() == 32,
            r@ == a@.subrange(0, i as int),
        decreases 32 - i,
    {
        r.push(a[i]);
        i = i + 1;
        assert(r@ =~= a@.subrange(0, i as int));
    }
    assert(a@.subrange(0, 32) =~= a@);
    r
}

proof fn lemma_seeds_deep_view(r: Vec<Vec<u8>>)
    ensures
        r.deep_view() =~= r@.map_values(|v: Vec<u8>| v@),
{
    assert forall|i: int| 0 <= i < r@.len() implies r@[i].deep_view() == r@[i]@ by {
        assert(r@[i].deep_view() =~= r@[i]@);
    }
}

fn identity_seed_list() -> (r: Vec<Vec<u8>>)
    ensures
        r.deep_view() == identity_seeds(),
{
    let r: Vec<Vec<u8>> = Vec::new();
    assert(r.deep_view() =~= identity_seeds());
    r
}

fn vault_seed_list(mint: &Address) -> (r: Vec<Vec<u8>>)
    ensures
        r.deep_view() == vault_seeds(mint@),
{
    let mut r: Vec<Vec<u8>> = Vec::new();
    r.push(bytes_to_vec(&mint.bytes));
    proof {
        lemma_seeds_deep_view(r);
    }
    assert(r.deep_view() =~= vault_seeds(mint@));
    r
}

fn record_seed_list(
    mint: &Address,
    redeemer: &Address,
    refundee: &Address,
    secret_hash: &[u8; 32],
    swap_amount: u64,
    timelock: u64,
) -> (r: Vec<Vec<u8>>)
    ensures
        r.deep_view() == record_seeds(mint@, redeemer@, refundee@, secret_hash@, swap_amount, timelock),
{
    let mut r: Vec<Vec<u8>> = Vec::new();
    r.push(bytes_to_vec(&mint.bytes));
    r.push(bytes_to_vec(&redeemer.bytes));
    r.push(bytes_to_vec(&refundee.bytes));
    r.push(bytes_to_vec(secret_hash));
    r.push(le_bytes(swap_amount));
    r.push(le_bytes(timelock));
    proof {
        lemma_seeds_deep_view(r);
    }
    assert(r.deep_view() =~= record_seeds(mint@, redeemer@, refundee@, secret_hash@, swap_amount, timelock));
    r
}

fn find_address(seeds: &Vec<Vec<u8>>, program_id: &Address) -> (r: Option<DerivedAddress>)
    ensures
        derived_view(r) == canonical_address_of(seeds.deep_view(), program_id@),
        r matches Some(x) ==> program_address_of(with_bump(seeds.deep_view(), x.bump), program_id@) == Some(x.address@),
{
    match try_find_program_address(seeds, program_id) {
        Some((address, bump)) => Some(DerivedAddress { address, bump }),
        None => None,
    }
}

fn check_address(seeds: Vec<Vec<u8>>, bump: u8, program_id: &Address) -> (r: Option<DerivedAddress>)
    ensures
        derived_view(r) == bumped_address_of(seeds.deep_view(), bump, program_id@),
{
    let mut with: Vec<Vec<u8>> = seeds;
    let mut b: Vec<u8> = Vec::new();
    b.push(bump);
    assert(b@ =~= seq![bump]);
    with.push(b);
    assert(with@ == seeds@.push(b));
    proof {
        lemma_seeds_deep_view(with);
        lemma_seeds_deep_view(seeds);
    }
    assert(with.deep_view() =~= with_bump(seeds.deep_view(), bump));
    match create_program_address(&with, program_id) {
        Ok(address) => Some(DerivedAddress { address, bump }),
        Err(_) => None,
    }
}

/// The addresses that a new swap with these parameters gets: each one the
/// canonical derivation from its seeds.
pub open spec fn opening_derivation(
    program_id: Seq<u8>,
    mint: Seq<u8>,
    redeemer: Seq<u8>,
    refundee: Seq<u8>,
    secret_hash: Seq<u8>,
    swap_amount: u64,
    timelock: u64,
) -> (Option<(Seq<u8>, u8)>, Option<(Seq<u8>, u8)>, Option<(Seq<u8>, u8)>) {
    (
        canonical_address_of(identity_seeds(), program_id),
        canonical_address_of(record_seeds(mint, redeemer, refundee, secret_hash, swap_amount, timelock), program_id),
        canonical_address_of(vault_seeds(mint), program_id),
    )
}

/// The abstract value of a derivation.
pub open spec fn derivation_view(d: Derivation) -> (Option<(Seq<u8>, u8)>, Option<(Seq<u8>, u8)>, Option<(Seq<u8>, u8)>) {
    (derived_view(d.identity), derived_view(d.record), derived_view(d.vault))
}

/// Derives the signing authority, the record and the vault of a new swap.
pub fn derive_opening(
    program_id: &Address,
    mint: &Address,
    redeemer: &Address,
    refundee: &Address,
    secret_hash: &[u8; 32],
    swap_amount: u64,
    timelock: u64,
) -> (r: Derivation)
    ensures
        derivation_view(r) == opening_derivation(program_id@, mint@, redeemer@, refundee@, secret_hash@, swap_amount, timelock),
        r.identity matches Some(x) ==> program_address_of(with_bump(identity_seeds(), x.bump), program_id@) == Some(x.address@),
        r.record matches Some(x) ==> program_address_of(
            with_bump(record_seeds(mint@, redeemer@, refundee@, secret_hash@, swap_amount, timelock), x.bump),
            program_id@,
        ) == Some(x.address@),
{
    let identity = find_address(&identity_seed_list(), program_id);
    let record = find_address(&record_seed_list(mint, redeemer, refundee, secret_hash, swap_amount, timelock), program_id);
    let vault = find_address(&vault_seed_list(mint), program_id);
    Derivation { identity, record, vault }
}

/// The addresses that an existing swap's accounts must carry: the authority
/// and the record from their stored bumps, the vault canonically.
pub open spec fn settling_derivation(
    program_id: Seq<u8>,
    identity_bump: u8,
    record_bump: u8,
    mint: Seq<u8>,
    redeemer: Seq<u8>,
    refundee: Seq<u8>,
    secret_hash: Seq<u8>,
    swap_amount: u64,
    timelock: u64,
) -> (Option<(Seq<u8>, u8)>, Option<(Seq<u8>, u8)>, Option<(Seq<u8>, u8)>) {
    (
        bumped_address_of(identity_seeds(), identity_bump, program_id),
        bumped_address_of(record_seeds(mint, redeemer, refundee, secret_hash, swap_amount, timelock), record_bump, program_id),
        canonical_address_of(vault_seeds(mint), program_id),
    )
}

/// Recomputes the addresses of an existing swap from its stored fields.
pub fn derive_settling(
    program_id: &Address,
    identity_bump: u8,
    record_bump: u8,
    mint: &Address,
    redeemer: &Address,
    refundee: &Address,
    secret_hash: &[u8; 32],
    swap_amount: u64,
    timelock: u64,
) -> (r: Derivation)
    ensures
        derivation_view(r) == settling_derivation(
            program_id@, identity_bump, record_bump, mint@, redeemer@, refundee@, secret_hash@, swap_amount, timelock,
        ),
{
    let identity = check_address(identity_seed_list(), identity_bump, program_id);
    let record = check_address(
        record_seed_list(mint, redeemer, refundee, secret_hash, swap_amount, timelock),
        record_bump,
        program_id,
    );
    let vault = find_address(&vault_seed_list(mint), program_id);
    Derivation { identity, record, vault }
}

/// The SHA-256 digest of a secret.
pub fn hash_secret(secret: &[u8; 32]) -> (r: [u8; 32])
    ensures
        r@ == sha256_of(secret@),
{
    sha256(secret)
}

} // verus!
